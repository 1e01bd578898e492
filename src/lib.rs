//! Errors that carry a kind, an optional cause of any concrete type, and the history of the
//! places they passed through on their way up.
pub mod location;
pub mod history;
pub mod cause;
pub mod track;
pub mod error;

pub use cause::{Cause, IntoCause};
pub use history::History;
pub use location::Location;
pub use track::{Trackable, track, track_result};
