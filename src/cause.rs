use vstd::prelude::*;
use vstd::string::*;
use std::fmt::Write;
use std::sync::Arc;

verus! {

/// An error value whose concrete type has been erased.
///
/// Verus does not take trait objects over `std::error::Error`, so the boxed value is kept out of
/// its sight; it is only ever reached through the functions below.
#[verifier::external_body]
pub(crate) struct Erased {
    inner: Box<dyn std::error::Error + Send + Sync>,
}

/// Relies on `Box::new` and std's unsizing of `Box<E>` to `Box<dyn Error + Send + Sync>`: the
/// value is boxed as it is, keeping its concrete type.
#[verifier::external_body]
fn erase<E: std::error::Error + Send + Sync + 'static>(error: E) -> (r: Erased) {
    Erased { inner: Box::new(error) }
}

/// Relies on std's `From<&str> for Box<dyn Error + Send + Sync>`: the text becomes an error
/// that displays as that text.
#[verifier::external_body]
fn erase_text(text: &str) -> (r: Erased) {
    Erased { inner: Box::<dyn std::error::Error + Send + Sync>::from(text) }
}

/// Relies on `<dyn Error>::downcast_ref`: a reference to the value if its concrete type is
/// exactly `T`, else `None`; it never fails otherwise.
#[verifier::external_body]
fn downcast<T: std::error::Error + 'static>(e: &Erased) -> (r: Option<&T>) {
    e.inner.downcast_ref::<T>()
}

/// Relies on the `Display` impl of the erased value, written with `write!` into a `String`:
/// `None` where that impl reports an error, and no panic in that case.
#[verifier::external_body]
fn erased_text(e: &Erased) -> (r: Option<String>) {
    let mut out = String::new();
    match write!(out, "{}", e.inner) {
        Ok(()) => Some(out),
        Err(_) => None,
    }
}

/// Relies on `Arc::clone`: the new handle points at the same value.
#[verifier::external_body]
fn share(a: &Arc<Erased>) -> (r: Arc<Erased>)
    ensures
        r == *a,
{
    a.clone()
}

/// The underlying error of a tracked error, shared between the clones of its owner.
///
/// A cause made from plain text also keeps that text, which is what it displays as.
pub struct Cause {
    inner: Arc<Erased>,
    label: Option<String>,
}

impl Cause {
    /// The text this cause displays as, where it was made from plain text.
    pub closed spec fn known_text(&self) -> Option<Seq<char>> {
        match self.label {
            Some(t) => Some(t@),
            None => None,
        }
    }

    /// Wraps an error value of any concrete type.
    pub fn new<E: std::error::Error + Send + Sync + 'static>(error: E) -> (r: Cause)
        ensures
            r.known_text() is None,
    {
        Cause { inner: Arc::new(erase(error)), label: None }
    }

    /// Wraps a plain text as an error.
    pub fn from_text(text: &str) -> (r: Cause)
        ensures
            r.known_text() == Some(text@),
    {
        Cause { inner: Arc::new(erase_text(text)), label: Some(String::from_str(text)) }
    }

    /// The wrapped value as a `T`, if `T` is its concrete type.
    pub fn downcast_ref<T: std::error::Error + 'static>(&self) -> (r: Option<&T>) {
        downcast::<T>(&*self.inner)
    }

    /// The wrapped value's display text; `None` where the value cannot be written.
    pub fn text(&self) -> (r: Option<String>)
        ensures
            self.known_text() matches Some(t) ==> r matches Some(s) && s@ == t,
    {
        match &self.label {
            Some(t) => Some(t.clone()),
            None => erased_text(&*self.inner),
        }
    }
}

impl Clone for Cause {
    /// Shares the wrapped value; nothing is copied.
    fn clone(&self) -> (r: Self)
        ensures
            r == *self,
    {
        let label = match &self.label {
            Some(t) => Some(t.clone()),
            None => None,
        };
        Cause { inner: share(&self.inner), label }
    }
}

/// A value that can become the cause of a tracked error.
pub trait IntoCause: Sized {
    /// Whether `c` is a cause that this value may become.
    spec fn becomes(self, c: Cause) -> bool;

    fn into_cause(self) -> (r: Cause)
        ensures
            self.becomes(r),
    ;
}

/// A cause stays itself.
impl IntoCause for Cause {
    open spec fn becomes(self, c: Cause) -> bool {
        c == self
    }

    fn into_cause(self) -> (r: Cause) {
        self
    }
}

/// A text becomes a cause that displays as that text.
impl<'a> IntoCause for &'a str {
    open spec fn becomes(self, c: Cause) -> bool {
        c.known_text() == Some(self@)
    }

    fn into_cause(self) -> (r: Cause) {
        Cause::from_text(self)
    }
}

/// A text becomes a cause that displays as that text.
impl IntoCause for String {
    open spec fn becomes(self, c: Cause) -> bool {
        c.known_text() == Some(self@)
    }

    fn into_cause(self) -> (r: Cause) {
        Cause::from_text(self.as_str())
    }
}

} // verus!
