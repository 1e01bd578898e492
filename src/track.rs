use vstd::prelude::*;
use crate::history::History;
use crate::location::Location;

verus! {

/// A value that may keep a history of the places it passed through.
///
/// A type that keeps none reports `None` from `trail` and is left alone by `record`.
pub trait Trackable: Sized {
    type Event;

    /// The events recorded so far, or `None` when this value keeps no history.
    spec fn trail(&self) -> Option<Seq<Self::Event>>;

    /// Whether `after` agrees with this value in everything but the history.
    spec fn keeps_rest(self, after: Self) -> bool;

    fn history(&self) -> (r: Option<&History<Self::Event>>)
        ensures
            match r {
                Some(h) => self.trail() == Some(h@),
                None => self.trail() is None,
            },
    ;

    /// Appends `event` to the history, if there is one.
    fn record(&mut self, event: Self::Event)
        ensures
            old(self).keeps_rest(*final(self)),
            match old(self).trail() {
                Some(h) => final(self).trail() == Some(h.push(event)),
                None => *final(self) == *old(self),
            },
    ;
}

/// A result keeps the history of its error; a success keeps none.
impl<V, E: Trackable> Trackable for Result<V, E> {
    type Event = E::Event;

    open spec fn keeps_rest(self, after: Self) -> bool {
        match self {
            Ok(v) => after == Ok::<V, E>(v),
            Err(e) => after matches Err(e2) && e.keeps_rest(e2),
        }
    }

    open spec fn trail(&self) -> Option<Seq<E::Event>> {
        match self {
            Ok(_) => None,
            Err(e) => e.trail(),
        }
    }

    fn history(&self) -> (r: Option<&History<E::Event>>) {
        match self {
            Ok(_) => None,
            Err(e) => e.history(),
        }
    }

    fn record(&mut self, event: E::Event) {
        match self {
            Ok(_) => {},
            Err(e) => e.record(event),
        }
    }
}

/// An option keeps the history of what it holds; `None` keeps none.
impl<T: Trackable> Trackable for Option<T> {
    type Event = T::Event;

    open spec fn keeps_rest(self, after: Self) -> bool {
        match self {
            Some(t) => after matches Some(t2) && t.keeps_rest(t2),
            None => after is None,
        }
    }

    open spec fn trail(&self) -> Option<Seq<T::Event>> {
        match self {
            Some(t) => t.trail(),
            None => None,
        }
    }

    fn history(&self) -> (r: Option<&History<T::Event>>) {
        match self {
            Some(t) => t.history(),
            None => None,
        }
    }

    fn record(&mut self, event: T::Event) {
        match self {
            Some(t) => t.record(event),
            None => {},
        }
    }
}

/// What tracking does to a value: one more event at the end of its trail, or nothing at all when
/// the value keeps no history; all else stays.
pub open spec fn tracked_trail<T: Trackable>(before: T, after: T, event: T::Event) -> bool {
    before.keeps_rest(after) && match before.trail() {
        Some(h) => after.trail() == Some(h.push(event)),
        None => after == before,
    }
}

/// Records that `value` passed through `location`, and hands it back.
pub fn track<T: Trackable<Event = Location>>(value: T, location: Location) -> (r: T)
    ensures
        tracked_trail(value, r, location),
{
    let mut value = value;
    value.record(location);
    value
}

/// Tracks the error of a result; a success passes through untouched.
pub fn track_result<V, T: Trackable<Event = Location>>(result: Result<V, T>, location: Location) -> (r:
    Result<V, T>)
    ensures
        match result {
            Ok(v) => r == Ok::<V, T>(v),
            Err(e) => r matches Err(e2) && tracked_trail(e, e2, location),
        },
{
    match result {
        Ok(v) => Ok(v),
        Err(e) => Err(track(e, location)),
    }
}

/// Tracking `n` times, one event per call, lengthens the trail by `n` and leaves the events in
/// the order of the calls, after those that were there before.
pub proof fn lemma_tracking_appends_in_order<T: Trackable>(
    values: Seq<T>,
    events: Seq<T::Event>,
    before: Seq<T::Event>,
)
    requires
        values.len() == events.len() + 1,
        values[0].trail() == Some(before),
        forall|i: int|
            0 <= i < events.len() ==> tracked_trail(#[trigger] values[i], values[i + 1], events[i]),
    ensures
        values.last().trail() == Some(before + events),
        before.len() + events.len() == (before + events).len(),
    decreases events.len(),
{
    if events.len() == 0 {
        assert(before + events =~= before);
    } else {
        let n = events.len() - 1;
        lemma_tracking_appends_in_order::<T>(values.drop_last(), events.drop_last(), before);
        assert(values.drop_last().last() == values[n]);
        assert(tracked_trail(values[n], values[n + 1], events[n]));
        assert(before + events =~= (before + events.drop_last()).push(events[n]));
    }
}

/// Tracking a value that keeps no history (its `trail` is `None`) is a no-op: `track` has no
/// precondition, so it always returns, and what it returns, as its `ensures` states through
/// `tracked_trail`, is the value exactly as it went in.
pub proof fn lemma_untracked_is_unchanged<T: Trackable<Event = Location>>(
    before: T,
    after: T,
    location: Location,
)
    requires
        before.trail() is None,
        tracked_trail(before, after, location),
    ensures
        after == before,
{
}

} // verus!
