use vstd::prelude::*;
use std::fmt::Write;
use vstd::string::*;
use crate::cause::{Cause, IntoCause};
use crate::history::{History, history_text, entries_text, entry_text};
use crate::location::Location;
use crate::track::{Trackable, tracked_trail};

verus! {

/// Relies on the `Debug` impl of `value`, written with `write!` into a `String`: `None` where
/// that impl reports an error, and no panic in that case.
#[verifier::external_body]
fn debug_text<T: std::fmt::Debug>(value: &T) -> (r: Option<String>) {
    let mut out = String::new();
    match write!(out, "{:?}", value) {
        Ok(()) => Some(out),
        Err(_) => None,
    }
}

/// A classification that a `TrackableError` can carry.
pub trait ErrorKind: std::fmt::Debug + Sized {
    /// Whether this kind describes itself with the default phrase, `"An error"`; a kind that
    /// gives its own description says `false` here.
    open spec fn keeps_default_description(&self) -> bool {
        true
    }

    /// A short description of the kind; by default `"An error"`.
    fn description(&self) -> (r: String)
        ensures
            self.keeps_default_description() ==> r@ == "An error"@,
    {
        proof {
            reveal_strlit("An error");
        }
        String::from_str("An error")
    }

    /// The kind as it reads at the head of a report; by default its debug form. `None` where
    /// the kind cannot be written.
    fn render(&self) -> (r: Option<String>) {
        debug_text(self)
    }
}

/// The built-in kind of an opaque failure.
#[derive(Debug, Default, Clone, Copy, PartialEq, Eq, PartialOrd, Ord, Hash)]
pub struct Failed;

impl ErrorKind for Failed {
    open spec fn keeps_default_description(&self) -> bool {
        false
    }

    fn description(&self) -> (r: String)
        ensures
            r@ == "Failed"@,
    {
        String::from_str("Failed")
    }

    fn render(&self) -> (r: Option<String>)
        ensures
            r matches Some(t) && t@ == "Failed"@,
    {
        Some(String::from_str("Failed"))
    }
}

/// Plain text as a kind: the text is its description and its rendering.
impl ErrorKind for String {
    open spec fn keeps_default_description(&self) -> bool {
        false
    }

    fn description(&self) -> (r: String)
        ensures
            r@ == self@,
    {
        self.clone()
    }

    fn render(&self) -> (r: Option<String>)
        ensures
            r matches Some(t) && t@ == self@,
    {
        Some(self.clone())
    }
}

/// A report: the kind's text, the cause's text in parentheses if there is a cause, a line
/// break, and the trace.
pub open spec fn report_text(
    kind: Seq<char>,
    cause: Option<Seq<char>>,
    events: Seq<Location>,
) -> Seq<char> {
    let head = match cause {
        Some(c) => kind + " (cause; "@ + c + ")"@,
        None => kind,
    };
    head + "\n"@ + history_text(events)
}

/// Lays out a report from the kind's text, the cause's text and the history.
pub fn compose_report(kind: &str, cause: Option<&str>, history: &History<Location>) -> (r: String)
    ensures
        r@ == report_text(kind@, crate::location::opt_str_text(cause), history@),
{
    proof {
        reveal_strlit(" (cause; ");
        reveal_strlit(")");
        reveal_strlit("\n");
    }
    let mut out = String::from_str(kind);
    match cause {
        Some(c) => {
            out.append(" (cause; ");
            out.append(c);
            out.append(")");
        },
        None => {},
    }
    out.append("\n");
    let trace = history.render();
    out.append(trace.as_str());
    out
}

/// An error with a kind, an optional cause, and the history of where it passed.
pub struct TrackableError<K> {
    kind: K,
    cause: Option<Cause>,
    history: History<Location>,
}

impl<K> TrackableError<K> {
    pub closed spec fn kind_spec(&self) -> K {
        self.kind
    }

    pub closed spec fn cause_spec(&self) -> Option<Cause> {
        self.cause
    }

    pub closed spec fn history_spec(&self) -> Seq<Location> {
        self.history@
    }
}

impl<K: ErrorKind> TrackableError<K> {
    /// Makes an error of `kind` caused by `cause`, with an empty history.
    pub fn new<E: IntoCause>(kind: K, cause: E) -> (r: Self)
        ensures
            r.kind_spec() == kind,
            r.cause_spec() matches Some(c) && cause.becomes(c),
            r.history_spec() == Seq::<Location>::empty(),
    {
        TrackableError { kind, cause: Some(cause.into_cause()), history: History::new() }
    }

    /// Makes an error of `kind` with no cause and an empty history.
    pub fn from_kind(kind: K) -> (r: Self)
        ensures
            r.kind_spec() == kind,
            r.cause_spec() is None,
            r.history_spec() == Seq::<Location>::empty(),
    {
        TrackableError { kind, cause: None, history: History::new() }
    }

    pub fn kind(&self) -> (r: &K)
        ensures
            *r == self.kind_spec(),
    {
        &self.kind
    }

    /// The cause, if there is one.
    pub fn cause(&self) -> (r: Option<&Cause>)
        ensures
            match r {
                Some(c) => self.cause_spec() == Some(*c),
                None => self.cause_spec() is None,
            },
    {
        match &self.cause {
            Some(c) => Some(c),
            None => None,
        }
    }

    /// The cause as a `T`, when there is a cause and `T` is exactly its concrete type.
    pub fn concrete_cause<T: std::error::Error + 'static>(&self) -> (r: Option<&T>)
        ensures
            self.cause_spec() is None ==> r is None,
    {
        match &self.cause {
            Some(c) => c.downcast_ref::<T>(),
            None => None,
        }
    }

    /// The kind's description.
    pub fn description(&self) -> (r: String)
        ensures
            call_ensures(K::description, (&self.kind_spec(),), r),
    {
        self.kind.description()
    }

    /// Whether `text` is this error's report: the kind as `K::render` gives it, the cause's text
    /// where there is a cause (the very text, for a cause made from text), and the trace.
    pub open spec fn renders_as(&self, text: Seq<char>) -> bool {
        exists|k: String, c: Option<Seq<char>>|
            #[trigger] call_ensures(K::render, (&self.kind_spec(),), Some(k)) && text
                == #[trigger] report_text(k@, c, self.history_spec()) && match self.cause_spec() {
                None => c is None,
                Some(cause) => c matches Some(t) && (cause.known_text() matches Some(u) ==> t == u),
            }
    }

    /// Whether a report of this error can fail: the kind's rendering may fail, or there is a
    /// cause not made from text, whose own text may fail.
    pub open spec fn report_may_fail(&self) -> bool {
        (exists|k: Option<String>|
            #[trigger] call_ensures(K::render, (&self.kind_spec(),), k) && k is None) || (
        self.cause_spec() matches Some(c) && c.known_text() is None)
    }

    /// The whole report: kind, cause if any, and the trace; `None` where the kind or the cause
    /// could not be written.
    pub fn render(&self) -> (r: Option<String>)
        ensures
            match r {
                Some(text) => self.renders_as(text@),
                None => self.report_may_fail(),
            },
    {
        let rendered = self.kind.render();
        assert(call_ensures(K::render, (&self.kind_spec(),), rendered));
        let kind = match rendered {
            Some(k) => k,
            None => {
                return None;
            },
        };
        match &self.cause {
            Some(c) => {
                let text = match c.text() {
                    Some(t) => t,
                    None => {
                        return None;
                    },
                };
                let r = compose_report(kind.as_str(), Some(text.as_str()), &self.history);
                assert(r@ == report_text(kind@, Some(text@), self.history_spec()));
                Some(r)
            },
            None => {
                let r = compose_report(kind.as_str(), None, &self.history);
                assert(r@ == report_text(kind@, None, self.history_spec()));
                Some(r)
            },
        }
    }
}

/// A bare kind converts into an error of that kind, with no cause and an empty history.
impl<K: ErrorKind> From<K> for TrackableError<K> {
    fn from(kind: K) -> (r: Self)
        ensures
            r.kind_spec() == kind,
            r.cause_spec() is None,
            r.history_spec() == Seq::<Location>::empty(),
    {
        Self::from_kind(kind)
    }
}

impl<K: ErrorKind> vstd::std_specs::convert::FromSpecImpl<K> for TrackableError<K> {
    /// The result is stated by `from` itself: its history has no single spec value to name.
    open spec fn obeys_from_spec() -> bool {
        false
    }

    closed spec fn from_spec(kind: K) -> Self {
        choose|e: Self| e.kind == kind && e.cause is None && e.history@ == Seq::<Location>::empty()
    }
}

impl<K: ErrorKind + Default> Default for TrackableError<K> {
    /// An error of the default kind, with no cause and an empty history.
    fn default() -> (r: Self)
        ensures
            call_ensures(K::default, (), r.kind_spec()),
            r.cause_spec() is None,
            r.history_spec() == Seq::<Location>::empty(),
    {
        Self::from_kind(K::default())
    }
}

impl<K: Clone> Clone for TrackableError<K> {
    /// Copies the kind and the history; the cause is shared.
    fn clone(&self) -> (r: Self)
        ensures
            cloned::<K>(self.kind_spec(), r.kind_spec()),
            r.cause_spec() == self.cause_spec(),
            r.history_spec() == self.history_spec(),
    {
        let cause = match &self.cause {
            Some(c) => Some(c.clone()),
            None => None,
        };
        let history = self.history.clone();
        assert(history@ =~= self.history@);
        TrackableError { kind: self.kind.clone(), cause, history }
    }
}

impl<K> Trackable for TrackableError<K> {
    type Event = Location;

    open spec fn keeps_rest(self, after: Self) -> bool {
        after.kind_spec() == self.kind_spec() && after.cause_spec() == self.cause_spec()
    }

    open spec fn trail(&self) -> Option<Seq<Location>> {
        Some(self.history_spec())
    }

    fn history(&self) -> (r: Option<&History<Location>>) {
        Some(&self.history)
    }

    fn record(&mut self, event: Location) {
        self.history.push(event);
    }
}

/// A report of an error with a cause made from text and two entries reads: the kind's text and
/// the cause's text in parentheses, a line break, the header, then the entries numbered 0 and 1
/// in the order they were tracked, each with its note only where it has one.
pub proof fn lemma_two_entry_report<K: ErrorKind>(
    e: TrackableError<K>,
    text: Seq<char>,
    kind_text: Seq<char>,
    cause_text: Seq<char>,
)
    requires
        e.renders_as(text),
        forall|k: String|
            #[trigger] call_ensures(K::render, (&e.kind_spec(),), Some(k)) ==> k@ == kind_text,
        e.cause_spec() matches Some(c) && c.known_text() == Some(cause_text),
        e.history_spec().len() == 2,
    ensures
        text == kind_text + " (cause; "@ + cause_text + ")"@ + "\n"@ + "HISTORY:\n"@ + entry_text(
            0,
            e.history_spec()[0],
        ) + entry_text(1, e.history_spec()[1]),
{
    let h = e.history_spec();
    let (k, c) = choose|k: String, c: Option<Seq<char>>|
        #[trigger] call_ensures(K::render, (&e.kind_spec(),), Some(k)) && text == #[trigger] report_text(
            k@,
            c,
            h,
        ) && match e.cause_spec() {
            None => c is None,
            Some(cause) => c matches Some(t) && (cause.known_text() matches Some(u) ==> t == u),
        };
    assert(k@ == kind_text);
    assert(c == Some(cause_text));
    assert(h.drop_last().drop_last() =~= Seq::<Location>::empty());
    assert(h.drop_last().last() == h[0]);
    assert(entries_text(h) == entries_text(h.drop_last()) + entry_text(1, h[1]));
    assert(entries_text(h.drop_last()) == entries_text(h.drop_last().drop_last()) + entry_text(0, h[0]));
    assert(entries_text(h) =~= entry_text(0, h[0]) + entry_text(1, h[1]));
    assert(text =~= kind_text + " (cause; "@ + cause_text + ")"@ + "\n"@ + "HISTORY:\n"@ + entry_text(0, h[0]) + entry_text(1, h[1]));
}

/// After a fork, tracking the clone adds to the clone alone: the error it came from keeps its
/// history, and the clone's history is that one, entry for entry, with the new event after it.
pub proof fn lemma_fork_diverges<K>(
    parent: TrackableError<K>,
    fork: TrackableError<K>,
    moved_on: TrackableError<K>,
    location: Location,
)
    requires
        fork.history_spec() == parent.history_spec(),
        fork.cause_spec() == parent.cause_spec(),
        tracked_trail(fork, moved_on, location),
    ensures
        moved_on.history_spec().len() == parent.history_spec().len() + 1,
        forall|i: int|
            0 <= i < parent.history_spec().len() ==> moved_on.history_spec()[i]
                == #[trigger] parent.history_spec()[i],
        moved_on.history_spec().last() == location,
{
}

/// The opaque failure error, carrying the `Failed` kind.
pub struct Failure(TrackableError<Failed>);

impl Failure {
    pub closed spec fn inner_spec(&self) -> TrackableError<Failed> {
        self.0
    }

    /// A failure caused by `error`.
    pub fn from_error<E: IntoCause>(error: E) -> (r: Failure)
        ensures
            r.inner_spec().kind_spec() == Failed,
            r.inner_spec().cause_spec() matches Some(c) && error.becomes(c),
            r.inner_spec().history_spec() == Seq::<Location>::empty(),
    {
        Failure(Failed.cause(error))
    }

    pub fn inner(&self) -> (r: &TrackableError<Failed>)
        ensures
            *r == self.inner_spec(),
    {
        &self.0
    }

    pub fn into_inner(self) -> (r: TrackableError<Failed>)
        ensures
            r == self.inner_spec(),
    {
        self.0
    }

    pub fn kind(&self) -> (r: &Failed)
        ensures
            *r == self.inner_spec().kind_spec(),
    {
        self.0.kind()
    }

    pub fn concrete_cause<T: std::error::Error + 'static>(&self) -> (r: Option<&T>)
        ensures
            self.inner_spec().cause_spec() is None ==> r is None,
    {
        self.0.concrete_cause::<T>()
    }

    /// The whole report, as for the error inside.
    pub fn render(&self) -> (r: Option<String>)
        ensures
            match r {
                Some(text) => self.inner_spec().renders_as(text@),
                None => self.inner_spec().report_may_fail(),
            },
    {
        self.0.render()
    }
}

impl From<TrackableError<Failed>> for Failure {
    fn from(e: TrackableError<Failed>) -> (r: Failure) {
        Failure(e)
    }
}

impl vstd::std_specs::convert::FromSpecImpl<TrackableError<Failed>> for Failure {
    open spec fn obeys_from_spec() -> bool {
        true
    }

    closed spec fn from_spec(e: TrackableError<Failed>) -> Failure {
        Failure(e)
    }
}

impl Clone for Failure {
    fn clone(&self) -> (r: Self)
        ensures
            r.inner_spec().cause_spec() == self.inner_spec().cause_spec(),
            r.inner_spec().history_spec() == self.inner_spec().history_spec(),
    {
        Failure(self.0.clone())
    }
}

impl Trackable for Failure {
    type Event = Location;

    open spec fn keeps_rest(self, after: Self) -> bool {
        self.inner_spec().keeps_rest(after.inner_spec())
    }

    open spec fn trail(&self) -> Option<Seq<Location>> {
        self.inner_spec().trail()
    }

    fn history(&self) -> (r: Option<&History<Location>>) {
        self.0.history()
    }

    fn record(&mut self, event: Location) {
        self.0.record(event);
    }
}

/// Ways to raise an error from a kind.
pub trait ErrorKindExt: ErrorKind {
    /// An error of this kind with no cause.
    fn error(self) -> (r: TrackableError<Self>)
        ensures
            r.kind_spec() == self,
            r.cause_spec() is None,
            r.history_spec() == Seq::<Location>::empty(),
    {
        TrackableError::from_kind(self)
    }

    /// An error of this kind caused by `cause`.
    fn cause<E: IntoCause>(self, cause: E) -> (r: TrackableError<Self>)
        ensures
            r.kind_spec() == self,
            r.cause_spec() matches Some(c) && cause.becomes(c),
            r.history_spec() == Seq::<Location>::empty(),
    {
        TrackableError::new(self, cause)
    }

    /// An error of this kind that takes over the cause and history of `from`; the kind of
    /// `from` is dropped.
    fn takes_over<K: ErrorKind>(self, from: TrackableError<K>) -> (r: TrackableError<Self>)
        ensures
            r.kind_spec() == self,
            r.cause_spec() == from.cause_spec(),
            r.history_spec() == from.history_spec(),
    {
        TrackableError { kind: self, cause: from.cause, history: from.history }
    }
}

impl<T: ErrorKind> ErrorKindExt for T {}

} // verus!
