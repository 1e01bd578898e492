use vstd::prelude::*;
use vstd::string::*;
use crate::location::{Location, decimal, decimal_string};

verus! {

/// An ordered, append-only record of the events that an error went through.
pub struct History<E> {
    events: Vec<E>,
}

impl<E> View for History<E> {
    type V = Seq<E>;

    closed spec fn view(&self) -> Seq<E> {
        self.events@
    }
}

impl<E> History<E> {
    /// Makes an empty history.
    pub fn new() -> (r: History<E>)
        ensures
            r@ == Seq::<E>::empty(),
    {
        History { events: Vec::new() }
    }

    /// Appends `event` as the newest entry.
    pub fn push(&mut self, event: E)
        ensures
            final(self)@ == old(self)@.push(event),
    {
        self.events.push(event);
    }

    /// The events, oldest first.
    pub fn events(&self) -> (r: &[E])
        ensures
            r@ == self@,
    {
        self.events.as_slice()
    }

    pub fn len(&self) -> (r: usize)
        ensures
            r == self@.len(),
    {
        self.events.len()
    }

    pub fn is_empty(&self) -> (r: bool)
        ensures
            r == (self@.len() == 0),
    {
        self.events.len() == 0
    }
}

impl<E: Clone> Clone for History<E> {
    fn clone(&self) -> (r: Self)
        ensures
            r@.len() == self@.len(),
            forall|i: int| 0 <= i < self@.len() ==> cloned::<E>(#[trigger] self@[i], r@[i]),
    {
        History { events: self.events.clone() }
    }
}

/// One line of a trace: the zero-based index in brackets, then the location.
pub open spec fn entry_text(index: nat, l: Location) -> Seq<char> {
    "  ["@ + decimal(index) + "] "@ + l.text() + "\n"@
}

/// The lines of all entries, in order.
pub open spec fn entries_text(events: Seq<Location>) -> Seq<char>
    decreases events.len(),
{
    if events.len() == 0 {
        Seq::empty()
    } else {
        entries_text(events.drop_last()) + entry_text(
            (events.len() - 1) as nat,
            events.last(),
        )
    }
}

/// A whole trace: a header line, then one line per entry.
pub open spec fn history_text(events: Seq<Location>) -> Seq<char> {
    "HISTORY:\n"@ + entries_text(events)
}

impl History<Location> {
    /// The trace as text.
    pub fn render(&self) -> (r: String)
        ensures
            r@ == history_text(self@),
    {
        proof {
            reveal_strlit("HISTORY:\n");
            reveal_strlit("  [");
            reveal_strlit("] ");
            reveal_strlit("\n");
        }
        let mut out = String::from_str("HISTORY:\n");
        let mut i: usize = 0;
        while i < self.events.len()
            invariant
                i <= self@.len(),
                out@ == "HISTORY:\n"@ + entries_text(self@.take(i as int)),
            decreases self@.len() - i,
        {
            let ghost before = out@;
            out.append("  [");
            let index = decimal_string(i);
            out.append(index.as_str());
            out.append("] ");
            let line = self.events[i].render();
            out.append(line.as_str());
            out.append("\n");
            proof {
                let t = self@.take(i + 1);
                assert(t.drop_last() =~= self@.take(i as int));
                assert(t.last() == self@[i as int]);
                assert(out@ =~= before + entry_text(i as nat, self@[i as int]));
            }
            i = i + 1;
        }
        assert(self@.take(i as int) =~= self@);
        out
    }
}

} // verus!
