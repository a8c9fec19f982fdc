//! The event queue of a surface: events are appended as the window system delivers them and
//! drained by the application, first in, first out.
use vstd::prelude::*;

verus! {

/// A first-in, first-out queue of events that is emptied by draining it.
#[derive(Debug)]
pub struct EventQueue<E> {
    pending: Vec<E>,
}

impl<E> View for EventQueue<E> {
    type V = Seq<E>;

    /// The events not drained yet, oldest first.
    closed spec fn view(&self) -> Seq<E> {
        self.pending@
    }
}

impl<E> EventQueue<E> {
    /// An empty queue.
    pub fn new() -> (r: EventQueue<E>)
        ensures
            r@ == Seq::<E>::empty(),
    {
        EventQueue { pending: Vec::new() }
    }

    /// Number of events not drained yet.
    pub fn len(&self) -> (r: usize)
        ensures
            r == self@.len(),
    {
        self.pending.len()
    }

    /// Whether every event has been drained.
    pub fn is_empty(&self) -> (r: bool)
        ensures
            r == (self@.len() == 0),
    {
        self.pending.len() == 0
    }

    /// Append an event that has just occurred.
    pub fn push(&mut self, event: E)
        ensures
            final(self)@ == after_push(old(self)@, event),
    {
        self.pending.push(event);
    }

    /// Take every pending event, oldest first, leaving the queue empty.
    pub fn drain(&mut self) -> (r: Vec<E>)
        ensures
            (r@, final(self)@) == drain_outcome(old(self)@),
    {
        let mut taken: Vec<E> = Vec::new();
        std::mem::swap(&mut taken, &mut self.pending);
        taken
    }
}

/// The pending events after `event` is pushed onto `pending`.
pub open spec fn after_push<E>(pending: Seq<E>, event: E) -> Seq<E> {
    pending.push(event)
}

/// What a drain of `pending` yields, and what is left pending after it.
pub open spec fn drain_outcome<E>(pending: Seq<E>) -> (Seq<E>, Seq<E>) {
    (pending, Seq::<E>::empty())
}

/// Draining keeps the order in which events occurred, and what one drain took never comes back:
/// on a queue holding `pending`, push `e1` then `e2` and drain; the drain yields the older events,
/// then `e1`, then `e2`. Push `later` and drain again: that drain yields `later` and nothing
/// else.
pub proof fn lemma_drain_in_order<E>(pending: Seq<E>, e1: E, e2: E, later: Seq<E>)
    ensures
        ({
            let (first, left) = drain_outcome(after_push(after_push(pending, e1), e2));
            &&& first.len() == pending.len() + 2
            &&& first.subrange(0, pending.len() as int) == pending
            &&& first[pending.len() as int] == e1
            &&& first[pending.len() + 1int] == e2
            &&& drain_outcome(left + later).0 == later
        }),
{
    let first = pending.push(e1).push(e2);
    assert(first.subrange(0, pending.len() as int) =~= pending);
    assert(Seq::<E>::empty() + later =~= later);
}

} // verus!
