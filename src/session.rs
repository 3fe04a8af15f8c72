//! The slot that holds the single live session.
use vstd::prelude::*;

verus! {

/// Slot contents and the session released, after `s` replaces what `slot` held.
pub open spec fn replaced<S>(slot: Option<S>, s: S) -> (Option<S>, Option<S>) {
    (Some(s), slot)
}

/// Slot contents and the session released, after the slot is emptied.
pub open spec fn emptied<S>(slot: Option<S>) -> (Option<S>, Option<S>) {
    (None, slot)
}

/// Holds at most one live session. Installing a session hands back the one
/// it replaces, so that the caller releases it.
pub struct SessionSlot<S> {
    current: Option<S>,
}

impl<S> View for SessionSlot<S> {
    type V = Option<S>;

    closed spec fn view(&self) -> Option<S> {
        self.current
    }
}

impl<S> SessionSlot<S> {
    /// An empty slot.
    pub fn new() -> (r: Self)
        ensures
            r@ is None,
    {
        SessionSlot { current: None }
    }

    /// Whether a session is live.
    pub fn is_active(&self) -> (r: bool)
        ensures
            r == self@ is Some,
    {
        self.current.is_some()
    }

    /// The live session, if any.
    pub fn current(&self) -> (r: Option<&S>)
        ensures
            r is None <==> self@ is None,
            r matches Some(s) ==> self@ == Some(*s),
    {
        match &self.current {
            Some(s) => Some(s),
            None => None,
        }
    }

    /// Makes `s` the live session and hands back the one it replaces.
    pub fn replace(&mut self, s: S) -> (prev: Option<S>)
        ensures
            (final(self)@, prev) == replaced(old(self)@, s),
    {
        let prev = self.current.take();
        self.current = Some(s);
        prev
    }

    /// Empties the slot and hands back the session it held. On an empty
    /// slot nothing changes.
    pub fn close(&mut self) -> (prev: Option<S>)
        ensures
            (final(self)@, prev) == emptied(old(self)@),
    {
        self.current.take()
    }
}

/// Whatever the slot held, installing one session and then another leaves
/// exactly the second one live, and hands back the first for release.
pub proof fn lemma_one_live_session<S>(slot: Option<S>, first: S, second: S)
    ensures
        replaced(replaced(slot, first).0, second) == (Some(second), Some(first)),
        replaced(slot, first).1 == slot,
{
}

/// Closing an empty slot changes nothing and releases nothing, so closing
/// twice is the same as closing once.
pub proof fn lemma_close_is_idempotent<S>(slot: Option<S>)
    ensures
        emptied::<S>(None) == (None::<S>, None::<S>),
        emptied(emptied(slot).0).0 == emptied(slot).0,
        emptied(emptied(slot).0).1 is None,
{
}

} // verus!
