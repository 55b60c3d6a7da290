use crate::broadcast::Broadcast;
use crate::resolver::Outcome;
use vstd::prelude::*;

verus! {

/// The application's hold on the backend: the local server process it owns, if
/// any, and the readiness outcome once it is known.
pub struct ServerState<C> {
    child: Option<C>,
    status: Broadcast<Outcome>,
}

impl<C> ServerState<C> {
    /// The owned process handle, if any.
    pub closed spec fn child(&self) -> Option<C> {
        self.child
    }

    /// The published readiness outcome, if any.
    pub closed spec fn outcome(&self) -> Option<Outcome> {
        self.status.value()
    }

    /// A state owning `child`, with no outcome yet.
    pub fn new(child: Option<C>) -> (r: ServerState<C>)
        ensures
            r.child() == child,
            r.outcome() is None,
    {
        ServerState { child, status: Broadcast::new() }
    }

    /// Replaces the owned process handle.
    pub fn set_child(&mut self, child: Option<C>)
        ensures
            final(self).child() == child,
            final(self).outcome() == old(self).outcome(),
    {
        self.child = child;
    }

    /// Hands out the owned process handle, leaving none behind; a second call
    /// returns `None`.
    pub fn take_child(&mut self) -> (r: Option<C>)
        ensures
            r == old(self).child(),
            final(self).child() is None,
            final(self).outcome() == old(self).outcome(),
    {
        self.child.take()
    }

    /// Records the readiness outcome if none was recorded yet; returns whether it was.
    pub fn publish(&mut self, outcome: Outcome) -> (r: bool)
        ensures
            r == (old(self).outcome() is None),
            final(self).outcome() == (if r { Some(outcome) } else { old(self).outcome() }),
            final(self).child() == old(self).child(),
    {
        self.status.publish(outcome)
    }

    /// The readiness outcome, once recorded.
    pub fn outcome_ref(&self) -> (r: Option<&Outcome>)
        ensures
            match r {
                Some(x) => self.outcome() == Some(*x),
                None => self.outcome() is None,
            },
    {
        self.status.get()
    }
}

} // verus!
