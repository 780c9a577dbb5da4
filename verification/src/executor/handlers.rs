//! The handlers of an executor. Each can only be called when it is due.
use vstd::prelude::*;

use crate::config::SyncFn;
use crate::counter::Tally;
use crate::hook::{
    call_for_mark, call_handler, granting, if_set, sounding, Alarmed, Called, Calls,
};

verus! {

/// The handler for deadlocks. It is out of reach but for the mark that finds the
/// last unblocked worker.
pub(crate) struct Alarm {
    handler: Option<Box<dyn SyncFn>>,
}

impl Alarm {
    #[verifier::type_invariant]
    spec fn wf(self) -> bool {
        self.handler matches Some(handler) ==> handler.callable()
    }

    pub closed spec fn handler(&self) -> Option<Box<dyn SyncFn>> {
        self.handler
    }

    pub(super) fn new(handler: Option<Box<dyn SyncFn>>) -> (alarm: Self)
        requires
            handler matches Some(handler) ==> handler.callable(),
        ensures
            alarm.handler() == handler,
        opens_invariants none
    {
        Alarm { handler }
    }

    /// Whether there is a handler.
    pub(super) fn is_set(&self) -> (set: bool)
        ensures
            set == self.handler() is Some,
        opens_invariants none
    {
        match &self.handler {
            Some(_) => true,
            None => false,
        }
    }

    /// Calls the handler, for a mark that took the last unblocked worker off the
    /// count. The mark is used up by that.
    pub(super) fn sound(&self, tally: Tally) -> (alarmed: Alarmed)
        requires
            self.handler() is Some,
            tally.before() == 1,
            tally.change() == -1,
        ensures
            alarmed.tally() == tally,
            alarmed.calls() == if_set(self.handler()),
            alarmed.called() matches Some(called) && called.handler() == self.handler(),
        opens_invariants sounding(self.handler())
    {
        proof {
            use_type_invariant(self);
        }
        call_for_mark(&self.handler, tally)
    }
}

/// The handlers for the times before and after a worker polls. They are out of
/// reach but for a worker that has its badge, or its lease.
pub(crate) struct ThreadHandlers {
    acquire: Option<Box<dyn SyncFn>>,
    release: Option<Box<dyn SyncFn>>,
}

/// A worker that does not have its thread. There is one for each worker. It knows
/// which handlers have been called for that worker.
pub struct Badge {
    called: Option<Called>,
    rounds: Ghost<nat>,
    calls: Calls,
}

/// A worker that has its thread. Only acquiring the thread gives one, for a badge,
/// and releasing the thread takes it.
pub struct Lease {
    called: Option<Called>,
    rounds: Ghost<nat>,
    calls: Calls,
}

impl Badge {
    /// The last call of the handler for the time after a poll, if there was one.
    pub closed spec fn called(&self) -> Option<Called> {
        self.called
    }

    /// How often the thread was acquired and released.
    pub closed spec fn rounds(&self) -> nat {
        self.rounds@
    }

    /// The handlers that have been called, in turn.
    pub closed spec fn calls(&self) -> Seq<Option<Box<dyn SyncFn>>> {
        self.calls.made()
    }

    /// Whether the worker has not had its thread yet.
    pub open spec fn fresh(&self) -> bool {
        &&& self.rounds() == 0
        &&& self.calls() == Seq::<Option<Box<dyn SyncFn>>>::empty()
    }

    pub(super) fn new() -> (badge: Badge)
        ensures
            badge.fresh(),
        opens_invariants granting()
    {
        Badge { called: None, rounds: Ghost(0), calls: Calls::new() }
    }
}

impl Lease {
    /// The call of the handler when the thread was acquired, if there is one.
    pub closed spec fn called(&self) -> Option<Called> {
        self.called
    }

    /// How often the thread was acquired and released before.
    pub closed spec fn rounds(&self) -> nat {
        self.rounds@
    }

    /// The handlers that have been called, in turn.
    pub closed spec fn calls(&self) -> Seq<Option<Box<dyn SyncFn>>> {
        self.calls.made()
    }
}

impl ThreadHandlers {
    #[verifier::type_invariant]
    spec fn wf(self) -> bool {
        &&& self.acquire matches Some(handler) ==> handler.callable()
        &&& self.release matches Some(handler) ==> handler.callable()
    }

    pub closed spec fn on_acquire(&self) -> Option<Box<dyn SyncFn>> {
        self.acquire
    }

    pub closed spec fn on_release(&self) -> Option<Box<dyn SyncFn>> {
        self.release
    }

    pub(super) fn new(
        acquire: Option<Box<dyn SyncFn>>,
        release: Option<Box<dyn SyncFn>>,
    ) -> (handlers: Self)
        requires
            acquire matches Some(handler) ==> handler.callable(),
            release matches Some(handler) ==> handler.callable(),
        ensures
            handlers.on_acquire() == acquire,
            handlers.on_release() == release,
        opens_invariants none
    {
        ThreadHandlers { acquire, release }
    }

    /// Calls the handler for the time before a poll.
    pub(super) fn acquire(&self, badge: Badge) -> (lease: Lease)
        ensures
            lease.rounds() == badge.rounds(),
            lease.calls() == badge.calls() + if_set(self.on_acquire()),
            lease.called() is Some <==> self.on_acquire() is Some,
            lease.called() matches Some(called) ==> called.handler() == self.on_acquire(),
        opens_invariants sounding(self.on_acquire())
    {
        proof {
            use_type_invariant(self);
        }
        let (called, calls) = call_handler(&self.acquire, badge.calls);
        Lease { called, rounds: badge.rounds, calls }
    }

    /// Calls the handler for the time after a poll.
    pub(super) fn release(&self, lease: Lease) -> (badge: Badge)
        ensures
            badge.rounds() == lease.rounds() + 1,
            badge.calls() == lease.calls() + if_set(self.on_release()),
            badge.called() is Some <==> self.on_release() is Some,
            badge.called() matches Some(called) ==> called.handler() == self.on_release(),
        opens_invariants sounding(self.on_release())
    {
        proof {
            use_type_invariant(self);
        }
        let (called, calls) = call_handler(&self.release, lease.calls);
        Badge { called, rounds: Ghost(lease.rounds@ + 1), calls }
    }
}

} // verus!
