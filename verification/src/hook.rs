//! The calls of an executor's handlers.
use vstd::prelude::*;

use crate::config::SyncFn;
use crate::counter::Tally;
use crate::ring::{opening, ringing, Rings};

verus! {

/// The mask of calling this handler, where one is set, and no other.
pub closed spec fn sounding(handler: Option<Box<dyn SyncFn>>) -> Set<int> {
    match handler {
        Some(set) => opening().union(ringing(&*set)),
        None => opening(),
    }
}

/// The mask of making a record of calls.
pub closed spec fn granting() -> Set<int> {
    opening()
}

/// The handler, where one is set.
pub open spec fn if_set(handler: Option<Box<dyn SyncFn>>) -> Seq<Option<Box<dyn SyncFn>>> {
    if handler is Some {
        seq![handler]
    } else {
        Seq::empty()
    }
}

/// The proof that a handler was called, and returned.
pub struct Called {
    handler: Ghost<Option<Box<dyn SyncFn>>>,
}

impl Called {
    #[verifier::type_invariant]
    spec fn has_returned(self) -> bool {
        self.handler@ matches Some(handler) && handler.returned()
    }

    /// The handler that was called.
    pub closed spec fn handler(&self) -> Option<Box<dyn SyncFn>> {
        self.handler@
    }
}

/// The record of the handlers that were called, in turn.
pub(crate) struct Calls {
    rings: Rings,
    made: Ghost<Seq<Option<Box<dyn SyncFn>>>>,
}

impl Calls {
    #[verifier::type_invariant]
    spec fn complete(self) -> bool {
        self.made@.len() == self.rings.count()
    }

    pub closed spec fn made(&self) -> Seq<Option<Box<dyn SyncFn>>> {
        self.made@
    }

    pub(crate) fn new() -> (calls: Self)
        ensures
            calls.made() == Seq::<Option<Box<dyn SyncFn>>>::empty(),
        opens_invariants granting()
    {
        Calls { rings: Rings::new(), made: Ghost(Seq::empty()) }
    }
}

/// Calls the handler once, where one is set, and records that.
pub(crate) fn call_handler(handler: &Option<Box<dyn SyncFn>>, calls: Calls) -> (done: (
    Option<Called>,
    Calls,
))
    requires
        *handler matches Some(handler) ==> handler.callable(),
    ensures
        done.1.made() == calls.made() + if_set(*handler),
        done.0 is Some <==> *handler is Some,
        done.0 matches Some(called) ==> called.handler() == *handler,
    opens_invariants sounding(*handler)
{
    proof {
        use_type_invariant(&calls);
    }
    match handler {
        Some(set) => {
            let mut rings = calls.rings;
            set.call_in(&mut rings);
            let made = Ghost(calls.made@ + if_set(*handler));
            (Some(Called { handler: Ghost(*handler) }), Calls { rings, made })
        },
        None => (None, calls),
    }
}

/// The mark that found the last unblocked worker, and the call of the handler.
pub struct Alarmed {
    tally: Tally,
    called: Option<Called>,
    calls: Calls,
}

impl Alarmed {
    /// The change of the count.
    pub closed spec fn tally(&self) -> Tally {
        self.tally
    }

    /// The call of the handler.
    pub closed spec fn called(&self) -> Option<Called> {
        self.called
    }

    /// The handlers that were called for the mark.
    pub closed spec fn calls(&self) -> Seq<Option<Box<dyn SyncFn>>> {
        self.calls.made()
    }

    /// The count that the mark has found.
    pub fn found(&self) -> (before: usize)
        ensures
            before == self.tally().before(),
        opens_invariants none
    {
        self.tally.found()
    }
}

/// Calls the handler once, for a mark, which is used up by that.
pub(crate) fn call_for_mark(handler: &Option<Box<dyn SyncFn>>, tally: Tally) -> (alarmed: Alarmed)
    requires
        *handler matches Some(handler) ==> handler.callable(),
    ensures
        alarmed.tally() == tally,
        alarmed.calls() == if_set(*handler),
        alarmed.called() is Some <==> *handler is Some,
        alarmed.called() matches Some(called) ==> called.handler() == *handler,
    opens_invariants sounding(*handler)
{
    let (called, calls) = call_handler(handler, Calls::new());
    Alarmed { tally, called, calls }
}

} // verus!
