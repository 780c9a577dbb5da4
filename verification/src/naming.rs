//! The names of the workers' threads.
use vstd::prelude::*;

use crate::config::ThreadNameFn;
use crate::ring::{opening, ringing, Names};

verus! {

/// The mask of asking this function for a name, where one is set, and no other.
pub closed spec fn naming(function: Option<Box<dyn ThreadNameFn>>) -> Set<int> {
    match function {
        Some(set) => ringing(&*set),
        None => Set::empty(),
    }
}

/// The mask of taking over the function that names the threads.
pub closed spec fn beginning() -> Set<int> {
    opening()
}

/// The function that names the threads, where one is set, and for how many indices
/// it was asked. It is out of reach but for the index that is due.
pub(crate) struct Naming {
    function: Option<Box<dyn ThreadNameFn>>,
    names: Names,
    asked: Ghost<nat>,
}

impl Naming {
    #[verifier::type_invariant]
    spec fn wf(self) -> bool {
        &&& self.function matches Some(function) ==> function.callable()
        &&& self.names.count() == if self.function is Some {
            self.asked@
        } else {
            0
        }
    }

    pub closed spec fn function(&self) -> Option<Box<dyn ThreadNameFn>> {
        self.function
    }

    /// For how many indices it was asked.
    pub closed spec fn named(&self) -> nat {
        self.asked@
    }

    pub(crate) fn new(function: Option<Box<dyn ThreadNameFn>>) -> (naming: Self)
        requires
            function matches Some(function) ==> function.callable(),
        ensures
            naming.function() == function,
            naming.named() == 0,
        opens_invariants beginning()
    {
        Naming { function, names: Names::new(), asked: Ghost(0) }
    }

    /// The name for the next index, where the function is set.
    pub(crate) fn name(self, index: usize) -> (next: (Option<String>, Naming))
        requires
            index == self.named(),
        ensures
            next.0 is Some <==> self.function() is Some,
            self.function() matches Some(function) ==> function.may_name(index, next.0->0@),
            next.1.function() == self.function(),
            next.1.named() == self.named() + 1,
        opens_invariants naming(self.function())
    {
        proof {
            use_type_invariant(&self);
        }
        let mut names = self.names;
        let name = match &self.function {
            Some(function) => Some(function.name_in(index, &mut names)),
            None => None,
        };
        (name, Naming { function: self.function, names, asked: Ghost(self.asked@ + 1) })
    }
}

} // verus!
