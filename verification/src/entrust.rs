//! Functions on their way to a worker.
use vstd::prelude::*;

verus! {

/// The mask of entrusting a function. What else it covers is not known elsewhere.
pub closed spec fn stamping() -> Set<int> {
    Set::full()
}

/// What it takes to send a job to a worker. There is one for each function that is
/// entrusted to the library, so no job is sent without a function, and none twice.
pub(crate) struct Stamp {
    paid: (),
}

/// A function that was entrusted to the library, and got its stamp: all that is left
/// is to call it.
pub(crate) struct Entrusted<F> {
    f: F,
    turn: Ghost<nat>,
}

impl<F> Entrusted<F> {
    pub closed spec fn f(&self) -> F {
        self.f
    }

    /// How many functions its maker had made before.
    pub closed spec fn turn(&self) -> nat {
        self.turn@
    }

    /// Takes `f` over, and hands out the stamp for it.
    pub(crate) fn new(f: F, turn: Ghost<nat>) -> (entrusted: (Self, Stamp))
        ensures
            entrusted.0.f() == f,
            entrusted.0.turn() == turn@,
        opens_invariants stamping()
    {
        (Entrusted { f, turn }, Stamp { paid: () })
    }
}

impl<F> Entrusted<F> {
    /// Calls the function.
    pub(crate) fn call<R>(self) -> (r: R) where F: FnOnce() -> R
        requires
            call_requires(self.f(), ()),
        ensures
            call_ensures(self.f(), (), r),
    {
        (self.f)()
    }

    /// Calls the function with an index.
    pub(crate) fn call_at<R>(self, index: usize) -> (r: R) where F: FnOnce(usize) -> R
        requires
            call_requires(self.f(), (index,)),
        ensures
            call_ensures(self.f(), (index,), r),
    {
        (self.f)(index)
    }
}

} // verus!
