//! The functions that become jobs.
use vstd::prelude::*;

use crate::call::{call_recorded, calling, starting, Returns};
use crate::entrust::{stamping, Entrusted, Stamp};

verus! {

/// The mask of handing `f` to a worker, and no other function.
pub closed spec fn handing<F>(f: F) -> Set<int> {
    stamping()
}

/// The mask of handing to workers what `g` makes, at most `limit` times, and nothing
/// else.
pub closed spec fn making<G>(g: G, limit: nat) -> Set<int> {
    starting().union(calling()).union(stamping())
}

/// Takes over the function of a task.
pub(crate) fn entrust<F>(f: F) -> (entrusted: (Entrusted<F>, Stamp))
    ensures
        entrusted.0.f() == f,
    opens_invariants handing(f)
{
    Entrusted::new(f, Ghost(0))
}

/// Makes the functions of a broadcast, and knows which ones it has made: `g` is out
/// of reach but for a call that is recorded.
#[verifier::reject_recursive_types(F)]
pub(crate) struct Maker<F, G> {
    g: G,
    limit: usize,
    made: Returns<F>,
}

/// The proof of how often the function of a maker was called. Only a maker that is
/// used up makes one.
pub(crate) struct Made {
    count: Ghost<nat>,
}

impl Made {
    pub closed spec fn count(&self) -> nat {
        self.count@
    }
}

impl<F, G: FnMut() -> F> Maker<F, G> {
    pub closed spec fn g(&self) -> G {
        self.g
    }

    /// The functions that were made, in turn: one for each call of `g`.
    pub closed spec fn made(&self) -> Seq<F> {
        self.made.values()
    }

    /// How many functions can be made.
    pub closed spec fn limit(&self) -> nat {
        self.limit as nat
    }

    pub(crate) fn new(g: G, limit: usize) -> (maker: Self)
        ensures
            maker.g() == g,
            maker.limit() == limit,
            maker.made() == Seq::<F>::empty(),
        opens_invariants making(g, limit as nat)
    {
        Maker { g, limit, made: Returns::new() }
    }

    /// Makes the next function, and takes it over.
    pub(crate) fn make(self) -> (next: (Entrusted<F>, Stamp, Self))
        requires
            call_requires(self.g(), ()),
            self.made().len() < self.limit(),
        ensures
            call_ensures(self.g(), (), next.0.f()),
            next.0.turn() == self.made().len(),
            next.2.limit() == self.limit(),
            next.2.g() == self.g(),
            next.2.made() == self.made().push(next.0.f()),
        opens_invariants making(self.g(), self.limit())
    {
        let mut g = self.g;
        let mut made = self.made;
        let turn = Ghost(made.values().len());
        let (f, stamp) = Entrusted::new(call_recorded(&mut g, &mut made), turn);
        (f, stamp, Maker { g, limit: self.limit, made })
    }

    /// Tells how often `g` was called.
    pub(crate) fn finish(self) -> (done: Made)
        ensures
            done.count() == self.made().len(),
        opens_invariants none
    {
        Made { count: Ghost(self.made.values().len()) }
    }
}

} // verus!
