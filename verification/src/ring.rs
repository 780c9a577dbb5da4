//! Calls of the functions that a configuration holds. They can be called any number
//! of times, and each call is recorded.
use vstd::prelude::*;

use crate::call::{call_recorded, calling, starting, Returns};

verus! {

/// The mask of calling `f`, and no other function. What else it covers is not known
/// elsewhere.
pub closed spec fn ringing<F: ?Sized>(f: &F) -> Set<int> {
    calling()
}

/// The mask of making a record.
pub closed spec fn opening() -> Set<int> {
    starting()
}

/// The record of how often functions were called.
pub struct Rings {
    returns: Returns<()>,
}

/// The record of the names that functions gave.
pub struct Names {
    returns: Returns<String>,
}

impl Rings {
    pub closed spec fn count(&self) -> nat {
        self.returns.values().len()
    }

    pub(crate) fn new() -> (rings: Self)
        ensures
            rings.count() == 0,
        opens_invariants opening()
    {
        Rings { returns: Returns::new() }
    }
}

impl Names {
    pub closed spec fn count(&self) -> nat {
        self.returns.values().len()
    }

    pub(crate) fn new() -> (names: Self)
        ensures
            names.count() == 0,
        opens_invariants opening()
    {
        Names { returns: Returns::new() }
    }
}

/// Calls `f` once.
pub(crate) fn ring<F: Fn()>(f: &F, rings: &mut Rings)
    requires
        call_requires(*f, ()),
    ensures
        call_ensures(*f, (), ()),
        final(rings).count() == old(rings).count() + 1,
    opens_invariants ringing(f)
{
    call_recorded(f, &mut rings.returns)
}

/// Calls `f` once, with an index.
pub(crate) fn ask<F: Fn(usize) -> String>(f: &F, index: usize, names: &mut Names) -> (name: String)
    requires
        call_requires(*f, (index,)),
    ensures
        call_ensures(*f, (index,), name),
        final(names).count() == old(names).count() + 1,
    opens_invariants ringing(f)
{
    let question = || -> (name: String)
        requires
            call_requires(*f, (index,)),
        ensures
            call_ensures(*f, (index,), name),
        { f(index) };
    call_recorded(question, &mut names.returns)
}

} // verus!
