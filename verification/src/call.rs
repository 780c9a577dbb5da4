//! Calls of the functions that callers hand in. Code with a mask cannot call one in
//! any other way. Each of these calls its function once: the function is used up by
//! that.
use vstd::prelude::*;

verus! {

/// The mask of a call that is recorded. What else it covers is not known elsewhere.
pub closed spec fn calling() -> Set<int> {
    Set::full()
}

/// The mask of making a record.
pub closed spec fn starting() -> Set<int> {
    Set::full()
}

/// The mask of the call of `f` that has something lent to it, and of no other
/// function's.
pub closed spec fn lending<F>(f: F) -> Set<int> {
    Set::full()
}

/// The record of what calls returned, in turn.
#[verifier::reject_recursive_types(T)]
pub(crate) struct Returns<T> {
    values: Ghost<Seq<T>>,
}

impl<T> Returns<T> {
    pub closed spec fn values(&self) -> Seq<T> {
        self.values@
    }

    pub(crate) fn new() -> (record: Self)
        ensures
            record.values() == Seq::<T>::empty(),
        opens_invariants starting()
    {
        Returns { values: Ghost(Seq::empty()) }
    }
}

/// Calls `f` and records what it returns.
pub(crate) fn call_recorded<T, F>(f: F, record: &mut Returns<T>) -> (value: T) where
    F: FnOnce() -> T,

    requires
        call_requires(f, ()),
    ensures
        call_ensures(f, (), value),
        final(record).values() == old(record).values().push(value),
    opens_invariants calling()
{
    let value = f();
    proof {
        record.values@ = record.values@.push(value);
    }
    value
}

/// Calls `f` with what is lent to it.
pub(crate) fn call_with<L, T, F>(f: F, lent: &L) -> (value: T) where F: FnOnce(&L) -> T
    requires
        call_requires(f, (lent,)),
    ensures
        call_ensures(f, (lent,), value),
    opens_invariants lending(f)
{
    f(lent)
}

} // verus!
