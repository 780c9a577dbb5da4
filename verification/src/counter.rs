//! A count that any thread can change, and the proofs of its changes.
use std::sync::atomic::{AtomicUsize, Ordering};

use crossbeam_utils::CachePadded;
use vstd::prelude::*;

verus! {

/// `crossbeam_utils::CachePadded`, a value that shares its cache line with none.
#[verifier::external_type_specification]
#[verifier::external_body]
#[verifier::reject_recursive_types(T)]
pub struct ExCachePadded<T>(crossbeam_utils::CachePadded<T>);

/// A count that wraps around at the ends of `usize`.
pub struct Counter {
    count: CachePadded<AtomicUsize>,
    start: Ghost<usize>,
    changes: Ghost<spec_fn(nat) -> int>,
    solo: Ghost<bool>,
}

/// The proof that a count was changed. Only changing it makes one.
pub struct Tally {
    before: usize,
    counter: Ghost<Counter>,
    change: Ghost<int>,
    at: Ghost<nat>,
}

/// The record of the changes that were made by whoever carries it along. A count can
/// only be changed in a record, and code with a mask cannot make one: it has the
/// record that it was handed, or none.
pub struct Changes {
    made: Ghost<Seq<Tally>>,
}

impl Changes {
    /// The changes that were made, in turn.
    pub closed spec fn made(&self) -> Seq<Tally> {
        self.made@
    }

    pub fn new() -> (log: Self)
        ensures
            log.made() == Seq::<Tally>::empty(),
    {
        Changes { made: Ghost(Seq::empty()) }
    }
}

/// The sum of the first `k` of `changes`.
pub open spec fn total(changes: spec_fn(nat) -> int, k: nat) -> int
    decreases k,
{
    if k == 0 {
        0
    } else {
        total(changes, (k - 1) as nat) + changes((k - 1) as nat)
    }
}

/// What is left of `count` where it wraps around.
pub open spec fn wrapped(count: int) -> int {
    count % (usize::MAX + 1)
}

/// How many of the changes in `made` are changes of `counter`.
pub open spec fn changes_of(counter: Counter, made: Seq<Tally>) -> nat
    decreases made.len(),
{
    if made.len() == 0 {
        0
    } else if made.last().counter() == counter {
        changes_of(counter, made.drop_last()) + 1
    } else {
        changes_of(counter, made.drop_last())
    }
}

impl Counter {
    /// The number that the count began with.
    pub closed spec fn start(&self) -> usize {
        self.start@
    }

    /// What each change that is ever made adds to the count, in the order in which
    /// the changes take effect.
    pub closed spec fn changes(&self) -> spec_fn(nat) -> int {
        self.changes@
    }

    /// Whether all changes that are ever made are made in one and the same record.
    pub closed spec fn solo(&self) -> bool {
        self.solo@
    }

    /// The count after the first `k` changes, as if it did not wrap around.
    pub open spec fn after(&self, k: nat) -> int {
        self.start() + total(self.changes(), k)
    }
}

impl Tally {
    /// The count that the change has found.
    pub closed spec fn before(&self) -> usize {
        self.before
    }

    /// The count that was changed.
    pub closed spec fn counter(&self) -> Counter {
        self.counter@
    }

    /// What was added to it.
    pub closed spec fn change(&self) -> int {
        self.change@
    }

    /// How many changes took effect before this one.
    pub closed spec fn at(&self) -> nat {
        self.at@
    }

    /// Whether this is one of the changes of its count, and has found what the ones
    /// before it have left.
    pub open spec fn in_turn(&self) -> bool {
        &&& self.change() == (self.counter().changes())(self.at())
        &&& self.before() == wrapped(self.counter().after(self.at()))
    }

    /// Whether this change took effect after those of the same count that `earlier`
    /// holds: right after them, where all changes are made in one record.
    pub open spec fn follows(&self, earlier: Seq<Tally>) -> bool {
        &&& forall|i: int|
            0 <= i < earlier.len() && (#[trigger] earlier[i]).counter() == self.counter()
                ==> earlier[i].at() < self.at()
        &&& self.counter().solo() ==> self.at() == changes_of(self.counter(), earlier)
    }

    /// The count that the change has found.
    pub fn found(&self) -> (before: usize)
        ensures
            before == self.before(),
        opens_invariants none
    {
        self.before
    }
}

/// `crossbeam_utils::CachePadded::new` of a `std::sync::atomic::AtomicUsize::new`: a
/// count that begins with `start`.
#[verifier::external_body]
pub(crate) fn counter_new(start: usize) -> (counter: Counter)
    ensures
        counter.start() == start,
    opens_invariants none
{
    Counter {
        count: CachePadded::new(AtomicUsize::new(start)),
        start: Ghost(arbitrary()),
        changes: Ghost(arbitrary()),
        solo: Ghost(arbitrary()),
    }
}

/// `std::sync::atomic::AtomicUsize::fetch_add` on what
/// `crossbeam_utils::CachePadded::deref` gives: adds `by`, which wraps around, and
/// tells what it has found. All changes of an atomic number take effect in one
/// order, and each finds what the one before it has left. That order is also the one
/// of the changes that follow on each other in a record. `log` says that this change
/// was made, and no other.
#[verifier::external_body]
pub(crate) fn counter_add(counter: &Counter, by: usize, log: &mut Changes) -> (tally: Tally)
    ensures
        tally.counter() == *counter,
        tally.change() == by,
        tally.in_turn(),
        tally.follows(old(log).made()),
        final(log).made() == old(log).made().push(tally),
    opens_invariants none
{
    Tally {
        before: counter.count.fetch_add(by, Ordering::SeqCst),
        counter: Ghost(arbitrary()),
        change: Ghost(arbitrary()),
        at: Ghost(arbitrary()),
    }
}

/// `std::sync::atomic::AtomicUsize::fetch_sub` on what
/// `crossbeam_utils::CachePadded::deref` gives: subtracts `by`, which wraps around,
/// and tells what it has found, as for an addition.
#[verifier::external_body]
pub(crate) fn counter_sub(counter: &Counter, by: usize, log: &mut Changes) -> (tally: Tally)
    ensures
        tally.counter() == *counter,
        tally.change() == -by,
        tally.in_turn(),
        tally.follows(old(log).made()),
        final(log).made() == old(log).made().push(tally),
    opens_invariants none
{
    Tally {
        before: counter.count.fetch_sub(by, Ordering::SeqCst),
        counter: Ghost(arbitrary()),
        change: Ghost(arbitrary()),
        at: Ghost(arbitrary()),
    }
}

} // verus!
