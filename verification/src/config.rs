//! The configuration of an executor.
use vstd::prelude::*;

use crate::plain::{boxed, plain};
use crate::ring::{ask, ring, ringing, Names, Rings};

verus! {

/// A number that is not zero.
#[derive(Clone, Copy, Debug, PartialEq, Eq, Structural)]
pub struct NonZeroUsize {
    value: usize,
}

impl View for NonZeroUsize {
    type V = usize;

    closed spec fn view(&self) -> usize {
        self.value
    }
}

impl NonZeroUsize {
    #[verifier::type_invariant]
    spec fn non_zero(self) -> bool {
        self.value != 0
    }

    pub fn new(value: usize) -> (number: Option<Self>)
        ensures
            number is Some <==> value != 0,
            number matches Some(number) ==> number@ == value,
        opens_invariants none
    {
        if value == 0 {
            None
        } else {
            Some(NonZeroUsize { value })
        }
    }

    pub fn get(self) -> (value: usize)
        ensures
            value == self@,
            value != 0,
        opens_invariants none
    {
        proof {
            use_type_invariant(&self);
        }
        self.value
    }
}

/// A function that any thread can call, any number of times.
pub trait SyncFn: Send + Sync {
    spec fn callable(&self) -> bool;

    /// What holds once a call has returned.
    spec fn returned(&self) -> bool;

    fn call(&self)
        requires
            self.callable(),
        ensures
            self.returned(),
    ;

    /// The same, in a record.
    fn call_in(&self, rings: &mut Rings)
        requires
            self.callable(),
        ensures
            self.returned(),
            final(rings).count() == old(rings).count() + 1,
        opens_invariants ringing(self)
    ;
}

impl<F: Fn() + Send + Sync> SyncFn for F {
    open spec fn callable(&self) -> bool {
        call_requires(*self, ())
    }

    open spec fn returned(&self) -> bool {
        call_ensures(*self, (), ())
    }

    fn call(&self) {
        self()
    }

    fn call_in(&self, rings: &mut Rings) {
        ring(self, rings)
    }
}

/// A function that gives the worker with an index the name of its thread.
pub trait ThreadNameFn: Send + Sync {
    spec fn callable(&self) -> bool;

    spec fn may_name(&self, index: usize, name: Seq<char>) -> bool;

    fn name(&self, index: usize) -> (name: String)
        requires
            self.callable(),
        ensures
            self.may_name(index, name@),
    ;

    /// The same, in a record.
    fn name_in(&self, index: usize, names: &mut Names) -> (name: String)
        requires
            self.callable(),
        ensures
            self.may_name(index, name@),
            final(names).count() == old(names).count() + 1,
        opens_invariants ringing(self)
    ;
}

impl<F: Fn(usize) -> String + Send + Sync> ThreadNameFn for F {
    open spec fn callable(&self) -> bool {
        forall|index: usize| call_requires(*self, (index,))
    }

    open spec fn may_name(&self, index: usize, name: Seq<char>) -> bool {
        exists|text: String| #[trigger] call_ensures(*self, (index,), text) && text@ == name
    }

    fn name(&self, index: usize) -> (name: String) {
        self(index)
    }

    fn name_in(&self, index: usize, names: &mut Names) -> (name: String) {
        ask(self, index, names)
    }
}

/// The setting for a handler: a call of `f`.
pub fn sync_fn<F>(f: F) -> (setting: Option<Box<dyn SyncFn>>) where
    F: Fn() + Send + Sync + 'static,

    ensures
        setting matches Some(handler) && {
            &&& handler.callable() == call_requires(f, ())
            &&& handler.returned() == call_ensures(f, (), ())
        },
    opens_invariants plain()
{
    let handler: Box<dyn SyncFn> = boxed(f);
    Some(handler)
}

/// The setting for the names of the threads: what `f` returns for the indices.
pub fn thread_name_fn<F>(f: F) -> (setting: Option<Box<dyn ThreadNameFn>>) where
    F: Fn(usize) -> String + Send + Sync + 'static,

    ensures
        setting matches Some(naming) && {
            &&& naming.callable() == forall|index: usize| call_requires(f, (index,))
            &&& forall|index: usize, name: Seq<char>| #[trigger]
                naming.may_name(index, name) == exists|text: String| #[trigger]
                    call_ensures(f, (index,), text) && text@ == name
        },
    opens_invariants plain()
{
    let naming: Box<dyn ThreadNameFn> = boxed(f);
    Some(naming)
}

/// How an executor is set up.
#[non_exhaustive]
pub struct ExecutorConfig {
    /// Names the threads of the workers.
    pub thread_name: Option<Box<dyn ThreadNameFn>>,
    /// Called before a worker polls.
    pub acquire_thread_handler: Option<Box<dyn SyncFn>>,
    /// Called after a worker has polled.
    pub release_thread_handler: Option<Box<dyn SyncFn>>,
    /// The number of workers; without it, as many as can run in parallel.
    pub num_threads: Option<NonZeroUsize>,
    /// The size of the stacks of threads and coroutines.
    pub stack_size: Option<NonZeroUsize>,
    /// Called when the last worker that was not blocked becomes so.
    pub deadlock_handler: Option<Box<dyn SyncFn>>,
}

impl ExecutorConfig {
    /// Whether the functions that are set can be called.
    pub open spec fn callable(&self) -> bool {
        &&& self.thread_name matches Some(name) ==> name.callable()
        &&& self.acquire_thread_handler matches Some(handler) ==> handler.callable()
        &&& self.release_thread_handler matches Some(handler) ==> handler.callable()
        &&& self.deadlock_handler matches Some(handler) ==> handler.callable()
    }

    /// Whether nothing is set.
    pub open spec fn is_default(&self) -> bool {
        &&& self.thread_name is None
        &&& self.acquire_thread_handler is None
        &&& self.release_thread_handler is None
        &&& self.num_threads is None
        &&& self.stack_size is None
        &&& self.deadlock_handler is None
    }

    pub fn new() -> (config: Self)
        ensures
            config.is_default(),
        opens_invariants none
    {
        ExecutorConfig {
            thread_name: None,
            acquire_thread_handler: None,
            release_thread_handler: None,
            num_threads: None,
            stack_size: None,
            deadlock_handler: None,
        }
    }

    /// The number of workers: the one that is set, or else what `available`
    /// finds out. `available` is not asked where the number is set.
    pub fn resolve_threads<E, A>(&self, available: A) -> (threads: Result<NonZeroUsize, E>) where
        A: FnOnce() -> Result<NonZeroUsize, E>,

        requires
            self.num_threads is None ==> call_requires(available, ()),
        ensures
            match self.num_threads {
                Some(threads_set) => threads == Ok::<NonZeroUsize, E>(threads_set),
                None => call_ensures(available, (), threads),
            },
    {
        match self.num_threads {
            Some(threads) => Ok(threads),
            None => available(),
        }
    }
}

impl Default for ExecutorConfig {
    fn default() -> (config: Self)
        ensures
            config.is_default(),
    {
        Self::new()
    }
}

} // verus!
