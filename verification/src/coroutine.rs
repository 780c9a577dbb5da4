//! Coroutines: functions that run on a stack of their own.
use corosensei::stack::DefaultStack;
use corosensei::Yielder as FiberYielder;
use vstd::prelude::*;

use crate::context::TaskContext;
use crate::fiber::{fiber_done, fiber_into_stack, fiber_resume, fiber_with_stack, Fiber};
use crate::memory::{
    default_stack, exceeds_addresses, sized_stack, StackMemory, DEFAULT_STACK_BYTES,
};
use crate::plain::{boxed, plain};
use crate::tlv::Tlv;

pub use crate::memory::{StackError, StackRefusal};

verus! {

/// A coroutine: a function that can be left in the middle, while it waits for a
/// future, and gone on with when the task that polls it is woken.
#[verifier::reject_recursive_types(R)]
pub struct Coroutine<R> {
    fiber: Fiber<R>,
}

impl<R> Coroutine<R> {
    /// The task that resumed the coroutine first, where one has.
    pub closed spec fn begun(&self) -> Option<TaskContext> {
        self.fiber.begun()
    }

    /// The task that resumed the coroutine last, where one has.
    pub closed spec fn last(&self) -> Option<TaskContext> {
        self.fiber.last()
    }

    /// How often the coroutine was resumed.
    pub closed spec fn resumptions(&self) -> nat {
        self.fiber.resumptions()
    }

    /// The task that has resumed the coroutine first once `context` resumes it.
    pub open spec fn first(&self, context: TaskContext) -> TaskContext {
        match self.begun() {
            Some(first) => first,
            None => context,
        }
    }

    /// Whether the function has ended.
    pub closed spec fn done(&self) -> bool {
        self.fiber.done()
    }

    /// The stack that the function runs on.
    pub closed spec fn stack(&self) -> DefaultStack {
        self.fiber.stack()
    }

    /// How many bytes that stack has at least.
    pub closed spec fn stack_bytes(&self) -> nat {
        self.fiber.stack_bytes()
    }

    /// Whether the function may return `r` where `first` resumes it first.
    pub closed spec fn may_return(&self, first: TaskContext, r: R) -> bool {
        self.fiber.may_return(first, r)
    }
}

impl<R: 'static> Coroutine<R> {
    /// Makes a coroutine that runs `f` on a stack of the default size. `tlv` is the
    /// thread-local value of this thread, which `f` is to run with; `f` gets it with
    /// the coroutine's yielder and the task that resumes the coroutine first.
    pub fn new<F>(tlv: Tlv, f: F) -> (coroutine: Self) where
        F: FnOnce(&FiberYielder<TaskContext, ()>, TaskContext, Tlv) -> R + 'static,

        requires
            forall|yielder: &FiberYielder<TaskContext, ()>, context: TaskContext| #[trigger]
                call_requires(f, (yielder, context, tlv)),
        ensures
            coroutine.begun() is None,
            coroutine.last() is None,
            coroutine.resumptions() == 0,
            !coroutine.done(),
            coroutine.stack_bytes() >= DEFAULT_STACK_BYTES,
            forall|first: TaskContext, r: R| #[trigger]
                coroutine.may_return(first, r) ==> exists|yielder: &FiberYielder<TaskContext, ()>|
                    #[trigger] call_ensures(f, (yielder, first, tlv), r),
        opens_invariants none
    {
        Self::on_memory(default_stack(), tlv, f)
    }

    /// Makes a coroutine that runs `f` on `stack`. `tlv` is the thread-local value of
    /// this thread, which `f` is to run with; `f` gets it with the coroutine's yielder
    /// and the task that resumes the coroutine first.
    pub fn with_stack<F>(stack: DefaultStack, tlv: Tlv, f: F) -> (coroutine: Self) where
        F: FnOnce(&FiberYielder<TaskContext, ()>, TaskContext, Tlv) -> R + 'static,

        requires
            forall|yielder: &FiberYielder<TaskContext, ()>, context: TaskContext| #[trigger]
                call_requires(f, (yielder, context, tlv)),
        ensures
            coroutine.begun() is None,
            coroutine.last() is None,
            coroutine.resumptions() == 0,
            !coroutine.done(),
            coroutine.stack() == stack,
            forall|first: TaskContext, r: R| #[trigger]
                coroutine.may_return(first, r) ==> exists|yielder: &FiberYielder<TaskContext, ()>|
                    #[trigger] call_ensures(f, (yielder, first, tlv), r),
        opens_invariants none
    {
        Self::on_memory(StackMemory::of(stack), tlv, f)
    }

    /// Makes a coroutine that runs `f` on the stack in `memory`.
    fn on_memory<F>(memory: StackMemory, tlv: Tlv, f: F) -> (coroutine: Self) where
        F: FnOnce(&FiberYielder<TaskContext, ()>, TaskContext, Tlv) -> R + 'static,

        requires
            forall|yielder: &FiberYielder<TaskContext, ()>, context: TaskContext| #[trigger]
                call_requires(f, (yielder, context, tlv)),
        ensures
            coroutine.begun() is None,
            coroutine.last() is None,
            coroutine.resumptions() == 0,
            !coroutine.done(),
            coroutine.stack() == memory.raw(),
            coroutine.stack_bytes() == memory.bytes(),
            forall|first: TaskContext, r: R| #[trigger]
                coroutine.may_return(first, r) ==> exists|yielder: &FiberYielder<TaskContext, ()>|
                    #[trigger] call_ensures(f, (yielder, first, tlv), r),
        opens_invariants none
    {
        let main = move |yielder: &FiberYielder<TaskContext, ()>, context: TaskContext| -> (r: R)
            requires
                call_requires(f, (yielder, context, tlv)),
            ensures
                call_ensures(f, (yielder, context, tlv), r),
            { f(yielder, context, tlv) };
        assert forall|yielder: &FiberYielder<TaskContext, ()>, context: TaskContext|
            call_requires(main, (yielder, context)) by {
            assert(call_requires(f, (yielder, context, tlv)));
        }
        Coroutine { fiber: fiber_with_stack(memory, main) }
    }
}

impl<R> Coroutine<R> {
    /// Takes back the stack of a coroutine whose function has ended, also where it
    /// panicked.
    pub fn into_stack(self) -> (stack: DefaultStack)
        requires
            self.done(),
        ensures
            stack == self.stack(),
        opens_invariants none
    {
        fiber_into_stack(self.fiber)
    }

    /// Resumes the coroutine once, for the task `context`, until it waits or finishes:
    /// `Some` is the value that it finished with, `None` that it is pending.
    pub fn poll(&mut self, context: TaskContext) -> (ready: Option<R>)
        requires
            !old(self).done(),
        ensures
            final(self).begun() == Some(old(self).first(context)),
            final(self).last() == Some(context),
            final(self).resumptions() == old(self).resumptions() + 1,
            final(self).done() <==> ready is Some,
            final(self).stack() == old(self).stack(),
            final(self).stack_bytes() == old(self).stack_bytes(),
            forall|first: TaskContext, r: R| #[trigger]
                final(self).may_return(first, r) == old(self).may_return(first, r),
            ready matches Some(r) ==> old(self).may_return(old(self).first(context), r),
        opens_invariants none
    {
        let ready = fiber_resume(&mut self.fiber, context);
        assert forall|first: TaskContext, r: R| #[trigger] self.may_return(first, r) == old(
            self,
        ).may_return(first, r) by {
            assert(self.fiber.may_return(first, r) == old(self).fiber.may_return(first, r));
        }
        ready
    }

    /// Whether the function has ended, so that `poll` is over and `into_stack` is
    /// open.
    pub fn is_finished(&self) -> (finished: bool)
        ensures
            finished == self.done(),
        opens_invariants none
    {
        fiber_done(&self.fiber)
    }
}

/// A function that is run once, on whatever thread.
pub trait Body<R>: Send {
    spec fn callable(&self) -> bool;

    spec fn may_return(&self, r: R) -> bool;

    fn run(self: Box<Self>) -> (r: R)
        requires
            self.callable(),
        ensures
            self.may_return(r),
    ;
}

impl<R, F: FnOnce() -> R + Send> Body<R> for F {
    open spec fn callable(&self) -> bool {
        call_requires(*self, ())
    }

    open spec fn may_return(&self, r: R) -> bool {
        call_ensures(*self, (), r)
    }

    fn run(self: Box<Self>) -> (r: R) {
        (*self)()
    }
}

/// A function to run once, whatever its type.
#[verifier::reject_recursive_types(R)]
pub struct BoxedBody<R> {
    function: Box<dyn Body<R>>,
}

impl<R> BoxedBody<R> {
    pub closed spec fn callable(&self) -> bool {
        self.function.callable()
    }

    pub closed spec fn may_return(&self, r: R) -> bool {
        self.function.may_return(r)
    }

    pub fn new<F>(f: F) -> (body: Self) where F: FnOnce() -> R + Send + 'static,
        ensures
            body.callable() == call_requires(f, ()),
            forall|r: R| body.may_return(r) == call_ensures(f, (), r),
        opens_invariants plain()
    {
        let function: Box<dyn Body<R>> = boxed(f);
        BoxedBody { function }
    }

    /// Calls the function.
    pub fn run(self) -> (r: R)
        requires
            self.callable(),
        ensures
            self.may_return(r),
    {
        self.function.run()
    }
}

/// A coroutine that has not begun, in parts that can go to another thread: its
/// stack, the thread-local value of the thread that made it, and its function.
#[verifier::reject_recursive_types(R)]
pub struct SyncIntoCoroutine<R> {
    memory: StackMemory,
    tlv: Tlv,
    body: BoxedBody<R>,
}

impl<R> SyncIntoCoroutine<R> {
    pub closed spec fn stack(&self) -> DefaultStack {
        self.memory.raw()
    }

    /// How many bytes the stack has at least.
    pub closed spec fn stack_bytes(&self) -> nat {
        self.memory.bytes()
    }

    /// The number of bytes that was asked for, where the stack was made for a size.
    pub closed spec fn stack_asked(&self) -> Option<usize> {
        self.memory.asked()
    }

    pub closed spec fn tlv(&self) -> Tlv {
        self.tlv
    }

    pub closed spec fn body(&self) -> BoxedBody<R> {
        self.body
    }

    /// Whether the function can be called.
    pub open spec fn callable(&self) -> bool {
        self.body().callable()
    }

    /// Whether the function may return `r`.
    pub open spec fn may_return(&self, r: R) -> bool {
        self.body().may_return(r)
    }
}

/// Makes the parts of a coroutine that will run `f` on a stack of the default
/// size, wherever it is sent. `tlv` is the thread-local value of this thread.
pub fn sync_into_coroutine<F, R>(tlv: Tlv, f: F) -> (parts: SyncIntoCoroutine<R>) where
    F: FnOnce() -> R + Send + 'static,

    ensures
        parts.stack_bytes() >= DEFAULT_STACK_BYTES,
        parts.stack_asked() is None,
        parts.tlv() == tlv,
        parts.callable() == call_requires(f, ()),
        forall|r: R| parts.may_return(r) == call_ensures(f, (), r),
    opens_invariants plain()
{
    SyncIntoCoroutine { memory: default_stack(), tlv, body: BoxedBody::new(f) }
}

/// Makes the parts of a coroutine that will run `f` on `stack`, wherever it is
/// sent. `tlv` is the thread-local value of this thread.
pub fn sync_into_coroutine_with_stack<F, R>(stack: DefaultStack, tlv: Tlv, f: F) -> (parts:
    SyncIntoCoroutine<R>) where F: FnOnce() -> R + Send + 'static,
    ensures
        parts.stack() == stack,
        parts.stack_asked() is None,
        parts.tlv() == tlv,
        parts.callable() == call_requires(f, ()),
        forall|r: R| parts.may_return(r) == call_ensures(f, (), r),
    opens_invariants plain()
{
    SyncIntoCoroutine { memory: StackMemory::of(stack), tlv, body: BoxedBody::new(f) }
}

/// Makes the parts of a coroutine that will run `f` on a stack of at least `size`
/// bytes, wherever it is sent. `tlv` is the thread-local value of this thread.
pub fn sync_into_coroutine_with_stack_size<F, R>(size: usize, tlv: Tlv, f: F) -> (parts: Result<
    SyncIntoCoroutine<R>,
    StackError,
>) where F: FnOnce() -> R + Send + 'static,
    ensures
        exceeds_addresses(size) <==> parts == Err::<SyncIntoCoroutine<R>, StackError>(
            StackError::TooLarge,
        ),
        parts matches Err(StackError::Refused(refusal)) ==> refusal.asked() == size
            && refusal.made() is None,
        parts matches Ok(parts) ==> {
            &&& parts.stack_bytes() >= size
            &&& parts.stack_asked() == Some(size)
            &&& parts.tlv() == tlv
            &&& parts.callable() == call_requires(f, ())
            &&& forall|r: R| parts.may_return(r) == call_ensures(f, (), r)
        },
    opens_invariants plain()
{
    match sized_stack(size) {
        Ok(memory) => Ok(SyncIntoCoroutine { memory, tlv, body: BoxedBody::new(f) }),
        Err(error) => Err(error),
    }
}

impl<R: 'static> SyncIntoCoroutine<R> {
    /// Makes the coroutine, on the thread that will run it. `run` brackets the
    /// function: it gets the coroutine's yielder, the task that resumes the
    /// coroutine first, the thread-local value to run with, and the function.
    pub fn into_future<W>(self, run: W) -> (coroutine: Coroutine<R>) where
        W: FnOnce(
            &FiberYielder<TaskContext, ()>,
            TaskContext,
            Tlv,
            BoxedBody<R>,
        ) -> R + 'static,

        requires
            forall|yielder: &FiberYielder<TaskContext, ()>, context: TaskContext| #[trigger]
                call_requires(run, (yielder, context, self.tlv(), self.body())),
        ensures
            coroutine.begun() is None,
            coroutine.last() is None,
            coroutine.resumptions() == 0,
            !coroutine.done(),
            coroutine.stack() == self.stack(),
            coroutine.stack_bytes() == self.stack_bytes(),
            forall|first: TaskContext, r: R| #[trigger]
                coroutine.may_return(first, r) ==> exists|yielder: &FiberYielder<TaskContext, ()>|
                    #[trigger] call_ensures(run, (yielder, first, self.tlv(), self.body()), r),
        opens_invariants none
    {
        let body = self.body;
        let main = move |
            yielder: &FiberYielder<TaskContext, ()>,
            context: TaskContext,
            tlv: Tlv,
        | -> (r: R)
            requires
                call_requires(run, (yielder, context, tlv, body)),
            ensures
                call_ensures(run, (yielder, context, tlv, body), r),
            { run(yielder, context, tlv, body) };
        let tlv = self.tlv;
        assert forall|yielder: &FiberYielder<TaskContext, ()>, context: TaskContext| #[trigger]
            call_requires(main, (yielder, context, tlv)) by {
            assert(call_requires(run, (yielder, context, self.tlv(), self.body())));
        }
        Coroutine::on_memory(self.memory, tlv, main)
    }
}

} // verus!
