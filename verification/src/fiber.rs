//! The switch from one stack to another, and the record of it.
use corosensei::stack::DefaultStack;
use corosensei::Yielder as FiberYielder;
use vstd::prelude::*;

use crate::context::TaskContext;
use crate::memory::StackMemory;

verus! {

/// `corosensei::Yielder`, the handle with which a coroutine suspends itself.
#[verifier::external_type_specification]
#[verifier::external_body]
#[verifier::reject_recursive_types(Input)]
#[verifier::reject_recursive_types(Yield)]
pub struct ExFiberYielder<Input, Yield>(FiberYielder<Input, Yield>);

/// A `corosensei::Coroutine`, resumed with a task context, that yields nothing
/// and returns an `R`. Its stack parameter is bound by a trait of corosensei,
/// which keeps the type itself from being declared.
#[verifier::external_body]
#[verifier::reject_recursive_types(R)]
struct RawFiber<R>(corosensei::Coroutine<TaskContext, (), R>);

/// A function on a stack of its own, and what has been done with it.
#[verifier::reject_recursive_types(R)]
pub struct Fiber<R> {
    raw: RawFiber<R>,
    begun: Ghost<Option<TaskContext>>,
    last: Ghost<Option<TaskContext>>,
    resumptions: Ghost<nat>,
    done: Ghost<bool>,
    stack: Ghost<DefaultStack>,
    bytes: Ghost<nat>,
    post: Ghost<spec_fn(TaskContext, R) -> bool>,
}

impl<R> Fiber<R> {
    /// The task that resumed it first, where one has.
    pub closed spec fn begun(&self) -> Option<TaskContext> {
        self.begun@
    }

    /// The task that resumed it last, where one has.
    pub closed spec fn last(&self) -> Option<TaskContext> {
        self.last@
    }

    /// How often it was resumed.
    pub closed spec fn resumptions(&self) -> nat {
        self.resumptions@
    }

    /// The task that has resumed it first once `context` resumes it.
    pub open spec fn first(&self, context: TaskContext) -> TaskContext {
        match self.begun() {
            Some(first) => first,
            None => context,
        }
    }

    /// Whether the function has ended.
    pub closed spec fn done(&self) -> bool {
        self.done@
    }

    /// The stack that the function runs on.
    pub closed spec fn stack(&self) -> DefaultStack {
        self.stack@
    }

    /// How many bytes that stack has at least.
    pub closed spec fn stack_bytes(&self) -> nat {
        self.bytes@
    }

    /// Whether the function may return `r` where `first` resumes it first.
    pub closed spec fn may_return(&self, first: TaskContext, r: R) -> bool {
        (self.post@)(first, r)
    }
}

/// `corosensei::Coroutine::with_stack`: a coroutine that has not begun, and that
/// will call `f` on the stack when it is first resumed. What it returns in the end
/// is what that call of `f` returned, which got the task context of the first
/// resumption. It panics on a function of more than 1024 bytes, so `f` goes there
/// in a box.
#[verifier::external_body]
pub(crate) fn fiber_with_stack<R: 'static, F>(memory: StackMemory, f: F) -> (fiber: Fiber<R>) where
    F: FnOnce(&FiberYielder<TaskContext, ()>, TaskContext) -> R + 'static,

    requires
        forall|yielder: &FiberYielder<TaskContext, ()>, context: TaskContext|
            call_requires(f, (yielder, context)),
    ensures
        fiber.begun() is None,
        fiber.last() is None,
        fiber.resumptions() == 0,
        !fiber.done(),
        fiber.stack() == memory.raw(),
        fiber.stack_bytes() == memory.bytes(),
        forall|first: TaskContext, r: R| #[trigger]
            fiber.may_return(first, r) <==> exists|yielder: &FiberYielder<TaskContext, ()>|
                #[trigger] call_ensures(f, (yielder, first), r),
    opens_invariants none
{
    Fiber {
        raw: RawFiber(corosensei::Coroutine::with_stack(memory.into_raw(), Box::new(f))),
        begun: Ghost(arbitrary()),
        last: Ghost(arbitrary()),
        resumptions: Ghost(arbitrary()),
        done: Ghost(arbitrary()),
        stack: Ghost(arbitrary()),
        bytes: Ghost(arbitrary()),
        post: Ghost(arbitrary()),
    }
}

/// `corosensei::Coroutine::resume`: hands `context` to the function and runs it
/// until it suspends itself (`None`) or returns (`Some`). It panics on a function
/// that has ended. How far the function runs is the function's affair; what it
/// returns is one of the values that it may return.
#[verifier::external_body]
pub(crate) fn fiber_resume<R>(fiber: &mut Fiber<R>, context: TaskContext) -> (returned: Option<R>)
    requires
        !old(fiber).done(),
    ensures
        final(fiber).begun() == Some(old(fiber).first(context)),
        final(fiber).last() == Some(context),
        final(fiber).resumptions() == old(fiber).resumptions() + 1,
        final(fiber).done() <==> returned is Some,
        final(fiber).stack() == old(fiber).stack(),
        final(fiber).stack_bytes() == old(fiber).stack_bytes(),
        forall|first: TaskContext, r: R| #[trigger]
            final(fiber).may_return(first, r) == old(fiber).may_return(first, r),
        returned matches Some(r) ==> old(fiber).may_return(old(fiber).first(context), r),
    opens_invariants none
{
    match fiber.raw.0.resume(context) {
        corosensei::CoroutineResult::Yield(()) => None,
        corosensei::CoroutineResult::Return(r) => Some(r),
    }
}

/// `corosensei::Coroutine::done`: whether the function has ended, which it also has
/// where it panicked.
#[verifier::external_body]
pub(crate) fn fiber_done<R>(fiber: &Fiber<R>) -> (done: bool)
    ensures
        done == fiber.done(),
    opens_invariants none
{
    fiber.raw.0.done()
}

/// `corosensei::Coroutine::into_stack`: the stack that the coroutine was made
/// with. It panics unless the function has ended.
#[verifier::external_body]
pub(crate) fn fiber_into_stack<R>(fiber: Fiber<R>) -> (stack: DefaultStack)
    requires
        fiber.done(),
    ensures
        stack == fiber.stack(),
    opens_invariants none
{
    fiber.raw.0.into_stack()
}

} // verus!
