//! The memory that coroutines run on.
use corosensei::stack::DefaultStack;
use vstd::prelude::*;

use crate::maker::Made;

verus! {

/// `corosensei::stack::DefaultStack`, the memory that a coroutine runs on.
#[verifier::external_type_specification]
#[verifier::external_body]
pub struct ExDefaultStack(corosensei::stack::DefaultStack);

/// `std::io::Error`, the reason for which the system refuses a stack.
#[verifier::external_type_specification]
#[verifier::external_body]
pub struct ExIoError(std::io::Error);

/// A stack, and how many bytes it is known to have.
pub struct StackMemory {
    stack: DefaultStack,
    bytes: Ghost<nat>,
    asked: Ghost<Option<usize>>,
}

impl StackMemory {
    pub closed spec fn raw(&self) -> DefaultStack {
        self.stack
    }

    /// How many bytes the stack has at least.
    pub closed spec fn bytes(&self) -> nat {
        self.bytes@
    }

    /// The number of bytes that was asked for, where the stack was made for a size.
    pub closed spec fn asked(&self) -> Option<usize> {
        self.asked@
    }

    /// A stack of which nothing is known.
    pub(crate) fn of(stack: DefaultStack) -> (memory: StackMemory)
        ensures
            memory.raw() == stack,
            memory.asked() is None,
        opens_invariants none
    {
        StackMemory { stack, bytes: Ghost(0), asked: Ghost(None) }
    }

    pub(crate) fn into_raw(self) -> (stack: DefaultStack)
        ensures
            stack == self.raw(),
        opens_invariants none
    {
        self.stack
    }
}

/// The size of the stacks that no size is asked for.
pub const DEFAULT_STACK_BYTES: usize = 1048576;

/// More than any system reports as the size of a page.
pub const LARGEST_PAGE: usize = 1048576;

/// Whether `size` bytes, with the two pages around them, exceed all addresses.
pub open spec fn exceeds_addresses(size: usize) -> bool {
    size + 2 * LARGEST_PAGE > usize::MAX
}

/// Why there is no stack of the size that was asked for.
pub enum StackError {
    /// The size exceeds all addresses.
    TooLarge,
    /// The system refused the memory.
    Refused(StackRefusal),
}

/// The refusal of a stack. Only asking for the stack makes one.
pub struct StackRefusal {
    error: std::io::Error,
    asked: Ghost<usize>,
    made: Ghost<Option<nat>>,
}

impl StackRefusal {
    /// The number of bytes that was asked for.
    pub closed spec fn asked(&self) -> usize {
        self.asked@
    }

    /// The system's reason.
    pub closed spec fn reason(&self) -> std::io::Error {
        self.error
    }

    /// How often a maker of functions had been called when it gave up for this, where
    /// there was one.
    pub closed spec fn made(&self) -> Option<nat> {
        self.made@
    }

    /// Notes what the maker of the functions had done, which is used up by that.
    pub(crate) fn after(self, made: Made) -> (refusal: Self)
        ensures
            refusal.reason() == self.reason(),
            refusal.asked() == self.asked(),
            refusal.made() == Some(made.count()),
        opens_invariants none
    {
        let made = Ghost(Some(made.count()));
        StackRefusal { error: self.error, asked: self.asked, made }
    }

    /// The system's reason.
    pub fn into_error(self) -> (error: std::io::Error)
        ensures
            error == self.reason(),
        opens_invariants none
    {
        self.error
    }
}

/// `corosensei::stack::DefaultStack::default`: a stack of the default size. Like
/// any allocation it does not return where the system has no memory left.
#[verifier::external_body]
pub(crate) fn default_stack() -> (memory: StackMemory)
    ensures
        memory.bytes() >= DEFAULT_STACK_BYTES,
        memory.asked() is None,
    opens_invariants none
{
    StackMemory {
        stack: DefaultStack::default(),
        bytes: Ghost(arbitrary()),
        asked: Ghost(arbitrary()),
    }
}

/// `corosensei::stack::DefaultStack::new`: a stack of at least `size` bytes, or
/// the system's reason for refusing one. It panics where the size, with two pages
/// added, exceeds `usize`.
#[verifier::external_body]
fn stack_of_size(size: usize) -> (memory: Result<StackMemory, StackRefusal>)
    requires
        !exceeds_addresses(size),
    ensures
        match memory {
            Ok(memory) => memory.bytes() >= size && memory.asked() == Some(size),
            Err(refusal) => refusal.asked() == size && refusal.made() is None,
        },
    opens_invariants none
{
    match DefaultStack::new(size) {
        Ok(stack) => Ok(StackMemory { stack, bytes: Ghost(arbitrary()), asked: Ghost(arbitrary()) }),
        Err(error) => Err(StackRefusal { error, asked: Ghost(arbitrary()), made: Ghost(arbitrary()) }),
    }
}

/// A stack of at least `size` bytes.
pub(crate) fn sized_stack(size: usize) -> (memory: Result<StackMemory, StackError>)
    ensures
        memory matches Ok(memory) ==> memory.bytes() >= size && memory.asked() == Some(size),
        memory matches Err(StackError::Refused(refusal)) ==> refusal.asked() == size
            && refusal.made() is None,
        exceeds_addresses(size) <==> memory == Err::<StackMemory, StackError>(
            StackError::TooLarge,
        ),
    opens_invariants none
{
    if size > usize::MAX - 2 * LARGEST_PAGE {
        return Err(StackError::TooLarge);
    }
    match stack_of_size(size) {
        Ok(memory) => Ok(memory),
        Err(refusal) => Err(StackError::Refused(refusal)),
    }
}

} // verus!
