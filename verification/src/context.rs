//! The await contexts of a thread.
//!
//! A thread that runs a coroutine has a context: the way back to the task that
//! polls the coroutine. Contexts nest, since a coroutine can run another one, so
//! the contexts of a thread form a stack. Every switch into or out of a coroutine
//! moves contexts and the thread-local value between the thread and the coroutine.
use vstd::prelude::*;

use crate::plain::{boxed, plain, taken};
use crate::tlv::Tlv;

verus! {

/// The address of the task context with which a coroutine was resumed.
#[derive(Clone, Copy, Debug, PartialEq, Eq, Structural)]
pub struct TaskContext {
    pub address: usize,
}

impl TaskContext {
    pub fn new(address: usize) -> (context: Self)
        ensures
            context.address == address,
        opens_invariants none
    {
        TaskContext { address }
    }
}

/// What waiting outside of any coroutine gives.
#[derive(Clone, Copy, Debug, PartialEq, Eq, Structural)]
pub struct OutsideOfContextError;

impl OutsideOfContextError {
    pub fn to_string(&self) -> (text: String)
        ensures
            text@ == "outside of any await context"@,
    {
        "outside of any await context".to_string()
    }
}

/// One await context: the coroutine it belongs to, the task context to poll
/// with, and what the thread held when the coroutine was last resumed on it.
pub struct Yielder {
    inner: usize,
    context: TaskContext,
    old_cx: Option<Box<Yielder>>,
    old_tlv: Tlv,
}

/// A context without those below it.
pub struct Frame {
    /// The address of the coroutine's own yielder.
    pub inner: usize,
    /// The task context of the last resumption.
    pub context: TaskContext,
    /// The thread-local value that the last resumption found.
    pub old_tlv: Tlv,
}

/// The contexts of a thread, innermost first, and its thread-local value.
#[verifier::ext_equal]
pub struct ThreadView {
    pub frames: Seq<Frame>,
    pub tlv: Tlv,
}

impl Yielder {
    pub closed spec fn frame(&self) -> Frame {
        Frame { inner: self.inner, context: self.context, old_tlv: self.old_tlv }
    }

    pub closed spec fn outer(&self) -> Seq<Frame> {
        frames_of(self.old_cx)
    }
}

/// The stack of contexts that starts at `cx`.
pub closed spec fn frames_of(cx: Option<Box<Yielder>>) -> Seq<Frame>
    decreases cx,
{
    match cx {
        None => Seq::empty(),
        Some(yielder) => seq![yielder.frame()] + frames_of(yielder.old_cx),
    }
}

impl ThreadView {
    pub open spec fn inside(self) -> bool {
        self.frames.len() > 0
    }

    /// The thread once a coroutine that carries `tlv` has begun to run on it.
    pub open spec fn entered(self, inner: usize, context: TaskContext, tlv: Tlv) -> ThreadView {
        ThreadView {
            frames: seq![Frame { inner, context, old_tlv: self.tlv }] + self.frames,
            tlv,
        }
    }

    /// The thread once the innermost coroutine has given it up.
    pub open spec fn left(self) -> ThreadView {
        ThreadView { frames: self.frames.drop_first(), tlv: self.frames[0].old_tlv }
    }

    /// The thread while its innermost coroutine polls a future.
    pub open spec fn vacated(self) -> ThreadView {
        ThreadView { frames: Seq::empty(), tlv: self.tlv }
    }
}

/// What a thread holds of the library: its contexts and its thread-local value.
pub struct ThreadState {
    context: Option<Box<Yielder>>,
    tlv: Tlv,
}

impl View for ThreadState {
    type V = ThreadView;

    closed spec fn view(&self) -> ThreadView {
        ThreadView { frames: frames_of(self.context), tlv: self.tlv }
    }
}

impl ThreadState {
    /// The state of a thread on which no coroutine runs.
    pub fn new() -> (thread: Self)
        ensures
            thread@.frames.len() == 0,
            thread@.tlv.address == 0,
        opens_invariants none
    {
        ThreadState { context: None, tlv: Tlv::null() }
    }

    /// Puts together the two parts that a thread keeps.
    pub fn from_parts(context: Option<Box<Yielder>>, tlv: Tlv) -> (thread: Self)
        ensures
            thread@ == (ThreadView { frames: frames_of(context), tlv }),
        opens_invariants none
    {
        ThreadState { context, tlv }
    }

    /// Takes apart what `from_parts` puts together.
    pub fn into_parts(self) -> (parts: (Option<Box<Yielder>>, Tlv))
        ensures
            self@ == (ThreadView { frames: frames_of(parts.0), tlv: parts.1 }),
        opens_invariants none
    {
        (self.context, self.tlv)
    }

    pub(crate) fn tlv(&self) -> (value: Tlv)
        ensures
            value == self@.tlv,
        opens_invariants none
    {
        self.tlv
    }

    pub(crate) fn set_tlv(&mut self, value: Tlv)
        ensures
            final(self)@ == (ThreadView { frames: old(self)@.frames, tlv: value }),
        opens_invariants none
    {
        self.tlv = value;
    }

    /// The first steps of a coroutine's body: `inner` is its yielder, `context`
    /// the task that resumes it for the first time, `tlv` the thread-local value
    /// of the thread that made it.
    pub fn enter(&mut self, inner: usize, context: TaskContext, tlv: Tlv)
        ensures
            final(self)@ == old(self)@.entered(inner, context, tlv),
            final(self)@.frames == seq![Frame { inner, context, old_tlv: old(self)@.tlv }] + old(
                self,
            )@.frames,
            final(self)@.tlv == tlv,
        opens_invariants plain()
    {
        let old_tlv = self.tlv;
        let old_cx = taken(&mut self.context);
        self.context = Some(boxed(Yielder { inner, context, old_cx, old_tlv }));
        self.tlv = tlv;
    }

    /// The last steps of a coroutine's body.
    pub fn leave(&mut self)
        requires
            old(self)@.inside(),
        ensures
            final(self)@ == old(self)@.left(),
            final(self)@.frames == old(self)@.frames.drop_first(),
            final(self)@.tlv == old(self)@.frames[0].old_tlv,
        opens_invariants none
    {
        let ghost before = self.context;
        if let Some(cx) = taken(&mut self.context) {
            let mut cx = *cx;
            self.tlv = cx.old_tlv;
            self.context = taken(&mut cx.old_cx);
            assert(frames_of(before).drop_first() =~= frames_of(self.context));
        }
    }
}

/// A coroutine that waits for a future: its context, taken off the thread, and
/// the thread-local value that it had when it began to wait.
pub struct Awaiting {
    cx: Box<Yielder>,
    context_tlv: Tlv,
}

/// The context of a waiting coroutine, the contexts that it took off the thread
/// along with its own, and the thread-local value to come back to.
#[verifier::ext_equal]
pub struct AwaitingView {
    pub frame: Frame,
    pub outer: Seq<Frame>,
    pub context_tlv: Tlv,
}

impl View for Awaiting {
    type V = AwaitingView;

    closed spec fn view(&self) -> AwaitingView {
        AwaitingView {
            frame: self.cx.frame(),
            outer: self.cx.outer(),
            context_tlv: self.context_tlv,
        }
    }
}

impl AwaitingView {
    /// The wait that begins on `thread`.
    pub open spec fn begun(thread: ThreadView) -> AwaitingView {
        AwaitingView {
            frame: thread.frames[0],
            outer: thread.frames.drop_first(),
            context_tlv: thread.tlv,
        }
    }

    /// The thread that a suspension leaves behind.
    pub open spec fn released(self) -> ThreadView {
        ThreadView { frames: self.outer, tlv: self.frame.old_tlv }
    }

    /// The wait while the coroutine is suspended.
    pub open spec fn suspended(self) -> AwaitingView {
        AwaitingView { frame: self.frame, outer: Seq::empty(), context_tlv: self.context_tlv }
    }

    /// The wait once the task `context` has resumed the coroutine on `thread`.
    pub open spec fn resumed(self, thread: ThreadView, context: TaskContext) -> AwaitingView {
        AwaitingView {
            frame: Frame { inner: self.frame.inner, context, old_tlv: thread.tlv },
            outer: thread.frames,
            context_tlv: self.context_tlv,
        }
    }

    /// The thread on which the coroutine has been resumed.
    pub open spec fn occupied(self) -> ThreadView {
        ThreadView { frames: self.outer, tlv: self.context_tlv }
    }

    /// The thread once the wait is over: `thread` is what the last poll left.
    pub open spec fn completed(self, thread: ThreadView) -> ThreadView {
        ThreadView { frames: seq![self.frame] + self.outer, tlv: thread.tlv }
    }
}

impl Awaiting {
    /// Begins to wait: the context leaves the thread, so that nothing that is
    /// polled in the meantime finds it there.
    pub fn begin(thread: &mut ThreadState) -> (awaiting: Result<Awaiting, OutsideOfContextError>)
        ensures
            awaiting is Ok <==> old(thread)@.inside(),
            match awaiting {
                Ok(begun) => {
                    &&& begun@ == AwaitingView::begun(old(thread)@)
                    &&& final(thread)@ == old(thread)@.vacated()
                    &&& begun@.frame == old(thread)@.frames[0]
                    &&& begun@.outer == old(thread)@.frames.drop_first()
                    &&& begun@.context_tlv == old(thread)@.tlv
                    &&& final(thread)@.frames.len() == 0
                    &&& final(thread)@.tlv == old(thread)@.tlv
                },
                Err(_) => final(thread)@ == old(thread)@,
            },
        opens_invariants none
    {
        let ghost before = thread.context;
        match taken(&mut thread.context) {
            None => Err(OutsideOfContextError),
            Some(cx) => {
                assert(frames_of(before).drop_first() =~= frames_of(cx.old_cx));
                Ok(Awaiting { cx, context_tlv: thread.tlv })
            },
        }
    }

    /// The task context to poll the future with.
    pub fn cx(&self) -> (context: TaskContext)
        ensures
            context == self@.frame.context,
        opens_invariants none
    {
        self.cx.context
    }

    /// The future is pending: hands the thread back to whoever resumed the
    /// coroutine, and names the yielder to suspend on.
    fn suspend(&mut self, thread: &mut ThreadState) -> (inner: usize)
        ensures
            final(thread)@ == old(self)@.released(),
            final(self)@ == old(self)@.suspended(),
            inner == old(self)@.frame.inner,
        opens_invariants none
    {
        thread.context = taken(&mut self.cx.old_cx);
        thread.tlv = self.cx.old_tlv;
        self.cx.inner
    }

    /// The suspension is over: `context` is the task that resumed the coroutine.
    pub fn resume(&mut self, thread: &mut ThreadState, context: TaskContext)
        ensures
            final(self)@ == old(self)@.resumed(old(thread)@, context),
            final(thread)@ == old(self)@.occupied(),
            final(self)@.frame == (Frame {
                inner: old(self)@.frame.inner,
                context,
                old_tlv: old(thread)@.tlv,
            }),
            final(self)@.outer == old(thread)@.frames,
            final(self)@.context_tlv == old(self)@.context_tlv,
            final(thread)@.frames == old(self)@.outer,
            final(thread)@.tlv == old(self)@.context_tlv,
        opens_invariants none
    {
        self.cx.context = context;
        self.cx.old_tlv = thread.tlv;
        thread.tlv = self.context_tlv;
        std::mem::swap(&mut thread.context, &mut self.cx.old_cx);
    }

    /// The future is ready: the context returns to the thread.
    fn complete(self, thread: &mut ThreadState)
        ensures
            final(thread)@ == self@.completed(old(thread)@),
        opens_invariants none
    {
        thread.context = Some(self.cx);
    }
}

/// What a waiting coroutine does next.
pub enum AwaitStep<T> {
    /// Suspend the coroutine on the yielder at this address, then resume the wait.
    Suspend(Awaiting, usize),
    /// Return this value to the code that waits.
    Return(T),
}

/// Whether a poll of the future with this outcome, that left `before`, leads the
/// wait to `step`, with `after` on the thread.
pub open spec fn poll_leads_to<T>(
    wait: AwaitingView,
    before: ThreadView,
    outcome: Option<T>,
    step: AwaitStep<T>,
    after: ThreadView,
) -> bool {
    match outcome {
        Some(value) => {
            &&& step == AwaitStep::Return(value)
            &&& after == wait.completed(before)
        },
        None => {
            &&& step matches AwaitStep::Suspend(suspended, inner)
            &&& suspended@ == wait.suspended()
            &&& inner == wait.frame.inner
            &&& after == wait.released()
        },
    }
}

/// Goes on after the future was polled: `outcome` is its value, if it is ready.
pub fn polled<T>(awaiting: Awaiting, thread: &mut ThreadState, outcome: Option<T>) -> (step:
    AwaitStep<T>)
    ensures
        poll_leads_to(awaiting@, old(thread)@, outcome, step, final(thread)@),
        match outcome {
            Some(value) => {
                &&& step == AwaitStep::Return(value)
                &&& final(thread)@.frames == seq![awaiting@.frame] + awaiting@.outer
                &&& final(thread)@.tlv == old(thread)@.tlv
            },
            None => {
                &&& step matches AwaitStep::Suspend(suspended, inner)
                &&& inner == awaiting@.frame.inner
                &&& suspended@.frame == awaiting@.frame
                &&& suspended@.outer.len() == 0
                &&& suspended@.context_tlv == awaiting@.context_tlv
                &&& final(thread)@.frames == awaiting@.outer
                &&& final(thread)@.tlv == awaiting@.frame.old_tlv
            },
        },
    opens_invariants none
{
    match outcome {
        Some(value) => {
            awaiting.complete(thread);
            AwaitStep::Return(value)
        },
        None => {
            let mut awaiting = awaiting;
            let inner: usize = awaiting.suspend(thread);
            AwaitStep::Suspend(awaiting, inner)
        },
    }
}

/// Whether the code that asks runs inside a coroutine.
pub fn inside_context(thread: &mut ThreadState) -> (inside: bool)
    ensures
        inside == old(thread)@.inside(),
        inside == (old(thread)@.frames.len() > 0),
        final(thread)@ == old(thread)@,
    opens_invariants none
{
    match &thread.context {
        Some(_) => true,
        None => false,
    }
}

} // verus!
