//! Laws of the await contexts: what a coroutine does to the threads that it runs
//! on, over any number of waits and suspensions.
use vstd::prelude::*;

use crate::context::{poll_leads_to, AwaitStep, AwaitingView, TaskContext, ThreadView};
use crate::tlv::Tlv;

verus! {

/// One resumption of a suspended coroutine: the thread as the resuming code has
/// it, and the task context that it passes.
pub struct Visit {
    pub thread: ThreadView,
    pub context: TaskContext,
}

/// A wait after it was suspended, and resumed by each of `visits` in turn.
pub open spec fn replay(wait: AwaitingView, visits: Seq<Visit>) -> AwaitingView
    decreases visits.len(),
{
    if visits.len() == 0 {
        wait
    } else {
        let before = replay(wait, visits.drop_last());
        before.suspended().resumed(visits.last().thread, visits.last().context)
    }
}

/// The thread, as the coroutine's body has it, after a whole wait that began on
/// `thread` and was resumed by each of `visits`.
///
/// Polling keeps the thread-local value, so the last poll leaves the value that
/// the wait began with or was resumed with.
pub open spec fn awaited(thread: ThreadView, visits: Seq<Visit>) -> ThreadView {
    let wait = replay(AwaitingView::begun(thread), visits);
    wait.completed(ThreadView { frames: Seq::empty(), tlv: wait.context_tlv })
}

/// The thread, as the coroutine's body has it, after each of `waits` in turn.
pub open spec fn lived(thread: ThreadView, waits: Seq<Seq<Visit>>) -> ThreadView
    decreases waits.len(),
{
    if waits.len() == 0 {
        thread
    } else {
        awaited(lived(thread, waits.drop_last()), waits.last())
    }
}

/// The thread of the last visit in `waits`, or `first` if there was none.
pub open spec fn last_visited(first: ThreadView, waits: Seq<Seq<Visit>>) -> ThreadView
    decreases waits.len(),
{
    if waits.len() == 0 {
        first
    } else if waits.last().len() > 0 {
        waits.last().last().thread
    } else {
        last_visited(first, waits.drop_last())
    }
}

/// A coroutine that runs to its end without a suspension gives the thread back
/// as it found it, and its body has the thread-local value of its maker.
pub proof fn law_leaving_undoes_entering(
    thread: ThreadView,
    inner: usize,
    context: TaskContext,
    tlv: Tlv,
)
    ensures
        thread.entered(inner, context, tlv).left() == thread,
        thread.entered(inner, context, tlv).tlv == tlv,
        thread.entered(inner, context, tlv).inside(),
{
    assert(thread.entered(inner, context, tlv).frames.drop_first() =~= thread.frames);
}

/// A suspension gives the thread back exactly as the resumption found it,
/// whatever the coroutine did to the thread in between.
pub proof fn law_suspending_undoes_resuming(
    wait: AwaitingView,
    thread: ThreadView,
    context: TaskContext,
)
    ensures
        wait.resumed(thread, context).released() == thread,
{
}

/// A future that is ready at once leaves the thread as it was.
pub proof fn law_ready_wait_changes_nothing(thread: ThreadView)
    requires
        thread.inside(),
    ensures
        AwaitingView::begun(thread).completed(thread.vacated()) == thread,
{
    assert(seq![thread.frames[0]] + thread.frames.drop_first() =~= thread.frames);
}

/// While a coroutine polls a future, the thread is outside of every context.
pub proof fn law_polling_is_outside(wait: AwaitingView, thread: ThreadView)
    ensures
        !thread.vacated().inside(),
        !wait.suspended().occupied().inside(),
{
}

/// What is polled has the thread-local value of the code that waits, and no context;
/// and the code that waits goes on with the value that the last poll has left.
///
/// The first poll has the value that the wait began with, and so has every poll
/// after a resumption, whatever value the thread had that resumed the coroutine.
pub proof fn law_polling_has_the_value_of_the_body(
    thread: ThreadView,
    visits: Seq<Visit>,
    left: ThreadView,
)
    requires
        thread.inside(),
    ensures
        thread.vacated().tlv == thread.tlv,
        thread.vacated().frames.len() == 0,
        ({
            let wait = replay(AwaitingView::begun(thread), visits);
            &&& wait.suspended().occupied().tlv == thread.tlv
            &&& wait.suspended().occupied().frames.len() == 0
            &&& wait.completed(left).tlv == left.tlv
            &&& wait.completed(left).frames.len() == wait.outer.len() + 1
            &&& wait.completed(left).frames[0] == wait.frame
            &&& forall|i: int|
                0 <= i < wait.outer.len() ==> #[trigger] wait.completed(left).frames[i + 1]
                    == wait.outer[i]
        }),
{
    law_tlv_survives_suspensions(thread, visits);
}

/// Entering puts one context on top of those that there are, which remembers the
/// value of the thread; leaving takes it off, and brings that value back.
pub proof fn law_contexts_are_a_stack(
    thread: ThreadView,
    inner: usize,
    context: TaskContext,
    tlv: Tlv,
)
    ensures
        ({
            let entered = thread.entered(inner, context, tlv);
            &&& entered.tlv == tlv
            &&& entered.frames.len() == thread.frames.len() + 1
            &&& entered.frames[0].inner == inner
            &&& entered.frames[0].context == context
            &&& entered.frames[0].old_tlv == thread.tlv
            &&& forall|i: int|
                0 <= i < thread.frames.len() ==> #[trigger] entered.frames[i + 1]
                    == thread.frames[i]
        }),
        thread.inside() ==> {
            &&& thread.left().tlv == thread.frames[0].old_tlv
            &&& thread.left().frames.len() == thread.frames.len() - 1
            &&& forall|i: int|
                0 <= i < thread.frames.len() - 1 ==> #[trigger] thread.left().frames[i]
                    == thread.frames[i + 1]
        },
{
}

/// A wait takes every context off the thread, along with the value: its own context,
/// which a suspension keeps, and those below, which a suspension gives back with the
/// value that the last resumption found.
pub proof fn law_waits_carry_the_contexts(thread: ThreadView, wait: AwaitingView)
    requires
        thread.inside(),
    ensures
        AwaitingView::begun(thread).frame == thread.frames[0],
        AwaitingView::begun(thread).context_tlv == thread.tlv,
        AwaitingView::begun(thread).outer.len() == thread.frames.len() - 1,
        forall|i: int|
            0 <= i < thread.frames.len() - 1 ==> #[trigger] AwaitingView::begun(thread).outer[i]
                == thread.frames[i + 1],
        wait.released().frames == wait.outer,
        wait.released().tlv == wait.frame.old_tlv,
        wait.suspended().frame == wait.frame,
        wait.suspended().outer.len() == 0,
        wait.suspended().context_tlv == wait.context_tlv,
{
}

/// A resumption takes over the contexts and the value of the thread that it finds,
/// and the task that it is for; the coroutine stays the same, and the value that it
/// comes back to.
pub proof fn law_resuming_takes_the_thread_over(
    wait: AwaitingView,
    thread: ThreadView,
    context: TaskContext,
)
    ensures
        wait.resumed(thread, context).frame.inner == wait.frame.inner,
        wait.resumed(thread, context).frame.context == context,
        wait.resumed(thread, context).frame.old_tlv == thread.tlv,
        wait.resumed(thread, context).outer == thread.frames,
        wait.resumed(thread, context).context_tlv == wait.context_tlv,
        wait.occupied().frames == wait.outer,
        wait.occupied().tlv == wait.context_tlv,
{
}

/// What a poll of the future leads to: where it is ready, the code that waits gets
/// its value and the value that the poll has left on the thread; where it is not, the
/// coroutine is suspended on its own yielder, and the thread is given back.
pub proof fn law_polls_lead_on<T>(
    wait: AwaitingView,
    before: ThreadView,
    outcome: Option<T>,
    step: AwaitStep<T>,
    after: ThreadView,
)
    requires
        poll_leads_to(wait, before, outcome, step, after),
    ensures
        match outcome {
            Some(value) => {
                &&& step == AwaitStep::Return(value)
                &&& after.tlv == before.tlv
                &&& after.frames.len() == wait.outer.len() + 1
                &&& after.frames[0] == wait.frame
            },
            None => {
                &&& step matches AwaitStep::Suspend(suspended, inner)
                &&& inner == wait.frame.inner
                &&& suspended@.frame == wait.frame
                &&& suspended@.context_tlv == wait.context_tlv
                &&& after.tlv == wait.frame.old_tlv
                &&& after.frames == wait.outer
            },
        },
{
}

/// What a thread is after it has resumed each of `waits` in turn, every one until
/// its coroutine suspended itself again.
pub open spec fn interleaved(
    thread: ThreadView,
    waits: Seq<AwaitingView>,
    context: TaskContext,
) -> ThreadView
    decreases waits.len(),
{
    if waits.len() == 0 {
        thread
    } else {
        let before = interleaved(thread, waits.drop_last(), context);
        waits.last().resumed(before, context).released()
    }
}

/// Coroutines that take turns on a thread, in one task, keep apart: each finds the
/// thread as it was before the first of them ran.
pub proof fn law_coroutines_keep_apart(
    thread: ThreadView,
    waits: Seq<AwaitingView>,
    context: TaskContext,
)
    ensures
        interleaved(thread, waits, context) == thread,
    decreases waits.len(),
{
    if waits.len() > 0 {
        law_coroutines_keep_apart(thread, waits.drop_last(), context);
    }
}

/// The thread-local value is preserved between awaits: every time the coroutine
/// is resumed, on whatever thread, it has the value with which it began to wait.
pub proof fn law_tlv_survives_suspensions(thread: ThreadView, visits: Seq<Visit>)
    ensures
        ({
            let wait = replay(AwaitingView::begun(thread), visits);
            &&& wait.context_tlv == thread.tlv
            &&& wait.suspended().occupied().tlv == thread.tlv
            &&& wait.frame.inner == thread.frames[0].inner
        }),
        awaited(thread, visits).tlv == thread.tlv,
    decreases visits.len(),
{
    if visits.len() > 0 {
        law_tlv_survives_suspensions(thread, visits.drop_last());
    }
}

/// Every suspension of a wait gives its thread back as the resumption before it
/// found it; the first one, as the code that ran the coroutine up to the wait
/// had it.
pub proof fn law_every_suspension_restores(thread: ThreadView, visits: Seq<Visit>, k: int)
    requires
        thread.inside(),
        0 <= k <= visits.len(),
    ensures
        replay(AwaitingView::begun(thread), visits.take(k)).released() == if k == 0 {
            thread.left()
        } else {
            visits[k - 1].thread
        },
{
    let taken = visits.take(k);
    if k > 0 {
        assert(taken.last() == visits[k - 1]);
    }
}

/// What the poll of a coroutine gives that does nothing but wait for a future, where
/// the future was polled with this outcome: the step that follows on the outcome
/// suspends the coroutine, or returns the value.
pub open spec fn poll_result<T>(step: AwaitStep<T>) -> Option<T> {
    match step {
        AwaitStep::Suspend(_, _) => None,
        AwaitStep::Return(value) => Some(value),
    }
}

/// A coroutine that waits for a future hands on what polling the future gives, one
/// poll for one poll: the poll `k` of the coroutine polls the future with the task
/// that polls the coroutine, gives what that poll gave, and where that is nothing
/// yet leaves the thread to whoever polls, as it was.
pub proof fn law_waiting_hands_on_polls<T>(
    thread: ThreadView,
    visits: Seq<Visit>,
    k: int,
    outcome: Option<T>,
    polling: ThreadView,
    step: AwaitStep<T>,
    left: ThreadView,
)
    requires
        thread.inside(),
        0 <= k <= visits.len(),
        poll_leads_to(
            replay(AwaitingView::begun(thread), visits.take(k)),
            polling,
            outcome,
            step,
            left,
        ),
    ensures
        poll_result(step) == outcome,
        replay(AwaitingView::begun(thread), visits.take(k)).frame.context == if k == 0 {
            thread.frames[0].context
        } else {
            visits[k - 1].context
        },
        outcome is None ==> left == if k == 0 {
            thread.left()
        } else {
            visits[k - 1].thread
        },
{
    law_every_suspension_restores(thread, visits, k);
    if k > 0 {
        assert(visits.take(k).last() == visits[k - 1]);
    }
}

/// After a whole wait the body has its own context back on top, with the task
/// of the last resumption, over the contexts of the thread it is now on.
pub proof fn law_wait_returns_to_its_context(thread: ThreadView, visits: Seq<Visit>)
    requires
        thread.inside(),
    ensures
        awaited(thread, visits).inside(),
        awaited(thread, visits).frames[0].inner == thread.frames[0].inner,
        awaited(thread, visits).tlv == thread.tlv,
        awaited(thread, visits).left() == if visits.len() == 0 {
            thread.left()
        } else {
            visits.last().thread
        },
        visits.len() > 0 ==> awaited(thread, visits).frames[0].context == visits.last().context,
        visits.len() == 0 ==> awaited(thread, visits) == thread,
{
    law_tlv_survives_suspensions(thread, visits);
    let wait = replay(AwaitingView::begun(thread), visits);
    assert((seq![wait.frame] + wait.outer).drop_first() =~= wait.outer);
    assert(seq![thread.frames[0]] + thread.frames.drop_first() =~= thread.frames);
}

/// Every poll of a coroutine leaves the thread as it found it: the first one finds
/// `thread`, each later one the thread of its visit. The poll that is over at the
/// suspension `k` of the wait `i` is the one of the visit before that.
pub proof fn law_every_poll_leaves_the_thread(
    thread: ThreadView,
    inner: usize,
    context: TaskContext,
    tlv: Tlv,
    waits: Seq<Seq<Visit>>,
    i: int,
    k: int,
)
    requires
        0 <= i < waits.len(),
        0 <= k <= waits[i].len(),
    ensures
        ({
            let body = lived(thread.entered(inner, context, tlv), waits.take(i));
            replay(AwaitingView::begun(body), waits[i].take(k)).released() == if k == 0 {
                last_visited(thread, waits.take(i))
            } else {
                waits[i][k - 1].thread
            }
        }),
        lived(thread.entered(inner, context, tlv), waits).left() == last_visited(thread, waits),
{
    law_life_is_transparent(thread, inner, context, tlv, waits);
    law_life_is_transparent(thread, inner, context, tlv, waits.take(i));
    let body = lived(thread.entered(inner, context, tlv), waits.take(i));
    law_every_suspension_restores(body, waits[i], k);
}

/// An entry of a thread's call stack that concerns the contexts.
pub enum Entry {
    /// The body of a coroutine that was begun here.
    Body { inner: usize, context: TaskContext, tlv: Tlv },
    /// The poll of a future that the body below waits for.
    Poll,
}

/// The thread with `entries` on its call stack, the innermost one last.
pub open spec fn stacked(thread: ThreadView, entries: Seq<Entry>) -> ThreadView
    decreases entries.len(),
{
    if entries.len() == 0 {
        thread
    } else {
        let below = stacked(thread, entries.drop_last());
        match entries.last() {
            Entry::Body { inner, context, tlv } => below.entered(inner, context, tlv),
            Entry::Poll => below.vacated(),
        }
    }
}

/// Code is inside of a context exactly when the innermost entry of its thread's
/// call stack is the body of a coroutine.
pub proof fn law_inside_is_innermost_body(thread: ThreadView, entries: Seq<Entry>)
    requires
        !thread.inside(),
    ensures
        stacked(thread, entries).inside() <==> entries.len() > 0 && entries.last() is Body,
{
}

/// A coroutine's whole life is transparent: made with the thread-local value
/// `tlv`, started on `thread`, and suspended and resumed on whatever threads
/// while it waits any number of times, its body always has `tlv` and its own
/// context, and at its end the thread it is on is as the last resumption had it.
pub proof fn law_life_is_transparent(
    thread: ThreadView,
    inner: usize,
    context: TaskContext,
    tlv: Tlv,
    waits: Seq<Seq<Visit>>,
)
    ensures
        ({
            let body = lived(thread.entered(inner, context, tlv), waits);
            &&& body.inside()
            &&& body.frames[0].inner == inner
            &&& body.tlv == tlv
            &&& body.left() == last_visited(thread, waits)
        }),
    decreases waits.len(),
{
    let start = thread.entered(inner, context, tlv);
    if waits.len() == 0 {
        law_leaving_undoes_entering(thread, inner, context, tlv);
    } else {
        law_life_is_transparent(thread, inner, context, tlv, waits.drop_last());
        law_wait_returns_to_its_context(lived(start, waits.drop_last()), waits.last());
    }
}

} // verus!
