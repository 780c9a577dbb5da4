//! Laws of the jobs that an executor hands out.
use vstd::prelude::*;

use crate::channel::{still_open, Closing, Delivery, Returned};
use crate::coroutine::StackError;
use crate::executor::{BroadcastTask, Executor, Job, SpawnError, Task};
use crate::memory::{DEFAULT_STACK_BYTES, LARGEST_PAGE};
use crate::tlv::Tlv;

verus! {

/// A task that is dropped changes nothing for its job: the job can be run all the
/// same, and where it ends with nobody left to receive the result, it has called the
/// function.
pub proof fn law_dropping_a_task_leaves_its_job<F, R>(
    executor: &Executor,
    tlv: Tlv,
    f: F,
    task: Task<R>,
    done: Delivery,
) where F: FnOnce() -> R
    requires
        executor.spawned(tlv, f, Ok::<Task<R>, SpawnError>(task)),
        task.job().message().may_return(done),
        !done.received(),
    ensures
        call_requires(f, ()) ==> task.job().message().callable(),
        exists|r: R| call_ensures(f, (), r),
{
}

/// Of any number of tasks, each gets what its own function may return, and never
/// what only another one may.
pub proof fn law_tasks_get_their_own_results<F, R>(
    executor: &Executor,
    tlv: Tlv,
    fs: Seq<F>,
    tasks: Seq<Task<R>>,
    i: int,
    r: R,
) where F: FnOnce() -> R
    requires
        fs.len() == tasks.len(),
        forall|k: int|
            0 <= k < tasks.len() ==> executor.spawned(
                tlv,
                fs[k],
                Ok::<Task<R>, SpawnError>(#[trigger] tasks[k]),
            ),
        0 <= i < tasks.len(),
    ensures
        tasks[i].may_receive(r) <==> call_ensures(fs[i], (), r),
{
    assert(executor.spawned(tlv, fs[i], Ok::<Task<R>, SpawnError>(tasks[i])));
}

/// Handing a function to a worker succeeds as long as the channel of the tasks is
/// open: where no stack size is set, and the channel is never closed, there is no way
/// for it to fail.
pub proof fn law_open_executor_takes_every_task<F, R>(
    executor: &Executor,
    tlv: Tlv,
    f: F,
    task: Result<Task<R>, SpawnError>,
) where F: FnOnce() -> R
    requires
        executor.spawned(tlv, f, task),
        executor.job_stack_size() is None,
        executor.tasks_close_after() is None,
    ensures
        task is Ok,
{
}

/// The same for a broadcast, where none of the workers' channels is closed.
pub proof fn law_open_executor_takes_every_broadcast<F, G, R>(
    executor: &Executor,
    tlv: Tlv,
    g: G,
    task: Result<BroadcastTask<R>, SpawnError>,
) where G: FnMut() -> F, F: FnOnce(usize) -> R
    requires
        executor.broadcasted::<F, G, R>(tlv, g, task),
        executor.job_stack_size() is None,
        forall|i: int|
            0 <= i < executor.workers() ==> #[trigger] executor.broadcasts_close_after(i) is None,
    ensures
        task is Ok,
{
    if task is Err {
        let error = task->Err_0;
        assert(executor.refusal(error));
        if error is Closed {
            let (f, index) = choose|f: F, index: usize| #[trigger]
                executor.broadcast_returned::<F, G, R>(tlv, g, f, index, error->Closed_0);
            assert(executor.broadcasts_close_after(index as int) is None);
        }
    }
}

/// Of all attempts to hand a function to a worker, those before the closing of the
/// channel of the tasks succeed, if there is a stack, and those after it come back.
pub proof fn law_tasks_are_taken_until_the_closing<F, R>(
    executor: &Executor,
    closing: Closing,
    tlv: Tlv,
    f: F,
    task: Result<Task<R>, SpawnError>,
) where F: FnOnce() -> R
    requires
        closing.ends(executor.tasks_close_after()),
        closing.first(),
        executor.spawned(tlv, f, task),
    ensures
        match task {
            Ok(task) => task.job().at() < closing.at(),
            Err(SpawnError::Closed(back)) => closing.at() <= back.at(),
            Err(SpawnError::Stack(_)) => executor.job_stack_size() is Some,
            Err(SpawnError::OutsideOfWorker) => false,
        },
{
}

/// A stack size that leaves room for the pages around the stack is never refused as
/// too large, and one that does not always is.
pub proof fn law_only_impossible_stacks_are_too_large<F, R>(
    executor: &Executor,
    tlv: Tlv,
    f: F,
    task: Result<Task<R>, SpawnError>,
) where F: FnOnce() -> R
    requires
        executor.spawned(tlv, f, task),
    ensures
        task matches Err(SpawnError::Stack(StackError::TooLarge)) <==> {
            &&& executor.job_stack_size() matches Some(size)
            &&& size@ + 2 * LARGEST_PAGE > usize::MAX
        },
{
}

/// A job runs on a stack of at least the size that is set, or of the default size
/// where none is, with the thread-local value of the code that handed it over; and a
/// task is only sent where any worker can take it.
pub proof fn law_jobs_have_their_stack_and_value<F, R>(
    executor: &Executor,
    tlv: Tlv,
    f: F,
    task: Task<R>,
) where F: FnOnce() -> R
    requires
        executor.spawned(tlv, f, Ok::<Task<R>, SpawnError>(task)),
    ensures
        executor.job_stack_size() matches Some(size) ==> task.job().message().stack_bytes()
            >= size@,
        executor.job_stack_size() is None ==> task.job().message().stack_bytes()
            >= DEFAULT_STACK_BYTES,
        executor.job_stack_size() matches Some(size) ==> task.job().message().stack_asked()
            == Some(size@),
        task.job().message().tlv() == tlv,
        task.job().channel() == executor.task_channel(),
        forall|done: Delivery| #[trigger]
            task.job().message().may_return(done) ==> done.channel() == task.channel(),
{
}

/// The maker of a broadcast is called once for each worker, in the order of the
/// workers, and not once more. Each worker is sent one job, and when each has ended, each index has been delivered once, all to the same
/// task, which gets for each index what the function made for it returned.
pub proof fn law_broadcast_delivers_each_index_once<F, G, R>(
    executor: &Executor,
    tlv: Tlv,
    g: G,
    made: Seq<F>,
    task: BroadcastTask<R>,
    done: Seq<Delivery>,
) where G: FnMut() -> F, F: FnOnce(usize) -> R
    requires
        executor.workers() <= usize::MAX,
        executor.broadcasted_as::<F, G, R>(tlv, g, made, task),
        done.len() == task.jobs().len(),
        forall|i: int|
            0 <= i < done.len() ==> task.jobs()[i].message().may_return(#[trigger] done[i]),
    ensures
        made.len() == executor.workers(),
        task.made() == executor.workers(),
        done.len() == executor.workers(),
        forall|i: int|
            0 <= i < done.len() ==> (#[trigger] done[i]).channel() == task.channel()
                && done[i].index() == Some(i as usize) && done[i].turn() == Some(i as nat),
        forall|i: int, j: int|
            0 <= i < done.len() && 0 <= j < done.len() && (#[trigger] done[i]).index() == (
            #[trigger] done[j]).index() ==> i == j,
        forall|index: usize, r: R|
            #[trigger] task.may_receive(index, r) ==> index < executor.workers()
                && call_ensures(made[index as int], (index,), r),
{
    assert forall|i: int| 0 <= i < done.len() implies (#[trigger] done[i]).channel()
        == task.channel() && done[i].index() == Some(i as usize) && done[i].turn() == Some(
        i as nat,
    ) by {
        assert(executor.broadcast_job::<F, R>(
            tlv,
            made[i],
            task.channel(),
            i as usize,
            task.jobs()[i],
        ));
        assert(task.jobs()[i].message().may_return(done[i]));
    }
}

/// A broadcast that finds the channel of a worker closed stops there: its maker has
/// been called once for that worker and once for each one before it, and the job that
/// comes back is the one for that worker.
pub proof fn law_refused_broadcasts_stop_their_maker<F, G, R>(
    executor: &Executor,
    tlv: Tlv,
    g: G,
    back: Returned<Job>,
) where G: FnMut() -> F, F: FnOnce(usize) -> R
    requires
        executor.broadcasted::<F, G, R>(
            tlv,
            g,
            Err::<BroadcastTask<R>, SpawnError>(SpawnError::Closed(back)),
        ),
    ensures
        back.made() matches Some(made) && {
            &&& 0 < made <= executor.workers()
            &&& back.channel() == executor.broadcast_channel(made - 1)
            &&& !still_open(executor.broadcasts_close_after(made - 1), back.at())
        },
{
    let (f, index) = choose|f: F, index: usize| #[trigger]
        executor.broadcast_returned::<F, G, R>(tlv, g, f, index, back);
    assert(executor.broadcast_returned::<F, G, R>(tlv, g, f, index, back));
}

/// The job of a broadcast that delivers an index calls the function that was made
/// for that index. It was sent to the worker with that index, and to no other.
pub proof fn law_broadcast_runs_on_its_worker<F, G, R>(
    executor: &Executor,
    tlv: Tlv,
    g: G,
    made: Seq<F>,
    task: BroadcastTask<R>,
    index: usize,
    done: Delivery,
) where G: FnMut() -> F, F: FnOnce(usize) -> R
    requires
        executor.channels_apart(),
        executor.broadcasted_as::<F, G, R>(tlv, g, made, task),
        index < task.jobs().len(),
        task.jobs()[index as int].message().may_return(done),
    ensures
        done.index() == Some(index),
        exists|r: R| call_ensures(made[index as int], (index,), r),
        task.jobs()[index as int].channel() == executor.broadcast_channel(index as int),
        forall|other: int|
            0 <= other < executor.workers() && other != index
                ==> #[trigger] executor.broadcast_channel(other)
                != task.jobs()[index as int].channel(),
        task.jobs()[index as int].channel() != executor.task_channel(),
{
    assert(executor.broadcast_job::<F, R>(
        tlv,
        made[index as int],
        task.channel(),
        index,
        task.jobs()[index as int],
    ));
}

} // verus!
