//! The executor: jobs for a fixed number of workers.
use vstd::prelude::*;

use crate::channel::{still_open, Delivery, Inlet, Outlet, Receipt, Returned};
use crate::config::{ExecutorConfig, NonZeroUsize, SyncFn};
use crate::coroutine::{
    sync_into_coroutine, sync_into_coroutine_with_stack_size, StackError, SyncIntoCoroutine,
};
use crate::counter::{counter_add, counter_new, counter_sub, Changes, Counter, Tally};
use crate::hook::{granting, sounding};
use crate::launch::Launch;
use crate::entrust::Entrusted;
use crate::maker::{entrust, handing, making, Made, Maker};
use crate::memory::{exceeds_addresses, DEFAULT_STACK_BYTES};
use crate::naming::beginning;
use crate::plain::{append, empty_list, item, length, plain};
use crate::port::{any_of, bounded_for, seal, unbounded_for};
use crate::tlv::Tlv;

use self::handlers::{Alarm, ThreadHandlers};

mod handlers;

pub use self::handlers::{Badge, Lease};
pub use crate::hook::{if_set, Alarmed, Called};

verus! {

/// What a worker runs.
pub type Job = SyncIntoCoroutine<Delivery>;

/// Hands jobs to workers, and counts how many of the workers are not blocked.
pub struct Executor {
    unblocked_worker_count: Counter,
    task_sender: Outlet<Job>,
    alarm: Alarm,
    broadcast_senders: Vec<Outlet<Job>>,
    stack_size: Option<NonZeroUsize>,
    thread_handlers: ThreadHandlers,
}

/// Why a job could not be handed to a worker.
pub enum SpawnError {
    /// There is no stack to run it on.
    Stack(StackError),
    /// The executor has been shut down: here is the job.
    Closed(Returned<Job>),
    /// The code that asks does not run on a worker.
    OutsideOfWorker,
}

/// What asking for the executor of a worker gives on any other thread.
#[derive(Clone, Copy, Debug, PartialEq, Eq, Structural)]
pub struct OutsideOfWorkerError;

/// What waiting for a task gives where its function panicked.
#[derive(Clone, Copy, Debug, PartialEq, Eq, Structural)]
pub struct TaskPanickedError;

/// What marking a worker did to the count.
pub enum Marked {
    /// Nothing: there is no handler to call on a deadlock.
    Unwatched,
    /// The count was changed.
    Counted(Tally),
    /// The count was changed by the last worker that was not blocked, and the
    /// handler was called.
    Alarmed(Alarmed),
}

impl Marked {
    /// The change of the count, if it was changed.
    pub open spec fn tally(self) -> Option<Tally> {
        match self {
            Marked::Unwatched => None,
            Marked::Counted(tally) => Some(tally),
            Marked::Alarmed(alarmed) => Some(alarmed.tally()),
        }
    }

    /// The changes that were made, once this mark has been made after those in
    /// `before`: the mark's own change, if there is one, and no other.
    pub open spec fn logged(self, before: Seq<Tally>) -> Seq<Tally> {
        match self.tally() {
            Some(tally) => before.push(tally),
            None => before,
        }
    }
}

/// The result of a job, once there is one.
#[verifier::reject_recursive_types(R)]
pub struct Task<R> {
    result: Inlet<R>,
    job: Receipt<Job>,
}

/// The results of a job that every worker runs, each with the worker's index.
#[verifier::reject_recursive_types(R)]
pub struct BroadcastTask<R> {
    results: Inlet<(usize, R)>,
    jobs: Vec<Receipt<Job>>,
    made: Made,
}

/// An executor, the launch of its workers, and what the workers get: the ends of its
/// channels to receive from, and their badges.
pub struct Built {
    pub executor: Executor,
    pub launch: Launch,
    pub task_receiver: Inlet<Job>,
    pub broadcast_receivers: Vec<Inlet<Job>>,
    pub badges: Vec<Badge>,
}

/// Whether a worker that blocks was the last one that had not.
pub open spec fn last_to_block(before: usize) -> bool {
    before == 1
}

/// Which results a worker delivers: its index, with what `f` may return for it.
pub open spec fn results_of<F, R>(f: F, index: usize) -> spec_fn((usize, R)) -> bool where
    F: FnOnce(usize) -> R,
 {
    |result: (usize, R)| result.0 == index && call_ensures(f, (index,), result.1)
}

/// The number of bytes that the stacks of jobs have at least.
pub open spec fn stack_bytes_for(stack_size: Option<NonZeroUsize>) -> usize {
    match stack_size {
        Some(size) => size@,
        None => DEFAULT_STACK_BYTES,
    }
}

/// Which jobs workers are sent: those with a stack of the size that is set.
pub open spec fn fitted(stack_size: Option<NonZeroUsize>) -> spec_fn(Job) -> bool {
    |job: Job| job.stack_bytes() >= stack_bytes_for(stack_size)
}

impl Executor {
    #[verifier::type_invariant]
    closed spec fn wf(self) -> bool {
        &&& self.task_sender.room() is None
        &&& self.task_sender.promise() == fitted(self.stack_size)
        &&& 0 < self.broadcast_senders@.len() <= usize::MAX / 8
        &&& forall|i: int|
            0 <= i < self.broadcast_senders@.len() ==> {
                &&& (#[trigger] self.broadcast_senders@[i]).room() is None
                &&& self.broadcast_senders@[i].promise() == fitted(self.stack_size)
            }
    }

    /// The number of workers.
    pub closed spec fn workers(&self) -> nat {
        self.broadcast_senders@.len()
    }

    /// The channel of the jobs that any worker may run.
    pub closed spec fn task_channel(&self) -> int {
        self.task_sender.channel()
    }

    /// The channel of the jobs for the worker with this index.
    pub closed spec fn broadcast_channel(&self, index: int) -> int {
        self.broadcast_senders@[index].channel()
    }

    /// How many attempts to send a job that any worker may run take effect before
    /// that channel is closed; `None` where it never is.
    pub closed spec fn tasks_close_after(&self) -> Option<nat> {
        self.task_sender.closes_after()
    }

    /// The same for the jobs for the worker with this index.
    pub closed spec fn broadcasts_close_after(&self, index: int) -> Option<nat> {
        self.broadcast_senders@[index].closes_after()
    }

    /// The size of the stacks that jobs run on, where one is set.
    pub closed spec fn job_stack_size(&self) -> Option<NonZeroUsize> {
        self.stack_size
    }

    /// Whether the size that is set is one that no stack can have.
    pub open spec fn stack_too_large(&self) -> bool {
        self.job_stack_size() matches Some(size) && exceeds_addresses(size@)
    }

    /// The number of bytes that the stacks of jobs have at least.
    pub open spec fn job_stack_bytes(&self) -> usize {
        stack_bytes_for(self.job_stack_size())
    }

    /// Whether the stack of `job` was made for the size that is set, and for none
    /// where none is.
    pub open spec fn sizes(&self, job: Job) -> bool {
        match self.job_stack_size() {
            Some(size) => job.stack_asked() == Some(size@),
            None => job.stack_asked() is None,
        }
    }

    /// Whether no two of the executor's channels are the same.
    pub open spec fn channels_apart(&self) -> bool {
        &&& forall|i: int|
            0 <= i < self.workers() ==> #[trigger] self.broadcast_channel(i)
                != self.task_channel()
        &&& forall|i: int, j: int|
            0 <= i < j < self.workers() ==> #[trigger] self.broadcast_channel(i)
                != #[trigger] self.broadcast_channel(j)
    }

    /// The count of the workers that are not blocked.
    pub closed spec fn counter(&self) -> Counter {
        self.unblocked_worker_count
    }

    /// Whether `marked` is what marking a worker as blocked comes to: the count went
    /// down by one, and the handler was called if that worker was the last.
    pub open spec fn blocked(&self, marked: Marked) -> bool {
        &&& marked is Unwatched <==> self.on_deadlock() is None
        &&& marked.tally() matches Some(tally) ==> {
            &&& tally.counter() == self.counter()
            &&& tally.change() == -1
            &&& tally.in_turn()
            &&& marked is Alarmed <==> last_to_block(tally.before())
        }
        &&& marked matches Marked::Alarmed(alarmed) ==> {
            &&& alarmed.called() matches Some(called)
            &&& called.handler() == self.on_deadlock()
            &&& alarmed.calls() == if_set(self.on_deadlock())
        }
    }

    /// Whether `marked` is what marking a worker as unblocked comes to: the count
    /// went up by one.
    pub open spec fn unblocked(&self, marked: Marked) -> bool {
        &&& marked is Unwatched <==> self.on_deadlock() is None
        &&& !(marked is Alarmed)
        &&& marked.tally() matches Some(tally) ==> {
            &&& tally.counter() == self.counter()
            &&& tally.change() == 1
            &&& tally.in_turn()
        }
    }

    /// Whether `job` runs with `tlv` on a stack of the size that is set, calls `f`,
    /// and ends with a delivery.
    pub open spec fn runs<F, R>(&self, job: Job, tlv: Tlv, f: F) -> bool where F: FnOnce() -> R {
        &&& job.tlv() == tlv
        &&& job.stack_bytes() >= self.job_stack_bytes()
        &&& self.sizes(job)
        &&& call_requires(f, ()) ==> job.callable()
        &&& forall|done: Delivery| #[trigger]
            job.may_return(done) ==> exists|r: R| call_ensures(f, (), r)
    }

    /// Whether `job` runs with `tlv` on a stack of the size that is set, calls `f` with
    /// `index`, and ends with a delivery of that index. `f` is the function that its
    /// maker made in that turn.
    pub open spec fn runs_indexed<F, R>(&self, job: Job, tlv: Tlv, f: F, index: usize) -> bool where
        F: FnOnce(usize) -> R,
     {
        &&& job.tlv() == tlv
        &&& job.stack_bytes() >= self.job_stack_bytes()
        &&& self.sizes(job)
        &&& call_requires(f, (index,)) ==> job.callable()
        &&& forall|done: Delivery| #[trigger]
            job.may_return(done) ==> {
                &&& done.index() == Some(index)
                &&& done.turn() == Some(index as nat)
                &&& exists|r: R| call_ensures(f, (index,), r)
            }
    }

    /// What comes of handing `f` to a worker: a job that any worker may run was
    /// sent, which runs with `tlv`, calls `f` and sends the result to the task, which
    /// gets nothing but what `f` may return; or there was no stack of the size that
    /// is set; or the executor is shut down.
    pub open spec fn spawned<F, R>(
        &self,
        tlv: Tlv,
        f: F,
        task: Result<Task<R>, SpawnError>,
    ) -> bool where F: FnOnce() -> R {
        &&& task matches Ok(task) ==> {
            &&& task.job().channel() == self.task_channel()
            &&& still_open(self.tasks_close_after(), task.job().at())
            &&& self.runs::<F, R>(task.job().message(), tlv, f)
            &&& forall|done: Delivery| #[trigger]
                task.job().message().may_return(done) ==> done.channel() == task.channel()
            &&& forall|r: R| #[trigger] task.may_receive(r) == call_ensures(f, (), r)
        }
        &&& task matches Err(error) ==> self.refusal(error)
        &&& task matches Err(SpawnError::Closed(back)) ==> {
            &&& back.channel() == self.task_channel()
            &&& !still_open(self.tasks_close_after(), back.at())
            &&& back.made() is None
            &&& self.runs::<F, R>(back.message(), tlv, f)
        }
        &&& self.stack_too_large() ==> task == Err::<Task<R>, SpawnError>(
            SpawnError::Stack(StackError::TooLarge),
        )
    }

    /// What comes of handing each worker a function that `g` makes: each worker was
    /// sent its job; or the same as for a single job.
    pub open spec fn broadcasted<F, G, R>(
        &self,
        tlv: Tlv,
        g: G,
        task: Result<BroadcastTask<R>, SpawnError>,
    ) -> bool where G: FnMut() -> F, F: FnOnce(usize) -> R {
        &&& task matches Ok(task) ==> exists|made: Seq<F>| #[trigger]
            self.broadcasted_as::<F, G, R>(tlv, g, made, task)
        &&& task matches Err(error) ==> self.refusal(error)
        &&& task matches Err(SpawnError::Closed(back)) ==> exists|f: F, index: usize| #[trigger]
            self.broadcast_returned::<F, G, R>(tlv, g, f, index, back)
        &&& task matches Err(SpawnError::Stack(StackError::Refused(refusal))) ==> {
            &&& refusal.made() matches Some(made)
            &&& 0 < made <= self.workers()
        }
        &&& self.stack_too_large() ==> task == Err::<BroadcastTask<R>, SpawnError>(
            SpawnError::Stack(StackError::TooLarge),
        )
    }

    /// Whether `g` was called once for each worker and made the functions `made`, each
    /// worker was sent the job that calls its own, and the results are what those return.
    pub open spec fn broadcasted_as<F, G, R>(
        &self,
        tlv: Tlv,
        g: G,
        made: Seq<F>,
        task: BroadcastTask<R>,
    ) -> bool where G: FnMut() -> F, F: FnOnce(usize) -> R {
        &&& made.len() == self.workers()
        &&& task.made() == self.workers()
        &&& task.jobs().len() == self.workers()
        &&& forall|i: int| 0 <= i < made.len() ==> call_ensures(g, (), #[trigger] made[i])
        &&& forall|i: int|
            0 <= i < self.workers() ==> self.broadcast_job::<F, R>(
                tlv,
                made[i],
                task.channel(),
                i as usize,
                #[trigger] task.jobs()[i],
            )
        &&& forall|index: usize, r: R| #[trigger]
            task.may_receive(index, r) <==> index < self.workers() && call_ensures(
                made[index as int],
                (index,),
                r,
            )
    }

    /// Whether `error` can be what a job is refused with.
    pub open spec fn refusal(&self, error: SpawnError) -> bool {
        match error {
            SpawnError::Stack(StackError::TooLarge) => self.stack_too_large(),
            SpawnError::Stack(StackError::Refused(refusal)) => {
                &&& self.job_stack_size() matches Some(size)
                &&& refusal.asked() == size@
                &&& !self.stack_too_large()
            },
            SpawnError::Closed(_) => !self.stack_too_large(),
            SpawnError::OutsideOfWorker => false,
        }
    }

    /// Whether `receipt` says that the worker with this index was sent a job that
    /// runs with `tlv`, calls `f` with the index, and sends the index and the result
    /// into `channel`.
    pub open spec fn broadcast_job<F, R>(
        &self,
        tlv: Tlv,
        f: F,
        channel: int,
        index: usize,
        receipt: Receipt<Job>,
    ) -> bool where F: FnOnce(usize) -> R {
        &&& receipt.channel() == self.broadcast_channel(index as int)
        &&& still_open(self.broadcasts_close_after(index as int), receipt.at())
        &&& self.runs_indexed::<F, R>(receipt.message(), tlv, f, index)
        &&& forall|done: Delivery| #[trigger]
            receipt.message().may_return(done) ==> done.channel() == channel
    }

    /// Whether `back` is the job for the worker with this index, which was to call the
    /// function `f` that `g` made, and was not sent; `g` has not been called again.
    pub open spec fn broadcast_returned<F, G, R>(
        &self,
        tlv: Tlv,
        g: G,
        f: F,
        index: usize,
        back: Returned<Job>,
    ) -> bool where G: FnMut() -> F, F: FnOnce(usize) -> R {
        &&& call_ensures(g, (), f)
        &&& index < self.workers()
        &&& back.channel() == self.broadcast_channel(index as int)
        &&& !still_open(self.broadcasts_close_after(index as int), back.at())
        &&& back.made() == Some(index as nat + 1)
        &&& self.runs_indexed::<F, R>(back.message(), tlv, f, index)
    }

    /// What is called when the last unblocked worker blocks.
    pub closed spec fn on_deadlock(&self) -> Option<Box<dyn SyncFn>> {
        self.alarm.handler()
    }

    /// What is called before a worker polls.
    pub closed spec fn on_acquire(&self) -> Option<Box<dyn SyncFn>> {
        self.thread_handlers.on_acquire()
    }

    /// What is called after a worker has polled.
    pub closed spec fn on_release(&self) -> Option<Box<dyn SyncFn>> {
        self.thread_handlers.on_release()
    }
}

impl<R> Task<R> {
    /// The channel that the result comes through.
    pub closed spec fn channel(&self) -> int {
        self.result.channel()
    }

    /// Whether `r` may come through that channel.
    pub closed spec fn may_receive(&self, r: R) -> bool {
        (self.result.promise())(r)
    }

    /// The receiver of the result.
    pub closed spec fn raw(&self) -> async_channel::Receiver<R> {
        self.result.raw()
    }

    /// The proof that the job was sent.
    pub closed spec fn job(&self) -> Receipt<Job> {
        self.job
    }
}

impl<R> BroadcastTask<R> {
    /// The channel that the results come through.
    pub closed spec fn channel(&self) -> int {
        self.results.channel()
    }

    /// Whether `r` may come through that channel with `index`.
    pub closed spec fn may_receive(&self, index: usize, r: R) -> bool {
        (self.results.promise())((index, r))
    }

    /// The receiver of the results.
    pub closed spec fn raw(&self) -> async_channel::Receiver<(usize, R)> {
        self.results.raw()
    }

    /// How often the function was called that makes the jobs' functions.
    pub closed spec fn made(&self) -> nat {
        self.made.count()
    }

    /// The proofs that the jobs were sent, in the order of the workers.
    pub closed spec fn jobs(&self) -> Seq<Receipt<Job>> {
        self.jobs@
    }
}

impl Executor {
    /// Sets up an executor for `num_threads` workers, none of them blocked: one
    /// channel for the jobs that any worker may run, and one for each worker.
    pub fn build_scoped(config: ExecutorConfig, num_threads: NonZeroUsize) -> (built: Built)
        requires
            config.callable(),
            config.num_threads matches Some(threads_set) ==> num_threads@ == threads_set@,
            num_threads@ <= usize::MAX / 8,
        ensures
            built.executor.workers() == num_threads@,
            built.executor.counter().start() == num_threads@,
            built.executor.task_channel() == built.task_receiver.channel(),
            built.executor.tasks_close_after() == built.task_receiver.closes_after(),
            built.executor.channels_apart(),
            built.task_receiver.promise() == fitted(config.stack_size),
            built.broadcast_receivers@.len() == num_threads@,
            forall|i: int|
                0 <= i < num_threads@ ==> {
                    &&& built.executor.broadcast_channel(i) == (
                    #[trigger] built.broadcast_receivers@[i]).channel()
                    &&& built.executor.broadcasts_close_after(i)
                        == built.broadcast_receivers@[i].closes_after()
                    &&& built.broadcast_receivers@[i].promise() == fitted(config.stack_size)
                },
            built.badges@.len() == num_threads@,
            forall|i: int| 0 <= i < num_threads@ ==> (#[trigger] built.badges@[i]).fresh(),
            built.launch.workers() == num_threads@,
            built.launch.started() == 0,
            built.launch.named() == 0,
            built.launch.naming() == config.thread_name,
            built.launch.stack_size() == config.stack_size,
            built.executor.job_stack_size() == config.stack_size,
            built.executor.on_deadlock() == config.deadlock_handler,
            built.executor.on_acquire() == config.acquire_thread_handler,
            built.executor.on_release() == config.release_thread_handler,
        opens_invariants plain().union(granting()).union(beginning())
    {
        let threads: usize = num_threads.get();
        let ghost promise = fitted(config.stack_size);
        let mut broadcast_senders: Vec<Outlet<Job>> = empty_list();
        let mut broadcast_receivers: Vec<Inlet<Job>> = empty_list();
        let mut badges: Vec<Badge> = empty_list();
        let mut opened: usize = 0;
        while opened < threads
            invariant
                opened <= threads <= usize::MAX / 8,
                broadcast_senders@.len() == opened,
                broadcast_receivers@.len() == opened,
                badges@.len() == opened,
                forall|i: int|
                    0 <= i < opened ==> {
                        &&& (#[trigger] broadcast_senders@[i]).room() is None
                        &&& broadcast_senders@[i].promise() == promise
                    },
                forall|i: int|
                    0 <= i < opened ==> {
                        &&& broadcast_senders@[i].channel() == (
                        #[trigger] broadcast_receivers@[i]).channel()
                        &&& broadcast_senders@[i].closes_after()
                            == broadcast_receivers@[i].closes_after()
                        &&& broadcast_receivers@[i].promise() == promise
                    },
                forall|i: int, j: int|
                    0 <= i < j < opened ==> (#[trigger] broadcast_receivers@[i]).channel() != (
                    #[trigger] broadcast_receivers@[j]).channel(),
                forall|i: int| 0 <= i < opened ==> (#[trigger] badges@[i]).fresh(),
            decreases threads - opened,
        {
            let (sender, receiver) = unbounded_for(&broadcast_receivers, Ghost(promise));
            append(&mut broadcast_senders, sender);
            append(&mut broadcast_receivers, receiver);
            append(&mut badges, Badge::new());
            opened = opened + 1;
        }
        let (task_sender, task_receiver) = unbounded_for(&broadcast_receivers, Ghost(promise));
        let executor = Executor {
            unblocked_worker_count: counter_new(threads),
            task_sender,
            alarm: Alarm::new(config.deadlock_handler),
            broadcast_senders,
            stack_size: config.stack_size,
            thread_handlers: ThreadHandlers::new(
                config.acquire_thread_handler,
                config.release_thread_handler,
            ),
        };
        assert forall|i: int| 0 <= i < threads implies #[trigger] executor.broadcast_channel(i)
            == broadcast_receivers@[i].channel() by {
            assert(broadcast_receivers@[i].promise() == promise);
        }
        let launch = Launch::new(config.thread_name, config.stack_size, num_threads);
        Built { executor, launch, task_receiver, broadcast_receivers, badges }
    }

    pub fn num_threads(&self) -> (threads: usize)
        ensures
            threads == self.workers(),
            threads > 0,
        opens_invariants plain()
    {
        proof {
            use_type_invariant(self);
        }
        length(&self.broadcast_senders)
    }

    /// The job that runs `f` with the thread-local value `tlv`, on a stack of the
    /// size that is set.
    fn job<F>(&self, tlv: Tlv, f: F) -> (job: Result<Job, SpawnError>) where
        F: FnOnce() -> Delivery + Send + 'static,

        ensures
            job matches Ok(job) ==> {
                &&& job.tlv() == tlv
                &&& job.stack_bytes() >= self.job_stack_bytes()
                &&& self.sizes(job)
                &&& job.callable() == call_requires(f, ())
                &&& forall|done: Delivery| job.may_return(done) == call_ensures(f, (), done)
            },
            job matches Err(error) ==> error is Stack && self.refusal(error),
            job matches Err(SpawnError::Stack(StackError::Refused(refusal)))
                ==> refusal.made() is None,
            self.stack_too_large() <==> job == Err::<Job, SpawnError>(
                SpawnError::Stack(StackError::TooLarge),
            ),
        opens_invariants plain()
    {
        match self.stack_size {
            Some(stack_size) => {
                match sync_into_coroutine_with_stack_size(stack_size.get(), tlv, f) {
                    Ok(job) => Ok(job),
                    Err(error) => Err(SpawnError::Stack(error)),
                }
            },
            None => Ok(sync_into_coroutine(tlv, f)),
        }
    }

    /// Hands `f` to whichever worker is free, to be run with the thread-local
    /// value `tlv` of this thread.
    pub fn spawn<F, R>(&self, tlv: Tlv, f: F) -> (task: Result<Task<R>, SpawnError>) where
        F: FnOnce() -> R + Send + 'static,
        R: Send + 'static,

        ensures
            self.spawned(tlv, f, task),
        opens_invariants plain().union(handing(f))
    {
        proof {
            use_type_invariant(self);
        }
        let (result_sender, result_receiver) = bounded_for(
            1,
            Ghost(|r: R| call_ensures(f, (), r)),
        );
        let (f, stamp) = entrust(f);
        let main = move || -> (done: Delivery)
            requires
                call_requires(f.f(), ()),
                result_sender.room() == Some(1usize),
                forall|r: R|
                    call_ensures(f.f(), (), r) ==> #[trigger] (result_sender.promise())(r),
            ensures
                done.channel() == result_sender.channel(),
                exists|r: R| call_ensures(f.f(), (), r),
            { run_task(f, result_sender) };
        match self.job(tlv, main) {
            Ok(job) => match self.task_sender.send(job, stamp) {
                Ok(receipt) => Ok(Task { result: result_receiver, job: receipt }),
                Err(back) => Err(SpawnError::Closed(back)),
            },
            Err(error) => Err(error),
        }
    }

    /// Hands each worker a function that `g` makes for it, to be run with the
    /// worker's index and the thread-local value `tlv` of this thread.
    pub fn broadcast<F, G, R>(&self, tlv: Tlv, g: G) -> (task: Result<
        BroadcastTask<R>,
        SpawnError,
    >) where G: FnMut() -> F, F: FnOnce(usize) -> R + Send + 'static, R: Send + 'static,
        requires
            call_requires(g, ()),
        ensures
            self.broadcasted::<F, G, R>(tlv, g, task),
        opens_invariants plain().union(making(g, self.workers()))
    {
        proof {
            use_type_invariant(self);
        }
        let threads: usize = length(&self.broadcast_senders);
        let mut maker = Maker::new(g, threads);
        let (result_sender, results) = bounded_for(threads, Ghost(|result: (usize, R)| true));
        let mut result_sender = result_sender;
        let mut jobs: Vec<Receipt<Job>> = empty_list();
        let mut index: usize = 0;
        while index < threads
            invariant
                self.wf(),
                index <= threads,
                threads == self.broadcast_senders@.len(),
                self.stack_too_large() ==> index == 0,
                call_requires(g, ()),
                maker.g() == g,
                maker.limit() == threads,
                maker.made().len() == index,
                forall|i: int|
                    0 <= i < index ==> call_ensures(g, (), #[trigger] maker.made()[i]),
                result_sender.origin(),
                result_sender.promise() == (|result: (usize, R)| true),
                result_sender.channel() == results.channel(),
                result_sender.room() == Some((threads - index) as usize),
                result_sender.shares().len() == index,
                forall|i: int|
                    0 <= i < index ==> #[trigger] result_sender.shares()[i] == results_of::<F, R>(
                        maker.made()[i],
                        i as usize,
                    ),
                jobs@.len() == index,
                forall|i: int|
                    0 <= i < index ==> self.broadcast_job::<F, R>(
                        tlv,
                        maker.made()[i],
                        results.channel(),
                        i as usize,
                        #[trigger] jobs@[i],
                    ),
            decreases threads - index,
        {
            let (f, stamp, next) = maker.make();
            maker = next;
            let ghost function = f.f();
            let result = result_sender.share(Ghost(results_of::<F, R>(function, index)));
            let main = move || -> (done: Delivery)
                requires
                    call_requires(f.f(), (index,)),
                    result.room() == Some(1usize),
                    result.promise() == results_of::<F, R>(f.f(), index),
                ensures
                    done.channel() == result.channel(),
                    done.index() == Some(index),
                    done.turn() == Some(f.turn()),
                    exists|r: R| call_ensures(f.f(), (index,), r),
                { run_broadcast(index, f, result) };
            match self.job(tlv, main) {
                Ok(job) => {
                    assert forall|done: Delivery| #[trigger]
                        job.may_return(done) implies (exists|r: R|
                        call_ensures(function, (index,), r)) by {
                        assert(call_ensures(main, (), done));
                    }
                    assert(self.runs_indexed::<F, R>(job, tlv, function, index));
                    match item(&self.broadcast_senders, index).send(job, stamp) {
                        Ok(receipt) => {
                            append(&mut jobs, receipt);
                        },
                        Err(back) => {
                            let error = SpawnError::Closed(back.after(maker.finish()));
                            assert(self.broadcast_returned::<F, G, R>(
                                tlv,
                                g,
                                function,
                                index,
                                error->Closed_0,
                            ));
                            return Err(error);
                        },
                    }
                },
                Err(SpawnError::Stack(StackError::Refused(refusal))) => {
                    let refusal = refusal.after(maker.finish());
                    return Err(SpawnError::Stack(StackError::Refused(refusal)));
                },
                Err(error) => {
                    return Err(error);
                },
            }
            index = index + 1;
        }
        let ghost made = maker.made();
        let ghost shares = result_sender.shares();
        let task = BroadcastTask {
            results: seal(result_sender, results),
            jobs,
            made: maker.finish(),
        };
        assert forall|index: usize, r: R| #[trigger]
            task.may_receive(index, r) <==> index < self.workers() && call_ensures(
            made[index as int],
            (index,),
            r,
        ) by {
            let result = (index, r);
            if index < self.workers() && call_ensures(made[index as int], (index,), r) {
                assert((shares[index as int])(result));
                assert(any_of(shares, result));
            }
        }
        let task: Result<BroadcastTask<R>, SpawnError> = Ok(task);
        assert(self.broadcasted_as::<F, G, R>(tlv, g, made, task->Ok_0));
        task
    }
}

impl Executor {
    /// Marks the worker on this thread as unblocked again.
    pub fn mark_unblocked(&self, log: &mut Changes) -> (marked: Marked)
        ensures
            self.unblocked(marked),
            final(log).made() == marked.logged(old(log).made()),
            match marked.tally() {
                Some(tally) => {
                    &&& tally.follows(old(log).made())
                    &&& final(log).made() == old(log).made().push(tally)
                },
                None => final(log).made() == old(log).made(),
            },
            final(log).made().len() == old(log).made().len() + if self.on_deadlock() is Some {
                1int
            } else {
                0
            },
        opens_invariants none
    {
        if self.alarm.is_set() {
            Marked::Counted(counter_add(&self.unblocked_worker_count, 1, log))
        } else {
            Marked::Unwatched
        }
    }

    /// Marks the worker on this thread as blocked. Where it was the last one that
    /// was not, the handler for deadlocks is called.
    pub fn mark_blocked(&self, log: &mut Changes) -> (marked: Marked)
        ensures
            self.blocked(marked),
            final(log).made() == marked.logged(old(log).made()),
            match marked.tally() {
                Some(tally) => {
                    &&& tally.follows(old(log).made())
                    &&& final(log).made() == old(log).made().push(tally)
                },
                None => final(log).made() == old(log).made(),
            },
            final(log).made().len() == old(log).made().len() + if self.on_deadlock() is Some {
                1int
            } else {
                0
            },
        opens_invariants sounding(self.on_deadlock())
    {
        if self.alarm.is_set() {
            let tally = counter_sub(&self.unblocked_worker_count, 1, log);
            if tally.found() == 1 {
                Marked::Alarmed(self.alarm.sound(tally))
            } else {
                Marked::Counted(tally)
            }
        } else {
            Marked::Unwatched
        }
    }

    /// Calls the handler for the time before the worker with this badge polls.
    pub fn acquire_thread(&self, badge: Badge) -> (lease: Lease)
        ensures
            lease.rounds() == badge.rounds(),
            lease.calls() == badge.calls() + if_set(self.on_acquire()),
            lease.called() is Some <==> self.on_acquire() is Some,
            lease.called() matches Some(called) ==> called.handler() == self.on_acquire(),
        opens_invariants sounding(self.on_acquire())
    {
        self.thread_handlers.acquire(badge)
    }

    /// Calls the handler for the time after the worker with this lease has polled.
    pub fn release_thread(&self, lease: Lease) -> (badge: Badge)
        ensures
            badge.rounds() == lease.rounds() + 1,
            badge.calls() == lease.calls() + if_set(self.on_release()),
            badge.called() is Some <==> self.on_release() is Some,
            badge.called() matches Some(called) ==> called.handler() == self.on_release(),
        opens_invariants sounding(self.on_release())
    {
        self.thread_handlers.release(lease)
    }
}

impl<R> Task<R> {
    /// The receiver of the result.
    pub fn into_receiver(self) -> (receiver: async_channel::Receiver<R>)
        ensures
            receiver == self.raw(),
        opens_invariants none
    {
        self.result.into_receiver()
    }

    /// What the task ends with, from what came through its channel: nothing comes
    /// where the function panicked.
    pub fn outcome(received: Option<R>) -> (outcome: Result<R, TaskPanickedError>)
        ensures
            outcome == match received {
                Some(r) => Ok::<R, TaskPanickedError>(r),
                None => Err(TaskPanickedError),
            },
        opens_invariants none
    {
        match received {
            Some(r) => Ok(r),
            None => Err(TaskPanickedError),
        }
    }
}

impl<R> BroadcastTask<R> {
    /// The receiver of the results.
    pub fn into_receiver(self) -> (receiver: async_channel::Receiver<(usize, R)>)
        ensures
            receiver == self.raw(),
        opens_invariants none
    {
        self.results.into_receiver()
    }
}

/// Marks the worker on this thread as blocked, where there is one.
pub fn mark_blocked(current: Option<&Executor>, log: &mut Changes) -> (marked: Result<
    Marked,
    OutsideOfWorkerError,
>)
    ensures
        marked is Ok <==> current is Some,
        match marked {
            Ok(marked) => {
                &&& current->0.blocked(marked)
                &&& final(log).made() == marked.logged(old(log).made())
                &&& marked.tally() matches Some(tally) ==> tally.follows(old(log).made())
                &&& final(log).made().len() == old(log).made().len()
                    + if current->0.on_deadlock() is Some {
                    1int
                } else {
                    0
                }
            },
            Err(_) => final(log).made() == old(log).made(),
        },
    opens_invariants match current {
        Some(executor) => sounding(executor.on_deadlock()),
        None => Set::empty(),
    }
{
    match current {
        Some(executor) => Ok(executor.mark_blocked(log)),
        None => Err(OutsideOfWorkerError),
    }
}

/// Marks the worker on this thread as unblocked again, where there is one.
pub fn mark_unblocked(current: Option<&Executor>, log: &mut Changes) -> (marked: Result<
    Marked,
    OutsideOfWorkerError,
>)
    ensures
        marked is Ok <==> current is Some,
        match marked {
            Ok(marked) => {
                &&& current->0.unblocked(marked)
                &&& final(log).made() == marked.logged(old(log).made())
                &&& marked.tally() matches Some(tally) ==> tally.follows(old(log).made())
                &&& final(log).made().len() == old(log).made().len()
                    + if current->0.on_deadlock() is Some {
                    1int
                } else {
                    0
                }
            },
            Err(_) => final(log).made() == old(log).made(),
        },
    opens_invariants none
{
    match current {
        Some(executor) => Ok(executor.mark_unblocked(log)),
        None => Err(OutsideOfWorkerError),
    }
}

/// The number of workers of the executor that this thread works for.
pub fn num_threads(current: Option<&Executor>) -> (threads: Result<usize, OutsideOfWorkerError>)
    ensures
        threads is Ok <==> current is Some,
        threads matches Ok(threads) ==> threads == current->0.workers(),
    opens_invariants plain()
{
    match current {
        Some(executor) => Ok(executor.num_threads()),
        None => Err(OutsideOfWorkerError),
    }
}

/// Hands `f` to a worker of the executor that this thread works for.
pub fn spawn<F, R>(current: Option<&Executor>, tlv: Tlv, f: F) -> (task: Result<
    Task<R>,
    SpawnError,
>) where F: FnOnce() -> R + Send + 'static, R: Send + 'static,
    ensures
        task == Err::<Task<R>, SpawnError>(SpawnError::OutsideOfWorker) <==> current is None,
        current matches Some(executor) ==> executor.spawned(tlv, f, task),
    opens_invariants plain().union(handing(f))
{
    match current {
        Some(executor) => executor.spawn(tlv, f),
        None => Err(SpawnError::OutsideOfWorker),
    }
}

/// Hands each worker of the executor that this thread works for a function that
/// `g` makes for it.
pub fn broadcast<F, G, R>(current: Option<&Executor>, tlv: Tlv, g: G) -> (task: Result<
    BroadcastTask<R>,
    SpawnError,
>) where G: FnMut() -> F, F: FnOnce(usize) -> R + Send + 'static, R: Send + 'static,
    requires
        current is Some ==> call_requires(g, ()),
    ensures
        task == Err::<BroadcastTask<R>, SpawnError>(SpawnError::OutsideOfWorker) <==> current
            is None,
        current matches Some(executor) ==> executor.broadcasted::<F, G, R>(tlv, g, task),
    opens_invariants match current {
        Some(executor) => plain().union(making(g, executor.workers())),
        None => Set::empty(),
    }
{
    match current {
        Some(executor) => executor.broadcast(tlv, g),
        None => Err(SpawnError::OutsideOfWorker),
    }
}

/// Runs a task: sends what `f` returns to whoever waits for it.
fn run_task<F, R>(f: Entrusted<F>, result: Outlet<R>) -> (done: Delivery) where F: FnOnce() -> R,
    requires
        call_requires(f.f(), ()),
        result.room() == Some(1usize),
        forall|r: R| call_ensures(f.f(), (), r) ==> #[trigger] (result.promise())(r),
    ensures
        done.channel() == result.channel(),
        exists|r: R| call_ensures(f.f(), (), r),
{
    result.deliver(f.call())
}

/// Runs a worker's part of a broadcast: sends the worker's index and what `f`
/// returns for it to whoever waits for the results.
fn run_broadcast<F, R>(index: usize, f: Entrusted<F>, result: Outlet<(usize, R)>) -> (done:
    Delivery) where F: FnOnce(usize) -> R,
    requires
        call_requires(f.f(), (index,)),
        result.room() == Some(1usize),
        result.promise() == results_of::<F, R>(f.f(), index),
    ensures
        done.channel() == result.channel(),
        done.index() == Some(index),
        done.turn() == Some(f.turn()),
        exists|r: R| call_ensures(f.f(), (index,), r),
{
    let ghost turn = f.turn();
    let r = f.call_at(index);
    result.deliver_indexed(index, r, Ghost(turn))
}

} // verus!
