//! The workers: threads that turn the jobs they receive into coroutines.
use vstd::pervasive::unreached;
use vstd::prelude::*;

use crate::call::{call_with, lending};
use crate::channel::Inlet;
use crate::config::SyncFn;
use crate::executor::{if_set, Badge, Executor, Job, Lease};
use crate::hook::sounding;

verus! {

/// What a worker is made of: its executor, where its jobs come from, and its turns
/// on the thread.
pub struct ThreadBuilder<'a> {
    broadcast_task_receiver: Inlet<Job>,
    task_receiver: Inlet<Job>,
    executor: &'a Executor,
    turns: Turns<'a>,
}

/// What a worker does next.
pub enum WorkerStep {
    /// Turn the job into a coroutine, leave it to the thread's own executor, and
    /// receive again.
    Spawn(Job),
    /// End: a channel has been closed, and nothing is left in it.
    Stop,
}

impl<'a> ThreadBuilder<'a> {
    pub closed spec fn executor(&self) -> Executor {
        *self.executor
    }

    /// Where the jobs that any worker may run come from.
    pub closed spec fn task_inlet(&self) -> Inlet<Job> {
        self.task_receiver
    }

    /// Where the jobs for this worker come from.
    pub closed spec fn broadcast_inlet(&self) -> Inlet<Job> {
        self.broadcast_task_receiver
    }

    /// The worker's turns on the thread.
    pub closed spec fn turns(&self) -> Turns<'a> {
        self.turns
    }

    /// Makes the worker with this badge, that receives from `broadcast` alone, and
    /// from `tasks` as every other worker does.
    pub fn new(
        executor: &'a Executor,
        tasks: &Inlet<Job>,
        broadcast: Inlet<Job>,
        badge: Badge,
    ) -> (worker: Self)
        requires
            badge.fresh(),
        ensures
            worker.turns().executor() == *executor,
            worker.turns().idle(),
            worker.turns().rounds() == 0,
            worker.executor() == *executor,
            worker.task_inlet().channel() == tasks.channel(),
            worker.task_inlet().promise() == tasks.promise(),
            worker.task_inlet().closes_after() == tasks.closes_after(),
            worker.broadcast_inlet() == broadcast,
        opens_invariants none
    {
        ThreadBuilder {
            broadcast_task_receiver: broadcast,
            task_receiver: tasks.share(),
            executor,
            turns: Turns::new(executor, badge),
        }
    }

    /// The worker's turns, and where its jobs come from: those that any worker may
    /// run, and those for this one.
    pub fn into_parts(self) -> (parts: (Turns<'a>, Inlet<Job>, Inlet<Job>))
        ensures
            parts.0 == self.turns(),
            parts.1 == self.task_inlet(),
            parts.2 == self.broadcast_inlet(),
        opens_invariants none
    {
        (self.turns, self.task_receiver, self.broadcast_task_receiver)
    }

    /// The executor that the worker works for.
    pub fn get_executor(&self) -> (executor: &'a Executor)
        ensures
            *executor == self.executor(),
        opens_invariants none
    {
        self.executor
    }

    /// Where the jobs that any worker may run come from.
    pub fn tasks(&self) -> (inlet: &Inlet<Job>)
        ensures
            *inlet == self.task_inlet(),
        opens_invariants none
    {
        &self.task_receiver
    }

    /// Where the jobs for this worker come from.
    pub fn broadcasts(&self) -> (inlet: &Inlet<Job>)
        ensures
            *inlet == self.broadcast_inlet(),
        opens_invariants none
    {
        &self.broadcast_task_receiver
    }
}

/// The turns that a worker has on its thread: it takes the thread, polls, and gives
/// the thread back.
pub struct Turns<'a> {
    executor: &'a Executor,
    badge: Option<Badge>,
}

/// The handlers that are called, in turn, while a worker of `executor` takes its
/// thread and gives it back `rounds` times.
pub open spec fn whole_rounds(executor: Executor, rounds: nat) -> Seq<Option<Box<dyn SyncFn>>>
    decreases rounds,
{
    if rounds == 0 {
        Seq::empty()
    } else {
        whole_rounds(executor, (rounds - 1) as nat) + if_set(executor.on_acquire()) + if_set(
            executor.on_release(),
        )
    }
}

impl<'a> Turns<'a> {
    #[verifier::type_invariant]
    spec fn wf(self) -> bool {
        self.badge matches Some(badge) ==> badge.calls() == whole_rounds(
            *self.executor,
            badge.rounds(),
        )
    }

    pub closed spec fn executor(&self) -> Executor {
        *self.executor
    }

    /// Whether the worker does not have the thread.
    pub closed spec fn idle(&self) -> bool {
        self.badge is Some
    }

    /// How often the thread was taken and given back.
    pub closed spec fn rounds(&self) -> nat {
        match self.badge {
            Some(badge) => badge.rounds(),
            None => 0,
        }
    }

    /// The handlers that have been called, in turn.
    pub closed spec fn calls(&self) -> Seq<Option<Box<dyn SyncFn>>> {
        match self.badge {
            Some(badge) => badge.calls(),
            None => Seq::empty(),
        }
    }

    /// Whether `lease` is the worker's in its next turn: the handler for the time
    /// before a poll has been called, the one for the time after it not yet.
    pub open spec fn lends(&self, lease: Lease) -> bool {
        &&& lease.rounds() == self.rounds()
        &&& lease.calls() == whole_rounds(self.executor(), self.rounds()) + if_set(
            self.executor().on_acquire(),
        )
    }

    /// The turns of a worker that has not had the thread yet.
    pub fn new(executor: &'a Executor, badge: Badge) -> (turns: Self)
        requires
            badge.fresh(),
        ensures
            turns.executor() == *executor,
            turns.idle(),
            turns.rounds() == 0,
            turns.calls() == Seq::<Option<Box<dyn SyncFn>>>::empty(),
        opens_invariants none
    {
        Turns { executor, badge: Some(badge) }
    }

    /// One turn: takes the thread, lets `poll` run what there is to run, and gives the
    /// thread back. Jobs run in `poll`, which has the lease.
    pub fn turn<P, T>(&mut self, poll: P) -> (polled: T) where P: FnOnce(&Lease) -> T
        requires
            old(self).idle(),
            forall|lease: &Lease|
                old(self).lends(*lease) ==> #[trigger] call_requires(poll, (lease,)),
        ensures
            final(self).executor() == old(self).executor(),
            final(self).idle(),
            final(self).rounds() == old(self).rounds() + 1,
            final(self).calls() == old(self).calls() + if_set(old(self).executor().on_acquire())
                + if_set(old(self).executor().on_release()),
            final(self).calls() == whole_rounds(final(self).executor(), final(self).rounds()),
            exists|lease: &Lease|
                old(self).lends(*lease) && #[trigger] call_ensures(poll, (lease,), polled),
        opens_invariants sounding(old(self).executor().on_acquire()).union(
            sounding(old(self).executor().on_release()),
        ).union(lending(poll))
    {
        proof {
            use_type_invariant(&*self);
        }
        let executor = self.executor;
        let mut turns = Turns { executor, badge: None };
        std::mem::swap(self, &mut turns);
        match turns.badge {
            Some(badge) => {
                let lease = executor.acquire_thread(badge);
                let polled = call_with(poll, &lease);
                let badge = executor.release_thread(lease);
                *self = Turns { executor, badge: Some(badge) };
                polled
            },
            None => unreached(),
        }
    }

    /// Whether the worker does not have the thread.
    pub fn is_idle(&self) -> (idle: bool)
        ensures
            idle == self.idle(),
        opens_invariants none
    {
        match &self.badge {
            Some(_) => true,
            None => false,
        }
    }
}

/// The calls of the two handlers alternate: every call that takes the thread is
/// followed by the one that gives it back.
pub proof fn law_handlers_alternate(executor: Executor, rounds: nat)
    requires
        executor.on_acquire() is Some,
        executor.on_release() is Some,
    ensures
        whole_rounds(executor, rounds).len() == 2 * rounds,
        forall|i: int|
            0 <= i < 2 * rounds ==> #[trigger] whole_rounds(executor, rounds)[i] == if i % 2 == 0 {
                executor.on_acquire()
            } else {
                executor.on_release()
            },
    decreases rounds,
{
    if rounds > 0 {
        law_handlers_alternate(executor, (rounds - 1) as nat);
    }
}

/// A handler that is set alone is called once in every turn, and nothing else is.
pub proof fn law_lone_handlers_are_called_in_every_turn(executor: Executor, rounds: nat)
    requires
        executor.on_acquire() is None || executor.on_release() is None,
    ensures
        whole_rounds(executor, rounds).len() == if executor.on_acquire() is None
            && executor.on_release() is None {
            0
        } else {
            rounds
        },
        forall|i: int|
            0 <= i < whole_rounds(executor, rounds).len() ==> #[trigger] whole_rounds(
                executor,
                rounds,
            )[i] == if executor.on_acquire() is Some {
                executor.on_acquire()
            } else {
                executor.on_release()
            },
    decreases rounds,
{
    if rounds > 0 {
        law_lone_handlers_are_called_in_every_turn(executor, (rounds - 1) as nat);
    }
}

/// The step that follows on `received`; `None` is that the channel was closed.
pub open spec fn step_on(received: Option<Job>) -> WorkerStep {
    match received {
        Some(job) => WorkerStep::Spawn(job),
        None => WorkerStep::Stop,
    }
}

/// Goes on after a worker has received from one of its channels.
pub fn on_receive(received: Option<Job>) -> (step: WorkerStep)
    ensures
        step == step_on(received),
    opens_invariants none
{
    match received {
        Some(job) => WorkerStep::Spawn(job),
        None => WorkerStep::Stop,
    }
}

/// The jobs that a worker spawns when it receives `received` in turn.
pub open spec fn spawned(received: Seq<Option<Job>>) -> Seq<Job>
    decreases received.len(),
{
    if received.len() == 0 {
        Seq::empty()
    } else {
        match step_on(received[0]) {
            WorkerStep::Spawn(job) => seq![job] + spawned(received.drop_first()),
            WorkerStep::Stop => Seq::empty(),
        }
    }
}

/// A worker spawns every job that it receives, once and in the order in which
/// they come, up to the first channel that it finds closed, and none after that.
pub proof fn law_worker_spawns_what_it_receives(jobs: Seq<Job>, rest: Seq<Option<Job>>)
    ensures
        spawned(jobs.map_values(|job: Job| Some(job)) + seq![None] + rest) == jobs,
    decreases jobs.len(),
{
    let received = jobs.map_values(|job: Job| Some(job)) + seq![None] + rest;
    if jobs.len() > 0 {
        let tail = jobs.drop_first();
        law_worker_spawns_what_it_receives(tail, rest);
        assert(received.drop_first() =~= tail.map_values(|job: Job| Some(job)) + seq![None]
            + rest);
        assert(seq![jobs[0]] + tail =~= jobs);
        assert(received[0] == Some(jobs[0]));
    } else {
        assert(received[0] == None::<Job>);
        assert(spawned(received) =~= jobs);
    }
}

} // verus!
