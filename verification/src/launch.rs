//! The launch of an executor's workers, one thread after the other.
use vstd::pervasive::unreached;
use vstd::prelude::*;

use crate::config::{NonZeroUsize, ThreadNameFn};
use crate::naming::{beginning, naming, Naming};

verus! {

/// What the thread of a worker is started with.
pub struct WorkerSettings {
    pub index: usize,
    pub name: Option<String>,
    pub stack_size: Option<NonZeroUsize>,
}

/// What a launch does next.
pub enum LaunchStep<E> {
    /// Start the thread of a worker.
    Start(WorkerSettings),
    /// All workers have started: run what the executor is for, then close the
    /// channel of the tasks.
    Run,
    /// A thread could not be started: close the channel of the tasks, join the
    /// workers that have started, and fail with the error.
    Abort { join: usize, error: E },
}

/// The steps of a launch, without what they carry.
pub enum LaunchMove {
    Start(nat),
    Run,
    Abort(nat),
}

impl<E> LaunchStep<E> {
    pub open spec fn kind(&self) -> LaunchMove {
        match *self {
            LaunchStep::Start(settings) => LaunchMove::Start(settings.index as nat),
            LaunchStep::Run => LaunchMove::Run,
            LaunchStep::Abort { join, error } => LaunchMove::Abort(join as nat),
        }
    }
}

/// The step of a launch in which no start has failed.
pub open spec fn next_move(workers: nat, started: nat) -> LaunchMove {
    if started < workers {
        LaunchMove::Start(started)
    } else {
        LaunchMove::Run
    }
}

/// The step after the thread of the worker `started` was to be started.
pub open spec fn move_after(workers: nat, started: nat, success: bool) -> LaunchMove {
    if success {
        next_move(workers, started + 1)
    } else {
        LaunchMove::Abort(started)
    }
}

/// The launch of a number of workers, of which some have started.
pub struct Launch {
    thread_name: Option<Naming>,
    stack_size: Option<NonZeroUsize>,
    num_threads: usize,
    started: usize,
}

impl Launch {
    #[verifier::type_invariant]
    closed spec fn wf(self) -> bool {
        &&& self.started <= self.num_threads
        &&& self.num_threads > 0 ==> self.thread_name is Some
    }

    /// The number of workers to start.
    pub closed spec fn workers(&self) -> nat {
        self.num_threads as nat
    }

    /// The number of workers that have started.
    pub closed spec fn started(&self) -> nat {
        self.started as nat
    }

    /// What names the threads.
    pub closed spec fn naming(&self) -> Option<Box<dyn ThreadNameFn>> {
        match self.thread_name {
            Some(thread_name) => thread_name.function(),
            None => None,
        }
    }

    /// For how many workers, from the first one on, a name has been asked for.
    pub closed spec fn named(&self) -> nat {
        match self.thread_name {
            Some(thread_name) => thread_name.named(),
            None => 0,
        }
    }

    /// The size of the threads' stacks, where one is set.
    pub closed spec fn stack_size(&self) -> Option<NonZeroUsize> {
        self.stack_size
    }

    /// Whether `settings` follow the configuration, for the worker that they are for.
    pub open spec fn settles(&self, settings: WorkerSettings) -> bool {
        &&& settings.stack_size == self.stack_size()
        &&& settings.name is Some <==> self.naming() is Some
        &&& self.naming() matches Some(naming) ==> naming.may_name(
            settings.index,
            settings.name->0@,
        )
    }

    /// Whether `step` is what comes next while no start has failed.
    pub open spec fn continues<E>(&self, step: LaunchStep<E>) -> bool {
        &&& step.kind() == next_move(self.workers(), self.started())
        &&& step matches LaunchStep::Start(settings) ==> self.settles(settings)
    }

    pub(crate) fn new(
        thread_name: Option<Box<dyn ThreadNameFn>>,
        stack_size: Option<NonZeroUsize>,
        num_threads: NonZeroUsize,
    ) -> (launch: Self)
        requires
            thread_name matches Some(name) ==> name.callable(),
        ensures
            launch.workers() == num_threads@,
            launch.started() == 0,
            launch.named() == 0,
            launch.naming() == thread_name,
            launch.stack_size() == stack_size,
        opens_invariants beginning()
    {
        Launch {
            thread_name: Some(Naming::new(thread_name)),
            stack_size,
            num_threads: num_threads.get(),
            started: 0,
        }
    }

    /// The step to begin with. A name is asked for exactly for the worker that is to
    /// be started.
    pub fn next_step<E>(&mut self) -> (step: LaunchStep<E>)
        requires
            old(self).named() == old(self).started(),
        ensures
            final(self).workers() == old(self).workers(),
            final(self).started() == old(self).started(),
            final(self).naming() == old(self).naming(),
            final(self).stack_size() == old(self).stack_size(),
            final(self).continues(step),
            final(self).named() == if step is Start {
                old(self).named() + 1
            } else {
                old(self).named()
            },
        opens_invariants naming(old(self).naming())
    {
        proof {
            use_type_invariant(&*self);
        }
        if self.started < self.num_threads {
            let mut launch = Launch {
                thread_name: None,
                stack_size: None,
                num_threads: 0,
                started: 0,
            };
            std::mem::swap(self, &mut launch);
            let index: usize = launch.started;
            let (name, thread_name) = match launch.thread_name {
                Some(thread_name) => thread_name.name(index),
                None => unreached(),
            };
            *self = Launch {
                thread_name: Some(thread_name),
                stack_size: launch.stack_size,
                num_threads: launch.num_threads,
                started: launch.started,
            };
            LaunchStep::Start(WorkerSettings { index, name, stack_size: launch.stack_size })
        } else {
            LaunchStep::Run
        }
    }

    /// The step after a thread was to be started.
    pub fn on_start<E>(&mut self, outcome: Result<(), E>) -> (step: LaunchStep<E>)
        requires
            old(self).started() < old(self).workers(),
            old(self).named() == old(self).started() + 1,
        ensures
            final(self).workers() == old(self).workers(),
            final(self).naming() == old(self).naming(),
            final(self).stack_size() == old(self).stack_size(),
            step.kind() == move_after(old(self).workers(), old(self).started(), outcome is Ok),
            match outcome {
                Ok(()) => {
                    &&& final(self).started() == old(self).started() + 1
                    &&& final(self).continues(step)
                    &&& final(self).named() == if step is Start {
                        old(self).named() + 1
                    } else {
                        old(self).named()
                    }
                },
                Err(error) => {
                    &&& final(self).started() == old(self).started()
                    &&& final(self).named() == old(self).named()
                    &&& step matches LaunchStep::Abort { join, error: reported }
                    &&& reported == error
                },
            },
        opens_invariants naming(old(self).naming())
    {
        proof {
            use_type_invariant(&*self);
        }
        match outcome {
            Ok(()) => {
                self.started = self.started + 1;
                self.next_step()
            },
            Err(error) => LaunchStep::Abort { join: self.started, error },
        }
    }
}

/// The steps of a launch of `workers` threads, of which `started` have started,
/// when the next threads start as `outcomes` say.
pub open spec fn moves(workers: nat, started: nat, outcomes: Seq<bool>) -> Seq<LaunchMove>
    decreases outcomes.len(),
{
    let next = next_move(workers, started);
    if next is Run || outcomes.len() == 0 {
        seq![next]
    } else if outcomes[0] {
        seq![next] + moves(workers, started + 1, outcomes.drop_first())
    } else {
        seq![next, move_after(workers, started, false)]
    }
}

/// Starts of the workers from `first` up to `end`.
pub open spec fn starts(first: nat, end: nat) -> Seq<LaunchMove> {
    Seq::new((end - first) as nat, |i: int| LaunchMove::Start((first + i) as nat))
}

/// Where every thread starts, a launch starts each worker once, in order, and
/// then runs what the executor is for.
pub proof fn law_launch_starts_every_worker(workers: nat, started: nat, outcomes: Seq<bool>)
    requires
        started <= workers,
        outcomes.len() == workers - started,
        forall|i: int| 0 <= i < outcomes.len() ==> #[trigger] outcomes[i],
    ensures
        moves(workers, started, outcomes) == starts(started, workers).push(LaunchMove::Run),
    decreases outcomes.len(),
{
    if started < workers {
        assert(outcomes[0]);
        law_launch_starts_every_worker(workers, started + 1, outcomes.drop_first());
        assert(seq![LaunchMove::Start(started)] + starts(started + 1, workers) =~= starts(
            started,
            workers,
        ));
        assert(moves(workers, started, outcomes) =~= starts(started, workers).push(
            LaunchMove::Run,
        ));
    } else {
        assert(starts(started, workers).push(LaunchMove::Run) =~= seq![LaunchMove::Run]);
    }
}

/// Where a thread does not start, a launch stops there and joins exactly the
/// workers that have started.
pub proof fn law_launch_aborts_at_the_first_failure(
    workers: nat,
    started: nat,
    outcomes: Seq<bool>,
)
    requires
        0 < outcomes.len() <= workers - started,
        forall|i: int| 0 <= i < outcomes.len() - 1 ==> #[trigger] outcomes[i],
        !outcomes.last(),
    ensures
        ({
            let failed = (started + outcomes.len() - 1) as nat;
            moves(workers, started, outcomes) == starts(started, failed + 1).push(
                LaunchMove::Abort(failed),
            )
        }),
    decreases outcomes.len(),
{
    let failed = (started + outcomes.len() - 1) as nat;
    if outcomes.len() > 1 {
        assert(outcomes[0]);
        assert(outcomes.drop_first().last() == outcomes.last());
        law_launch_aborts_at_the_first_failure(workers, started + 1, outcomes.drop_first());
        assert(seq![LaunchMove::Start(started)] + starts(started + 1, failed + 1) =~= starts(
            started,
            failed + 1,
        ));
    }
    assert(moves(workers, started, outcomes) =~= starts(started, failed + 1).push(
        LaunchMove::Abort(failed),
    ));
}

} // verus!
