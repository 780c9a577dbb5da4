use std::sync::atomic::{AtomicUsize, Ordering};
use std::sync::Arc;

use colorless::config::{sync_fn, thread_name_fn, ExecutorConfig, NonZeroUsize};
use colorless::context::{OutsideOfContextError, TaskContext};
use colorless::coroutine::{
    sync_into_coroutine_with_stack_size, BoxedBody, Coroutine, StackError, SyncIntoCoroutine,
};
use colorless::counter::Changes;
use colorless::executor::{
    self, Built, Executor, Job, Lease, Marked, OutsideOfWorkerError, SpawnError, Task, TaskPanickedError,
};
use colorless::launch::LaunchStep;
use colorless::lock::Mutex;
use colorless::tlv::Tlv;
use colorless::worker::{on_receive, ThreadBuilder, Turns, WorkerStep};
use corosensei::Yielder;

const TLV: Tlv = Tlv { address: 11 };

fn threads(n: usize) -> NonZeroUsize {
    NonZeroUsize::new(n).unwrap()
}

fn build(n: usize) -> Built {
    Executor::build_scoped(ExecutorConfig::default(), threads(n))
}

/// Turns a job into a coroutine that waits once before it runs its function.
fn yielding<R: 'static>(job: SyncIntoCoroutine<R>) -> Coroutine<R> {
    job.into_future(
        |yielder: &Yielder<TaskContext, ()>, _: TaskContext, value: Tlv, body: BoxedBody<R>| {
            assert_eq!(value, TLV);
            yielder.suspend(());
            body.run()
        },
    )
}

/// Runs a job to its end, and tells whether its result was received.
fn run(job: Job) -> bool {
    let mut coroutine = yielding(job);
    assert!(coroutine.poll(TaskContext::new(1)).is_none());
    let done = coroutine.poll(TaskContext::new(2)).unwrap();
    done.is_received()
}

#[test]
fn all_simple() {
    let built = build(2);
    let exec = &built.executor;
    let t1 = exec.spawn(TLV, || ()).ok().unwrap();
    let t2 = exec.spawn(TLV, || ()).ok().unwrap();
    let receiver = built.task_receiver.receiver();
    assert!(run(receiver.try_recv().unwrap()));
    assert!(run(receiver.try_recv().unwrap()));
    assert_eq!(t1.into_receiver().try_recv(), Ok(()));
    assert_eq!(t2.into_receiver().try_recv(), Ok(()));
}

#[test]
fn broadcast() {
    let built = build(4);
    let bt = built
        .executor
        .broadcast(TLV, || |index: usize| index * 10)
        .ok()
        .unwrap();
    for receiver in &built.broadcast_receivers {
        assert!(run(receiver.receiver().try_recv().unwrap()));
        assert!(receiver.receiver().is_empty());
    }
    let results = bt.into_receiver();
    let mut finished = Vec::new();
    while let Ok(result) = results.try_recv() {
        finished.push(result);
    }
    assert_eq!(finished, vec![(0, 0), (1, 10), (2, 20), (3, 30)]);
    assert!(results.is_closed());
}

#[test]
fn count() {
    let counter = Arc::new(Mutex::new(0));
    let built = build(1);
    let tasks: Vec<_> = (0..16)
        .map(|_| {
            let counter = Arc::clone(&counter);
            built
                .executor
                .spawn(TLV, move || {
                    for _ in 0..10_000 {
                        *counter.lock(Err(OutsideOfContextError)) += 1;
                    }
                })
                .ok()
                .unwrap()
        })
        .collect();
    while let Ok(job) = built.task_receiver.receiver().try_recv() {
        assert!(run(job));
    }
    for task in tasks {
        assert_eq!(task.into_receiver().try_recv(), Ok(()));
    }
    assert_eq!(*counter.lock(Err(OutsideOfContextError)), 160_000);
}

#[test]
fn a_task_gets_what_its_function_returns() {
    let built = build(1);
    let task = built.executor.spawn(TLV, || String::from("done")).ok().unwrap();
    assert!(run(built.task_receiver.receiver().try_recv().unwrap()));
    let received = task.into_receiver().try_recv().ok();
    assert_eq!(Task::outcome(received), Ok(String::from("done")));
}

#[test]
fn a_task_whose_function_panicked_has_no_result() {
    let built = build(1);
    let task = built.executor.spawn(TLV, || 5).ok().unwrap();
    drop(built.task_receiver.receiver().try_recv().unwrap());
    let receiver = task.into_receiver();
    assert!(receiver.is_closed());
    assert_eq!(
        Task::outcome(receiver.try_recv().ok()),
        Err(TaskPanickedError)
    );
}

#[test]
fn a_result_that_nobody_waits_for_is_dropped() {
    let built = build(1);
    drop(built.executor.spawn(TLV, || 5));
    assert!(!run(built.task_receiver.receiver().try_recv().unwrap()));
}

#[test]
fn a_function_is_not_called_before_its_job_runs() {
    let calls = Arc::new(AtomicUsize::new(0));
    let built = build(2);
    let counter = Arc::clone(&calls);
    let task = built.executor.spawn(TLV, move || counter.fetch_add(1, Ordering::SeqCst));
    let made = Arc::new(AtomicUsize::new(0));
    let (maker, counter) = (Arc::clone(&made), Arc::clone(&calls));
    let results = built.executor.broadcast(TLV, move || {
        maker.fetch_add(1, Ordering::SeqCst);
        let counter = Arc::clone(&counter);
        move |_: usize| counter.fetch_add(1, Ordering::SeqCst)
    });
    assert_eq!(made.load(Ordering::SeqCst), 2);
    assert_eq!(calls.load(Ordering::SeqCst), 0);
    assert!(run(built.task_receiver.receiver().try_recv().unwrap()));
    assert_eq!(calls.load(Ordering::SeqCst), 1);
    assert!(run(built.broadcast_receivers[1].receiver().try_recv().unwrap()));
    assert_eq!(calls.load(Ordering::SeqCst), 2);
    assert_eq!(task.ok().unwrap().into_receiver().try_recv(), Ok(0));
    let received = results.ok().unwrap().into_receiver().try_recv();
    assert_eq!(received, Ok((1, 1)));
}

#[test]
fn each_worker_runs_the_function_made_for_it() {
    let built = build(3);
    let mut k = 0;
    let task = built.executor.broadcast(TLV, move || {
        k += 1;
        let v = 10 * k;
        move |_: usize| v
    });
    for receiver in built.broadcast_receivers.iter().rev() {
        assert!(run(receiver.receiver().try_recv().unwrap()));
    }
    let results = task.ok().unwrap().into_receiver();
    let mut items: Vec<_> = std::iter::from_fn(|| results.try_recv().ok()).collect();
    items.sort();
    assert_eq!(items, vec![(0, 10), (1, 20), (2, 30)]);
}

#[test]
fn nothing_is_called_off_a_worker() {
    let calls = Arc::new(AtomicUsize::new(0));
    let counter = Arc::clone(&calls);
    assert!(executor::spawn(None, TLV, move || counter.fetch_add(1, Ordering::SeqCst)).is_err());
    let counter = Arc::clone(&calls);
    let results = executor::broadcast(None, TLV, move || {
        counter.fetch_add(1, Ordering::SeqCst);
        |_: usize| ()
    });
    assert!(results.is_err());
    assert_eq!(calls.load(Ordering::SeqCst), 0);
}

#[test]
fn a_closed_executor_refuses_jobs() {
    let built = build(2);
    assert!(built.task_receiver.close().is_first());
    assert!(!built.task_receiver.close().is_first());
    let task = built.executor.spawn(TLV, || ());
    match task {
        // The job comes back, with nobody left to receive its result.
        Err(SpawnError::Closed(back)) => assert!(!run(back.into_message())),
        _ => panic!("a job was sent to nobody"),
    }
    assert!(built.broadcast_receivers[1].close().is_first());
    assert!(matches!(
        built.executor.broadcast(TLV, || |_: usize| ()),
        Err(SpawnError::Closed(_))
    ));
    assert_eq!(built.broadcast_receivers[0].receiver().len(), 1);
}

#[test]
fn jobs_run_on_stacks_of_the_size_that_is_set() {
    let mut config = ExecutorConfig::new();
    config.stack_size = NonZeroUsize::new(100_000);
    let built = Executor::build_scoped(config, threads(1));
    let task = built.executor.spawn(TLV, || 3).ok().unwrap();
    let mut coroutine = yielding(built.task_receiver.receiver().try_recv().unwrap());
    while coroutine.poll(TaskContext::new(1)).is_none() {}
    let stack = coroutine.into_stack();
    let size = corosensei::stack::Stack::base(&stack).get()
        - corosensei::stack::Stack::limit(&stack).get();
    assert!(size >= 100_000);
    assert!(size < 200_000);
    assert_eq!(task.into_receiver().try_recv(), Ok(3));
}

#[test]
fn jobs_run_on_stacks_of_the_default_size() {
    let built = build(1);
    assert!(built.executor.spawn(TLV, || ()).is_ok());
    let mut coroutine = yielding(built.task_receiver.receiver().try_recv().unwrap());
    while coroutine.poll(TaskContext::new(1)).is_none() {}
    let stack = coroutine.into_stack();
    let size = corosensei::stack::Stack::base(&stack).get()
        - corosensei::stack::Stack::limit(&stack).get();
    assert!(size >= colorless::memory::DEFAULT_STACK_BYTES);
}

#[test]
fn a_stack_that_no_system_has_is_refused() {
    let mut config = ExecutorConfig::new();
    config.stack_size = NonZeroUsize::new(usize::MAX);
    let built = Executor::build_scoped(config, threads(1));
    assert!(matches!(
        built.executor.spawn(TLV, || ()),
        Err(SpawnError::Stack(StackError::TooLarge))
    ));
    assert!(matches!(
        built.executor.broadcast(TLV, || |_: usize| ()),
        Err(SpawnError::Stack(StackError::TooLarge))
    ));
    assert!(built.task_receiver.receiver().is_empty());
    assert!(matches!(
        sync_into_coroutine_with_stack_size(isize::MAX as usize, TLV, || ()),
        Err(StackError::Refused(_))
    ));
    assert!(matches!(
        sync_into_coroutine_with_stack_size(usize::MAX - (1 << 22), TLV, || ()),
        Err(StackError::Refused(_))
    ));
}

#[test]
fn the_number_of_threads_is_the_one_that_is_set() {
    assert!(NonZeroUsize::new(0).is_none());
    let mut config = ExecutorConfig::new();
    config.num_threads = NonZeroUsize::new(3);
    let resolved = config.resolve_threads(|| -> Result<NonZeroUsize, String> {
        panic!("the parallelism is not asked for")
    });
    assert_eq!(resolved, Ok(threads(3)));
    assert_eq!(Executor::build_scoped(config, threads(3)).executor.num_threads(), 3);

    let config = ExecutorConfig::default();
    assert_eq!(
        config.resolve_threads(|| Ok::<NonZeroUsize, String>(threads(8))),
        Ok(threads(8))
    );
    assert_eq!(
        config.resolve_threads(|| Err(String::from("unknown"))),
        Err(String::from("unknown"))
    );
}

#[test]
fn the_handler_is_called_when_the_last_worker_blocks() {
    let calls = Arc::new(AtomicUsize::new(0));
    let counter = Arc::clone(&calls);
    let mut config = ExecutorConfig::new();
    config.deadlock_handler = sync_fn(move || {
        counter.fetch_add(1, Ordering::SeqCst);
    });
    let built = Executor::build_scoped(config, threads(2));
    let exec = &built.executor;
    assert_eq!(counted(exec.mark_blocked(&mut Changes::new())), (2, false));
    assert_eq!(calls.load(Ordering::SeqCst), 0);
    assert_eq!(counted(exec.mark_unblocked(&mut Changes::new())), (1, false));
    assert_eq!(calls.load(Ordering::SeqCst), 0);
    assert_eq!(counted(exec.mark_blocked(&mut Changes::new())), (2, false));
    assert_eq!(calls.load(Ordering::SeqCst), 0);
    let marked = executor::mark_blocked(Some(exec), &mut Changes::new()).ok().unwrap();
    assert_eq!(counted(marked), (1, true));
    assert_eq!(calls.load(Ordering::SeqCst), 1);
    let marked = executor::mark_unblocked(Some(exec), &mut Changes::new()).ok().unwrap();
    assert_eq!(counted(marked), (0, false));
    assert_eq!(calls.load(Ordering::SeqCst), 1);
}

/// The count that a mark has found, and whether the handler was called.
fn counted(marked: Marked) -> (usize, bool) {
    match marked {
        Marked::Counted(tally) => (tally.found(), false),
        Marked::Alarmed(alarmed) => (alarmed.found(), true),
        Marked::Unwatched => panic!("nothing was counted"),
    }
}

#[test]
fn the_count_wraps_around() {
    let calls = Arc::new(AtomicUsize::new(0));
    let counter = Arc::clone(&calls);
    let mut config = ExecutorConfig::new();
    config.deadlock_handler = sync_fn(move || {
        counter.fetch_add(1, Ordering::SeqCst);
    });
    let built = Executor::build_scoped(config, threads(1));
    assert_eq!(counted(built.executor.mark_blocked(&mut Changes::new())), (1, true));
    assert_eq!(counted(built.executor.mark_blocked(&mut Changes::new())), (0, false));
    assert_eq!(counted(built.executor.mark_unblocked(&mut Changes::new())), (usize::MAX, false));
    assert_eq!(calls.load(Ordering::SeqCst), 1);
}

#[test]
fn nothing_is_counted_without_a_handler() {
    let built = build(1);
    assert!(matches!(built.executor.mark_blocked(&mut Changes::new()), Marked::Unwatched));
    assert!(matches!(built.executor.mark_blocked(&mut Changes::new()), Marked::Unwatched));
    assert!(matches!(built.executor.mark_unblocked(&mut Changes::new()), Marked::Unwatched));
}

#[test]
fn the_thread_is_acquired_and_released() {
    let calls = Arc::new(Mutex::new(String::new()));
    let (acquired, released) = (Arc::clone(&calls), Arc::clone(&calls));
    let mut config = ExecutorConfig::new();
    config.acquire_thread_handler = sync_fn(move || {
        acquired.lock(Err(OutsideOfContextError)).push('a');
    });
    config.release_thread_handler = sync_fn(move || {
        released.lock(Err(OutsideOfContextError)).push('r');
    });
    let Built {
        executor, badges, ..
    } = Executor::build_scoped(config, threads(2));
    let mut badges = badges.into_iter();
    let lease = executor.acquire_thread(badges.next().unwrap());
    assert_eq!(*calls.lock(Err(OutsideOfContextError)), "a");
    executor.release_thread(lease);
    assert_eq!(*calls.lock(Err(OutsideOfContextError)), "ar");

    let mut turns = Turns::new(&executor, badges.next().unwrap());
    for round in 0..2 {
        assert!(turns.is_idle());
        let polled = turns.turn(|_: &Lease| {
            calls.lock(Err(OutsideOfContextError)).push('p');
            round
        });
        assert_eq!(polled, round);
    }
    assert_eq!(*calls.lock(Err(OutsideOfContextError)), "araprapr");
    assert!(badges.next().is_none());
}

#[test]
fn only_workers_have_an_executor() {
    assert_eq!(executor::mark_blocked(None, &mut Changes::new()).err(), Some(OutsideOfWorkerError));
    assert_eq!(executor::mark_unblocked(None, &mut Changes::new()).err(), Some(OutsideOfWorkerError));
    assert_eq!(executor::num_threads(None), Err(OutsideOfWorkerError));
    assert!(matches!(
        executor::spawn(None, TLV, || ()),
        Err(SpawnError::OutsideOfWorker)
    ));
    assert!(matches!(
        executor::broadcast(None, TLV, || |_: usize| ()),
        Err(SpawnError::OutsideOfWorker)
    ));

    let built = build(5);
    assert_eq!(executor::num_threads(Some(&built.executor)), Ok(5));
    let task = executor::spawn(Some(&built.executor), TLV, || 6).ok().unwrap();
    assert!(run(built.task_receiver.receiver().try_recv().unwrap()));
    assert_eq!(task.into_receiver().try_recv(), Ok(6));
    assert!(executor::broadcast(Some(&built.executor), TLV, || |_: usize| ()).is_ok());
}

#[test]
fn a_launch_starts_every_worker_in_order() {
    let mut config = ExecutorConfig::new();
    let asked = Arc::new(Mutex::new(Vec::new()));
    let record = Arc::clone(&asked);
    config.thread_name = thread_name_fn(move |index: usize| {
        record.lock(Err(OutsideOfContextError)).push(index);
        format!("worker {index}")
    });
    config.stack_size = NonZeroUsize::new(4096);
    let mut launch = Executor::build_scoped(config, threads(3)).launch;
    assert!(asked.lock(Err(OutsideOfContextError)).is_empty());
    let mut step = launch.next_step::<String>();
    for expected in 0..3 {
        match step {
            LaunchStep::Start(settings) => {
                assert_eq!(settings.index, expected);
                assert_eq!(settings.name, Some(format!("worker {expected}")));
                assert_eq!(settings.stack_size, NonZeroUsize::new(4096));
            }
            _ => panic!("not all workers have started"),
        }
        step = launch.on_start(Ok(()));
    }
    assert!(matches!(step, LaunchStep::Run));
    assert_eq!(*asked.lock(Err(OutsideOfContextError)), vec![0, 1, 2]);
}

#[test]
fn a_launch_stops_at_the_first_failure() {
    let mut launch = build(5).launch;
    match launch.next_step::<String>() {
        LaunchStep::Start(settings) => {
            assert_eq!(settings.name, None);
            assert_eq!(settings.stack_size, None);
        }
        _ => panic!("no worker has started"),
    }
    for _ in 0..2 {
        assert!(matches!(
            launch.on_start::<String>(Ok(())),
            LaunchStep::Start(_)
        ));
    }
    match launch.on_start(Err(String::from("no more threads"))) {
        LaunchStep::Abort { join, error } => {
            assert_eq!(join, 2);
            assert_eq!(error, "no more threads");
        }
        _ => panic!("the failure was passed over"),
    }
}

#[test]
fn a_worker_spawns_jobs_until_a_channel_is_closed() {
    let Built {
        executor,
        task_receiver,
        broadcast_receivers,
        badges,
        ..
    } = build(1);
    let broadcast = broadcast_receivers.into_iter().next().unwrap();
    let badge = badges.into_iter().next().unwrap();
    let worker = ThreadBuilder::new(&executor, &task_receiver, broadcast, badge);
    assert_eq!(worker.get_executor().num_threads(), 1);
    let task = executor.spawn(TLV, || 8).ok().unwrap();
    assert!(executor.broadcast(TLV, || |_: usize| ()).is_ok());
    task_receiver.close();
    match on_receive(worker.tasks().receiver().try_recv().ok()) {
        WorkerStep::Spawn(job) => assert!(run(job)),
        WorkerStep::Stop => panic!("a job was lost"),
    }
    assert_eq!(task.into_receiver().try_recv(), Ok(8));
    assert!(matches!(
        on_receive(worker.tasks().receiver().try_recv().ok()),
        WorkerStep::Stop
    ));
    assert!(matches!(
        on_receive(worker.broadcasts().receiver().try_recv().ok()),
        WorkerStep::Spawn(_)
    ));
    let (turns, tasks, broadcasts) = worker.into_parts();
    assert!(turns.is_idle());
    assert!(tasks.receiver().is_closed());
    assert!(!broadcasts.receiver().is_closed());
}
