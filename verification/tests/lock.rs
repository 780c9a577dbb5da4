use std::future::{poll_fn, Future};
use std::sync::Arc;
use std::task::{Context, Poll, Wake, Waker};

use colorless::context::{inside_context, OutsideOfContextError, TaskContext, ThreadState};
use colorless::lock::{Awoken, Condvar, CondvarWait, Mutex, Notices, RwLock, Waiting};
use colorless::tlv::Tlv;
use futures_lite::future::block_on;

const OUTSIDE: OutsideOfContextError = OutsideOfContextError;

#[test]
fn a_mutex_is_held_by_one() {
    let mut mutex = Mutex::new(1);
    {
        let mut guard = mutex.lock(Err(OUTSIDE));
        *guard += 4;
        assert_eq!(*guard, 5);
        assert!(mutex.try_lock().is_none());
    }
    assert_eq!(*mutex.try_lock().unwrap(), 5);
    *mutex.get_mut() = 9;
    assert_eq!(mutex.into_inner(), 9);
}

#[test]
fn a_mutex_takes_the_hold_that_was_waited_for() {
    let mutex = Mutex::new(String::from("a"));
    {
        let hold = block_on(mutex.inner().lock());
        let mut guard = mutex.lock(Ok(hold));
        guard.push('b');
        assert!(mutex.try_lock().is_none());
    }
    assert_eq!(mutex.into_inner(), "ab");
}

#[test]
fn a_lock_is_held_by_many_readers_or_one_writer() {
    let mut lock = RwLock::new(vec![1]);
    {
        let first = lock.read(Err(OUTSIDE));
        let second = lock.read(Ok(block_on(lock.inner().read())));
        let third = lock.try_read().unwrap();
        assert_eq!((first.len(), second.len(), third.len()), (1, 1, 1));
        assert!(lock.try_write().is_none());
    }
    {
        let mut writer = lock.write(Err(OUTSIDE));
        writer.push(2);
        assert_eq!(*writer, vec![1, 2]);
        assert!(lock.try_read().is_none());
        assert!(lock.try_write().is_none());
    }
    lock.try_write().unwrap().push(3);
    lock.write(Ok(block_on(lock.inner().write()))).push(4);
    lock.get_mut().push(5);
    assert_eq!(lock.into_inner(), vec![1, 2, 3, 4, 5]);
}

#[test]
fn what_nobody_held_is_what_was_put_in() {
    let mut mutex = Mutex::new(3);
    assert_eq!(*mutex.get_mut(), 3);
    *mutex.get_mut() = 4;
    assert_eq!(*mutex.get_mut(), 4);
    assert_eq!(mutex.into_inner(), 4);
    assert_eq!(Mutex::new(5).into_inner(), 5);
}

#[test]
fn readers_see_what_was_put_in() {
    let mut lock = RwLock::new(6);
    *lock.get_mut() = 7;
    assert_eq!(*lock.read(Err(OUTSIDE)), 7);
    assert_eq!(*lock.try_read().unwrap(), 7);
    assert_eq!(lock.into_inner(), 7);
    assert_eq!(RwLock::new(8).into_inner(), 8);
}

#[test]
fn a_notification_that_nobody_waits_for_is_lost() {
    let condvar = Condvar::new();
    assert_eq!(condvar.notify_one(&mut Notices::new()).count(), 0);
    assert_eq!(condvar.notify_all(&mut Notices::new()).count(), 0);
}

/// Waits for the notification.
async fn notified<T>(waiting: Waiting<'_, T>) -> Awoken<'_, T> {
    let mut waiting = Some(waiting);
    poll_fn(|cx| match waiting.take().unwrap().poll(cx) {
        Ok(awoken) => Poll::Ready(awoken),
        Err(pending) => {
            waiting = Some(pending);
            Poll::Pending
        }
    })
    .await
}

#[test]
fn a_wait_is_pending_until_the_notification() {
    let condvar = Condvar::new();
    let mutex = Mutex::new(());
    let mut thread = ThreadState::new();
    thread.enter(1, TaskContext::new(2), Tlv { address: 3 });
    let waiting = match condvar.wait(mutex.try_lock().unwrap(), inside_context(&mut thread)) {
        CondvarWait::Suspend(waiting) => waiting,
        CondvarWait::Woken(_) => panic!("the thread was blocked"),
    };
    let waker = Waker::from(Arc::new(NotifyOnWake(Arc::new(Condvar::new()))));
    let mut cx = Context::from_waker(&waker);
    let waiting = waiting.poll(&mut cx).err().unwrap();
    let waiting = waiting.poll(&mut cx).err().unwrap();
    assert_eq!(Condvar::new().notify_all(&mut Notices::new()).count(), 0);
    let waiting = waiting.poll(&mut cx).err().unwrap();
    assert_eq!(condvar.notify_one(&mut Notices::new()).count(), 1);
    assert!(waiting.poll(&mut cx).is_ok());
}

#[test]
fn a_coroutine_waits_with_the_mutex_released() {
    let condvar = Condvar::new();
    let mutex = Mutex::new(0);
    let mut thread = ThreadState::new();
    thread.enter(1, TaskContext::new(2), Tlv { address: 3 });
    let mut waits = Vec::new();
    for _ in 0..3 {
        let guard = mutex.try_lock().unwrap();
        match condvar.wait(guard, inside_context(&mut thread)) {
            CondvarWait::Suspend(waiting) => waits.push(waiting),
            CondvarWait::Woken(_) => panic!("the thread was blocked"),
        }
    }
    *mutex.try_lock().unwrap() = 7;
    assert_eq!(condvar.notify_one(&mut Notices::new()).count(), 1);
    // One of those who wait has been notified already.
    assert_eq!(condvar.notify_one(&mut Notices::new()).count(), 0);
    assert_eq!(condvar.notify_all(&mut Notices::new()).count(), 2);
    assert_eq!(condvar.notify_all(&mut Notices::new()).count(), 0);
    for waiting in waits {
        let awoken = block_on(notified(waiting));
        let hold = block_on(awoken.get_mutex().lock());
        let mut guard = awoken.finish(hold).into_guard();
        *guard += 1;
        assert!(mutex.try_lock().is_none());
    }
    assert_eq!(mutex.into_inner(), 10);
}

/// Notifies a condvar when it is woken.
struct NotifyOnWake(Arc<Condvar>);

impl Wake for NotifyOnWake {
    fn wake(self: Arc<Self>) {
        self.0.notify_one(&mut Notices::new());
    }
}

#[test]
fn a_thread_waits_with_the_mutex_released() {
    let condvar = Arc::new(Condvar::new());
    let mutex = Mutex::new(1);
    let mut thread = ThreadState::new();
    let guard = mutex.lock(Err(OUTSIDE));

    // Whoever waits for the mutex notifies as soon as it is released: that is not
    // too early, since the listening has begun by then.
    let waker = Waker::from(Arc::new(NotifyOnWake(Arc::clone(&condvar))));
    let mut queued = Box::pin(mutex.inner().lock());
    assert!(queued.as_mut().poll(&mut Context::from_waker(&waker)).is_pending());

    let mut guard = match condvar.wait(guard, inside_context(&mut thread)) {
        CondvarWait::Woken(again) => again.into_guard(),
        CondvarWait::Suspend(_) => panic!("there is no coroutine to suspend"),
    };
    *guard += 1;
    assert!(mutex.try_lock().is_none());
    drop(guard);
    drop(queued);
    assert_eq!(mutex.into_inner(), 2);
}
