//! Condition variables.
use async_lock::Mutex as AsyncMutex;
use async_lock::MutexGuard as AsyncMutexGuard;
use event_listener::Event;
use std::task::Context;
use vstd::prelude::*;

use crate::event::{
    event_listen, event_notify, hear, poll_listening, Heard, Listening, Notices, Notified,
};
use crate::lock::{
    about_to_leave, mutex_of, regain, regain_awaited, release, Freed, MutexGuard, Regained,
};

verus! {

/// Lets coroutines and threads wait until something is worth looking at again.
pub struct Condvar {
    event: Event,
}

/// A wait on a [`Condvar`] inside of a coroutine, before the notification.
#[verifier::reject_recursive_types(T)]
pub struct Waiting<'a, T> {
    listening: Listening,
    freed: Freed<T>,
    mutex: &'a AsyncMutex<T>,
}

/// A wait on a [`Condvar`] inside of a coroutine, after the notification: the mutex
/// is to be held again.
#[verifier::reject_recursive_types(T)]
pub struct Awoken<'a, T> {
    heard: Heard<T>,
    mutex: &'a AsyncMutex<T>,
}

/// What a wait on a [`Condvar`] comes to.
#[verifier::reject_recursive_types(T)]
pub enum CondvarWait<'a, T> {
    /// The notification has come, and the mutex is held again.
    Woken(Regained<'a, T>),
    /// The coroutine is to wait for the notification, then for the mutex.
    Suspend(Waiting<'a, T>),
}

impl Condvar {
    /// The event that those who wait listen to.
    pub closed spec fn event(&self) -> Event {
        self.event
    }

    /// Whether `wait` is what waiting with the hold `guard` comes to: the hold was
    /// given up while somebody listened, and the wait is ended by a notification.
    pub open spec fn waited<'a, T>(
        &self,
        guard: MutexGuard<'a, T>,
        inside: bool,
        wait: CondvarWait<'a, T>,
    ) -> bool {
        &&& wait is Suspend <==> inside
        &&& match wait {
            CondvarWait::Woken(again) => {
                &&& again.guard().mutex() == guard.mutex()
                &&& again.after().caused(self.event(), again.after().freed().listener())
                &&& again.after().event() == self.event()
                &&& again.after().freed().event() == self.event()
                &&& again.after().freed().mutex() == guard.mutex()
                &&& again.after().freed().left() == guard@
            },
            CondvarWait::Suspend(waiting) => {
                &&& waiting.mutex() == guard.mutex()
                &&& waiting.event() == self.event()
                &&& waiting.freed().event() == self.event()
                &&& waiting.freed().listener() == waiting.listener()
                &&& waiting.freed().mutex() == guard.mutex()
                &&& waiting.freed().left() == guard@
                &&& waiting.polls() == 0
            },
        }
    }
}

impl<'a, T> Waiting<'a, T> {
    /// The mutex that was held, and is to be held again.
    pub closed spec fn mutex(&self) -> AsyncMutex<T> {
        *self.mutex
    }

    /// The event that is listened to.
    pub closed spec fn event(&self) -> Event {
        self.listening.event()
    }

    /// The giving up of the mutex.
    pub closed spec fn freed(&self) -> Freed<T> {
        self.freed
    }

    /// Who listens.
    pub closed spec fn listener(&self) -> int {
        self.listening.id()
    }

    /// How often the wait was polled without a notification.
    pub closed spec fn polls(&self) -> nat {
        self.listening.polls()
    }

    /// Whether `polled` is what a poll of this wait comes to.
    pub open spec fn polled(&self, polled: Result<Awoken<'a, T>, Waiting<'a, T>>) -> bool {
        match polled {
            Ok(awoken) => {
                &&& awoken.mutex() == self.mutex()
                &&& awoken.heard().caused(self.event(), self.listener())
                &&& awoken.heard().event() == self.event()
                &&& awoken.heard().freed() == self.freed()
            },
            Err(waiting) => {
                &&& waiting.mutex() == self.mutex()
                &&& waiting.event() == self.event()
                &&& waiting.listener() == self.listener()
                &&& waiting.freed() == self.freed()
                &&& waiting.polls() == self.polls() + 1
            },
        }
    }
}

impl<'a, T> Awoken<'a, T> {
    /// The mutex that was held, and is to be held again.
    pub closed spec fn mutex(&self) -> AsyncMutex<T> {
        *self.mutex
    }

    /// The notification that has come.
    pub closed spec fn heard(&self) -> Heard<T> {
        self.heard
    }
}

impl Condvar {
    pub fn new() -> Self
        opens_invariants none
    {
        Condvar { event: Event::new() }
    }

    /// Wakes one of those who wait, if there is one and none has been woken yet;
    /// tells how many were woken.
    pub fn notify_one(&self, log: &mut Notices) -> (notified: Notified)
        ensures
            final(log).made() == old(log).made().push(notified),
            notified.event() == self.event(),
            notified.earlier() <= notified.listening(),
            notified.woken() == if notified.earlier() == 0 && notified.listening() > 0 {
                1int
            } else {
                0
            },
        opens_invariants none
    {
        event_notify(&self.event, 1, log)
    }

    /// Wakes all who wait and have not been woken yet; tells how many were woken.
    pub fn notify_all(&self, log: &mut Notices) -> (notified: Notified)
        ensures
            final(log).made() == old(log).made().push(notified),
            notified.event() == self.event(),
            notified.earlier() <= notified.listening(),
            notified.woken() == notified.listening() - notified.earlier(),
        opens_invariants none
    {
        event_notify(&self.event, usize::MAX, log)
    }

    /// Waits for a notification without holding the mutex, which is held again
    /// after that. Whoever takes the mutex in between can no longer notify too
    /// early: the listening begins before the hold ends. `inside` is whether this code
    /// runs inside a coroutine.
    pub fn wait<'a, T>(&self, guard: MutexGuard<'a, T>, inside: bool) -> (wait: CondvarWait<'a, T>)
        ensures
            self.waited(guard, inside, wait),
            wait is Suspend <==> inside,
            match wait {
                CondvarWait::Woken(again) => {
                    &&& again.guard().mutex() == guard.mutex()
                    &&& again.after().caused(self.event(), again.after().freed().listener())
                    &&& again.after().event() == self.event()
                    &&& again.after().freed().event() == self.event()
                    &&& again.after().freed().mutex() == guard.mutex()
                    &&& again.after().freed().left() == guard@
                },
                CondvarWait::Suspend(waiting) => {
                    &&& waiting.mutex() == guard.mutex()
                    &&& waiting.event() == self.event()
                    &&& waiting.freed().event() == self.event()
                    &&& waiting.freed().listener() == waiting.listener()
                    &&& waiting.freed().mutex() == guard.mutex()
                    &&& waiting.freed().left() == guard@
                    &&& waiting.polls() == 0
                },
            },
        opens_invariants none
    {
        let mutex = mutex_of(&guard);
        let (leaving, permit) = about_to_leave(guard);
        let listening = event_listen(&self.event, permit);
        let freed = release(leaving, &listening);
        if inside {
            CondvarWait::Suspend(Waiting { listening, freed, mutex })
        } else {
            CondvarWait::Woken(regain(mutex, hear(listening, freed)))
        }
    }
}

impl<'a, T> Waiting<'a, T> {
    /// Whether the notification has come. If not, the task `cx` is woken when it
    /// comes, and the wait goes on.
    pub fn poll(self, cx: &mut Context<'_>) -> (polled: Result<Awoken<'a, T>, Waiting<'a, T>>)
        ensures
            self.polled(polled),
            match polled {
                Ok(awoken) => {
                    &&& awoken.mutex() == self.mutex()
                    &&& awoken.heard().caused(self.event(), self.listener())
                    &&& awoken.heard().event() == self.event()
                    &&& awoken.heard().freed() == self.freed()
                },
                Err(waiting) => {
                    &&& waiting.mutex() == self.mutex()
                    &&& waiting.event() == self.event()
                    &&& waiting.listener() == self.listener()
                    &&& waiting.freed() == self.freed()
                    &&& waiting.polls() == self.polls() + 1
                },
            },
        opens_invariants none
    {
        match poll_listening(self.listening, self.freed, cx) {
            Ok(heard) => Ok(Awoken { heard, mutex: self.mutex }),
            Err((listening, freed)) => Err(Waiting { listening, freed, mutex: self.mutex }),
        }
    }
}

impl<'a, T> Awoken<'a, T> {
    /// The mutex to wait for.
    pub fn get_mutex(&self) -> (mutex: &'a AsyncMutex<T>)
        ensures
            *mutex == self.mutex(),
        opens_invariants none
    {
        self.mutex
    }

    /// Ends the wait with the hold on the mutex.
    pub fn finish(self, hold: AsyncMutexGuard<'a, T>) -> (again: Regained<'a, T>)
        ensures
            again.guard().raw() == hold,
            again.after() == self.heard(),
        opens_invariants none
    {
        regain_awaited(hold, self.heard)
    }
}

} // verus!
