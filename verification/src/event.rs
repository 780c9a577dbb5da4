//! Notifications, and the proofs of them.
use event_listener::{Event, EventListener, Listener};
use std::future::Future;
use std::pin::Pin;
use std::task::{Context, Poll};
use vstd::prelude::*;

use crate::lock::{Freed, Permit};

verus! {

/// `event_listener::Event`.
#[verifier::external_type_specification]
#[verifier::external_body]
#[verifier::reject_recursive_types(T)]
pub struct ExEvent<T>(event_listener::Event<T>);

/// `event_listener::EventListener`.
#[verifier::external_type_specification]
#[verifier::external_body]
#[verifier::reject_recursive_types(T)]
pub struct ExEventListener<T>(event_listener::EventListener<T>);

/// `std::task::Context`, the task that polls.
#[verifier::external_type_specification]
#[verifier::external_body]
pub struct ExContext<'a>(std::task::Context<'a>);

/// Somebody who listens to an event.
pub struct Listening {
    listener: EventListener,
    event: Ghost<Event>,
    id: Ghost<int>,
    polls: Ghost<nat>,
}

/// The proof that a listener was notified after a mutex had been given up.
#[verifier::reject_recursive_types(T)]
pub struct Heard<T> {
    event: Ghost<Event>,
    cause: Ghost<Notified>,
    passed_on: Ghost<bool>,
    freed: Ghost<Freed<T>>,
}

/// The proof that those who listen to an event were notified. Only notifying them
/// makes one.
pub struct Notified {
    woken: usize,
    event: Ghost<Event>,
    listening: Ghost<usize>,
    earlier: Ghost<usize>,
    listeners: Ghost<Set<int>>,
}

/// The record of the notifications that were made by whoever carries it along.
/// Nobody can be notified but in a record, and code with a mask cannot make one: it
/// has the record that it was handed, or none.
pub struct Notices {
    made: Ghost<Seq<Notified>>,
}

impl Notices {
    /// The notifications that were made, in turn.
    pub closed spec fn made(&self) -> Seq<Notified> {
        self.made@
    }

    pub fn new() -> (log: Self)
        ensures
            log.made() == Seq::<Notified>::empty(),
    {
        Notices { made: Ghost(Seq::empty()) }
    }
}

impl Listening {
    /// The event that is listened to.
    pub closed spec fn event(&self) -> Event {
        self.event@
    }

    /// Which listener this is.
    pub closed spec fn id(&self) -> int {
        self.id@
    }

    /// How often the listener was polled without being notified.
    pub closed spec fn polls(&self) -> nat {
        self.polls@
    }
}

impl<T> Heard<T> {
    /// The event that the notification came from.
    pub closed spec fn event(&self) -> Event {
        self.event@
    }

    /// The notification itself.
    pub closed spec fn cause(&self) -> Notified {
        self.cause@
    }

    /// Whether it was meant for another listener, who went away without taking note
    /// of it.
    pub closed spec fn passed_on(&self) -> bool {
        self.passed_on@
    }

    /// Whether the notification is one of `event`, which woke somebody, and was made
    /// while `listener` listened, unless it was passed on.
    pub open spec fn caused(&self, event: Event, listener: int) -> bool {
        &&& self.event() == event
        &&& self.cause().event() == event
        &&& self.cause().woken() > 0
        &&& self.cause().listening() > 0
        &&& !self.passed_on() ==> self.cause().listeners().contains(listener)
    }

    /// The giving up of the mutex before the wait for the notification.
    pub closed spec fn freed(&self) -> Freed<T> {
        self.freed@
    }
}

impl Notified {
    /// How many were notified by this.
    pub closed spec fn woken(&self) -> usize {
        self.woken
    }

    /// The event that was notified.
    pub closed spec fn event(&self) -> Event {
        self.event@
    }

    /// How many listened at that time.
    pub closed spec fn listening(&self) -> usize {
        self.listening@
    }

    /// Who listened at that time.
    pub closed spec fn listeners(&self) -> Set<int> {
        self.listeners@
    }

    /// How many of those had been notified before.
    pub closed spec fn earlier(&self) -> usize {
        self.earlier@
    }

    /// How many were notified by this.
    pub fn count(&self) -> (woken: usize)
        ensures
            woken == self.woken(),
        opens_invariants none
    {
        self.woken
    }
}

/// How many are notified so that `n` of `listening` are, or all where there are
/// fewer, when `earlier` of them had been notified before.
pub open spec fn newly_notified(n: usize, listening: usize, earlier: usize) -> int {
    let due = if n < listening {
        n
    } else {
        listening
    };
    if due < earlier {
        0
    } else {
        due - earlier
    }
}

/// `event_listener::Event::new`: an event that nobody listens to.
pub assume_specification[ event_listener::Event::new ]() -> event_listener::Event
    opens_invariants none
;

/// `event_listener::Event::listen`: listens to the event from now on. The permit is
/// used up by that.
#[verifier::external_body]
pub(crate) fn event_listen(event: &Event, _permit: Permit) -> (listening: Listening)
    ensures
        listening.event() == *event,
        listening.polls() == 0,
    opens_invariants none
{
    Listening {
        listener: event.listen(),
        event: Ghost(arbitrary()),
        id: Ghost(arbitrary()),
        polls: Ghost(arbitrary()),
    }
}

/// `event_listener::Event::notify`: sees to it that `n` listeners are notified, or
/// all where there are fewer; tells how many this call notified. How many listen at
/// the time, and how many of them have been notified, is up to others. `log` says
/// that they were notified by this, and by nothing else.
#[verifier::external_body]
pub(crate) fn event_notify(event: &Event, n: usize, log: &mut Notices) -> (notified: Notified)
    ensures
        final(log).made() == old(log).made().push(notified),
        notified.event() == *event,
        notified.earlier() <= notified.listening(),
        notified.woken() == newly_notified(n, notified.listening(), notified.earlier()),
    opens_invariants none
{
    Notified {
        woken: event.notify(n),
        event: Ghost(arbitrary()),
        listening: Ghost(arbitrary()),
        earlier: Ghost(arbitrary()),
        listeners: Ghost(arbitrary()),
    }
}

/// `event_listener::Listener::wait`: blocks the thread until the listener is
/// notified, which only a call of `event_listener::Event::notify` does, while the
/// listener listens. The one exception is a listener that was notified and dropped
/// before it took note: the next one is notified in its place. `freed` is there to
/// show that the mutex has been given up.
#[verifier::external_body]
pub(crate) fn hear<T>(listening: Listening, freed: Freed<T>) -> (heard: Heard<T>)
    ensures
        heard.caused(listening.event(), listening.id()),
        heard.event() == listening.event(),
        heard.freed() == freed,
    opens_invariants none
{
    listening.listener.wait();
    Heard {
        event: Ghost(arbitrary()),
        cause: Ghost(arbitrary()),
        passed_on: Ghost(arbitrary()),
        freed: Ghost(arbitrary()),
    }
}

/// `event_listener::EventListener::poll`: whether the listener was notified; if not,
/// the task `cx` is woken when it is. It panics on a listener that has told so
/// before, which is used up here.
#[verifier::external_body]
pub(crate) fn poll_listening<T>(
    listening: Listening,
    freed: Freed<T>,
    cx: &mut Context<'_>,
) -> (heard: Result<Heard<T>, (Listening, Freed<T>)>)
    ensures
        match heard {
            Ok(heard) => {
                &&& heard.caused(listening.event(), listening.id())
                &&& heard.event() == listening.event()
                &&& heard.freed() == freed
            },
            Err((still, kept)) => {
                &&& still.event() == listening.event()
                &&& still.id() == listening.id()
                &&& still.polls() == listening.polls() + 1
                &&& kept == freed
            },
        },
    opens_invariants none
{
    let mut listening = listening;
    match Pin::new(&mut listening.listener).poll(cx) {
        Poll::Ready(()) => Ok(
            Heard {
                event: Ghost(arbitrary()),
                cause: Ghost(arbitrary()),
                passed_on: Ghost(arbitrary()),
                freed: Ghost(arbitrary()),
            },
        ),
        Poll::Pending => Err((listening, freed)),
    }
}

} // verus!
