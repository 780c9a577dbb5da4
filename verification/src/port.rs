//! The two ends of a channel, and the proofs of what was done with them.
//!
//! What the library knows of a channel: which ends belong together, how many
//! messages still fit, and which may be sent.
use vstd::prelude::*;

use crate::entrust::Stamp;
use crate::maker::Made;

verus! {

/// `async_channel::Sender`.
#[verifier::external_type_specification]
#[verifier::external_body]
#[verifier::reject_recursive_types(T)]
pub struct ExSender<T>(async_channel::Sender<T>);

/// `async_channel::Receiver`.
#[verifier::external_type_specification]
#[verifier::external_body]
#[verifier::reject_recursive_types(T)]
pub struct ExReceiver<T>(async_channel::Receiver<T>);

/// The end of a channel that messages go into.
#[verifier::reject_recursive_types(T)]
pub struct Outlet<T> {
    sender: async_channel::Sender<T>,
    room: Option<usize>,
    channel: Ghost<int>,
    promise: Ghost<spec_fn(T) -> bool>,
    origin: Ghost<bool>,
    shares: Ghost<Seq<spec_fn(T) -> bool>>,
    closes_after: Ghost<Option<nat>>,
}

/// The end of a channel that messages come out of.
#[verifier::reject_recursive_types(T)]
pub struct Inlet<T> {
    receiver: async_channel::Receiver<T>,
    channel: Ghost<int>,
    promise: Ghost<spec_fn(T) -> bool>,
    closes_after: Ghost<Option<nat>>,
}

/// The only ends of a channel that nothing was done with.
#[verifier::reject_recursive_types(T)]
struct Fresh<T> {
    outlet: Outlet<T>,
    inlet: Inlet<T>,
}

/// Room for one message in a channel. A channel that holds a number of messages
/// gives out that many, one without a limit as many as there are stamps for.
pub(crate) struct Slot {
    messages: Option<usize>,
    channel: Ghost<int>,
}

/// The proof that a message went into a channel. Only sending makes one.
#[verifier::reject_recursive_types(T)]
pub struct Receipt<T> {
    message: Ghost<T>,
    channel: Ghost<int>,
    at: Ghost<nat>,
}

/// A message that came back, because its channel was closed. Only sending makes one.
#[verifier::reject_recursive_types(T)]
pub struct Returned<T> {
    message: T,
    channel: Ghost<int>,
    at: Ghost<nat>,
    made: Ghost<Option<nat>>,
}

/// The proof that a result went into its channel, or that there was nobody left
/// to receive it.
pub struct Delivery {
    received: bool,
    channel: Ghost<int>,
    index: Ghost<Option<usize>>,
    turn: Ghost<Option<nat>>,
}

/// The proof that a channel was closed. Only closing it makes one.
pub struct Closing {
    first: bool,
    channel: Ghost<int>,
    at: Ghost<nat>,
}

/// What became of a message.
#[verifier::reject_recursive_types(T)]
pub(crate) enum SendOutcome<T> {
    Sent(Receipt<T>),
    /// The channel was full: here is the message.
    Full(T),
    /// The channel was closed.
    Closed(Returned<T>),
}

/// Whether a channel that is closed after so many attempts to send is still open when
/// the attempt `at` takes effect.
pub open spec fn still_open(closes_after: Option<nat>, at: nat) -> bool {
    closes_after matches Some(end) ==> at < end
}

impl<T> Outlet<T> {
    /// How many messages may go through this outlet; `None` is no limit.
    ///
    /// The outlets of a bounded channel share its capacity, so that together
    /// they never send more messages than it can hold.
    pub closed spec fn room(&self) -> Option<usize> {
        self.room
    }

    /// The channel that this is an end of.
    pub closed spec fn channel(&self) -> int {
        self.channel@
    }

    /// Which messages may be sent through this outlet: nothing else ever is.
    pub closed spec fn promise(&self) -> spec_fn(T) -> bool {
        self.promise@
    }

    /// Whether this is the outlet that the channel was made with, all other outlets
    /// were split off from it, and nothing was sent through it.
    pub closed spec fn origin(&self) -> bool {
        self.origin@
    }

    /// How many attempts to send something take effect before the channel is closed;
    /// `None` where it never is. It is closed when somebody closes it, or when all
    /// ends of one kind are gone.
    pub closed spec fn closes_after(&self) -> Option<nat> {
        self.closes_after@
    }

    /// Whether the channel is still open when the attempt `at` to send takes effect.
    pub open spec fn open_at(&self, at: nat) -> bool {
        still_open(self.closes_after(), at)
    }

    /// The promises of the outlets that were split off.
    pub closed spec fn shares(&self) -> Seq<spec_fn(T) -> bool> {
        self.shares@
    }
}

impl<T> Inlet<T> {
    /// The channel that this is an end of.
    pub closed spec fn channel(&self) -> int {
        self.channel@
    }

    /// Which messages may come out of the channel: those that may be sent into it.
    pub closed spec fn promise(&self) -> spec_fn(T) -> bool {
        self.promise@
    }

    /// How many attempts to send something take effect before the channel is closed;
    /// `None` where it never is.
    pub closed spec fn closes_after(&self) -> Option<nat> {
        self.closes_after@
    }

    /// The receiver that the messages come out of.
    pub closed spec fn raw(&self) -> async_channel::Receiver<T> {
        self.receiver
    }
}

impl Slot {
    pub closed spec fn channel(&self) -> int {
        self.channel@
    }

    pub closed spec fn messages(&self) -> Option<usize> {
        self.messages
    }
}

impl<T> Receipt<T> {
    /// The message that was sent.
    pub closed spec fn message(&self) -> T {
        self.message@
    }

    /// The channel that it was sent into.
    pub closed spec fn channel(&self) -> int {
        self.channel@
    }

    /// How many attempts to send something into the channel took effect before.
    pub closed spec fn at(&self) -> nat {
        self.at@
    }
}

impl<T> Returned<T> {
    /// The message that was not sent.
    pub closed spec fn message(&self) -> T {
        self.message
    }

    /// The channel that was closed.
    pub closed spec fn channel(&self) -> int {
        self.channel@
    }

    /// How many attempts to send something into the channel took effect before.
    pub closed spec fn at(&self) -> nat {
        self.at@
    }

    /// How often a maker of messages had been called when it gave up for this, where
    /// there was one.
    pub closed spec fn made(&self) -> Option<nat> {
        self.made@
    }

    /// Notes what the maker of the messages had done, which is used up by that.
    pub(crate) fn after(self, made: Made) -> (back: Self)
        ensures
            back.message() == self.message(),
            back.channel() == self.channel(),
            back.at() == self.at(),
            back.made() == Some(made.count()),
        opens_invariants none
    {
        let made = Ghost(Some(made.count()));
        Returned { message: self.message, channel: self.channel, at: self.at, made }
    }

    /// The message that was not sent.
    pub fn into_message(self) -> (message: T)
        ensures
            message == self.message(),
        opens_invariants none
    {
        self.message
    }
}

impl Delivery {
    /// Whether the result went into the channel.
    pub closed spec fn received(&self) -> bool {
        self.received
    }

    /// The channel that the result is for.
    pub closed spec fn channel(&self) -> int {
        self.channel@
    }

    /// The index that the result carries, where it carries one.
    pub closed spec fn index(&self) -> Option<usize> {
        self.index@
    }

    /// In which turn the function was made that gave the result, where it was one of
    /// several.
    pub closed spec fn turn(&self) -> Option<nat> {
        self.turn@
    }

    /// Whether the result went into the channel.
    pub fn is_received(&self) -> (received: bool)
        ensures
            received == self.received(),
        opens_invariants none
    {
        self.received
    }

    /// The delivery of a result that was sent, or came back.
    pub(crate) fn of<T>(sent: Result<Receipt<T>, Returned<T>>) -> (done: Delivery)
        ensures
            done.received() == sent is Ok,
            done.index() is None,
            done.turn() is None,
            match sent {
                Ok(receipt) => done.channel() == receipt.channel(),
                Err(back) => done.channel() == back.channel(),
            },
        opens_invariants none
    {
        match sent {
            Ok(receipt) => Delivery {
                received: true,
                channel: receipt.channel,
                index: Ghost(None),
                turn: Ghost(None),
            },
            Err(back) => Delivery {
                received: false,
                channel: back.channel,
                index: Ghost(None),
                turn: Ghost(None),
            },
        }
    }

    /// The delivery of a result with an index that was sent, or came back.
    pub(crate) fn of_indexed<R>(
        sent: Result<Receipt<(usize, R)>, Returned<(usize, R)>>,
        turn: Ghost<nat>,
    ) -> (done: Delivery)
        ensures
            done.received() == sent is Ok,
            done.turn() == Some(turn@),
            match sent {
                Ok(receipt) => {
                    &&& done.channel() == receipt.channel()
                    &&& done.index() == Some(receipt.message().0)
                },
                Err(back) => {
                    &&& done.channel() == back.channel()
                    &&& done.index() == Some(back.message().0)
                },
            },
        opens_invariants none
    {
        match sent {
            Ok(receipt) => Delivery {
                received: true,
                channel: receipt.channel,
                index: Ghost(Some(receipt.message@.0)),
                turn: Ghost(Some(turn@)),
            },
            Err(back) => Delivery {
                received: false,
                channel: back.channel,
                index: Ghost(Some(back.message.0)),
                turn: Ghost(Some(turn@)),
            },
        }
    }
}

impl Closing {
    /// Whether the channel was open until then.
    pub closed spec fn first(&self) -> bool {
        self.first
    }

    /// The channel that was closed.
    pub closed spec fn channel(&self) -> int {
        self.channel@
    }

    /// How many attempts to send something into the channel took effect before.
    pub closed spec fn at(&self) -> nat {
        self.at@
    }

    /// Whether this is how a channel ends that is closed after so many attempts to
    /// send: closed by this, or earlier.
    pub open spec fn ends(&self, closes_after: Option<nat>) -> bool {
        &&& closes_after matches Some(end)
        &&& end <= self.at()
        &&& self.first() ==> end == self.at()
    }

    /// Whether the channel was open until then.
    pub fn is_first(&self) -> (first: bool)
        ensures
            first == self.first(),
        opens_invariants none
    {
        self.first
    }
}

impl<T> Fresh<T> {
    spec fn matched(&self) -> bool {
        &&& self.outlet.channel() == self.inlet.channel()
        &&& self.outlet.closes_after() == self.inlet.closes_after()
    }
}

/// `async_channel::unbounded`: the two ends of a fresh channel without a limit, which
/// is none of the channels that `others` are ends of.
#[verifier::external_body]
fn unbounded<T>(others: &Vec<Inlet<T>>) -> (fresh: Fresh<T>)
    ensures
        fresh.matched(),
        fresh.outlet.room() is None,
        forall|i: int|
            0 <= i < others@.len() ==> (#[trigger] others@[i]).channel() != fresh.outlet.channel(),
    opens_invariants none
{
    let (sender, receiver) = async_channel::unbounded();
    let (channel, promise) = (Ghost(arbitrary()), Ghost(arbitrary()));
    let (origin, shares) = (Ghost(arbitrary()), Ghost(arbitrary()));
    let closes_after = Ghost(arbitrary());
    Fresh {
        outlet: Outlet { sender, room: None, channel, promise, origin, shares, closes_after },
        inlet: Inlet { receiver, channel, promise, closes_after },
    }
}

/// `async_channel::bounded`: the two ends of a fresh channel that holds `cap`
/// messages. It panics where `cap` is zero, and where the positions in the
/// channel's buffer, a few laps of it, exceed `usize`.
#[verifier::external_body]
fn bounded<T>(cap: usize) -> (fresh: Fresh<T>)
    requires
        0 < cap <= usize::MAX / 8,
    ensures
        fresh.matched(),
        fresh.outlet.room() == Some(cap),
    opens_invariants none
{
    let (sender, receiver) = async_channel::bounded(cap);
    let (channel, promise) = (Ghost(arbitrary()), Ghost(arbitrary()));
    let (origin, shares) = (Ghost(arbitrary()), Ghost(arbitrary()));
    let closes_after = Ghost(arbitrary());
    Fresh {
        outlet: Outlet { sender, room: Some(cap), channel, promise, origin, shares, closes_after },
        inlet: Inlet { receiver, channel, promise, closes_after },
    }
}

/// Restricts a fresh channel to the messages of which `promise` holds.
fn restrict<T>(fresh: Fresh<T>, promise: Ghost<spec_fn(T) -> bool>) -> (ends: (
    Outlet<T>,
    Inlet<T>,
))
    requires
        fresh.matched(),
    ensures
        ends.0.channel() == fresh.outlet.channel(),
        ends.1.channel() == fresh.outlet.channel(),
        ends.0.closes_after() == ends.1.closes_after(),
        ends.0.room() == fresh.outlet.room(),
        ends.0.promise() == promise@,
        ends.1.promise() == promise@,
        ends.0.origin(),
        ends.0.shares() == Seq::<spec_fn(T) -> bool>::empty(),
    opens_invariants none
{
    let mut outlet = fresh.outlet;
    let mut inlet = fresh.inlet;
    outlet.promise = promise;
    outlet.origin = Ghost(true);
    outlet.shares = Ghost(Seq::empty());
    inlet.promise = promise;
    (outlet, inlet)
}

/// The two ends of a fresh channel without a limit, for the messages of which
/// `promise` holds. It is none of the channels that `others` are ends of.
pub(crate) fn unbounded_for<T>(
    others: &Vec<Inlet<T>>,
    promise: Ghost<spec_fn(T) -> bool>,
) -> (ends: (Outlet<T>, Inlet<T>))
    ensures
        ends.0.channel() == ends.1.channel(),
        ends.0.closes_after() == ends.1.closes_after(),
        forall|i: int|
            0 <= i < others@.len() ==> (#[trigger] others@[i]).channel() != ends.0.channel(),
        ends.0.room() is None,
        ends.0.promise() == promise@,
        ends.1.promise() == promise@,
        ends.0.origin(),
        ends.0.shares() == Seq::<spec_fn(T) -> bool>::empty(),
    opens_invariants none
{
    restrict(unbounded(others), promise)
}

/// The two ends of a fresh channel that holds `cap` messages, for those of which
/// `promise` holds.
pub(crate) fn bounded_for<T>(cap: usize, promise: Ghost<spec_fn(T) -> bool>) -> (ends: (
    Outlet<T>,
    Inlet<T>,
))
    requires
        0 < cap <= usize::MAX / 8,
    ensures
        ends.0.channel() == ends.1.channel(),
        ends.0.closes_after() == ends.1.closes_after(),
        ends.0.room() == Some(cap),
        ends.0.promise() == promise@,
        ends.1.promise() == promise@,
        ends.0.origin(),
        ends.0.shares() == Seq::<spec_fn(T) -> bool>::empty(),
    opens_invariants none
{
    restrict(bounded(cap), promise)
}

/// `async_channel::Sender::clone`: another outlet of the same channel, for what has
/// room in `slot`.
#[verifier::external_body]
fn clone_outlet<T>(outlet: &Outlet<T>, slot: Slot) -> (other: Outlet<T>)
    requires
        slot.channel() == outlet.channel(),
    ensures
        other.channel() == outlet.channel(),
        other.promise() == outlet.promise(),
        other.closes_after() == outlet.closes_after(),
        other.room() == slot.messages(),
        !other.origin(),
    opens_invariants none
{
    Outlet {
        sender: outlet.sender.clone(),
        room: slot.messages,
        channel: Ghost(arbitrary()),
        promise: Ghost(arbitrary()),
        origin: Ghost(arbitrary()),
        shares: Ghost(arbitrary()),
        closes_after: Ghost(arbitrary()),
    }
}

/// `async_channel::Sender::try_send`: sends `msg`, or hands it back where the
/// channel is closed or full. It is not full where every message that was sent
/// into it had a slot of its own, as this one has. All attempts to send take effect
/// in one order with the closing of the channel: the ones before it succeed, the ones
/// after it do not.
#[verifier::external_body]
pub(crate) fn try_send<T>(outlet: &Outlet<T>, slot: Slot, msg: T) -> (outcome: SendOutcome<T>)
    requires
        slot.channel() == outlet.channel(),
        (outlet.promise())(msg),
    ensures
        match outcome {
            SendOutcome::Sent(receipt) => {
                &&& receipt.message() == msg
                &&& receipt.channel() == outlet.channel()
                &&& outlet.open_at(receipt.at())
            },
            SendOutcome::Full(_) => false,
            SendOutcome::Closed(back) => {
                &&& back.message() == msg
                &&& back.channel() == outlet.channel()
                &&& !outlet.open_at(back.at())
                &&& back.made() is None
            },
        },
    opens_invariants none
{
    let (channel, at, made) = (Ghost(arbitrary()), Ghost(arbitrary()), Ghost(arbitrary()));
    match outlet.sender.try_send(msg) {
        Ok(()) => SendOutcome::Sent(Receipt { message: Ghost(arbitrary()), channel, at }),
        Err(async_channel::TrySendError::Full(msg)) => SendOutcome::Full(msg),
        Err(async_channel::TrySendError::Closed(message)) => {
            SendOutcome::Closed(Returned { message, channel, at, made })
        },
    }
}

/// `async_channel::Receiver::clone`: another inlet of the same channel.
#[verifier::external_body]
pub(crate) fn clone_inlet<T>(inlet: &Inlet<T>) -> (other: Inlet<T>)
    ensures
        other.channel() == inlet.channel(),
        other.promise() == inlet.promise(),
        other.closes_after() == inlet.closes_after(),
    opens_invariants none
{
    Inlet {
        receiver: inlet.receiver.clone(),
        channel: Ghost(arbitrary()),
        promise: Ghost(arbitrary()),
        closes_after: Ghost(arbitrary()),
    }
}

/// `async_channel::Receiver::close`: closes the channel; tells whether it was
/// open before, which is up to whoever else can close it. No attempt to send that
/// takes effect after that succeeds; where the channel was open before, every one
/// before that did.
#[verifier::external_body]
pub(crate) fn close_channel<T>(inlet: &Inlet<T>) -> (closing: Closing)
    ensures
        closing.channel() == inlet.channel(),
        closing.ends(inlet.closes_after()),
{
    Closing {
        first: inlet.receiver.close(),
        channel: Ghost(arbitrary()),
        at: Ghost(arbitrary()),
    }
}

impl<T> Outlet<T> {
    /// Splits off an outlet for one message, of which `promise` holds.
    pub(crate) fn share(&mut self, promise: Ghost<spec_fn(T) -> bool>) -> (one: Outlet<T>)
        requires
            old(self).room() matches Some(room) && room > 0,
            forall|msg: T| #[trigger] (promise@)(msg) ==> (old(self).promise())(msg),
        ensures
            one.room() == Some(1usize),
            one.channel() == old(self).channel(),
            one.promise() == promise@,
            one.closes_after() == old(self).closes_after(),
            final(self).closes_after() == old(self).closes_after(),
            final(self).channel() == old(self).channel(),
            final(self).promise() == old(self).promise(),
            final(self).room() matches Some(room) && room + 1 == old(self).room()->0,
            final(self).origin() == old(self).origin(),
            final(self).shares() == old(self).shares().push(promise@),
        opens_invariants none
    {
        let (origin, shares) = (self.origin, self.shares);
        let slot = self.take_slot();
        let mut one = clone_outlet(self, slot);
        one.promise = promise;
        self.origin = origin;
        self.shares = Ghost(shares@.push(promise@));
        one
    }

    /// Takes one of the slots that this outlet has left, to send something.
    pub(crate) fn take_slot(&mut self) -> (slot: Slot)
        requires
            old(self).room() matches Some(room) && room > 0,
        ensures
            slot.channel() == old(self).channel(),
            slot.messages() == Some(1usize),
            final(self).closes_after() == old(self).closes_after(),
            final(self).channel() == old(self).channel(),
            final(self).promise() == old(self).promise(),
            final(self).room() matches Some(room) && room + 1 == old(self).room()->0,
        opens_invariants none
    {
        if let Some(room) = self.room {
            self.room = Some(room - 1);
        }
        self.origin = Ghost(false);
        Slot { messages: Some(1), channel: self.channel }
    }

    /// A slot of a channel without a limit. The stamp is used up by that.
    pub(crate) fn free_slot(&self, _stamp: Stamp) -> (slot: Slot)
        requires
            self.room() is None,
        ensures
            slot.channel() == self.channel(),
        opens_invariants none
    {
        Slot { messages: Some(1), channel: self.channel }
    }
}

/// Whether one of `promises` holds of `msg`.
pub open spec fn any_of<T>(promises: Seq<spec_fn(T) -> bool>, msg: T) -> bool {
    exists|i: int| 0 <= i < promises.len() && (#[trigger] promises[i])(msg)
}

/// Gives up the outlet that a channel was made with, once all its room went to
/// outlets that were split off: what comes out went through one of those.
pub(crate) fn seal<T>(outlet: Outlet<T>, inlet: Inlet<T>) -> (sealed: Inlet<T>)
    requires
        outlet.origin(),
        outlet.room() == Some(0usize),
        outlet.channel() == inlet.channel(),
    ensures
        sealed.channel() == inlet.channel(),
        sealed.raw() == inlet.raw(),
        sealed.closes_after() == inlet.closes_after(),
        forall|msg: T| #[trigger] (sealed.promise())(msg) == any_of(outlet.shares(), msg),
    opens_invariants none
{
    let ghost shares = outlet.shares@;
    let mut inlet = inlet;
    inlet.promise = Ghost(|msg: T| any_of(shares, msg));
    inlet
}

impl<T> Inlet<T> {
    /// The receiver, to wait on.
    pub fn receiver(&self) -> (receiver: &async_channel::Receiver<T>)
        ensures
            *receiver == self.raw(),
        opens_invariants none
    {
        &self.receiver
    }

    /// The receiver, to keep.
    pub fn into_receiver(self) -> (receiver: async_channel::Receiver<T>)
        ensures
            receiver == self.raw(),
        opens_invariants none
    {
        self.receiver
    }
}

} // verus!
