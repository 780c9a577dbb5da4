//! Channels: what the library does with their ends.
use vstd::pervasive::unreached;
use vstd::prelude::*;

use crate::entrust::Stamp;
use crate::port::{clone_inlet, close_channel, try_send, SendOutcome};

pub use crate::port::{still_open, Closing, Delivery, Inlet, Outlet, Receipt, Returned};

verus! {

impl<T> Outlet<T> {
    /// Sends the one message that this outlet is for, or hands it back where the
    /// channel is closed.
    fn send_last(self, msg: T) -> (sent: Result<Receipt<T>, Returned<T>>)
        requires
            self.room() == Some(1usize),
            (self.promise())(msg),
        ensures
            match sent {
                Ok(receipt) => {
                    &&& receipt.message() == msg
                    &&& receipt.channel() == self.channel()
                    &&& self.open_at(receipt.at())
                },
                Err(back) => {
                    &&& back.message() == msg
                    &&& back.channel() == self.channel()
                    &&& !self.open_at(back.at())
                    &&& back.made() is None
                },
            },
        opens_invariants none
    {
        let mut outlet = self;
        let slot = outlet.take_slot();
        match try_send(&outlet, slot, msg) {
            SendOutcome::Sent(receipt) => Ok(receipt),
            SendOutcome::Closed(back) => Err(back),
            SendOutcome::Full(_) => unreached(),
        }
    }

    /// Sends the one result that this outlet is for.
    pub(crate) fn deliver(self, result: T) -> (done: Delivery)
        requires
            self.room() == Some(1usize),
            (self.promise())(result),
        ensures
            done.channel() == self.channel(),
            done.index() is None,
            done.turn() is None,
        opens_invariants none
    {
        Delivery::of(self.send_last(result))
    }

    /// Sends a message into a channel without a limit, or hands it back where the
    /// channel is closed. The stamp is used up either way.
    pub(crate) fn send(&self, msg: T, stamp: Stamp) -> (sent: Result<Receipt<T>, Returned<T>>)
        requires
            self.room() is None,
            (self.promise())(msg),
        ensures
            match sent {
                Ok(receipt) => {
                    &&& receipt.message() == msg
                    &&& receipt.channel() == self.channel()
                    &&& self.open_at(receipt.at())
                },
                Err(back) => {
                    &&& back.message() == msg
                    &&& back.channel() == self.channel()
                    &&& !self.open_at(back.at())
                    &&& back.made() is None
                },
            },
        opens_invariants none
    {
        match try_send(self, self.free_slot(stamp), msg) {
            SendOutcome::Sent(receipt) => Ok(receipt),
            SendOutcome::Closed(back) => Err(back),
            SendOutcome::Full(_) => unreached(),
        }
    }
}

impl<R> Outlet<(usize, R)> {
    /// Sends the one result that this outlet is for, with the index of the worker
    /// that it comes from. The function that gave it was made in the turn `turn`.
    pub(crate) fn deliver_indexed(self, index: usize, result: R, turn: Ghost<nat>) -> (done:
        Delivery)
        requires
            self.room() == Some(1usize),
            (self.promise())((index, result)),
        ensures
            done.channel() == self.channel(),
            done.index() == Some(index),
            done.turn() == Some(turn@),
        opens_invariants none
    {
        Delivery::of_indexed(self.send_last((index, result)), turn)
    }
}

impl<T> Inlet<T> {
    /// Another inlet of the same channel: each message comes out of one of them.
    pub fn share(&self) -> (other: Inlet<T>)
        ensures
            other.channel() == self.channel(),
            other.promise() == self.promise(),
            other.closes_after() == self.closes_after(),
        opens_invariants none
    {
        clone_inlet(self)
    }

    /// Closes the channel: nothing more can be sent, what was sent can still be
    /// received. Tells whether the channel was open. Nothing else in the library
    /// closes a channel: this has no mask, so code with one cannot call it.
    pub fn close(&self) -> (closing: Closing)
        ensures
            closing.channel() == self.channel(),
            closing.ends(self.closes_after()),
    {
        close_channel(self)
    }
}

} // verus!
