//! Access to the thread-local value of a thread, which is preserved when moving
//! jobs across threads and between awaits.
use vstd::prelude::*;

use crate::context::{ThreadState, ThreadView};

verus! {

/// The thread-local value: an address that the library carries and never follows.
#[derive(Clone, Copy, Debug, PartialEq, Eq, Structural)]
pub struct Tlv {
    pub address: usize,
}

impl Tlv {
    /// The value of a thread on which none was set.
    pub fn null() -> (value: Tlv)
        ensures
            value.address == 0,
        opens_invariants none
    {
        Tlv { address: 0 }
    }
}

/// Sets the current thread-local value.
pub fn set(thread: &mut ThreadState, value: Tlv)
    ensures
        final(thread)@ == (ThreadView { frames: old(thread)@.frames, tlv: value }),
    opens_invariants none
{
    thread.set_tlv(value);
}

/// Returns the current thread-local value.
pub fn get(thread: &ThreadState) -> (value: Tlv)
    ensures
        value == thread@.tlv,
    opens_invariants none
{
    thread.tlv()
}

} // verus!
