//! Stackful coroutines that wait for futures without colouring the functions
//! that wait: the contexts of a thread, the coroutines, the executor that runs
//! them and the locks that they share.
//!
//! The library has no invariants to open. The masks of its functions (the clause
//! `opens_invariants`) say what else they can do to the world: a function with a mask
//! calls no function that lacks one, and none whose mask its own does not cover. What
//! is behind a mask with a name is known only where the name is defined. So a function
//! with the mask `none` calls nothing that it was handed, closes no channel and makes
//! no record of its own; and what does have a consequence (to change a count, to
//! notify, to listen, to send) takes something that is used up, or is written down in
//! a record that the caller has handed in.
mod call;
pub mod channel;
pub mod condvar;
pub mod condvar_laws;
pub mod config;
pub mod context;
pub mod context_laws;
pub mod coroutine;
pub mod counter;
pub mod deadlock_laws;
mod entrust;
pub mod event;
pub mod executor;
pub mod executor_laws;
mod fiber;
mod hook;
pub mod launch;
pub mod lock;
mod maker;
pub mod memory;
mod naming;
mod plain;
mod port;
mod ring;
pub mod tlv;
pub mod worker;

pub use corosensei::stack;

pub use context::{inside_context, OutsideOfContextError};
pub use coroutine::{
    sync_into_coroutine, sync_into_coroutine_with_stack, Coroutine, SyncIntoCoroutine,
};
