//! An in-process mutual-exclusion primitive usable from blocking callers
//! and cooperatively scheduled tasks alike, without requiring the lock to
//! stay at a fixed address.
//!
//! The crate verifies the lock core as a state machine: the sentinel flag
//! cell ([`Flag`]), the FIFO queue of pending wake tokens ([`WakerQueue`]),
//! the data-free lock core ([`MovableMutex`]), and the payload-carrying
//! [`Mutex`] whose [`MutexGuard`] is the sole proof of ownership. The
//! `protocol` module states and proves the concurrency laws (mutual
//! exclusion, no lost updates, round trips) over an interleaving model in
//! which any number of acquirers take steps in any order.

pub mod flag;
pub mod movable;
pub mod mutex;
pub mod protocol;
pub mod queue;

pub use movable::MovableMutex;
pub use mutex::Mutex;
pub use mutex::MutexGuard;
pub use queue::WakerQueue;
pub use flag::Flag;
pub use flag::LOCKED;
pub use flag::UNLOCKED;
