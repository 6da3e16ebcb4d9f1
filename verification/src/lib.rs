//! A busy-wait reader/writer lock.
//!
//! One `u32` flag word says who holds the lock: nobody, some number of
//! readers, or one writer. A thread that cannot get in spins with an
//! escalating backoff instead of being descheduled, which pays off where
//! the lock is held for very short times.
//!
//! * [`protocol`] defines the flag word and the three transitions that are
//!   ever applied to it.
//! * [`ledger`] reads the flag word against the guards that are alive and
//!   proves that the protocol keeps the two in step: readers share the
//!   lock, a writer has it alone, and a lock with no guard left is free.
//! * [`backoff`] paces a waiting thread.
//! * [`lock`] is the lock itself and its two guards.
//!
//! * [`cell`] is the storage of the value.
//!
//! What is proved is the protocol. Whether a transition of the flag word is
//! granted is decided by [`protocol::next`], and the laws in [`ledger`] hold
//! of `next` for every interleaving of attempts and releases. What the lock
//! makes of the answers it gets is decided by [`protocol::decide`] for the
//! flag word and by [`cell::settle`] for the cell. The atomic instruction
//! that applies `next`, and the cell that stores the value, come from the
//! standard library and are taken on trust; nothing is proved of the value.

pub mod protocol;
pub mod ledger;
pub mod backoff;
pub mod cell;
pub mod lock;
