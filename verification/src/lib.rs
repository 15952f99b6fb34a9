//! Async synchronization primitives, with their lock-state protocols verified.
//!
//! This crate provides the following primitives:
//!
//! * [`Barrier`] - enables tasks to synchronize all together at the same time.
//! * [`Mutex`] - a mutual exclusion lock with eventual fairness.
//! * [`RwLock`] - a reader-writer lock, allowing any number of readers or a single writer.
//! * [`RefCell`] - a single-threaded cell with async borrows.
//!
//! Each lock keeps its state as plain data that its operations take by
//! mutable reference; acquisitions are futures whose `poll_step` runs one
//! turn of the acquisition loop and reports whether it completed, must wait
//! for a wake-up, or has more to do at once.

pub mod step;
pub mod signal;
pub mod task;
pub mod word;
pub mod text;
pub mod refcell;
pub mod mutex;
pub mod rwlock;
pub mod barrier;
pub mod futures;

pub use barrier::{Barrier, BarrierWaitResult};
pub use mutex::{Mutex, MutexGuard};
pub use refcell::{Ref, RefCell, RefMut};
pub use rwlock::{RwLock, RwLockReadGuard, RwLockUpgradableReadGuard, RwLockWriteGuard};
pub use step::Step;
