//! Named futures for use with the primitives.

pub use crate::barrier::BarrierWait;
pub use crate::mutex::Lock;
pub use crate::refcell::{Borrow, BorrowMut};
pub use crate::rwlock::{Read, UpgradableRead, Upgrade, Write};
