//! One-shot lock engines for a single owner.
//!
//! These variants hold their state in a plain field and take `&mut self`
//! for every transition, so they suit code where a single logical owner
//! drives the lock.  For the variants whose state lives in an atomic word,
//! see the [`mutex`](crate::mutex) and [`rwlock`](crate::rwlock) modules.

pub mod mutex;
pub mod rwlock;

pub use mutex::RawOneShotMutex;
pub use rwlock::RawOneShotRwLock;
