//! One-shot lock variants whose state lives in an atomic word, so a
//! value may be shared between threads.

pub use crate::mutex::RawOneShotMutex;
pub use crate::rwlock::RawOneShotRwLock;
