//! A one-shot mutex whose flag lives in an atomic.

use core::sync::atomic::AtomicBool;
use vstd::prelude::*;

use crate::atomics::bool_compare_exchange_acquire;
use crate::atomics::bool_load_relaxed;
use crate::atomics::bool_new;
use crate::atomics::bool_store_release;
use crate::atomics::stored_bool;

verus! {

/// A one-shot mutex that refuses instead of (dead)locking on contention.
///
/// The mutex allows no contention: [`try_lock`] fails, and the caller
/// contract of [`lock`] rules the attempt out, whenever the mutex is
/// already locked.  This is useful in situations where contention would
/// itself be a bug, such as in single-threaded programs that would
/// deadlock on contention.
///
/// The state is one boolean flag held in an atomic cell, acquired by a
/// single compare-and-exchange, so a value of this type may be shared
/// between threads; the view of the mutex is that flag.  The contracts
/// describe the transitions as a single logical owner sees them — what
/// concurrent callers observe is decided by the atomic instructions
/// themselves.  For a single-owner variant over a plain field, see
/// [`unsync::mutex`](crate::unsync::mutex).
///
/// [`lock`]: Self::lock
/// [`try_lock`]: Self::try_lock
pub struct RawOneShotMutex {
    lock: AtomicBool,
}

impl View for RawOneShotMutex {
    type V = bool;

    closed spec fn view(&self) -> bool {
        stored_bool(self.lock)
    }
}

impl RawOneShotMutex {
    /// Creates the mutex in the unlocked state.
    pub fn new() -> (r: Self)
        ensures
            !r@,
    {
        Self { lock: bool_new(false) }
    }

    /// Acquires the mutex.  The caller must know the mutex to be
    /// unlocked: on a locked mutex the attempt is a contention bug.
    pub fn lock(&mut self)
        requires
            !old(self)@,
        ensures
            final(self)@,
    {
        let _acquired = self.try_lock();
    }

    /// Attempts to acquire the mutex; succeeds exactly when it is
    /// unlocked, and changes nothing on failure.
    pub fn try_lock(&mut self) -> (acquired: bool)
        ensures
            acquired == !old(self)@,
            final(self)@,
    {
        bool_compare_exchange_acquire(&mut self.lock, false, true).is_ok()
    }

    /// Releases the mutex.  The caller must be its current holder.
    pub fn unlock(&mut self)
        requires
            old(self)@,
        ensures
            !final(self)@,
    {
        bool_store_release(&mut self.lock, false);
    }

    /// Advisory snapshot of the flag; it may be stale by the time the
    /// caller looks at it.
    pub fn is_locked(&self) -> (r: bool)
        ensures
            r == self@,
    {
        bool_load_relaxed(&self.lock)
    }

    /// Identical to [`unlock`](Self::unlock): with no wait queue there is
    /// no fairness to arrange.
    pub fn unlock_fair(&mut self)
        requires
            old(self)@,
        ensures
            !final(self)@,
    {
        self.unlock();
    }

    /// A fairness hint; with no wait queue it does nothing.
    pub fn bump(&mut self)
        requires
            old(self)@,
        ensures
            final(self)@ == old(self)@,
    {
    }
}

} // verus!
