//! A one-shot mutex for a single owner.

use vstd::prelude::*;

verus! {

/// A one-shot mutex that refuses instead of (dead)locking on contention.
///
/// The mutex allows no contention: [`try_lock`] fails, and the caller
/// contract of [`lock`] rules the attempt out, whenever the mutex is
/// already locked.  This is useful in situations where contention would
/// itself be a bug, such as in single-threaded programs that would
/// deadlock on contention.
///
/// The state is one boolean flag held in a plain field, so this variant
/// is for a single logical owner; the view of the mutex is that flag.
/// For a variant whose flag lives in an atomic, see
/// [`mutex`](crate::mutex).
///
/// [`lock`]: Self::lock
/// [`try_lock`]: Self::try_lock
#[derive(Clone, Copy)]
pub struct RawOneShotMutex {
    lock: bool,
}

impl View for RawOneShotMutex {
    type V = bool;

    closed spec fn view(&self) -> bool {
        self.lock
    }
}

impl RawOneShotMutex {
    /// Creates the mutex in the unlocked state.
    pub fn new() -> (r: Self)
        ensures
            !r@,
    {
        Self { lock: false }
    }

    /// Acquires the mutex.  The caller must know the mutex to be
    /// unlocked: on a locked mutex the attempt is a contention bug.
    pub fn lock(&mut self)
        requires
            !old(self)@,
        ensures
            final(self)@,
    {
        let _acquired = self.try_lock();
    }

    /// Attempts to acquire the mutex; succeeds exactly when it is
    /// unlocked, and changes nothing on failure.
    pub fn try_lock(&mut self) -> (acquired: bool)
        ensures
            acquired == !old(self)@,
            final(self)@,
    {
        let was_locked = self.lock;
        self.lock = true;
        !was_locked
    }

    /// Releases the mutex.  The caller must be its current holder.
    pub fn unlock(&mut self)
        requires
            old(self)@,
        ensures
            !final(self)@,
    {
        self.lock = false;
    }

    /// Advisory snapshot of the flag.
    pub fn is_locked(&self) -> (r: bool)
        ensures
            r == self@,
    {
        self.lock
    }

    /// Identical to [`unlock`](Self::unlock): with no wait queue there is
    /// no fairness to arrange.
    pub fn unlock_fair(&mut self)
        requires
            old(self)@,
        ensures
            !final(self)@,
    {
        self.unlock();
    }

    /// A fairness hint; with no wait queue it does nothing.
    pub fn bump(&mut self)
        requires
            old(self)@,
        ensures
            final(self)@ == old(self)@,
    {
    }
}

impl Default for RawOneShotMutex {
    fn default() -> (r: Self)
        ensures
            !r@,
    {
        Self::new()
    }
}

} // verus!
