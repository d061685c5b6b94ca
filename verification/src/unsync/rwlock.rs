//! A one-shot readers-writer lock for a single owner.

use vstd::prelude::*;

use crate::model::EXCLUSIVE;
use crate::model::SHARED;
use crate::model::UPGRADABLE;
use crate::model::after_downgrade;
use crate::model::after_downgrade_to_upgradable;
use crate::model::after_downgrade_upgradable;
use crate::model::after_lock_exclusive;
use crate::model::after_lock_shared;
use crate::model::after_lock_upgradable;
use crate::model::after_unlock_exclusive;
use crate::model::after_unlock_shared;
use crate::model::after_unlock_upgradable;
use crate::model::after_upgrade;
use crate::model::below_shared_cap;
use crate::model::can_downgrade;
use crate::model::can_downgrade_to_upgradable;
use crate::model::can_downgrade_upgradable;
use crate::model::can_lock_exclusive;
use crate::model::can_lock_shared;
use crate::model::can_lock_upgradable;
use crate::model::can_unlock_exclusive;
use crate::model::can_unlock_shared;
use crate::model::can_unlock_upgradable;
use crate::model::can_upgrade;
use crate::model::is_exclusive;
use crate::model::is_upgradable;
use crate::model::lemma_add_shared;
use crate::model::lemma_cap_leaves_room;
use crate::model::lemma_clear_exclusive;
use crate::model::lemma_clear_upgradable;
use crate::model::lemma_exclusive_bit;
use crate::model::lemma_set_upgradable;
use crate::model::lemma_shared_bits;
use crate::model::lemma_sub_shared;
use crate::model::lemma_toggle_modes;
use crate::model::lemma_upgradable_bit;
use crate::model::shared_count;

verus! {

/// A one-shot readers-writer lock that refuses instead of (dead)locking
/// on contention.
///
/// The lock allows no contention: every `try_*` acquisition fails, and
/// the caller contract of every other acquisition rules the attempt out,
/// whenever a conflicting holder exists.  This is useful in situations
/// where contention would itself be a bug, such as in single-threaded
/// programs that would deadlock on contention.
///
/// The whole state is one `usize` word, read as the model in
/// [`model`](crate::model) says; the view of the lock is that word.  The
/// word is held in a plain field, so this variant is for a single logical
/// owner; for a variant whose word lives in an atomic, see
/// [`rwlock`](crate::rwlock).
#[derive(Clone, Copy)]
pub struct RawOneShotRwLock {
    lock: usize,
}

impl View for RawOneShotRwLock {
    type V = usize;

    closed spec fn view(&self) -> usize {
        self.lock
    }
}

impl RawOneShotRwLock {
    /// Creates the lock in the fully unlocked state.
    pub fn new() -> (r: Self)
        ensures
            r@ == 0,
    {
        Self { lock: 0 }
    }

    /// Advisory snapshot: whether any shared holder is recorded.
    pub fn is_locked_shared(&self) -> (r: bool)
        ensures
            r == (shared_count(self@) >= 1),
    {
        proof {
            lemma_shared_bits(self.lock);
        }
        self.lock & !(EXCLUSIVE | UPGRADABLE) != 0
    }

    /// Advisory snapshot: whether an upgradable holder is recorded.
    pub fn is_locked_upgradable(&self) -> (r: bool)
        ensures
            r == is_upgradable(self@),
    {
        proof {
            lemma_upgradable_bit(self.lock);
        }
        self.lock & UPGRADABLE == UPGRADABLE
    }

    /// Adds one shared unit to the word, whatever mode holds it, and
    /// returns the word as it was before.  The word must be below the
    /// defensive cap that keeps the count from wrapping.
    pub fn acquire_shared(&mut self) -> (prev: usize)
        requires
            below_shared_cap(old(self)@),
        ensures
            prev == old(self)@,
            final(self)@ == after_lock_shared(old(self)@),
    {
        proof {
            lemma_cap_leaves_room(self.lock);
        }
        let value = self.lock;
        self.lock = self.lock + SHARED;
        value
    }

    /// Acquires a shared lock.  The caller must know that no writer holds
    /// the lock: contention here is a bug.
    pub fn lock_shared(&mut self)
        requires
            can_lock_shared(old(self)@),
            below_shared_cap(old(self)@),
        ensures
            final(self)@ == after_lock_shared(old(self)@),
    {
        let _acquired = self.try_lock_shared();
    }

    /// Attempts to acquire a shared lock; succeeds exactly when no writer
    /// holds the lock, and changes nothing on failure.
    ///
    /// The shared unit is added optimistically and taken back if a writer
    /// was present at the moment of the increment; only this call's own
    /// unit is ever rolled back.
    pub fn try_lock_shared(&mut self) -> (acquired: bool)
        requires
            below_shared_cap(old(self)@),
        ensures
            acquired == can_lock_shared(old(self)@),
            final(self)@ == (if acquired {
                after_lock_shared(old(self)@)
            } else {
                old(self)@
            }),
    {
        let value = self.acquire_shared();

        let acquired = value & EXCLUSIVE != EXCLUSIVE;

        proof {
            lemma_exclusive_bit(value);
            lemma_cap_leaves_room(value);
            lemma_add_shared(value);
        }
        if !acquired {
            self.unlock_shared();
        }

        acquired
    }

    /// Removes one shared unit.  The caller must hold a shared lock.
    pub fn unlock_shared(&mut self)
        requires
            can_unlock_shared(old(self)@),
        ensures
            final(self)@ == after_unlock_shared(old(self)@),
    {
        proof {
            lemma_sub_shared(self.lock);
        }
        self.lock = self.lock - SHARED;
    }

    /// Acquires the exclusive lock.  The caller must know the lock to be
    /// fully unlocked: contention here is a bug.
    pub fn lock_exclusive(&mut self)
        requires
            can_lock_exclusive(old(self)@),
        ensures
            final(self)@ == after_lock_exclusive(old(self)@),
    {
        let _acquired = self.try_lock_exclusive();
    }

    /// Attempts to acquire the exclusive lock; succeeds exactly from the
    /// fully unlocked state, and changes nothing on failure.
    pub fn try_lock_exclusive(&mut self) -> (acquired: bool)
        ensures
            acquired == can_lock_exclusive(old(self)@),
            final(self)@ == (if acquired {
                after_lock_exclusive(old(self)@)
            } else {
                old(self)@
            }),
    {
        let ok = self.lock == 0;
        if ok {
            self.lock = EXCLUSIVE;
        }
        ok
    }

    /// Clears the exclusive flag.  The caller must hold the exclusive
    /// lock.
    pub fn unlock_exclusive(&mut self)
        requires
            can_unlock_exclusive(old(self)@),
        ensures
            final(self)@ == after_unlock_exclusive(old(self)@),
    {
        proof {
            lemma_clear_exclusive(self.lock);
        }
        self.lock = self.lock & !EXCLUSIVE;
    }

    /// Advisory snapshot: whether any holder at all is recorded.
    pub fn is_locked(&self) -> (r: bool)
        ensures
            r == (self@ != 0),
    {
        self.lock != 0
    }

    /// Advisory snapshot: whether a writer holds the lock.
    pub fn is_locked_exclusive(&self) -> (r: bool)
        ensures
            r == is_exclusive(self@),
    {
        proof {
            lemma_exclusive_bit(self.lock);
        }
        self.lock & EXCLUSIVE == EXCLUSIVE
    }

    /// Acquires a shared lock again.  A second shared acquisition by the
    /// same holder is indistinguishable from one by another holder, so
    /// this simply delegates to [`lock_shared`](Self::lock_shared).
    pub fn lock_shared_recursive(&mut self)
        requires
            can_lock_shared(old(self)@),
            below_shared_cap(old(self)@),
        ensures
            final(self)@ == after_lock_shared(old(self)@),
    {
        self.lock_shared();
    }

    /// Attempts a repeated shared acquisition; delegates to
    /// [`try_lock_shared`](Self::try_lock_shared).
    pub fn try_lock_shared_recursive(&mut self) -> (acquired: bool)
        requires
            below_shared_cap(old(self)@),
        ensures
            acquired == can_lock_shared(old(self)@),
            final(self)@ == (if acquired {
                after_lock_shared(old(self)@)
            } else {
                old(self)@
            }),
    {
        self.try_lock_shared()
    }

    /// Trades the exclusive lock for a shared one.  The shared unit is
    /// added before the exclusive flag is cleared, so no observer ever
    /// finds the word fully unlocked in between.
    pub fn downgrade(&mut self)
        requires
            can_downgrade(old(self)@),
            below_shared_cap(old(self)@),
        ensures
            final(self)@ == after_downgrade(old(self)@),
    {
        proof {
            lemma_cap_leaves_room(self.lock);
            lemma_add_shared(self.lock);
        }
        // Reserve the shared unit for ourselves before letting go.
        let _prev = self.acquire_shared();

        self.unlock_exclusive();
    }

    /// Acquires the upgradable lock.  The caller must know that no writer
    /// and no other upgradable holder exist: contention here is a bug.
    pub fn lock_upgradable(&mut self)
        requires
            can_lock_upgradable(old(self)@),
        ensures
            final(self)@ == after_lock_upgradable(old(self)@),
    {
        let _acquired = self.try_lock_upgradable();
    }

    /// Attempts to acquire the upgradable lock; succeeds exactly when no
    /// writer and no other upgradable holder exist, and changes nothing
    /// on failure.
    ///
    /// The flag is set optimistically and cleared again if the attempt
    /// finds a writer; a flag some other holder already owned is left
    /// alone.
    pub fn try_lock_upgradable(&mut self) -> (acquired: bool)
        ensures
            acquired == can_lock_upgradable(old(self)@),
            final(self)@ == (if acquired {
                after_lock_upgradable(old(self)@)
            } else {
                old(self)@
            }),
    {
        let value = self.lock;
        proof {
            lemma_set_upgradable(value);
            lemma_upgradable_bit(value);
        }
        self.lock = self.lock | UPGRADABLE;

        let acquired = value & (UPGRADABLE | EXCLUSIVE) == 0;

        if !acquired && value & UPGRADABLE == 0 {
            self.unlock_upgradable();
        }

        acquired
    }

    /// Clears the upgradable flag.  The caller must hold the upgradable
    /// lock.
    pub fn unlock_upgradable(&mut self)
        requires
            can_unlock_upgradable(old(self)@),
        ensures
            final(self)@ == after_unlock_upgradable(old(self)@),
    {
        proof {
            lemma_clear_upgradable(self.lock);
        }
        self.lock = self.lock & !UPGRADABLE;
    }

    /// Trades the upgradable lock for the exclusive one.  The caller must
    /// know that no shared holder remains beside it: contention here is a
    /// bug.
    pub fn upgrade(&mut self)
        requires
            can_upgrade(old(self)@),
        ensures
            final(self)@ == after_upgrade(old(self)@),
    {
        let _acquired = self.try_upgrade();
    }

    /// Attempts to trade the upgradable lock for the exclusive one;
    /// succeeds exactly when the upgradable holder is alone, and changes
    /// nothing on failure.
    pub fn try_upgrade(&mut self) -> (acquired: bool)
        ensures
            acquired == can_upgrade(old(self)@),
            final(self)@ == (if acquired {
                after_upgrade(old(self)@)
            } else {
                old(self)@
            }),
    {
        let ok = self.lock == UPGRADABLE;
        if ok {
            self.lock = EXCLUSIVE;
        }
        ok
    }

    /// Trades the upgradable lock for a shared one.  The shared unit is
    /// added before the upgradable flag is cleared, so no observer ever
    /// finds the word fully unlocked in between.
    pub fn downgrade_upgradable(&mut self)
        requires
            can_downgrade_upgradable(old(self)@),
            below_shared_cap(old(self)@),
        ensures
            final(self)@ == after_downgrade_upgradable(old(self)@),
    {
        proof {
            lemma_cap_leaves_room(self.lock);
            lemma_add_shared(self.lock);
        }
        let _prev = self.acquire_shared();

        self.unlock_upgradable();
    }

    /// Trades the exclusive lock for the upgradable one.  Both mode flags
    /// flip in a single step, so no release window exists in between.
    pub fn downgrade_to_upgradable(&mut self)
        requires
            can_downgrade_to_upgradable(old(self)@),
        ensures
            final(self)@ == after_downgrade_to_upgradable(old(self)@),
    {
        proof {
            lemma_toggle_modes(self.lock);
        }
        self.lock = self.lock ^ (UPGRADABLE | EXCLUSIVE);
    }
}

impl Default for RawOneShotRwLock {
    fn default() -> (r: Self)
        ensures
            r@ == 0,
    {
        Self::new()
    }
}

} // verus!
