use one_shot_mutex::rwlock::RawOneShotRwLock;

#[test]
fn rwlock_lock_exclusive() {
    let mut l = RawOneShotRwLock::new();
    assert!(!l.is_locked());

    l.lock_exclusive();
    assert!(l.is_locked());
    assert!(l.is_locked_exclusive());

    // A second writer reports failure instead of blocking.
    assert!(!l.try_lock_exclusive());

    l.unlock_exclusive();
    assert!(!l.is_locked());

    // After the release, a writer succeeds again.
    assert!(l.try_lock_exclusive());
}

#[test]
fn rwlock_try_lock_exclusive() {
    let mut l = RawOneShotRwLock::new();
    assert!(l.try_lock_exclusive());
    assert!(!l.try_lock_exclusive());

    l.unlock_exclusive();
    assert!(l.try_lock_exclusive());
}

#[test]
fn rwlock_lock_shared() {
    let mut l = RawOneShotRwLock::new();
    l.lock_shared();
    assert!(l.is_locked_shared());

    // Any number of shared holders may coexist.
    l.lock_shared();
    assert!(!l.try_lock_exclusive());

    // Two acquisitions need two releases to fully unlock.
    l.unlock_shared();
    assert!(l.is_locked_shared());
    l.unlock_shared();
    assert!(!l.is_locked());
    assert!(l.try_lock_exclusive());
}

#[test]
fn rwlock_try_lock_shared() {
    let mut l = RawOneShotRwLock::new();
    assert!(l.try_lock_shared());
    assert!(!l.try_lock_exclusive());

    assert!(l.try_lock_shared());
    l.unlock_shared();
    l.unlock_shared();
    assert!(!l.is_locked());
}

#[test]
fn rwlock_shared_blocked_by_writer() {
    let mut l = RawOneShotRwLock::new();
    l.lock_exclusive();

    // A reader fails while a writer holds the lock, with no side effect.
    assert!(!l.try_lock_shared());
    assert!(l.is_locked_exclusive());
    assert!(!l.is_locked_shared());

    l.unlock_exclusive();
    assert!(l.try_lock_shared());
}

#[test]
fn rwlock_lock_shared_recursive() {
    let mut l = RawOneShotRwLock::new();
    l.lock_shared_recursive();
    assert!(l.try_lock_shared_recursive());
    assert!(l.is_locked_shared());
    assert!(!l.try_lock_exclusive());

    l.unlock_shared();
    l.unlock_shared();
    assert!(!l.is_locked());
}

#[test]
fn rwlock_acquire_shared() {
    let mut l = RawOneShotRwLock::new();

    // The low-level half-transition reports the word it found.
    assert_eq!(l.acquire_shared(), 0);
    assert!(l.is_locked_shared());

    l.unlock_shared();
    assert!(!l.is_locked());
}

#[test]
fn rwlock_lock_upgradable() {
    let mut l = RawOneShotRwLock::new();
    l.lock_upgradable();
    assert!(l.is_locked_upgradable());

    // The upgradable holder blocks writers but not readers.
    assert!(!l.try_lock_exclusive());
    assert!(l.try_lock_shared());

    // With a reader present the upgrade fails...
    assert!(!l.try_upgrade());

    // ... and succeeds once the reader is gone.
    l.unlock_shared();
    assert!(l.try_upgrade());
    assert!(l.is_locked_exclusive());

    l.unlock_exclusive();
    assert!(!l.is_locked());
}

#[test]
fn rwlock_try_lock_upgradable() {
    let mut l = RawOneShotRwLock::new();
    assert!(l.try_lock_upgradable());

    // At most one upgradable holder exists at a time.
    assert!(!l.try_lock_upgradable());
    assert!(l.is_locked_upgradable());

    l.unlock_upgradable();
    assert!(l.try_lock_upgradable());
}

#[test]
fn rwlock_upgradable_blocked_by_writer() {
    let mut l = RawOneShotRwLock::new();
    l.lock_exclusive();

    // The attempt fails and leaves no upgradable flag behind.
    assert!(!l.try_lock_upgradable());
    assert!(!l.is_locked_upgradable());
    assert!(l.is_locked_exclusive());

    l.unlock_exclusive();
    assert!(l.try_lock_upgradable());
}

#[test]
fn rwlock_upgrade() {
    let mut l = RawOneShotRwLock::new();
    l.lock_upgradable();

    // Alone, the upgradable holder may take exclusive access at once.
    l.upgrade();
    assert!(l.is_locked_exclusive());
    assert!(!l.is_locked_upgradable());

    l.unlock_exclusive();
    assert!(!l.is_locked());
}

#[test]
fn rwlock_downgrade() {
    let mut l = RawOneShotRwLock::new();
    l.lock_exclusive();

    l.downgrade();
    assert!(!l.is_locked_exclusive());
    assert!(l.is_locked_shared());

    // A second reader joins the downgraded holder: both hold it shared.
    assert!(l.try_lock_shared());

    l.unlock_shared();
    l.unlock_shared();
    assert!(!l.is_locked());
}

#[test]
fn rwlock_downgrade_upgradable() {
    let mut l = RawOneShotRwLock::new();
    l.lock_upgradable();

    l.downgrade_upgradable();
    assert!(!l.is_locked_upgradable());
    assert!(l.is_locked_shared());

    // The upgradable slot is free again while the shared unit stays.
    assert!(l.try_lock_upgradable());
    l.unlock_upgradable();

    l.unlock_shared();
    assert!(!l.is_locked());
}

#[test]
fn rwlock_downgrade_to_upgradable() {
    let mut l = RawOneShotRwLock::new();
    l.lock_exclusive();

    l.downgrade_to_upgradable();
    assert!(l.is_locked_upgradable());
    assert!(!l.is_locked_exclusive());

    // Writers stay blocked while readers get through.
    assert!(!l.try_lock_exclusive());
    assert!(l.try_lock_shared());

    l.unlock_shared();
    l.unlock_upgradable();
    assert!(!l.is_locked());
}

#[test]
fn rwlock_acquisitions_match_releases() {
    let mut l = RawOneShotRwLock::new();

    // A stack of acquisitions undone in reverse order returns the lock
    // to where it started.
    l.lock_shared();
    l.lock_upgradable();
    l.lock_shared();

    assert!(l.is_locked_shared());
    assert!(l.is_locked_upgradable());

    l.unlock_shared();
    l.unlock_upgradable();
    assert!(!l.is_locked_upgradable());
    assert!(l.is_locked_shared());

    l.unlock_shared();
    assert!(!l.is_locked());
    assert!(l.try_lock_exclusive());
}
