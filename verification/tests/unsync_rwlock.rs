use one_shot_mutex::unsync::rwlock::RawOneShotRwLock;

#[test]
fn unsync_rwlock_lock_exclusive() {
    let mut l = RawOneShotRwLock::new();
    assert!(!l.is_locked());

    l.lock_exclusive();
    assert!(l.is_locked());
    assert!(l.is_locked_exclusive());
    assert!(!l.try_lock_exclusive());

    l.unlock_exclusive();
    assert!(!l.is_locked());
    assert!(l.try_lock_exclusive());
}

#[test]
fn unsync_rwlock_try_lock_exclusive() {
    let mut l = RawOneShotRwLock::new();
    assert!(l.try_lock_exclusive());
    assert!(!l.try_lock_exclusive());

    l.unlock_exclusive();
    assert!(l.try_lock_exclusive());
}

#[test]
fn unsync_rwlock_lock_shared() {
    let mut l = RawOneShotRwLock::new();
    l.lock_shared();
    l.lock_shared();
    assert!(l.is_locked_shared());
    assert!(!l.try_lock_exclusive());

    l.unlock_shared();
    l.unlock_shared();
    assert!(!l.is_locked());
    assert!(l.try_lock_exclusive());
}

#[test]
fn unsync_rwlock_try_lock_shared() {
    let mut l = RawOneShotRwLock::new();
    assert!(l.try_lock_shared());
    assert!(!l.try_lock_exclusive());

    l.unlock_shared();
    assert!(!l.is_locked());
}

#[test]
fn unsync_rwlock_shared_blocked_by_writer() {
    let mut l = RawOneShotRwLock::new();
    l.lock_exclusive();

    assert!(!l.try_lock_shared());
    assert!(l.is_locked_exclusive());
    assert!(!l.is_locked_shared());

    l.unlock_exclusive();
    assert!(l.try_lock_shared());
}

#[test]
fn unsync_rwlock_lock_upgradable() {
    let mut l = RawOneShotRwLock::new();
    l.lock_upgradable();
    assert!(l.is_locked_upgradable());
    assert!(!l.try_lock_exclusive());
    assert!(!l.try_lock_upgradable());
    assert!(l.try_lock_shared());

    assert!(!l.try_upgrade());
    l.unlock_shared();
    assert!(l.try_upgrade());
    assert!(l.is_locked_exclusive());

    l.unlock_exclusive();
    assert!(!l.is_locked());
}

#[test]
fn unsync_rwlock_downgrade() {
    let mut l = RawOneShotRwLock::new();
    l.lock_exclusive();

    l.downgrade();
    assert!(!l.is_locked_exclusive());
    assert!(l.is_locked_shared());
    assert!(l.try_lock_shared());

    l.unlock_shared();
    l.unlock_shared();
    assert!(!l.is_locked());
}

#[test]
fn unsync_rwlock_downgrade_upgradable() {
    let mut l = RawOneShotRwLock::new();
    l.lock_upgradable();

    l.downgrade_upgradable();
    assert!(!l.is_locked_upgradable());
    assert!(l.is_locked_shared());

    l.unlock_shared();
    assert!(!l.is_locked());
}

#[test]
fn unsync_rwlock_downgrade_to_upgradable() {
    let mut l = RawOneShotRwLock::new();
    l.lock_exclusive();

    l.downgrade_to_upgradable();
    assert!(l.is_locked_upgradable());
    assert!(!l.try_lock_exclusive());
    assert!(l.try_lock_shared());

    l.unlock_shared();
    l.unlock_upgradable();
    assert!(!l.is_locked());
}

#[test]
fn unsync_rwlock_acquire_shared() {
    let mut l = RawOneShotRwLock::new();
    assert_eq!(l.acquire_shared(), 0);
    assert!(l.is_locked_shared());

    l.unlock_shared();
    assert!(!l.is_locked());
}

#[test]
fn unsync_rwlock_default() {
    let mut l = RawOneShotRwLock::default();
    assert!(!l.is_locked());
    assert!(l.try_lock_exclusive());
}
