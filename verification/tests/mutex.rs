use one_shot_mutex::mutex::RawOneShotMutex;

#[test]
fn mutex_lock() {
    let mut m = RawOneShotMutex::new();
    assert!(!m.is_locked());

    m.lock();
    assert!(m.is_locked());

    m.unlock();
    assert!(!m.is_locked());

    // Once we unlock the mutex, we can lock it again.
    m.lock();
    assert!(m.is_locked());
}

#[test]
fn mutex_try_lock() {
    let mut m = RawOneShotMutex::new();
    assert!(m.try_lock());

    // A second attempt while locked reports failure instead of blocking.
    assert!(!m.try_lock());
    assert!(m.is_locked());

    m.unlock();
    assert!(m.try_lock());
}

#[test]
fn mutex_unlock_fair_and_bump() {
    let mut m = RawOneShotMutex::new();
    m.lock();

    // With no wait queue, bump changes nothing.
    m.bump();
    assert!(m.is_locked());

    // ... and the fair unlock is the plain unlock.
    m.unlock_fair();
    assert!(!m.is_locked());
    assert!(m.try_lock());
}
