use one_shot_mutex::unsync::mutex::RawOneShotMutex;

#[test]
fn unsync_mutex_lock() {
    let mut m = RawOneShotMutex::new();
    assert!(!m.is_locked());

    m.lock();
    assert!(m.is_locked());

    m.unlock();
    assert!(!m.is_locked());

    m.lock();
    assert!(m.is_locked());
}

#[test]
fn unsync_mutex_try_lock() {
    let mut m = RawOneShotMutex::new();
    assert!(m.try_lock());

    assert!(!m.try_lock());
    assert!(m.is_locked());

    m.unlock();
    assert!(m.try_lock());
}

#[test]
fn unsync_mutex_default() {
    let mut m = RawOneShotMutex::default();
    assert!(!m.is_locked());
    assert!(m.try_lock());
}

#[test]
fn unsync_mutex_unlock_fair_and_bump() {
    let mut m = RawOneShotMutex::new();
    m.lock();

    m.bump();
    assert!(m.is_locked());

    m.unlock_fair();
    assert!(!m.is_locked());
}
