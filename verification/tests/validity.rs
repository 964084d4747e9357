use bevy_script_api::validity::ValidityLock;

#[test]
fn fresh_lock_is_free() {
    let lock = ValidityLock::new();
    assert!(!lock.is_locked());
    assert_eq!(lock.count(), 0);
}

#[test]
fn lock_counts_its_holds() {
    let mut lock = ValidityLock::new();
    assert!(lock.try_read());
    assert!(lock.try_read());
    assert_eq!(lock.count(), 2);
    assert!(lock.is_locked());
    assert!(lock.release_read());
    assert!(lock.is_locked());
    assert_eq!(lock.count(), 1);
    assert!(lock.release_read());
    assert!(!lock.is_locked());
    assert_eq!(lock.count(), 0);
}

#[test]
fn free_lock_cannot_be_released() {
    let mut lock = ValidityLock::new();
    assert!(!lock.release_read());
    assert_eq!(lock.count(), 0);
    assert!(lock.try_read());
    assert!(lock.release_read());
    assert!(!lock.release_read());
    assert!(!lock.is_locked());
}
