use queued_rwlock::lifecycle::{LazyLock, Stage};
use queued_rwlock::state::{AcquireStep, ThreadId};

#[test]
fn init_materialises_a_quiescent_lock() {
    let mut slot = LazyLock::new();
    assert_eq!(slot.stage, Stage::Uninitialized);
    slot.init();
    assert_eq!(slot.stage, Stage::Ready);
    assert!(!slot.lock.is_locked());
    // A second init leaves the materialised lock alone.
    assert!(slot.lock.try_read().is_ok());
    slot.init();
    assert_eq!(slot.lock.reader_count, 1);
}

#[test]
fn teardown_destroys_a_quiescent_lock() {
    let mut slot = LazyLock::new();
    slot.init();
    assert_eq!(slot.teardown(), Stage::Destroyed);
    assert_eq!(slot.stage, Stage::Destroyed);
}

#[test]
fn teardown_leaks_a_held_lock() {
    let mut slot = LazyLock::new();
    slot.init();
    let w = ThreadId { id: 1 };
    assert_eq!(slot.lock.write(w), Ok(AcquireStep::Granted));
    assert_eq!(slot.teardown(), Stage::Leaked);
    assert_eq!(slot.stage, Stage::Leaked);
    // The leaked lock is intact: the holder can still release.
    assert!(slot.lock.write_unlock(w).is_ok());
}

#[test]
fn cancelled_init_is_reclaimed_unchecked() {
    let mut slot = LazyLock::new();
    slot.init();
    slot.cancel_init();
    assert_eq!(slot.stage, Stage::Destroyed);
}
