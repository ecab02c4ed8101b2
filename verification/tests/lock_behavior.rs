use queued_rwlock::rwlock::RwLock;
use queued_rwlock::state::{AcquireStep, LockError, ThreadId, WakeAction};

fn tid(id: u64) -> ThreadId {
    ThreadId { id }
}

#[test]
fn mutual_exclusion_writer_blocks_readers_and_writers() {
    let mut l = RwLock::new();
    let w = tid(1);
    let other = tid(2);
    assert!(l.try_write(w).is_ok());
    assert_eq!(l.owner, Some(w));
    assert_eq!(l.reader_count, 0);
    assert_eq!(l.try_read(), Err(LockError::Busy));
    assert_eq!(l.try_write(other), Err(LockError::Busy));
    assert_eq!(l.owner, Some(w));
}

#[test]
fn mutual_exclusion_readers_block_writers() {
    let mut l = RwLock::new();
    assert!(l.try_read().is_ok());
    assert_eq!(l.reader_count, 1);
    assert_eq!(l.owner, None);
    assert_eq!(l.try_write(tid(7)), Err(LockError::Busy));
    assert_eq!(l.owner, None);
}

#[test]
fn unbounded_readers_all_admitted() {
    let mut l = RwLock::new();
    for i in 0..64u64 {
        assert_eq!(l.read(tid(i)), Ok(AcquireStep::Granted));
    }
    assert_eq!(l.reader_count, 64);
    assert_eq!(l.owner, None);
    assert_eq!(l.reader_queue.len(), 0);
}

#[test]
fn readers_admitted_ahead_of_queued_writers() {
    // Reader-preferring admission: a queued writer does not block new readers.
    let mut l = RwLock::new();
    assert_eq!(l.read(tid(1)), Ok(AcquireStep::Granted));
    assert_eq!(l.write(tid(2)), Ok(AcquireStep::MustWait));
    assert_eq!(l.writer_queue.len(), 1);
    assert!(l.try_read().is_ok());
    assert_eq!(l.read(tid(3)), Ok(AcquireStep::Granted));
    assert_eq!(l.reader_count, 3);
}

#[test]
fn writer_fifo_on_release() {
    let mut l = RwLock::new();
    let r = tid(1);
    let w1 = tid(2);
    let w2 = tid(3);
    assert_eq!(l.read(r), Ok(AcquireStep::Granted));
    assert_eq!(l.write(w1), Ok(AcquireStep::MustWait));
    assert_eq!(l.write(w2), Ok(AcquireStep::MustWait));
    // The last shared release wakes exactly the first queued writer.
    let wake = l.read_unlock().unwrap();
    assert!(matches!(wake, WakeAction::WakeOne(t) if t == w1));
    // W1 revalidates and wins; W2 alone stays queued.
    assert_eq!(l.write_retry(w1), AcquireStep::Granted);
    assert_eq!(l.owner, Some(w1));
    assert_eq!(l.writer_queue, vec![w2]);
    // W2's revalidation finds the lock held and parks again.
    assert_eq!(l.write_retry(w2), AcquireStep::MustWait);
}

#[test]
fn intermediate_shared_release_wakes_nobody() {
    let mut l = RwLock::new();
    assert!(l.try_read().is_ok());
    assert!(l.try_read().is_ok());
    assert_eq!(l.write(tid(9)), Ok(AcquireStep::MustWait));
    let wake = l.read_unlock().unwrap();
    assert!(matches!(wake, WakeAction::WakeNone));
    let wake = l.read_unlock().unwrap();
    assert!(matches!(wake, WakeAction::WakeOne(t) if t == tid(9)));
}

#[test]
fn reader_broadcast_on_exclusive_release() {
    let mut l = RwLock::new();
    let w = tid(1);
    let readers = [tid(2), tid(3), tid(4)];
    assert_eq!(l.write(w), Ok(AcquireStep::Granted));
    for r in readers {
        assert_eq!(l.read(r), Ok(AcquireStep::MustWait));
    }
    // A writer that enqueues afterwards is not part of the wake set.
    assert_eq!(l.write(tid(5)), Ok(AcquireStep::MustWait));
    let wake = l.write_unlock(w).unwrap();
    match wake {
        WakeAction::WakeAll(ts) => assert_eq!(ts, vec![tid(2), tid(3), tid(4)]),
        _ => panic!("expected a broadcast to the queued readers"),
    }
    // Every woken reader revalidates successfully, in any order.
    assert_eq!(l.read_retry(tid(3)), AcquireStep::Granted);
    assert_eq!(l.read_retry(tid(2)), AcquireStep::Granted);
    assert_eq!(l.read_retry(tid(4)), AcquireStep::Granted);
    assert_eq!(l.reader_count, 3);
    assert_eq!(l.reader_queue.len(), 0);
    // The late writer still waits.
    assert_eq!(l.writer_queue, vec![tid(5)]);
    assert_eq!(l.write_retry(tid(5)), AcquireStep::MustWait);
}

#[test]
fn exclusive_release_with_no_queued_reader_wakes_one_writer() {
    let mut l = RwLock::new();
    let w = tid(1);
    assert_eq!(l.write(w), Ok(AcquireStep::Granted));
    assert_eq!(l.write(tid(2)), Ok(AcquireStep::MustWait));
    assert_eq!(l.write(tid(3)), Ok(AcquireStep::MustWait));
    let wake = l.write_unlock(w).unwrap();
    assert!(matches!(wake, WakeAction::WakeOne(t) if t == tid(2)));
}

#[test]
fn exclusive_release_on_empty_queues_wakes_nobody() {
    let mut l = RwLock::new();
    let w = tid(1);
    assert_eq!(l.write(w), Ok(AcquireStep::Granted));
    let wake = l.write_unlock(w).unwrap();
    assert!(matches!(wake, WakeAction::WakeNone));
}

#[test]
fn self_deadlock_detected_immediately() {
    let mut l = RwLock::new();
    let w = tid(1);
    assert_eq!(l.write(w), Ok(AcquireStep::Granted));
    assert_eq!(l.read(w), Err(LockError::WouldDeadlock));
    assert_eq!(l.write(w), Err(LockError::WouldDeadlock));
    // Neither attempt queued the caller.
    assert_eq!(l.reader_queue.len(), 0);
    assert_eq!(l.writer_queue.len(), 0);
}

#[test]
fn repeated_shared_acquisition_is_not_flagged() {
    // No per-reader identity tracking: a shared holder acquiring shared
    // access again simply takes another reader slot.
    let mut l = RwLock::new();
    let t = tid(1);
    assert_eq!(l.read(t), Ok(AcquireStep::Granted));
    assert_eq!(l.read(t), Ok(AcquireStep::Granted));
    assert_eq!(l.reader_count, 2);
}

#[test]
fn unlock_mismatch_reports_not_permitted() {
    let mut l = RwLock::new();
    let w = tid(1);
    assert_eq!(l.write(w), Ok(AcquireStep::Granted));
    assert!(matches!(l.write_unlock(tid(2)), Err(LockError::NotPermitted)));
    assert_eq!(l.owner, Some(w));
    assert!(l.write_unlock(w).is_ok());
    assert!(matches!(l.read_unlock(), Err(LockError::NotPermitted)));
}

#[test]
fn generic_unlock_dispatches_on_identity() {
    let mut l = RwLock::new();
    let w = tid(1);
    // As the owner: an exclusive release.
    assert_eq!(l.write(w), Ok(AcquireStep::Granted));
    assert!(l.unlock(w).is_ok());
    assert_eq!(l.owner, None);
    // As a non-owner with a shared hold: a shared release.
    assert!(l.try_read().is_ok());
    assert!(l.unlock(tid(2)).is_ok());
    assert_eq!(l.reader_count, 0);
    // As a non-owner with nothing held: refused.
    assert!(matches!(l.unlock(tid(3)), Err(LockError::NotPermitted)));
}

#[test]
fn try_operations_report_busy_under_contention() {
    let mut l = RwLock::new();
    assert!(l.try_read().is_ok());
    assert_eq!(l.try_write(tid(1)), Err(LockError::Busy));
    assert!(l.read_unlock().is_ok());
    assert!(l.try_write(tid(1)).is_ok());
    assert_eq!(l.try_read(), Err(LockError::Busy));
    // The owner's own non-blocking retry is Busy, not WouldDeadlock.
    assert_eq!(l.try_write(tid(1)), Err(LockError::Busy));
}

#[test]
fn teardown_safety() {
    let mut l = RwLock::new();
    assert!(l.destroy().is_ok());
    assert!(l.try_read().is_ok());
    assert_eq!(l.destroy(), Err(LockError::Busy));
    // The refused teardown left the lock fully usable.
    assert!(l.read_unlock().is_ok());
    assert!(l.try_write(tid(1)).is_ok());
    assert_eq!(l.destroy(), Err(LockError::Busy));
    assert!(l.write_unlock(tid(1)).is_ok());
    assert!(l.destroy().is_ok());
}

#[test]
fn destroy_refused_while_waiters_are_queued() {
    let mut l = RwLock::new();
    assert!(l.try_read().is_ok());
    assert_eq!(l.write(tid(1)), Ok(AcquireStep::MustWait));
    assert!(l.read_unlock().is_ok());
    // No holder remains, but the queued writer keeps the lock non-quiescent.
    assert_eq!(l.destroy(), Err(LockError::Busy));
    assert!(l.is_locked());
}

#[test]
fn woken_reader_parks_again_when_a_writer_won() {
    let mut l = RwLock::new();
    let w = tid(1);
    let r = tid(2);
    assert_eq!(l.write(w), Ok(AcquireStep::Granted));
    assert_eq!(l.read(r), Ok(AcquireStep::MustWait));
    assert!(l.write_unlock(w).is_ok());
    // Another writer slips in before the woken reader runs.
    assert!(l.try_write(tid(3)).is_ok());
    assert_eq!(l.read_retry(r), AcquireStep::MustWait);
    assert_eq!(l.reader_queue, vec![r]);
}

#[test]
fn vestigial_writer_tally_does_not_block_teardown() {
    // The reserved writer-priority tally is outside the definition of
    // quiescence: neither the probe nor teardown consults it.
    let mut l = RwLock::new();
    l.writer_waiting = 1;
    assert!(!l.is_locked());
    assert!(l.destroy().is_ok());
}
