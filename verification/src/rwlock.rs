//! The executable lock state and its operations. The runtime drives them as
//! a monitor: it holds a busy-wait lock around every call, parks the calling
//! thread whenever an acquisition answers `MustWait`, retries the matching
//! `*_retry` operation on every wake, and performs the `WakeAction` a
//! release hands back. A wake is only a hint, never a proof of
//! availability, so the retry operations re-check the admission predicate
//! and answer `MustWait` again when it does not hold.

use vstd::prelude::*;

use crate::state::{AcquireStep, LockError, LockView, ThreadId, WakeAction};
use crate::state::{read_unlock_post, write_unlock_post};
use crate::state::{lemma_push_keeps_no_duplicates, lemma_remove_first_occurrence};

verus! {

/// The lock state: reader count, exclusive owner, and the two FIFO wait
/// queues. All operations expect to run inside the caller's critical
/// section, so none of them blocks or spins.
pub struct RwLock {
    pub reader_count: u32,
    pub writer_waiting: u32,
    pub owner: Option<ThreadId>,
    pub reader_queue: Vec<ThreadId>,
    pub writer_queue: Vec<ThreadId>,
}

impl View for RwLock {
    type V = LockView;

    open spec fn view(&self) -> LockView {
        LockView {
            readers: self.reader_count as nat,
            writer_waiting: self.writer_waiting as nat,
            owner: self.owner,
            reader_queue: self.reader_queue@,
            writer_queue: self.writer_queue@,
        }
    }
}

/// The index of the first occurrence of `t` in `q`.
fn find_thread(q: &Vec<ThreadId>, t: ThreadId) -> (i: usize)
    requires
        q@.contains(t),
    ensures
        0 <= i < q@.len(),
        q@[i as int] == t,
        forall|j: int| 0 <= j < i ==> q@[j] != t,
{
    let mut i: usize = 0;
    while i < q.len()
        invariant
            i <= q@.len(),
            q@.contains(t),
            forall|j: int| 0 <= j < i ==> q@[j] != t,
        decreases q@.len() - i,
    {
        if q[i].id == t.id {
            return i;
        }
        i = i + 1;
    }
    proof {
        let w = choose|k: int| 0 <= k < q@.len() && q@[k] == t;
        assert(q@[w] != t);
        assert(false);
    }
    0
}

/// A copy of the queue, handed out as a broadcast wake list.
fn snapshot(q: &Vec<ThreadId>) -> (out: Vec<ThreadId>)
    ensures
        out@ == q@,
{
    let mut out: Vec<ThreadId> = Vec::new();
    let mut i: usize = 0;
    while i < q.len()
        invariant
            i <= q@.len(),
            out@ == q@.subrange(0, i as int),
        decreases q@.len() - i,
    {
        out.push(q[i]);
        proof {
            assert(out@ =~= q@.subrange(0, i + 1));
        }
        i = i + 1;
    }
    proof {
        assert(out@ =~= q@);
    }
    out
}

impl RwLock {
    /// The invariant the operations maintain; see `LockView::wf`.
    pub open spec fn wf(self) -> bool {
        self@.wf()
    }

    /// A fresh, quiescent lock.
    pub fn new() -> (lock: RwLock)
        ensures
            lock@ == LockView::initial(),
            lock.wf(),
            lock@.quiescent(),
    {
        let lock = RwLock {
            reader_count: 0,
            writer_waiting: 0,
            owner: None,
            reader_queue: Vec::new(),
            writer_queue: Vec::new(),
        };
        proof {
            assert(lock@ =~= LockView::initial());
        }
        lock
    }

    /// Whether `current` is the exclusive owner.
    fn is_owner(&self, current: ThreadId) -> (r: bool)
        ensures
            r == (self.owner == Some(current)),
    {
        match self.owner {
            Some(t) => t.id == current.id,
            None => false,
        }
    }

    /// First inspection for shared access: admitted at once whenever no
    /// exclusive holder exists — regardless of queued writers, the
    /// reader-preferring admission policy; refused with `WouldDeadlock` when
    /// the caller itself is the owner; otherwise the caller joins the reader
    /// queue and must park.
    pub fn read(&mut self, current: ThreadId) -> (r: Result<AcquireStep, LockError>)
        requires
            old(self).wf(),
            old(self).reader_count < u32::MAX,
            !old(self)@.reader_queue.contains(current),
            !old(self)@.writer_queue.contains(current),
        ensures
            final(self).wf(),
            old(self)@.owner is None ==> r == Ok::<AcquireStep, LockError>(AcquireStep::Granted)
                && final(self)@ == old(self)@.read_granted(),
            old(self)@.owner == Some(current) ==> r == Err::<AcquireStep, LockError>(
                LockError::WouldDeadlock,
            ) && final(self)@ == old(self)@,
            old(self)@.owner is Some && old(self)@.owner != Some(current) ==> r == Ok::<
                AcquireStep,
                LockError,
            >(AcquireStep::MustWait) && final(self)@ == old(self)@.reader_enqueued(current),
    {
        let ghost pre = self@;
        if self.owner.is_none() {
            self.reader_count = self.reader_count + 1;
            proof {
                assert(self@ =~= pre.read_granted());
            }
            Ok(AcquireStep::Granted)
        } else if self.is_owner(current) {
            Err(LockError::WouldDeadlock)
        } else {
            self.reader_queue.push(current);
            proof {
                assert(self@ =~= pre.reader_enqueued(current));
                lemma_push_keeps_no_duplicates(pre.reader_queue, current);
            }
            Ok(AcquireStep::MustWait)
        }
    }

    /// Revalidation after a wake for a parked shared-access caller: admitted
    /// and dequeued as soon as no exclusive holder exists, otherwise it must
    /// park again.
    pub fn read_retry(&mut self, current: ThreadId) -> (r: AcquireStep)
        requires
            old(self).wf(),
            old(self).reader_count < u32::MAX,
            old(self)@.reader_queue.contains(current),
        ensures
            final(self).wf(),
            old(self)@.owner is Some ==> r == AcquireStep::MustWait && final(self)@ == old(self)@,
            old(self)@.owner is None ==> r == AcquireStep::Granted && final(self)@ == old(
                self,
            )@.reader_retry_granted(current)
                && final(self)@.reader_queue.len() == old(self)@.reader_queue.len() - 1
                && !final(self)@.reader_queue.contains(current),
    {
        let ghost pre = self@;
        if self.owner.is_none() {
            self.reader_count = self.reader_count + 1;
            let i = find_thread(&self.reader_queue, current);
            self.reader_queue.remove(i);
            proof {
                lemma_remove_first_occurrence(pre.reader_queue, current, i as int);
                assert(self@ =~= pre.reader_retry_granted(current));
            }
            AcquireStep::Granted
        } else {
            AcquireStep::MustWait
        }
    }

    /// Non-blocking shared acquisition: succeeds exactly when no exclusive
    /// holder exists (queued writers are never consulted), otherwise `Busy`.
    pub fn try_read(&mut self) -> (r: Result<(), LockError>)
        requires
            old(self).wf(),
            old(self).reader_count < u32::MAX,
        ensures
            final(self).wf(),
            old(self)@.owner is None ==> r is Ok && final(self)@ == old(self)@.read_granted(),
            old(self)@.owner is Some ==> r == Err::<(), LockError>(LockError::Busy) && final(self)@
                == old(self)@,
    {
        let ghost pre = self@;
        if self.owner.is_none() {
            self.reader_count = self.reader_count + 1;
            proof {
                assert(self@ =~= pre.read_granted());
            }
            Ok(())
        } else {
            Err(LockError::Busy)
        }
    }

    /// First inspection for exclusive access: admitted only when the lock is
    /// entirely free; refused with `WouldDeadlock` when the caller itself is
    /// the owner; otherwise the caller joins the writer queue and must park.
    pub fn write(&mut self, current: ThreadId) -> (r: Result<AcquireStep, LockError>)
        requires
            old(self).wf(),
            !old(self)@.reader_queue.contains(current),
            !old(self)@.writer_queue.contains(current),
        ensures
            final(self).wf(),
            old(self)@.owner is None && old(self)@.readers == 0 ==> r == Ok::<
                AcquireStep,
                LockError,
            >(AcquireStep::Granted) && final(self)@ == old(self)@.write_granted(current),
            old(self)@.owner == Some(current) ==> r == Err::<AcquireStep, LockError>(
                LockError::WouldDeadlock,
            ) && final(self)@ == old(self)@,
            (old(self)@.owner is Some && old(self)@.owner != Some(current)) || (old(self)@.owner
                is None && old(self)@.readers > 0) ==> r == Ok::<AcquireStep, LockError>(
                AcquireStep::MustWait,
            ) && final(self)@ == old(self)@.writer_enqueued(current),
    {
        let ghost pre = self@;
        if self.owner.is_none() && self.reader_count == 0 {
            self.owner = Some(current);
            proof {
                assert(self@ =~= pre.write_granted(current));
            }
            Ok(AcquireStep::Granted)
        } else if self.is_owner(current) {
            Err(LockError::WouldDeadlock)
        } else {
            self.writer_queue.push(current);
            proof {
                assert(self@ =~= pre.writer_enqueued(current));
                lemma_push_keeps_no_duplicates(pre.writer_queue, current);
            }
            Ok(AcquireStep::MustWait)
        }
    }

    /// Revalidation after a wake for a parked exclusive-access caller:
    /// admitted and dequeued as soon as the lock is entirely free, otherwise
    /// it must park again.
    pub fn write_retry(&mut self, current: ThreadId) -> (r: AcquireStep)
        requires
            old(self).wf(),
            old(self)@.writer_queue.contains(current),
        ensures
            final(self).wf(),
            old(self)@.owner is Some || old(self)@.readers > 0 ==> r == AcquireStep::MustWait
                && final(self)@ == old(self)@,
            old(self)@.owner is None && old(self)@.readers == 0 ==> r == AcquireStep::Granted
                && final(self)@ == old(self)@.writer_retry_granted(current)
                && final(self)@.writer_queue.len() == old(self)@.writer_queue.len() - 1
                && !final(self)@.writer_queue.contains(current),
    {
        let ghost pre = self@;
        if self.owner.is_none() && self.reader_count == 0 {
            self.owner = Some(current);
            let i = find_thread(&self.writer_queue, current);
            self.writer_queue.remove(i);
            proof {
                lemma_remove_first_occurrence(pre.writer_queue, current, i as int);
                assert(self@ =~= pre.writer_retry_granted(current));
            }
            AcquireStep::Granted
        } else {
            AcquireStep::MustWait
        }
    }

    /// Non-blocking exclusive acquisition: succeeds exactly when the lock is
    /// entirely free, otherwise `Busy` — also for the owner itself, which is
    /// not singled out here.
    pub fn try_write(&mut self, current: ThreadId) -> (r: Result<(), LockError>)
        requires
            old(self).wf(),
        ensures
            final(self).wf(),
            old(self)@.owner is None && old(self)@.readers == 0 ==> r is Ok && final(self)@ == old(
                self,
            )@.write_granted(current),
            old(self)@.owner is Some || old(self)@.readers > 0 ==> r == Err::<(), LockError>(
                LockError::Busy,
            ) && final(self)@ == old(self)@,
    {
        let ghost pre = self@;
        if self.owner.is_none() && self.reader_count == 0 {
            self.owner = Some(current);
            proof {
                assert(self@ =~= pre.write_granted(current));
            }
            Ok(())
        } else {
            Err(LockError::Busy)
        }
    }

    /// Shared release. No identity is checked — only that some shared holder
    /// exists. When the last one leaves, the head of the writer queue is
    /// signalled; it stays queued and dequeues itself on revalidation.
    pub fn read_unlock(&mut self) -> (r: Result<WakeAction, LockError>)
        requires
            old(self).wf(),
        ensures
            final(self).wf(),
            read_unlock_post(old(self)@, final(self)@, r),
    {
        let ghost pre = self@;
        if self.reader_count == 0 {
            return Err(LockError::NotPermitted);
        }
        self.reader_count = self.reader_count - 1;
        proof {
            assert(self@ =~= pre.read_released());
        }
        if self.reader_count == 0 && self.writer_queue.len() > 0 {
            Ok(WakeAction::WakeOne(self.writer_queue[0]))
        } else {
            Ok(WakeAction::WakeNone)
        }
    }

    /// Exclusive release by `current`. Refused unless `current` is the
    /// owner. On success the reader-preferring wake policy runs: broadcast
    /// to every queued reader when any are waiting, else signal the head of
    /// the writer queue.
    pub fn write_unlock(&mut self, current: ThreadId) -> (r: Result<WakeAction, LockError>)
        requires
            old(self).wf(),
        ensures
            final(self).wf(),
            write_unlock_post(old(self)@, final(self)@, current, r),
    {
        let ghost pre = self@;
        if !self.is_owner(current) {
            return Err(LockError::NotPermitted);
        }
        self.owner = None;
        proof {
            assert(self@ =~= pre.write_released());
        }
        if self.reader_queue.len() > 0 {
            let ts = snapshot(&self.reader_queue);
            Ok(WakeAction::WakeAll(ts))
        } else if self.writer_queue.len() > 0 {
            Ok(WakeAction::WakeOne(self.writer_queue[0]))
        } else {
            Ok(WakeAction::WakeNone)
        }
    }

    /// Generic release: an exclusive release when `current` is the owner,
    /// otherwise a shared release. Sound because no real thread handle ever
    /// equals an absent owner.
    pub fn unlock(&mut self, current: ThreadId) -> (r: Result<WakeAction, LockError>)
        requires
            old(self).wf(),
        ensures
            final(self).wf(),
            old(self)@.owner == Some(current) ==> write_unlock_post(
                old(self)@,
                final(self)@,
                current,
                r,
            ),
            old(self)@.owner != Some(current) ==> read_unlock_post(old(self)@, final(self)@, r),
    {
        if self.is_owner(current) {
            self.write_unlock(current)
        } else {
            self.read_unlock()
        }
    }

    /// Teardown probe: succeeds exactly on a quiescent lock; a held or
    /// awaited lock answers `Busy` and is left untouched, fully usable.
    pub fn destroy(&self) -> (r: Result<(), LockError>)
        ensures
            self@.quiescent() ==> r is Ok,
            !self@.quiescent() ==> r == Err::<(), LockError>(LockError::Busy),
    {
        if self.is_locked() {
            Err(LockError::Busy)
        } else {
            Ok(())
        }
    }

    /// Liveness probe for the lifecycle wrapper's destroy-or-leak decision:
    /// anything held, counted or queued makes the lock "locked". Reading it
    /// outside teardown and acting on the answer is inherently racy.
    pub fn is_locked(&self) -> (r: bool)
        ensures
            r == !self@.quiescent(),
    {
        self.owner.is_some() || self.reader_count != 0 || self.reader_queue.len() != 0
            || self.writer_queue.len() != 0
    }
}

} // verus!
