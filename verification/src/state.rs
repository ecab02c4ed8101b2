//! The mathematical model of the lock: thread identities, the error
//! taxonomy, the abstract lock state, its invariant, and the transitions
//! that the executable operations are specified against.

use vstd::prelude::*;

verus! {

/// An opaque, equality-comparable identifier for a schedulable thread.
/// Absence of an owner is expressed with `Option<ThreadId>` rather than a
/// reserved sentinel value, so no real handle can collide with "no thread".
#[derive(Clone, Copy, PartialEq, Eq, Structural, Debug)]
pub struct ThreadId {
    pub id: u64,
}

/// Every way a lock operation can refuse.
#[derive(Clone, Copy, PartialEq, Eq, Structural, Debug)]
pub enum LockError {
    /// The current exclusive holder attempted to re-acquire on the same thread.
    WouldDeadlock,
    /// A non-blocking acquisition could not be granted immediately, or
    /// teardown was attempted on a lock that is held or has waiters.
    Busy,
    /// A release without a matching hold: count-checked for shared access,
    /// identity-checked for exclusive access.
    NotPermitted,
}

/// What a blocking acquisition decides on one inspection of the state: the
/// caller either holds the lock now, or must park and retry after a wake.
#[derive(Clone, Copy, PartialEq, Eq, Structural, Debug)]
pub enum AcquireStep {
    Granted,
    MustWait,
}

/// The wake request a release hands back to the runtime: nobody, one parked
/// thread, or a broadcast to a set of parked threads.
#[derive(Debug)]
pub enum WakeAction {
    WakeNone,
    WakeOne(ThreadId),
    WakeAll(Vec<ThreadId>),
}

impl WakeAction {
    /// The threads this action asks the runtime to wake, in order.
    pub open spec fn targets(self) -> Seq<ThreadId> {
        match self {
            WakeAction::WakeNone => Seq::empty(),
            WakeAction::WakeOne(t) => seq![t],
            WakeAction::WakeAll(ts) => ts@,
        }
    }
}

/// The abstract state of the lock, as the contracts speak of it.
#[verifier::ext_equal]
pub ghost struct LockView {
    /// How many threads currently hold shared access.
    pub readers: nat,
    /// Reserved tally for a writer-priority admission policy; no transition
    /// raises it and no rule consults it.
    pub writer_waiting: nat,
    /// The thread holding exclusive access, if any.
    pub owner: Option<ThreadId>,
    /// Threads parked waiting for shared access, in arrival order.
    pub reader_queue: Seq<ThreadId>,
    /// Threads parked waiting for exclusive access, in arrival order.
    pub writer_queue: Seq<ThreadId>,
}

impl LockView {
    /// The state of a freshly constructed lock.
    pub open spec fn initial() -> LockView {
        LockView {
            readers: 0,
            writer_waiting: 0,
            owner: None,
            reader_queue: Seq::empty(),
            writer_queue: Seq::empty(),
        }
    }

    /// The invariant every operation preserves: shared and exclusive access
    /// exclude each other, each queue holds a thread at most once, and no
    /// thread waits in both queues at the same time.
    pub open spec fn wf(self) -> bool {
        &&& (self.owner is Some ==> self.readers == 0)
        &&& self.reader_queue.no_duplicates()
        &&& self.writer_queue.no_duplicates()
        &&& self.reader_queue.disjoint(self.writer_queue)
    }

    /// Nothing held, nothing waiting: the only state in which teardown is
    /// allowed to reclaim the lock.
    pub open spec fn quiescent(self) -> bool {
        &&& self.owner is None
        &&& self.readers == 0
        &&& self.reader_queue.len() == 0
        &&& self.writer_queue.len() == 0
    }

    /// One more shared holder admitted immediately (no exclusive holder).
    pub open spec fn read_granted(self) -> LockView {
        LockView { readers: self.readers + 1, ..self }
    }

    /// A shared-access caller joins the tail of the reader queue to park.
    pub open spec fn reader_enqueued(self, t: ThreadId) -> LockView {
        LockView { reader_queue: self.reader_queue.push(t), ..self }
    }

    /// An exclusive-access caller joins the tail of the writer queue to park.
    pub open spec fn writer_enqueued(self, t: ThreadId) -> LockView {
        LockView { writer_queue: self.writer_queue.push(t), ..self }
    }

    /// Exclusive access granted immediately to `t` (lock entirely free).
    pub open spec fn write_granted(self, t: ThreadId) -> LockView {
        LockView { owner: Some(t), ..self }
    }

    /// A woken, queued reader revalidates successfully: it leaves the reader
    /// queue and joins the shared holders.
    pub open spec fn reader_retry_granted(self, t: ThreadId) -> LockView {
        LockView {
            readers: self.readers + 1,
            reader_queue: self.reader_queue.remove_value(t),
            ..self
        }
    }

    /// A woken, queued writer revalidates successfully: it leaves the writer
    /// queue and becomes the exclusive owner.
    pub open spec fn writer_retry_granted(self, t: ThreadId) -> LockView {
        LockView {
            owner: Some(t),
            writer_queue: self.writer_queue.remove_value(t),
            ..self
        }
    }

    /// One shared holder leaves.
    pub open spec fn read_released(self) -> LockView
        recommends
            self.readers > 0,
    {
        LockView { readers: (self.readers - 1) as nat, ..self }
    }

    /// The exclusive holder leaves.
    pub open spec fn write_released(self) -> LockView {
        LockView { owner: None, ..self }
    }

    /// The wake policy when a shared release drops the count to zero: signal
    /// the longest-waiting writer, if any, and leave it queued to revalidate.
    pub open spec fn read_release_wake(self) -> Seq<ThreadId> {
        if self.writer_queue.len() > 0 {
            seq![self.writer_queue[0]]
        } else {
            Seq::empty()
        }
    }

    /// The reader-preferring wake policy when the exclusive holder leaves:
    /// broadcast to every queued reader when any are waiting, otherwise
    /// signal the longest-waiting writer, if any.
    pub open spec fn write_release_wake(self) -> Seq<ThreadId> {
        if self.reader_queue.len() > 0 {
            self.reader_queue
        } else if self.writer_queue.len() > 0 {
            seq![self.writer_queue[0]]
        } else {
            Seq::empty()
        }
    }
}

/// Appending a fresh thread keeps a queue duplicate-free.
pub(crate) proof fn lemma_push_keeps_no_duplicates(q: Seq<ThreadId>, t: ThreadId)
    requires
        q.no_duplicates(),
        !q.contains(t),
    ensures
        q.push(t).no_duplicates(),
{
    assert forall|i: int, j: int|
        0 <= i < q.push(t).len() && 0 <= j < q.push(t).len() && i != j implies q.push(t)[i]
        != q.push(t)[j] by {
        if i < q.len() && j < q.len() {
        } else if i == q.len() {
            assert(q[j] != t);
        } else {
            assert(q[i] != t);
        }
    }
}

/// Removing the first occurrence of `t` from a duplicate-free queue: the
/// result is `q.remove_value(t)`, is still duplicate-free, no longer holds
/// `t`, and keeps only elements the queue already held.
pub(crate) proof fn lemma_remove_first_occurrence(q: Seq<ThreadId>, t: ThreadId, i: int)
    requires
        q.no_duplicates(),
        0 <= i < q.len(),
        q[i] == t,
        forall|j: int| 0 <= j < i ==> q[j] != t,
    ensures
        q.remove_value(t) == q.remove(i),
        q.remove(i).no_duplicates(),
        !q.remove(i).contains(t),
        forall|u: ThreadId| q.remove(i).contains(u) ==> q.contains(u),
{
    q.index_of_first_ensures(t);
    assert(q.contains(t));
    let f = q.index_of_first(t)->Some_0;
    if f < i {
        assert(q[f] != t);
    }
    if i < f {
        assert(q[i] != t);
    }
    assert(f == i);
    q.remove_ensures(i);
    let rest = q.remove(i);
    assert forall|a: int, b: int|
        0 <= a < rest.len() && 0 <= b < rest.len() && a != b implies rest[a] != rest[b] by {
        let a0 = if a < i {
            a
        } else {
            a + 1
        };
        let b0 = if b < i {
            b
        } else {
            b + 1
        };
        assert(rest[a] == q[a0]);
        assert(rest[b] == q[b0]);
    }
    assert forall|k: int| 0 <= k < rest.len() implies rest[k] != t by {
        let k0 = if k < i {
            k
        } else {
            k + 1
        };
        assert(rest[k] == q[k0]);
    }
    assert forall|u: ThreadId| rest.contains(u) implies q.contains(u) by {
        let k = choose|k: int| 0 <= k < rest.len() && rest[k] == u;
        let k0 = if k < i {
            k
        } else {
            k + 1
        };
        assert(q[k0] == u);
    }
}

/// Everything a shared release does, relating the state before (`pre`) to
/// the state after (`post`) and the returned wake request: refused when no
/// shared holder exists; otherwise one holder leaves, and exactly when the
/// last one leaves, the head of the writer queue is signalled.
pub open spec fn read_unlock_post(
    pre: LockView,
    post: LockView,
    r: Result<WakeAction, LockError>,
) -> bool {
    &&& (pre.readers == 0 ==> post == pre && r == Err::<WakeAction, LockError>(
        LockError::NotPermitted,
    ))
    &&& (pre.readers > 0 ==> {
        &&& post == pre.read_released()
        &&& r matches Ok(a)
        &&& (pre.readers == 1 ==> a.targets() == pre.read_release_wake() && !(a is WakeAll))
        &&& (pre.readers > 1 ==> a is WakeNone)
    })
}

/// Everything an exclusive release by `current` does: refused unless
/// `current` is the owner; otherwise the owner slot is cleared and the
/// reader-preferring wake policy is applied, broadcasting exactly when
/// readers are queued.
pub open spec fn write_unlock_post(
    pre: LockView,
    post: LockView,
    current: ThreadId,
    r: Result<WakeAction, LockError>,
) -> bool {
    &&& (pre.owner != Some(current) ==> post == pre && r == Err::<WakeAction, LockError>(
        LockError::NotPermitted,
    ))
    &&& (pre.owner == Some(current) ==> {
        &&& post == pre.write_released()
        &&& r matches Ok(a)
        &&& a.targets() == pre.write_release_wake()
        &&& (a is WakeAll <==> pre.reader_queue.len() > 0)
    })
}

} // verus!
