//! The laws of the lock, proved over the abstract state and the transitions
//! that the executable operations are specified against: mutual exclusion,
//! unbounded concurrent readers, FIFO wake order among queued writers, and
//! the reader broadcast on exclusive release.

use vstd::prelude::*;

use crate::state::{LockView, ThreadId};
use crate::state::lemma_remove_first_occurrence;

verus! {

/// Mutual exclusion: in every well-formed state — and every operation
/// ensures well-formedness — an exclusive owner excludes shared holders,
/// and at most one thread is the owner.
pub proof fn lemma_mutual_exclusion(v: LockView, t1: ThreadId, t2: ThreadId)
    requires
        v.wf(),
    ensures
        !(v.owner is Some && v.readers > 0),
        v.owner == Some(t1) && v.owner == Some(t2) ==> t1 == t2,
{
}

/// The state after `n` immediate shared grants, the transition `read` and
/// `try_read` take while no exclusive holder exists.
pub open spec fn read_granted_n(v: LockView, n: nat) -> LockView
    decreases n,
{
    if n == 0 {
        v
    } else {
        read_granted_n(v, (n - 1) as nat).read_granted()
    }
}

/// Unbounded shared readers: with no exclusive holder, every one of `n`
/// shared acquisitions is admitted immediately — none changes the owner, so
/// each leaves the state in which the next is again admitted — and the
/// reader count grows by exactly `n`.
pub proof fn lemma_unbounded_readers(v: LockView, n: nat)
    requires
        v.wf(),
        v.owner is None,
    ensures
        read_granted_n(v, n).wf(),
        read_granted_n(v, n).owner is None,
        read_granted_n(v, n).readers == v.readers + n,
        read_granted_n(v, n).reader_queue == v.reader_queue,
        read_granted_n(v, n).writer_queue == v.writer_queue,
    decreases n,
{
    if n > 0 {
        lemma_unbounded_readers(v, (n - 1) as nat);
    }
}

/// The state after `n` shared releases, the transition `read_unlock` takes
/// while shared holders remain.
pub open spec fn read_released_n(v: LockView, n: nat) -> LockView
    decreases n,
{
    if n == 0 {
        v
    } else {
        read_released_n(v, (n - 1) as nat).read_released()
    }
}

/// Shared releases only lower the count: owner and queues stay untouched.
proof fn lemma_read_released_n(v: LockView, n: nat)
    requires
        n <= v.readers,
    ensures
        read_released_n(v, n).readers == v.readers - n,
        read_released_n(v, n).owner == v.owner,
        read_released_n(v, n).reader_queue == v.reader_queue,
        read_released_n(v, n).writer_queue == v.writer_queue,
        read_released_n(v, n).writer_waiting == v.writer_waiting,
    decreases n,
{
    if n > 0 {
        lemma_read_released_n(v, (n - 1) as nat);
    }
}

/// Writer FIFO on release: with shared holders present and an empty writer
/// queue, let writers `w1` then `w2` block. Once every shared holder has
/// released, the single wake the last release issues targets `w1`, not
/// `w2`; and when `w1` revalidates it becomes owner while `w2` alone stays
/// queued.
pub proof fn lemma_writer_fifo(v: LockView, w1: ThreadId, w2: ThreadId)
    requires
        v.wf(),
        v.readers > 0,
        v.writer_queue.len() == 0,
        !v.reader_queue.contains(w1),
        !v.reader_queue.contains(w2),
        w1 != w2,
    ensures
        ({
            let blocked = v.writer_enqueued(w1).writer_enqueued(w2);
            let drained = read_released_n(blocked, blocked.readers);
            &&& blocked.wf()
            &&& drained.readers == 0
            &&& drained.read_release_wake() == seq![w1]
            &&& drained.writer_retry_granted(w1).owner == Some(w1)
            &&& drained.writer_retry_granted(w1).writer_queue == seq![w2]
        }),
{
    let blocked = v.writer_enqueued(w1).writer_enqueued(w2);
    assert(blocked.writer_queue =~= seq![w1, w2]);
    assert(blocked.writer_queue.no_duplicates());
    assert forall|i: int, j: int|
        0 <= i < blocked.reader_queue.len() && 0 <= j
            < blocked.writer_queue.len() implies blocked.reader_queue[i]
        != blocked.writer_queue[j] by {
        if blocked.reader_queue[i] == w1 {
            assert(v.reader_queue.contains(w1));
        }
        if blocked.reader_queue[i] == w2 {
            assert(v.reader_queue.contains(w2));
        }
    }
    lemma_read_released_n(blocked, blocked.readers);
    let drained = read_released_n(blocked, blocked.readers);
    assert(drained.read_release_wake() =~= seq![w1]);
    lemma_remove_first_occurrence(drained.writer_queue, w1, 0);
    assert(drained.writer_queue.remove(0) =~= seq![w2]);
}

/// The state after every parked reader has been woken and revalidated, each
/// taking the `read_retry` transition in queue order.
pub open spec fn all_readers_granted(v: LockView) -> LockView
    decreases v.reader_queue.len(),
    via all_readers_granted_decreases
{
    if v.reader_queue.len() == 0 {
        v
    } else {
        all_readers_granted(v.reader_retry_granted(v.reader_queue[0]))
    }
}

#[via_fn]
proof fn all_readers_granted_decreases(v: LockView) {
    if v.reader_queue.len() > 0 {
        let q = v.reader_queue;
        q.index_of_first_ensures(q[0]);
        assert(q.contains(q[0]));
    }
}

/// Granting every woken reader keeps the owner slot empty, empties the
/// reader queue, raises the count by the queue's length, and preserves the
/// invariant and the writer queue.
proof fn lemma_all_readers_granted(v: LockView)
    requires
        v.wf(),
        v.owner is None,
    ensures
        ({
            let g = all_readers_granted(v);
            &&& g.wf()
            &&& g.owner is None
            &&& g.readers == v.readers + v.reader_queue.len()
            &&& g.reader_queue.len() == 0
            &&& g.writer_queue == v.writer_queue
            &&& g.writer_waiting == v.writer_waiting
        }),
    decreases v.reader_queue.len(),
{
    if v.reader_queue.len() > 0 {
        let q = v.reader_queue;
        lemma_remove_first_occurrence(q, q[0], 0);
        let step = v.reader_retry_granted(q[0]);
        assert forall|i: int, j: int|
            0 <= i < step.reader_queue.len() && 0 <= j
                < step.writer_queue.len() implies step.reader_queue[i] != step.writer_queue[j] by {
            if step.reader_queue[i] == step.writer_queue[j] {
                assert(step.reader_queue.contains(step.writer_queue[j]));
                assert(q.contains(step.writer_queue[j]));
                let k = choose|k: int| 0 <= k < q.len() && q[k] == step.writer_queue[j];
                assert(q[k] != v.writer_queue[j]);
            }
        }
        assert(step.wf());
        lemma_all_readers_granted(step);
    }
}

/// Reader broadcast on exclusive release: when the owner releases with
/// readers queued and no writer queued, the wake is a broadcast to exactly
/// the queued readers; each finds no owner and is admitted on revalidation,
/// and after the first admission the reader count is positive, so an
/// exclusive acquisition — which `write` grants only at zero readers —
/// cannot slip in until they release again.
pub proof fn lemma_reader_broadcast(v: LockView, t: ThreadId)
    requires
        v.wf(),
        v.owner == Some(t),
        v.writer_queue.len() == 0,
    ensures
        v.write_release_wake() == v.reader_queue,
        ({
            let woken = v.write_released();
            let g = all_readers_granted(woken);
            &&& woken.wf()
            &&& woken.owner is None
            &&& woken.readers == 0
            &&& g.wf()
            &&& g.owner is None
            &&& g.readers == v.reader_queue.len()
            &&& g.reader_queue.len() == 0
            &&& (v.reader_queue.len() > 0 ==> woken.reader_retry_granted(
                v.reader_queue[0],
            ).readers > 0)
        }),
{
    if v.reader_queue.len() == 0 {
        assert(v.write_release_wake() =~= v.reader_queue);
    }
    let woken = v.write_released();
    lemma_all_readers_granted(woken);
}

} // verus!
