//! The lock's lifecycle, made an explicit state machine: the lock object is
//! materialised on first real use, and on teardown it is reclaimed only when
//! quiescent — a lock that is still held or awaited is deliberately leaked,
//! a trade-off that favours a lost resource over invalidating a lock some
//! other thread still believes is held.

use vstd::prelude::*;

use crate::rwlock::RwLock;

verus! {

/// Where the lock object stands in its life.
#[derive(Clone, Copy, PartialEq, Eq, Structural, Debug)]
pub enum Stage {
    /// No lock object exists yet.
    Uninitialized,
    /// The lock object exists and may be used.
    Ready,
    /// The lock object was quiescent at teardown and has been reclaimed.
    Destroyed,
    /// The lock object was still in use at teardown and was leaked intact.
    Leaked,
}

/// A lock together with its lifecycle stage. Operations on the lock itself
/// are meaningful only while the stage is `Ready`.
pub struct LazyLock {
    pub stage: Stage,
    pub lock: RwLock,
}

impl LazyLock {
    /// A slot with no materialised lock yet.
    pub fn new() -> (slot: LazyLock)
        ensures
            slot.stage == Stage::Uninitialized,
            slot.lock@.quiescent(),
            slot.lock.wf(),
    {
        LazyLock { stage: Stage::Uninitialized, lock: RwLock::new() }
    }

    /// First real use: materialise a fresh, quiescent lock. Using a slot
    /// that is already `Ready` leaves it untouched.
    pub fn init(&mut self)
        requires
            old(self).stage == Stage::Uninitialized || old(self).stage == Stage::Ready,
        ensures
            final(self).stage == Stage::Ready,
            old(self).stage == Stage::Uninitialized ==> final(self).lock@.quiescent()
                && final(self).lock.wf(),
            old(self).stage == Stage::Ready ==> final(self).lock == old(self).lock,
    {
        match self.stage {
            Stage::Uninitialized => {
                self.lock = RwLock::new();
                self.stage = Stage::Ready;
            },
            _ => {},
        }
    }

    /// A lock built for first use that lost the construction race and was
    /// never published: nothing can hold it, so it is reclaimed unchecked.
    pub fn cancel_init(&mut self)
        requires
            old(self).stage == Stage::Ready,
            old(self).lock@.quiescent(),
        ensures
            final(self).stage == Stage::Destroyed,
    {
        self.stage = Stage::Destroyed;
    }

    /// Teardown: reclaim a quiescent lock, leak a lock that is held or
    /// awaited. The decision is the returned stage.
    pub fn teardown(&mut self) -> (r: Stage)
        requires
            old(self).stage == Stage::Ready,
        ensures
            final(self).stage == r,
            final(self).lock == old(self).lock,
            old(self).lock@.quiescent() ==> r == Stage::Destroyed,
            !old(self).lock@.quiescent() ==> r == Stage::Leaked,
    {
        if self.lock.is_locked() {
            self.stage = Stage::Leaked;
            Stage::Leaked
        } else {
            self.stage = Stage::Destroyed;
            Stage::Destroyed
        }
    }
}

} // verus!
