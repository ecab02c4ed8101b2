//! A user-mode reader-writer lock built as an explicit monitor: admission
//! rules for shared and exclusive holders, FIFO wait queues, and the wake
//! policy applied on release. The surrounding runtime supplies the busy-wait
//! lock that serialises access to the state, the park/wake service, and the
//! calling thread's identity; this crate holds the state machine that decides
//! who is admitted, who waits, and who is woken.

pub mod laws;
pub mod lifecycle;
pub mod rwlock;
pub mod state;
