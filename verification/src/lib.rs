//! A minimal cooperative task runtime: tasks expose a non-blocking poll
//! operation, an executor drives them from a shared ready queue, and a
//! reactor turns readiness notifications into task wakeups.
//!
//! The pieces that talk to the operating system (sockets, the readiness
//! multiplexer, thread parking) live outside this crate; the crate holds
//! the data structures and the decisions: the poll contract, the task
//! table and ready queue, the reactor's waker table, the leaf I/O task's
//! state machine, and the two composite task shapes.

pub mod coroutine;
pub mod executor;
pub mod future;
pub mod http;
pub mod poll;
pub mod reactor;

pub use future::{Future, PollState};
