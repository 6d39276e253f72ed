//! A fixed-size worker pool: the decisions it makes, stated and proved.
//!
//! The threads, the lock and the wake-ups live with the caller; this crate
//! holds what they act on: the size check, the first-in first-out work queue,
//! the worker's receive loop as a state machine, and the two-phase shutdown.
pub mod error;
pub mod http;
pub mod pool;
pub mod queue;
pub mod shutdown;
pub mod worker;
