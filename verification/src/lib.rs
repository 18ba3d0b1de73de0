//! Decision logic for running a stream of futures on parallel tasks.
//!
//! The streams of this crate buffer futures, run each one on a task of its own,
//! hand out the results, and on end-of-stream, error or panic shut all other
//! tasks down before reporting. What a poll of such a stream must do next is
//! decided here, by verified state machines; the driver that owns the pinned
//! streams and futures performs each step and reports what came back.
pub mod foreign;
pub mod poll;
pub mod run_until_cancelled;
pub mod stream;
pub mod task_wiring;
pub mod try_stream;
