//! The decision logic of the streams over a plain stream of futures.
pub mod attach_task_wiring;
pub mod future_buffer;
pub mod into_tasks;
pub mod into_try_stream;
pub mod parallel_buffer;
