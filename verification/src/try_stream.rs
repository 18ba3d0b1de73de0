//! The decision logic of the streams over a stream of fallible futures.
pub mod try_attach_task_wiring;
pub mod try_future_buffer;
pub mod try_into_tasks;
pub mod try_parallel_buffer;
