//! What a future needs to be spawned on a task of its own: the token that
//! cancels it and the tracker that counts it.
use std::sync::Arc;
use tokio_util::sync::CancellationToken;
use tokio_util::task::TaskTracker;
use vstd::prelude::*;

verus! {

/// A future together with the token and task tracker of the stream it came
/// from, ready to be spawned.
pub struct TaskWiring<Fut> {
    /// The token whose cancellation ends the task early.
    pub cancellation_token: CancellationToken,
    /// The tracker that the task is spawned through.
    pub task_tracker: Arc<TaskTracker>,
    /// The future that the task runs.
    pub future: Fut,
}

impl<Fut> TaskWiring<Fut> {
    /// Wires `future` to the given token and tracker.
    pub fn new(cancellation_token: CancellationToken, task_tracker: Arc<TaskTracker>, future: Fut) -> (r: Self)
        ensures
            r.cancellation_token == cancellation_token,
            r.task_tracker == task_tracker,
            r.future == future,
    {
        TaskWiring { cancellation_token, task_tracker, future }
    }
}

} // verus!
