//! Wires every future that a stream yields to the stream's token and tracker.
use crate::foreign::share_tracker;
use crate::poll::Poll;
use crate::task_wiring::TaskWiring;
use std::sync::Arc;
use tokio_util::sync::CancellationToken;
use tokio_util::task::TaskTracker;
use vstd::prelude::*;

verus! {

/// The token and tracker that every future of a stream gets wired to.
pub struct AttachTaskWiring {
    cancellation_token: CancellationToken,
    task_tracker: Arc<TaskTracker>,
}

impl AttachTaskWiring {
    /// The tracker that every future is wired to.
    pub closed spec fn tracker(&self) -> Arc<TaskTracker> {
        self.task_tracker
    }

    /// The token that every future is wired to.
    pub closed spec fn token(&self) -> CancellationToken {
        self.cancellation_token
    }

    /// Wires futures to the given token and tracker.
    pub fn new(cancellation_token: CancellationToken, task_tracker: Arc<TaskTracker>) -> (r: Self)
        ensures
            r.token() == cancellation_token,
            r.tracker() == task_tracker,
    {
        AttachTaskWiring { cancellation_token, task_tracker }
    }

    /// Maps a poll of the stream of futures: each future comes out wired to a
    /// handle of the token and to the tracker; the end of the stream and a
    /// pending poll come out as they are.
    pub fn wire<F>(&self, polled: Poll<Option<F>>) -> (out: Poll<Option<TaskWiring<F>>>)
        ensures
            polled is Pending <==> out is Pending,
            polled == Poll::<Option<F>>::Ready(None) <==> out == Poll::<Option<TaskWiring<F>>>::Ready(None),
            polled matches Poll::Ready(Some(f)) ==> (out matches Poll::Ready(Some(w))
                && w.future == f && w.task_tracker == self.tracker()
                && w.cancellation_token == self.token()),
    {
        match polled {
            Poll::Pending => Poll::Pending,
            Poll::Ready(None) => Poll::Ready(None),
            Poll::Ready(Some(future)) => Poll::Ready(
                Some(TaskWiring::new(self.cancellation_token.clone(), share_tracker(&self.task_tracker), future)),
            ),
        }
    }
}

} // verus!
