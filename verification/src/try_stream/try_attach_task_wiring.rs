//! Wires every future that a fallible stream yields to the stream's token and
//! tracker, leaving the stream's errors as they are.
use crate::foreign::share_tracker;
use crate::poll::Poll;
use crate::task_wiring::TaskWiring;
use std::sync::Arc;
use tokio_util::sync::CancellationToken;
use tokio_util::task::TaskTracker;
use vstd::prelude::*;

verus! {

/// The token and tracker that every future of a fallible stream gets wired
/// to.
pub struct TryAttachTaskWiring {
    cancellation_token: CancellationToken,
    task_tracker: Arc<TaskTracker>,
}

impl TryAttachTaskWiring {
    /// The tracker that every future is wired to.
    pub closed spec fn tracker(&self) -> Arc<TaskTracker> {
        self.task_tracker
    }

    /// The token that every future is wired to.
    pub closed spec fn token(&self) -> CancellationToken {
        self.cancellation_token
    }

    /// Wires futures to the given token and tracker.
    pub fn new(cancellation_token: CancellationToken, task_tracker: Arc<TaskTracker>) -> (r: Self)
        ensures
            r.token() == cancellation_token,
            r.tracker() == task_tracker,
    {
        TryAttachTaskWiring { cancellation_token, task_tracker }
    }

    /// Maps a poll of the fallible stream of futures: each future comes out
    /// wired to a handle of the token and to the tracker; an error, the end of
    /// the stream and a pending poll come out as they are.
    pub fn wire<F, E>(&self, polled: Poll<Option<Result<F, E>>>) -> (out: Poll<Option<Result<TaskWiring<F>, E>>>)
        ensures
            polled is Pending <==> out is Pending,
            polled == Poll::<Option<Result<F, E>>>::Ready(None)
                <==> out == Poll::<Option<Result<TaskWiring<F>, E>>>::Ready(None),
            forall|e: E| polled == Poll::<Option<Result<F, E>>>::Ready(Some(Err(e)))
                <==> out == Poll::<Option<Result<TaskWiring<F>, E>>>::Ready(Some(Err(e))),
            polled matches Poll::Ready(Some(Ok(f))) ==> (out matches Poll::Ready(Some(Ok(w)))
                && w.future == f && w.task_tracker == self.tracker()
                && w.cancellation_token == self.token()),
    {
        match polled {
            Poll::Pending => Poll::Pending,
            Poll::Ready(None) => Poll::Ready(None),
            Poll::Ready(Some(Err(e))) => Poll::Ready(Some(Err(e))),
            Poll::Ready(Some(Ok(future))) => Poll::Ready(
                Some(Ok(TaskWiring::new(self.cancellation_token.clone(), share_tracker(&self.task_tracker), future))),
            ),
        }
    }
}

} // verus!
