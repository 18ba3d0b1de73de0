//! The outcome of a task spawned for one future of the stream.
use crate::foreign::join_error_is_panic;
use crate::poll::Poll;
use tokio::task::JoinError;
use vstd::prelude::*;

verus! {

/// A task of the stream panicked or was aborted: the join error, with what
/// it says of itself (whether the task panicked).
#[derive(Debug)]
pub struct TaskError {
    error: JoinError,
    panicked: bool,
}

impl TaskError {
    /// The join error.
    pub closed spec fn error(self) -> JoinError {
        self.error
    }

    /// Whether the join error reports a panic.
    pub closed spec fn panicked(self) -> bool {
        self.panicked
    }

    /// Wraps a join error, asking it whether the task panicked.
    pub fn new(error: JoinError) -> (r: Self)
        ensures
            r.error() == error,
            r.panicked() == join_error_is_panic(error),
    {
        let panicked = error.is_panic();
        TaskError::from_parts(error, panicked)
    }

    /// Wraps a join error with what it says of itself: `panicked` is its
    /// answer to `JoinError::is_panic`.
    pub fn from_parts(error: JoinError, panicked: bool) -> (r: Self)
        ensures
            r.error() == error,
            r.panicked() == panicked,
    {
        TaskError { error, panicked }
    }

    /// Whether the task panicked.
    pub fn is_panic(&self) -> (r: bool)
        ensures
            r == self.panicked(),
    {
        self.panicked
    }

    /// The join error, given back.
    pub fn into_join_error(self) -> (r: JoinError)
        ensures
            r == self.error(),
    {
        self.error
    }
}

/// Maps a poll of a task's join handle to the task's outcome: its output
/// (`Some(output)`, or `None` when the task was cancelled through the token),
/// or its join failure wrapped in a [`TaskError`].
pub fn task_outcome<T>(polled: Poll<Result<Option<T>, JoinError>>) -> (out: Poll<Result<Option<T>, TaskError>>)
    ensures
        polled is Pending <==> out is Pending,
        forall|o: Option<T>| polled == Poll::<Result<Option<T>, JoinError>>::Ready(Ok(o))
            <==> out == Poll::<Result<Option<T>, TaskError>>::Ready(Ok(o)),
        polled matches Poll::Ready(Err(e)) ==> (out matches Poll::Ready(Err(t)) && t.error() == e
            && t.panicked() == join_error_is_panic(e)),
{
    match polled {
        Poll::Pending => Poll::Pending,
        Poll::Ready(Ok(out)) => Poll::Ready(Ok(out)),
        Poll::Ready(Err(e)) => Poll::Ready(Err(TaskError::new(e))),
    }
}

} // verus!
