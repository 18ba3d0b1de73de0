//! The outcome of a task spawned for one fallible future of the stream, and
//! the errors that end such a stream.
use crate::foreign::join_error_is_panic;
use crate::poll::Poll;
use crate::stream::into_tasks::TaskError;
use tokio::task::JoinError;
use vstd::prelude::*;

verus! {

/// Why a stream of fallible futures stopped before its end.
pub enum TryTaskError<SE, FE> {
    /// A task was cancelled through the cancellation token.
    Cancelled,
    /// The input stream yielded an error.
    Stream(SE),
    /// A future failed with an error.
    Future(FE),
    /// A task panicked or was aborted.
    Join(TaskError),
}

impl<SE, FE> TryTaskError<SE, FE> {
    /// The text that the error's debug form shows: the variant's name, with
    /// the payload of an error left out.
    pub fn debug_text(&self) -> (r: &'static str)
        ensures
            self is Cancelled ==> r@ == "Cancelled"@,
            self is Stream ==> r@ == "Stream(\"...\")"@,
            self is Future ==> r@ == "Future(\"...\")"@,
            self is Join ==> r@ == "Join(\"...\")"@,
    {
        match self {
            TryTaskError::Cancelled => "Cancelled",
            TryTaskError::Stream(_) => "Stream(\"...\")",
            TryTaskError::Future(_) => "Future(\"...\")",
            TryTaskError::Join(_) => "Join(\"...\")",
        }
    }
}

/// Maps a poll of a task's join handle to the outcome of the task: the
/// future's output, its error, [`TryTaskError::Cancelled`] when the task was
/// cancelled through the token, or the join failure wrapped in a
/// [`TaskError`].
pub fn try_task_outcome<T, SE, FE>(
    polled: Poll<Result<Option<Result<T, FE>>, JoinError>>,
) -> (out: Poll<Result<T, TryTaskError<SE, FE>>>)
    ensures
        polled is Pending <==> out is Pending,
        forall|v: T| polled == Poll::<Result<Option<Result<T, FE>>, JoinError>>::Ready(Ok(Some(Ok(v))))
            <==> out == Poll::<Result<T, TryTaskError<SE, FE>>>::Ready(Ok(v)),
        forall|e: FE| polled == Poll::<Result<Option<Result<T, FE>>, JoinError>>::Ready(Ok(Some(Err(e))))
            <==> out == Poll::<Result<T, TryTaskError<SE, FE>>>::Ready(Err(TryTaskError::Future(e))),
        polled == Poll::<Result<Option<Result<T, FE>>, JoinError>>::Ready(Ok(None))
            <==> out == Poll::<Result<T, TryTaskError<SE, FE>>>::Ready(Err(TryTaskError::Cancelled)),
        polled matches Poll::Ready(Err(e)) ==> (out matches Poll::Ready(Err(TryTaskError::Join(t))) && t.error() == e
            && t.panicked() == join_error_is_panic(e)),
{
    match polled {
        Poll::Pending => Poll::Pending,
        Poll::Ready(Ok(Some(Ok(v)))) => Poll::Ready(Ok(v)),
        Poll::Ready(Ok(Some(Err(e)))) => Poll::Ready(Err(TryTaskError::Future(e))),
        Poll::Ready(Ok(None)) => Poll::Ready(Err(TryTaskError::Cancelled)),
        Poll::Ready(Err(e)) => Poll::Ready(Err(TryTaskError::Join(TaskError::new(e)))),
    }
}

/// A poll of the stream of spawned tasks: each task as it is, and an error of
/// the input stream as a [`TryTaskError::Stream`].
pub open spec fn tasks_polled_spec<H, SE, FE>(
    polled: Poll<Option<Result<H, SE>>>,
) -> Poll<Option<Result<H, TryTaskError<SE, FE>>>> {
    match polled {
        Poll::Pending => Poll::Pending,
        Poll::Ready(None) => Poll::Ready(None),
        Poll::Ready(Some(Ok(task))) => Poll::Ready(Some(Ok(task))),
        Poll::Ready(Some(Err(e))) => Poll::Ready(Some(Err(TryTaskError::Stream(e)))),
    }
}

/// Maps a poll of the stream of spawned tasks, marking the input stream's
/// errors as such.
pub fn tasks_polled<H, SE, FE>(
    polled: Poll<Option<Result<H, SE>>>,
) -> (out: Poll<Option<Result<H, TryTaskError<SE, FE>>>>)
    ensures
        out == tasks_polled_spec::<H, SE, FE>(polled),
{
    match polled {
        Poll::Pending => Poll::Pending,
        Poll::Ready(None) => Poll::Ready(None),
        Poll::Ready(Some(Ok(task))) => Poll::Ready(Some(Ok(task))),
        Poll::Ready(Some(Err(e))) => Poll::Ready(Some(Err(TryTaskError::Stream(e)))),
    }
}

/// A poll of the stream of spawned tasks, for every kind of task handle and
/// error: a task comes out as it is, an error of the input stream comes out
/// as a [`TryTaskError::Stream`] carrying that error (it is not turned into
/// the end of the stream), the end and a pending poll come out as they are.
pub proof fn lemma_tasks_polled_marks_stream_errors<H, SE, FE>(h: H, e: SE)
    ensures
        tasks_polled_spec::<H, SE, FE>(Poll::Ready(Some(Err(e))))
            == Poll::<Option<Result<H, TryTaskError<SE, FE>>>>::Ready(Some(Err(TryTaskError::Stream(e)))),
        tasks_polled_spec::<H, SE, FE>(Poll::Ready(Some(Ok(h))))
            == Poll::<Option<Result<H, TryTaskError<SE, FE>>>>::Ready(Some(Ok(h))),
        tasks_polled_spec::<H, SE, FE>(Poll::Ready(None)) == Poll::<Option<Result<H, TryTaskError<SE, FE>>>>::Ready(None),
        tasks_polled_spec::<H, SE, FE>(Poll::Pending) == Poll::<Option<Result<H, TryTaskError<SE, FE>>>>::Pending,
{
}

} // verus!
