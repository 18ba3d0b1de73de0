//! A future that resolves when either a given future resolves or a
//! cancellation token is cancelled, biased towards the future.
//!
//! One poll of such a future first polls the wrapped future; only when that
//! one is pending does it poll the cancellation.
use crate::poll::Poll;
use vstd::prelude::*;

verus! {

/// What to do after the wrapped future has been polled.
pub enum RaceStep<T> {
    /// Poll the cancellation and report its outcome to [`on_cancellation_polled`].
    PollCancellation,
    /// The poll is over: return this.
    Finish(Poll<Option<T>>),
}

/// The outcome of one poll, given how the future and then the cancellation
/// answered: the future's output wins whenever it is there.
pub open spec fn race_outcome<T>(future: Poll<T>, cancellation: Poll<()>) -> Poll<Option<T>> {
    match future {
        Poll::Ready(v) => Poll::Ready(Some(v)),
        Poll::Pending => match cancellation {
            Poll::Ready(()) => Poll::Ready(None),
            Poll::Pending => Poll::Pending,
        },
    }
}

/// Decides after the wrapped future was polled: its output finishes the poll
/// (the cancellation is not consulted), otherwise the cancellation must be
/// polled.
pub fn on_future_polled<T>(future: Poll<T>) -> (step: RaceStep<T>)
    ensures
        future is Ready ==> step == RaceStep::Finish(race_outcome(future, Poll::Pending)),
        future is Pending ==> step is PollCancellation,
{
    match future {
        Poll::Ready(v) => RaceStep::Finish(Poll::Ready(Some(v))),
        Poll::Pending => RaceStep::PollCancellation,
    }
}

/// Decides after the future was pending and the cancellation was polled: a
/// cancelled token resolves the poll with no output.
pub fn on_cancellation_polled<T>(cancellation: Poll<()>) -> (out: Poll<Option<T>>)
    ensures
        out == race_outcome::<T>(Poll::Pending, cancellation),
{
    match cancellation {
        Poll::Ready(()) => Poll::Ready(None),
        Poll::Pending => Poll::Pending,
    }
}

/// Biased towards the future: once the future has an output, the poll returns
/// it, whether or not the token was cancelled.
pub proof fn lemma_future_output_wins<T>(v: T, cancellation: Poll<()>)
    ensures
        race_outcome(Poll::Ready(v), cancellation) == Poll::Ready(Some(v)),
{
}

/// The poll resolves with no output exactly when the future is pending and
/// the token is cancelled; it stays pending exactly when both are pending.
pub proof fn lemma_cancelled_resolves_empty<T>(future: Poll<T>, cancellation: Poll<()>)
    ensures
        (race_outcome(future, cancellation) == Poll::<Option<T>>::Ready(None)) <==> (future is Pending && cancellation is Ready),
        (race_outcome(future, cancellation) is Pending) <==> (future is Pending && cancellation is Pending),
{
}

} // verus!
