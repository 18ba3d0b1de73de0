//! The outcome of polling, and the step a buffered stream asks its driver for.
use vstd::prelude::*;

verus! {

/// The outcome of one poll of a future or a stream.
#[derive(Debug)]
pub enum Poll<T> {
    /// A value is available.
    Ready(T),
    /// No value yet; the poller has registered interest in a wake-up.
    Pending,
}

/// What the driver of a buffered stream must do next during one call of
/// `poll_next`.
#[derive(Debug)]
pub enum Step<T> {
    /// Poll the inner buffer of task outputs and report its outcome.
    PollBuffer,
    /// Drop the inner buffer, then report that it is gone.
    DropBuffer,
    /// Poll the future that waits for every tracked task to finish, and
    /// report its outcome.
    PollWait,
    /// Return this from `poll_next`.
    Yield(Poll<Option<T>>),
    /// Resume the panic that a task died of.
    ResumePanic(tokio::task::JoinError),
}

impl<T> Step<T> {
    /// The step returns an item to the consumer.
    pub open spec fn yields_item(self) -> bool {
        self matches Step::Yield(Poll::Ready(Some(_)))
    }

    /// The step ends the call of `poll_next` for good: end-of-stream or a
    /// resumed panic.
    pub open spec fn is_terminal(self) -> bool {
        ||| self == Step::<T>::Yield(Poll::Ready(None))
        ||| self is ResumePanic
    }
}

} // verus!
