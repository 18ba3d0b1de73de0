//! The outside types and functions that the state machines use, with what is
//! assumed of each.
use std::sync::Arc;
use tokio::task::JoinError;
use tokio_util::sync::CancellationToken;
use tokio_util::task::TaskTracker;
use vstd::prelude::*;

verus! {

/// `tokio::task::JoinError`: why a task did not run to completion.
#[verifier::external_type_specification]
#[verifier::external_body]
pub struct ExJoinError(tokio::task::JoinError);

/// `tokio_util::sync::CancellationToken`: a shared flag that tasks watch.
#[verifier::external_type_specification]
#[verifier::external_body]
pub struct ExCancellationToken(tokio_util::sync::CancellationToken);

/// `tokio_util::task::TaskTracker`: keeps count of the tasks spawned through it.
#[verifier::external_type_specification]
#[verifier::external_body]
pub struct ExTaskTracker(tokio_util::task::TaskTracker);

/// Whether a join error reports a panic, as `JoinError::is_panic` answers:
/// in tokio's source the answer reads only the error's own kind (panic or
/// cancellation), so it is a function of the error.
pub uninterp spec fn join_error_is_panic(e: JoinError) -> bool;

/// `JoinError::is_panic`: whether the task panicked (rather than being
/// cancelled); the answer is [`join_error_is_panic`] of the error.
pub assume_specification[JoinError::is_panic](e: &JoinError) -> (r: bool)
    ensures
        r == join_error_is_panic(*e),
;

/// `CancellationToken::clone`: another handle to the same token. In
/// tokio-util's source the clone shares the token's inner node (the same
/// `Arc`), so it is the same token.
pub assume_specification[<CancellationToken as Clone>::clone](t: &CancellationToken) -> (r: CancellationToken)
    ensures
        r == *t,
;

/// `TaskTracker::new`: a fresh, open tracker. Nothing is assumed of the value.
pub assume_specification[TaskTracker::new]() -> (r: TaskTracker);

/// `Arc::clone` on the shared task tracker: another pointer to the same
/// allocation, so the same tracker.
#[verifier::external_body]
pub(crate) fn share_tracker(tracker: &Arc<TaskTracker>) -> (r: Arc<TaskTracker>)
    ensures
        r == *tracker,
{
    Arc::clone(tracker)
}

/// A stream's cancellation token, with a record of whether the stream has
/// cancelled it. The token can be cancelled only through
/// [`StreamToken::cancel`], which sets the record.
pub struct StreamToken {
    token: CancellationToken,
    cancelled_here: Ghost<bool>,
}

impl StreamToken {
    /// The token.
    pub closed spec fn token(&self) -> CancellationToken {
        self.token
    }

    /// Whether the stream has cancelled the token.
    pub closed spec fn cancelled_here(&self) -> bool {
        self.cancelled_here@
    }

    /// Takes charge of `token`, which the stream has not cancelled (it may
    /// have been cancelled elsewhere).
    pub fn new(token: CancellationToken) -> (r: Self)
        ensures
            r.token() == token,
            !r.cancelled_here(),
    {
        StreamToken { token, cancelled_here: Ghost(false) }
    }

    /// The token.
    pub fn get(&self) -> (r: &CancellationToken)
        ensures
            *r == self.token(),
    {
        &self.token
    }

    /// `CancellationToken::cancel`: cancels the token and every clone of it,
    /// which wakes the tasks that watch it. The record says the stream
    /// cancelled it; the cancellation itself is shared state that no
    /// specification here tracks.
    #[verifier::external_body]
    pub fn cancel(&mut self)
        ensures
            final(self).token() == old(self).token(),
            final(self).cancelled_here(),
    {
        self.token.cancel();
        self.cancelled_here = Ghost(true);
    }
}

/// A stream's task tracker, with a record of whether the stream has closed
/// it. The tracker can be closed only through [`StreamTracker::close`], which
/// sets the record.
pub struct StreamTracker {
    tracker: Arc<TaskTracker>,
    closed_here: Ghost<bool>,
}

impl StreamTracker {
    /// The tracker.
    pub closed spec fn tracker(&self) -> Arc<TaskTracker> {
        self.tracker
    }

    /// Whether the stream has closed the tracker.
    pub closed spec fn closed_here(&self) -> bool {
        self.closed_here@
    }

    /// A fresh tracker, not closed by the stream.
    pub fn new() -> (r: Self)
        ensures
            !r.closed_here(),
    {
        StreamTracker { tracker: Arc::new(TaskTracker::new()), closed_here: Ghost(false) }
    }

    /// Another handle to the tracker.
    pub fn share(&self) -> (r: Arc<TaskTracker>)
        ensures
            r == self.tracker(),
    {
        share_tracker(&self.tracker)
    }

    /// `TaskTracker::close`: closes the tracker so that its wait future may
    /// complete once every tracked task has exited. The record says the stream
    /// closed it; the tracker's answer (whether this call did the closing) is
    /// not used.
    #[verifier::external_body]
    pub fn close(&mut self)
        ensures
            final(self).tracker() == old(self).tracker(),
            final(self).closed_here(),
    {
        self.tracker.close();
        self.closed_here = Ghost(true);
    }
}

} // verus!
