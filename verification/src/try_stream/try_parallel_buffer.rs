//! The state machine behind one `poll_next` of a stream that runs the fallible
//! futures of a fallible stream on parallel tasks and hands out their results.
//!
//! A poll goes through these steps. While the inner buffer of task results is
//! live, it is polled: a success is handed out, and a pending buffer leaves
//! the poll pending. When the buffer ends or reports an error (of the input
//! stream, of a future, a cancelled task or a failed task), the buffer is
//! dropped. From then on every poll shuts the tasks down (cancels the token
//! and closes the task tracker), waits, if asked to and until it has once
//! resolved, for every task to finish, and then reports the error once,
//! resumes the panic that a task died of, once, or reports end-of-stream.
use crate::foreign::{StreamToken, StreamTracker};
use crate::poll::{Poll, Step};
use crate::try_stream::try_into_tasks::TryTaskError;
use std::sync::Arc;
use tokio_util::sync::CancellationToken;
use tokio_util::task::TaskTracker;
use vstd::prelude::*;

verus! {

/// What a [`TryParallelBuffer`] holds and its decisions depend on.
pub struct TryBufferState<E> {
    /// Whether end-of-stream waits for every spawned task to finish.
    pub awaiting_completion: bool,
    /// Whether the inner buffer of task outputs is still there.
    pub buffer_open: bool,
    /// The failure of a task that ended the buffer, not yet reported.
    pub task_err: Option<TryTaskError<E, E>>,
    /// Whether the wait for every task has resolved.
    pub wait_done: bool,
    /// Whether the stream has cancelled its token.
    pub token_cancelled: bool,
    /// Whether the stream has closed its task tracker.
    pub tracker_closed: bool,
    /// The token that the tasks watch.
    pub cancellation_token: CancellationToken,
    /// The tracker that the tasks are spawned through.
    pub task_tracker: Arc<TaskTracker>,
}

/// The tasks are released: the stream has cancelled its token and closed its
/// tracker.
pub open spec fn released<E>(s: TryBufferState<E>) -> bool {
    s.token_cancelled && s.tracker_closed
}

/// A state that a stream can be in: an error is held, and the wait for
/// the tasks resolves, only once the buffer is gone.
pub open spec fn consistent<E>(s: TryBufferState<E>) -> bool {
    &&& s.task_err is Some ==> !s.buffer_open
    &&& s.wait_done ==> !s.buffer_open
}

/// The step after the inner buffer answered a poll.
pub open spec fn after_buffer_event<T, E>(
    s: TryBufferState<E>,
    event: Poll<Option<Result<T, TryTaskError<E, E>>>>,
) -> (TryBufferState<E>, Step<Result<T, E>>) {
    match event {
        Poll::Pending => (s, Step::Yield(Poll::Pending)),
        Poll::Ready(Some(Ok(item))) => (s, Step::Yield(Poll::Ready(Some(Ok(item))))),
        Poll::Ready(Some(Err(err))) => (
            TryBufferState { buffer_open: false, task_err: Some(err), ..s },
            Step::DropBuffer,
        ),
        Poll::Ready(None) => (TryBufferState { buffer_open: false, ..s }, Step::DropBuffer),
    }
}

/// What an error that ended the buffer is reported as: an error of the input
/// stream or of a future as it is; a task cancelled through the token, or an
/// aborted task, as the end of the stream; a panicked task by resuming its
/// panic.
pub open spec fn error_step<T, E>(err: TryTaskError<E, E>) -> Step<Result<T, E>> {
    match err {
        TryTaskError::Cancelled => Step::Yield(Poll::Ready(None)),
        TryTaskError::Stream(e) => Step::Yield(Poll::Ready(Some(Err(e)))),
        TryTaskError::Future(e) => Step::Yield(Poll::Ready(Some(Err(e)))),
        TryTaskError::Join(t) => if t.panicked() {
            Step::ResumePanic(t.error())
        } else {
            Step::Yield(Poll::Ready(None))
        },
    }
}

/// The final step of a poll at end-of-stream: the pending error, reported
/// once, or the end.
pub open spec fn finish_step<T, E>(s: TryBufferState<E>) -> (TryBufferState<E>, Step<Result<T, E>>) {
    match s.task_err {
        Some(err) => (TryBufferState { task_err: None, ..s }, error_step(err)),
        None => (s, Step::Yield(Poll::Ready(None))),
    }
}

/// The step once the buffer is gone: release the tasks, then wait for them
/// (unless not asked to, or the wait already resolved) or finish.
pub open spec fn wind_down<T, E>(s: TryBufferState<E>) -> (TryBufferState<E>, Step<Result<T, E>>) {
    let released = TryBufferState { token_cancelled: true, tracker_closed: true, ..s };
    if s.awaiting_completion && !s.wait_done {
        (released, Step::PollWait)
    } else {
        finish_step(released)
    }
}

/// The first step of a poll.
pub open spec fn first_step<T, E>(s: TryBufferState<E>) -> (TryBufferState<E>, Step<Result<T, E>>) {
    if s.buffer_open {
        (s, Step::PollBuffer)
    } else {
        wind_down(s)
    }
}

/// The step after the wait for every task answered a poll.
pub open spec fn after_wait_event<T, E>(s: TryBufferState<E>, event: Poll<()>) -> (TryBufferState<E>, Step<Result<T, E>>) {
    match event {
        Poll::Pending => (s, Step::Yield(Poll::Pending)),
        Poll::Ready(()) => finish_step(TryBufferState { wait_done: true, ..s }),
    }
}

/// Where a buffered stream is: with its inner buffer live, or after the
/// buffer ended (with the error that ended it, not yet reported, and
/// whether the wait for the tasks has resolved).
enum Phase<E> {
    Live,
    Ended { task_err: Option<TryTaskError<E, E>>, wait_done: bool },
}

/// The state that a buffered stream keeps besides its pinned inner buffer and
/// wait future: the token and tracker of its tasks, and its place in the
/// shut-down sequence.
pub struct TryParallelBuffer<E> {
    awaiting_completion: bool,
    token: StreamToken,
    tracker: StreamTracker,
    phase: Phase<E>,
}

impl<E> View for TryParallelBuffer<E> {
    type V = TryBufferState<E>;

    closed spec fn view(&self) -> TryBufferState<E> {
        TryBufferState {
            awaiting_completion: self.awaiting_completion,
            buffer_open: self.phase is Live,
            task_err: match self.phase {
                Phase::Live => None,
                Phase::Ended { task_err, .. } => task_err,
            },
            wait_done: match self.phase {
                Phase::Live => false,
                Phase::Ended { wait_done, .. } => wait_done,
            },
            token_cancelled: self.token.cancelled_here(),
            tracker_closed: self.tracker.closed_here(),
            cancellation_token: self.token.token(),
            task_tracker: self.tracker.tracker(),
        }
    }
}

impl<E> TryParallelBuffer<E> {
    /// Every state of a stream is consistent.
    pub proof fn lemma_consistent(&self)
        ensures
            consistent(self@),
    {
    }

    /// A stream state with a fresh task tracker and the given token: the
    /// buffer is live, nothing failed, the stream has neither cancelled the
    /// token nor closed the tracker, and end-of-stream awaits the tasks.
    pub fn new(cancellation_token: CancellationToken) -> (r: Self)
        ensures
            r@.awaiting_completion,
            r@.buffer_open,
            r@.task_err is None,
            !r@.wait_done,
            !r@.token_cancelled,
            !r@.tracker_closed,
            r@.cancellation_token == cancellation_token,
    {
        TryParallelBuffer {
            awaiting_completion: true,
            token: StreamToken::new(cancellation_token),
            tracker: StreamTracker::new(),
            phase: Phase::Live,
        }
    }

    /// Sets whether end-of-stream waits for every spawned task to finish.
    pub fn awaiting_completion(self, value: bool) -> (r: Self)
        ensures
            r@ == (TryBufferState { awaiting_completion: value, ..self@ }),
    {
        let mut r = self;
        r.set_awaiting_completion(value);
        r
    }

    /// Sets, in place, whether end-of-stream waits for every spawned task to
    /// finish.
    pub fn set_awaiting_completion(&mut self, value: bool)
        ensures
            final(self)@ == (TryBufferState { awaiting_completion: value, ..old(self)@ }),
    {
        self.awaiting_completion = value;
    }

    /// Whether the inner buffer is still there.
    pub fn buffer_open(&self) -> (r: bool)
        ensures
            r == self@.buffer_open,
    {
        match self.phase {
            Phase::Live => true,
            Phase::Ended { .. } => false,
        }
    }

    /// The token that the tasks of the stream watch.
    pub fn cancellation_token(&self) -> (r: &CancellationToken)
        ensures
            *r == self@.cancellation_token,
    {
        self.token.get()
    }

    /// Another handle to the task tracker that the tasks of the stream are
    /// spawned through.
    pub fn task_tracker(&self) -> (r: Arc<TaskTracker>)
        ensures
            r == self@.task_tracker,
    {
        self.tracker.share()
    }

    /// Cancels the token and closes the task tracker.
    fn release_tasks(&mut self)
        ensures
            final(self)@ == (TryBufferState { token_cancelled: true, tracker_closed: true, ..old(self)@ }),
    {
        self.token.cancel();
        self.tracker.close();
    }

    /// Ends the buffer, holding `task_err` for the end of the stream.
    fn end_buffer(&mut self, task_err: Option<TryTaskError<E, E>>)
        ensures
            final(self)@ == (TryBufferState { buffer_open: false, task_err, wait_done: false, ..old(self)@ }),
    {
        self.phase = Phase::Ended { task_err, wait_done: false };
    }

    fn finish<T>(&mut self) -> (step: Step<Result<T, E>>)
        requires
            !old(self)@.buffer_open,
        ensures
            (final(self)@, step) == finish_step::<T, E>(old(self)@),
    {
        let mut phase = Phase::Live;
        std::mem::swap(&mut phase, &mut self.phase);
        match phase {
            Phase::Ended { task_err, wait_done } => {
                self.phase = Phase::Ended { task_err: None, wait_done };
                match task_err {
                    Some(TryTaskError::Cancelled) => Step::Yield(Poll::Ready(None)),
                    Some(TryTaskError::Stream(e)) => Step::Yield(Poll::Ready(Some(Err(e)))),
                    Some(TryTaskError::Future(e)) => Step::Yield(Poll::Ready(Some(Err(e)))),
                    Some(TryTaskError::Join(t)) => {
                        if t.is_panic() {
                            Step::ResumePanic(t.into_join_error())
                        } else {
                            Step::Yield(Poll::Ready(None))
                        }
                    },
                    None => Step::Yield(Poll::Ready(None)),
                }
            },
            Phase::Live => {
                self.phase = Phase::Live;
                Step::Yield(Poll::Ready(None))
            },
        }
    }

    fn wait_pending(&self) -> (r: bool)
        ensures
            r == (self@.awaiting_completion && !self@.wait_done),
    {
        match self.phase {
            Phase::Ended { wait_done, .. } => self.awaiting_completion && !wait_done,
            Phase::Live => self.awaiting_completion,
        }
    }

    fn shut_down<T>(&mut self) -> (step: Step<Result<T, E>>)
        requires
            !old(self)@.buffer_open,
        ensures
            (final(self)@, step) == wind_down::<T, E>(old(self)@),
    {
        self.release_tasks();
        if self.wait_pending() {
            Step::PollWait
        } else {
            self.finish()
        }
    }

    /// The first step of a call of `poll_next`.
    pub fn begin_poll<T>(&mut self) -> (step: Step<Result<T, E>>)
        ensures
            (final(self)@, step) == first_step::<T, E>(old(self)@),
    {
        if self.buffer_open() {
            Step::PollBuffer
        } else {
            self.shut_down()
        }
    }

    /// The step after the inner buffer answered a poll with `event`.
    pub fn on_buffer_polled<T>(&mut self, event: Poll<Option<Result<T, TryTaskError<E, E>>>>) -> (step: Step<Result<T, E>>)
        requires
            old(self)@.buffer_open,
        ensures
            (final(self)@, step) == after_buffer_event(old(self)@, event),
    {
        match event {
            Poll::Pending => Step::Yield(Poll::Pending),
            Poll::Ready(Some(Ok(item))) => Step::Yield(Poll::Ready(Some(Ok(item)))),
            Poll::Ready(Some(Err(err))) => {
                self.end_buffer(Some(err));
                Step::DropBuffer
            },
            Poll::Ready(None) => {
                self.end_buffer(None);
                Step::DropBuffer
            },
        }
    }

    /// The step after the inner buffer was dropped.
    pub fn on_buffer_dropped<T>(&mut self) -> (step: Step<Result<T, E>>)
        requires
            !old(self)@.buffer_open,
        ensures
            (final(self)@, step) == wind_down::<T, E>(old(self)@),
    {
        self.shut_down()
    }

    /// The step after the wait for every task answered a poll with `event`.
    pub fn on_wait_polled<T>(&mut self, event: Poll<()>) -> (step: Step<Result<T, E>>)
        requires
            !old(self)@.buffer_open,
        ensures
            (final(self)@, step) == after_wait_event::<T, E>(old(self)@, event),
    {
        match event {
            Poll::Pending => Step::Yield(Poll::Pending),
            Poll::Ready(()) => {
                let mut phase = Phase::Live;
                std::mem::swap(&mut phase, &mut self.phase);
                let task_err = match phase {
                    Phase::Ended { task_err, .. } => task_err,
                    Phase::Live => None,
                };
                self.phase = Phase::Ended { task_err, wait_done: true };
                self.finish()
            },
        }
    }

    /// The size hint of the stream: that of the inner buffer (`inner`) while
    /// the buffer is there, otherwise no lower bound and no upper bound.
    pub fn size_hint(&self, inner: Option<(usize, Option<usize>)>) -> (r: (usize, Option<usize>))
        ensures
            r == (match inner {
                Some(hint) if self@.buffer_open => hint,
                _ => (0usize, None::<usize>),
            }),
    {
        match inner {
            Some(hint) if self.buffer_open() => hint,
            _ => (0, None),
        }
    }

    /// Shuts the tasks down when the stream is dropped: cancels the token and
    /// closes the tracker.
    pub fn release_on_drop(&mut self)
        ensures
            final(self)@ == (TryBufferState { token_cancelled: true, tracker_closed: true, ..old(self)@ }),
    {
        self.release_tasks();
    }
}

/// One whole call of `poll_next`, as the steps above chain: `buffer` is what
/// the inner buffer answers if it is polled, `wait` what the wait for the
/// tasks answers if it is polled. Each kind of step comes at most once.
pub open spec fn poll_outcome<T, E>(
    s: TryBufferState<E>,
    buffer: Poll<Option<Result<T, TryTaskError<E, E>>>>,
    wait: Poll<()>,
) -> (TryBufferState<E>, Step<Result<T, E>>) {
    let (s1, step1) = first_step::<T, E>(s);
    let (s2, step2) = if step1 is PollBuffer {
        after_buffer_event(s1, buffer)
    } else {
        (s1, step1)
    };
    let (s3, step3) = if step2 is DropBuffer {
        wind_down::<T, E>(s2)
    } else {
        (s2, step2)
    };
    if step3 is PollWait {
        after_wait_event::<T, E>(s3, wait)
    } else {
        (s3, step3)
    }
}

/// A step that hands out a success or leaves the poll pending.
pub open spec fn is_ongoing<T, E>(step: Step<Result<T, E>>) -> bool {
    ||| step matches Step::Yield(Poll::Ready(Some(Ok(_))))
    ||| step == Step::<Result<T, E>>::Yield(Poll::Pending)
}

/// Every poll keeps a stream state consistent.
pub proof fn lemma_poll_keeps_consistency<T, E>(
    s: TryBufferState<E>,
    buffer: Poll<Option<Result<T, TryTaskError<E, E>>>>,
    wait: Poll<()>,
)
    requires
        consistent(s),
    ensures
        consistent(poll_outcome(s, buffer, wait).0),
{
}

/// Every call of `poll_next` comes to an answer: after at most four steps it
/// returns a poll outcome or resumes a panic.
pub proof fn lemma_poll_always_answers<T, E>(
    s: TryBufferState<E>,
    buffer: Poll<Option<Result<T, TryTaskError<E, E>>>>,
    wait: Poll<()>,
)
    ensures
        poll_outcome(s, buffer, wait).1 is Yield || poll_outcome(s, buffer, wait).1 is ResumePanic,
{
}

/// While the buffer is live, a poll hands out the buffer's next success, as
/// it is, or stays pending with it, and changes nothing.
pub proof fn lemma_poll_hands_out_results<T, E>(s: TryBufferState<E>, item: T, wait: Poll<()>)
    requires
        s.buffer_open,
    ensures
        poll_outcome::<T, E>(s, Poll::Ready(Some(Ok(item))), wait) == (s, Step::<Result<T, E>>::Yield(Poll::Ready(Some(Ok(item))))),
        poll_outcome::<T, E>(s, Poll::Pending, wait) == (s, Step::<Result<T, E>>::Yield(Poll::Pending)),
{
}

/// No task is left behind: a poll that reports the end, an error or a panic
/// has cancelled the token and closed the tracker, and when it awaits
/// completion, the wait for every task has resolved. Once the buffer is gone,
/// no poll hands out a success again, and once the wait has resolved it is
/// never polled again.
pub proof fn lemma_poll_reports_only_after_release<T, E>(
    s: TryBufferState<E>,
    buffer: Poll<Option<Result<T, TryTaskError<E, E>>>>,
    wait: Poll<()>,
    other_wait: Poll<()>,
)
    ensures
        !is_ongoing(poll_outcome(s, buffer, wait).1) ==> released(poll_outcome(s, buffer, wait).0),
        !is_ongoing(poll_outcome(s, buffer, wait).1) && s.awaiting_completion ==> poll_outcome(s, buffer, wait).0.wait_done,
        poll_outcome(s, buffer, wait).0.wait_done ==> (s.wait_done || wait is Ready),
        !s.buffer_open ==> !(poll_outcome(s, buffer, wait).1 matches Step::Yield(Poll::Ready(Some(Ok(_))))),
        !s.buffer_open ==> !poll_outcome(s, buffer, wait).0.buffer_open,
        s.wait_done ==> poll_outcome(s, buffer, wait) == poll_outcome(s, buffer, other_wait),
{
}

/// An error that ends the buffer is reported exactly once, once the tasks
/// are done (or not awaited): an error of the input stream or of a future as
/// it is, a cancelled or aborted task as the end, a panicked task by resuming
/// its panic. Every later poll reports end-of-stream, without polling the
/// wait again.
pub proof fn lemma_poll_reports_error_once<T, E>(
    s: TryBufferState<E>,
    err: TryTaskError<E, E>,
    later: Poll<Option<Result<T, TryTaskError<E, E>>>>,
    later_wait: Poll<()>,
)
    requires
        s.buffer_open,
        consistent(s),
    ensures
        ({
            let (after, step) = poll_outcome::<T, E>(s, Poll::Ready(Some(Err(err))), Poll::Ready(()));
            &&& step == error_step::<T, E>(err)
            &&& (err matches TryTaskError::Stream(e) ==> step == Step::<Result<T, E>>::Yield(Poll::Ready(Some(Err(e)))))
            &&& (err matches TryTaskError::Future(e) ==> step == Step::<Result<T, E>>::Yield(Poll::Ready(Some(Err(e)))))
            &&& (err is Cancelled ==> step == Step::<Result<T, E>>::Yield(Poll::Ready(None)))
            &&& (err matches TryTaskError::Join(t) ==> step == (if t.panicked() {
                Step::ResumePanic(t.error())
            } else {
                Step::<Result<T, E>>::Yield(Poll::Ready(None))
            }))
            &&& released(after)
            &&& poll_outcome::<T, E>(after, later, later_wait).1 == Step::<Result<T, E>>::Yield(Poll::Ready(None))
        }),
{
}

/// An input stream that ends without an error ends the stream with
/// end-of-stream once the tasks are done (or not awaited), and every later
/// poll reports end-of-stream too.
pub proof fn lemma_poll_plain_end<T, E>(
    s: TryBufferState<E>,
    later: Poll<Option<Result<T, TryTaskError<E, E>>>>,
    later_wait: Poll<()>,
)
    requires
        s.buffer_open,
        consistent(s),
    ensures
        ({
            let (after, step) = poll_outcome::<T, E>(s, Poll::Ready(None), Poll::Ready(()));
            &&& step == Step::<Result<T, E>>::Yield(Poll::Ready(None))
            &&& released(after)
            &&& poll_outcome::<T, E>(after, later, later_wait).1 == Step::<Result<T, E>>::Yield(Poll::Ready(None))
        }),
{
}

/// A poll that awaits completion stays pending, reporting nothing, while the
/// wait for the tasks is pending.
pub proof fn lemma_poll_waits_for_tasks<T, E>(s: TryBufferState<E>, buffer: Poll<Option<Result<T, TryTaskError<E, E>>>>)
    requires
        s.awaiting_completion,
        !s.wait_done,
        consistent(s),
    ensures
        !s.buffer_open ==> poll_outcome::<T, E>(s, buffer, Poll::Pending).1 == Step::<Result<T, E>>::Yield(Poll::Pending),
        is_ongoing(poll_outcome::<T, E>(s, buffer, Poll::Pending).1),
{
}

/// A poll that hands out a success, or in which the buffer stays live, leaves
/// the tasks alone: the stream cancels its token and closes its tracker only
/// in a poll in which the buffer ends.
pub proof fn lemma_ongoing_poll_leaves_tasks_running<T, E>(
    s: TryBufferState<E>,
    buffer: Poll<Option<Result<T, TryTaskError<E, E>>>>,
    wait: Poll<()>,
)
    ensures
        poll_outcome(s, buffer, wait).1 matches Step::Yield(Poll::Ready(Some(Ok(_)))) ==> poll_outcome(s, buffer, wait).0 == s,
        poll_outcome(s, buffer, wait).0.buffer_open ==> poll_outcome(s, buffer, wait).0 == s,
{
}

/// A run of polls: each poll gets the next of `answers` from the buffer (if
/// it polls the buffer) and a resolved wait (if it waits).
pub open spec fn run<T, E>(
    s: TryBufferState<E>,
    answers: Seq<Poll<Option<Result<T, TryTaskError<E, E>>>>>,
) -> (TryBufferState<E>, Seq<Step<Result<T, E>>>)
    decreases answers.len(),
{
    if answers.len() == 0 {
        (s, Seq::empty())
    } else {
        let (next, step) = poll_outcome(s, answers[0], Poll::Ready(()));
        let (end, steps) = run(next, answers.drop_first());
        (end, seq![step] + steps)
    }
}

/// A buffer that yields the successes `results` and then ends.
pub open spec fn results_then_end<T, E>(results: Seq<T>) -> Seq<Poll<Option<Result<T, TryTaskError<E, E>>>>> {
    results.map_values(|v: T| Poll::Ready(Some(Ok(v)))).push(Poll::Ready(None))
}

/// Over a whole run: a live stream whose buffer yields the successes
/// `results` and then ends hands out exactly those results, in the buffer's
/// order, and then reports end-of-stream, having released its tasks.
pub proof fn lemma_run_hands_out_all_then_ends<T, E>(s: TryBufferState<E>, results: Seq<T>)
    requires
        s.buffer_open,
        consistent(s),
    ensures
        run(s, results_then_end::<T, E>(results)).1
            == results.map_values(|v: T| Step::<Result<T, E>>::Yield(Poll::Ready(Some(Ok(v))))).push(Step::<Result<T, E>>::Yield(Poll::Ready(None))),
        released(run(s, results_then_end::<T, E>(results)).0),
        !run(s, results_then_end::<T, E>(results)).0.buffer_open,
    decreases results.len(),
{
    let answers = results_then_end::<T, E>(results);
    if results.len() == 0 {
        assert(answers =~= seq![Poll::<Option<Result<T, TryTaskError<E, E>>>>::Ready(None)]);
        assert(answers.drop_first() =~= Seq::<Poll<Option<Result<T, TryTaskError<E, E>>>>>::empty());
        let (next, step) = poll_outcome(s, answers[0], Poll::Ready(()));
        assert(run(next, answers.drop_first()).1 =~= Seq::<Step<Result<T, E>>>::empty());
        assert(results.map_values(|v: T| Step::<Result<T, E>>::Yield(Poll::Ready(Some(Ok(v))))) =~= Seq::<Step<Result<T, E>>>::empty());
    } else {
        let rest = results.drop_first();
        lemma_run_hands_out_all_then_ends::<T, E>(s, rest);
        assert(answers[0] == Poll::<Option<Result<T, TryTaskError<E, E>>>>::Ready(Some(Ok(results[0]))));
        assert(answers.drop_first() =~= results_then_end::<T, E>(rest));
        assert(results.map_values(|v: T| Step::<Result<T, E>>::Yield(Poll::Ready(Some(Ok(v))))).push(Step::<Result<T, E>>::Yield(Poll::Ready(None)))
            =~= seq![Step::<Result<T, E>>::Yield(Poll::Ready(Some(Ok(results[0]))))]
                + rest.map_values(|v: T| Step::<Result<T, E>>::Yield(Poll::Ready(Some(Ok(v))))).push(Step::<Result<T, E>>::Yield(Poll::Ready(None))));
    }
}

/// An ended stream that holds an error, after `n` polls in which the wait for
/// the tasks is pending.
pub open spec fn after_pending_waits<T, E>(s: TryBufferState<E>, n: nat) -> TryBufferState<E>
    decreases n,
{
    if n == 0 {
        s
    } else {
        after_pending_waits::<T, E>(poll_outcome::<T, E>(s, Poll::Pending, Poll::Pending).0, (n - 1) as nat)
    }
}

/// While the wait for the tasks is pending, a poll of an ended stream that
/// awaits completion stays pending and keeps, unreported, the error it holds
/// (if any); nothing about it changes but that the tasks are released.
pub proof fn lemma_pending_wait_keeps_error<T, E>(
    s: TryBufferState<E>,
    buffer: Poll<Option<Result<T, TryTaskError<E, E>>>>,
)
    requires
        !s.buffer_open,
        s.awaiting_completion,
        !s.wait_done,
    ensures
        poll_outcome(s, buffer, Poll::Pending).1 == Step::<Result<T, E>>::Yield(Poll::Pending),
        poll_outcome(s, buffer, Poll::Pending).0 == (TryBufferState { token_cancelled: true, tracker_closed: true, ..s }),
{
}

/// Once the wait for the tasks has resolved (or is not awaited), a poll of an
/// ended stream reports the error it holds: an error of the input stream or
/// of a future as it is, a cancelled or aborted task as the end of the
/// stream, a panicked task by resuming its panic with its own join error; the
/// error is not held any more.
pub proof fn lemma_resolved_wait_reports_error<T, E>(
    s: TryBufferState<E>,
    err: TryTaskError<E, E>,
    buffer: Poll<Option<Result<T, TryTaskError<E, E>>>>,
)
    requires
        !s.buffer_open,
        s.task_err == Some(err),
    ensures
        ({
            let (after, step) = poll_outcome(s, buffer, Poll::Ready(()));
            &&& (err matches TryTaskError::Stream(e) ==> step == Step::<Result<T, E>>::Yield(Poll::Ready(Some(Err(e)))))
            &&& (err matches TryTaskError::Future(e) ==> step == Step::<Result<T, E>>::Yield(Poll::Ready(Some(Err(e)))))
            &&& (err is Cancelled ==> step == Step::<Result<T, E>>::Yield(Poll::Ready(None)))
            &&& (err matches TryTaskError::Join(t) ==> (t.panicked() ==> step == Step::<Result<T, E>>::ResumePanic(t.error())))
            &&& (err matches TryTaskError::Join(t) ==> (!t.panicked() ==> step == Step::<Result<T, E>>::Yield(Poll::Ready(None))))
            &&& after.task_err is None
            &&& released(after)
        }),
{
}

proof fn lemma_pending_waits_keep_error<T, E>(s: TryBufferState<E>, n: nat)
    requires
        !s.buffer_open,
        s.awaiting_completion,
        !s.wait_done,
    ensures
        ({
            let h = after_pending_waits::<T, E>(s, n);
            &&& !h.buffer_open
            &&& h.awaiting_completion
            &&& !h.wait_done
            &&& h.task_err == s.task_err
        }),
    decreases n,
{
    if n > 0 {
        lemma_pending_wait_keeps_error::<T, E>(s, Poll::Pending);
        lemma_pending_waits_keep_error::<T, E>(poll_outcome::<T, E>(s, Poll::Pending, Poll::Pending).0, (n - 1) as nat);
    }
}

/// An error that reaches the buffer while other tasks are still running (the
/// wait is pending) leaves that poll pending; the error is held through any
/// number `n` of further polls in which the wait stays pending, and is
/// reported in the first poll whose wait resolves: an error of the input
/// stream or of a future as it is, a panicked task by resuming its panic.
pub proof fn lemma_error_reported_when_wait_resolves<T, E>(
    s: TryBufferState<E>,
    err: TryTaskError<E, E>,
    n: nat,
    later: Poll<Option<Result<T, TryTaskError<E, E>>>>,
)
    requires
        s.buffer_open,
        consistent(s),
        s.awaiting_completion,
    ensures
        poll_outcome::<T, E>(s, Poll::Ready(Some(Err(err))), Poll::Pending).1 == Step::<Result<T, E>>::Yield(Poll::Pending),
        ({
            let held = after_pending_waits::<T, E>(poll_outcome::<T, E>(s, Poll::Ready(Some(Err(err))), Poll::Pending).0, n);
            let step = poll_outcome(held, later, Poll::Ready(())).1;
            &&& (err matches TryTaskError::Stream(e) ==> step == Step::<Result<T, E>>::Yield(Poll::Ready(Some(Err(e)))))
            &&& (err matches TryTaskError::Future(e) ==> step == Step::<Result<T, E>>::Yield(Poll::Ready(Some(Err(e)))))
            &&& (err is Cancelled ==> step == Step::<Result<T, E>>::Yield(Poll::Ready(None)))
            &&& (err matches TryTaskError::Join(t) ==> (t.panicked() ==> step == Step::<Result<T, E>>::ResumePanic(t.error())))
            &&& (err matches TryTaskError::Join(t) ==> (!t.panicked() ==> step == Step::<Result<T, E>>::Yield(Poll::Ready(None))))
        }),
{
    let first = poll_outcome::<T, E>(s, Poll::Ready(Some(Err(err))), Poll::Pending).0;
    assert(first.task_err == Some(err));
    lemma_pending_waits_keep_error::<T, E>(first, n);
    lemma_resolved_wait_reports_error::<T, E>(after_pending_waits::<T, E>(first, n), err, later);
}

} // verus!
