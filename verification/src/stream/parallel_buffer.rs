//! The state machine behind one `poll_next` of a stream that runs the futures
//! of another stream on parallel tasks and hands out their outputs.
//!
//! A poll goes through these steps. While the inner buffer of task outputs is
//! live, it is polled: an output is handed out, and a pending buffer leaves the
//! poll pending. When the buffer ends, a task is cancelled through the token,
//! or a task fails, the buffer is dropped. From then on every poll shuts the
//! tasks down (cancels the token and closes the task tracker), waits, if asked
//! to and until it has once resolved, for every task to finish, and then
//! resumes the panic that a task died of, once, or reports end-of-stream.
use crate::foreign::{StreamToken, StreamTracker};
use crate::poll::{Poll, Step};
use crate::stream::into_tasks::TaskError;
use std::sync::Arc;
use tokio_util::sync::CancellationToken;
use tokio_util::task::TaskTracker;
use vstd::prelude::*;

verus! {

/// What a [`ParallelBuffer`] holds and its decisions depend on.
pub struct BufferState {
    /// Whether end-of-stream waits for every spawned task to finish.
    pub awaiting_completion: bool,
    /// Whether the inner buffer of task outputs is still there.
    pub buffer_open: bool,
    /// The failure of a task that ended the buffer, not yet reported.
    pub task_err: Option<TaskError>,
    /// Whether the wait for every task has resolved.
    pub wait_done: bool,
    /// Whether the stream has cancelled its token.
    pub token_cancelled: bool,
    /// Whether the stream has closed its task tracker.
    pub tracker_closed: bool,
    /// The token that the tasks watch.
    pub cancellation_token: CancellationToken,
    /// The tracker that the tasks are spawned through.
    pub task_tracker: Arc<TaskTracker>,
}

/// The tasks are released: the stream has cancelled its token and closed its
/// tracker.
pub open spec fn released(s: BufferState) -> bool {
    s.token_cancelled && s.tracker_closed
}

/// A state that a stream can be in: a task failure is held, and the wait for
/// the tasks resolves, only once the buffer is gone.
pub open spec fn consistent(s: BufferState) -> bool {
    &&& s.task_err is Some ==> !s.buffer_open
    &&& s.wait_done ==> !s.buffer_open
}

/// The step after the inner buffer answered a poll.
pub open spec fn after_buffer_event<T>(
    s: BufferState,
    event: Poll<Option<Result<Option<T>, TaskError>>>,
) -> (BufferState, Step<T>) {
    match event {
        Poll::Pending => (s, Step::Yield(Poll::Pending)),
        Poll::Ready(Some(Ok(Some(item)))) => (s, Step::Yield(Poll::Ready(Some(item)))),
        Poll::Ready(Some(Err(err))) => (
            BufferState { buffer_open: false, task_err: Some(err), ..s },
            Step::DropBuffer,
        ),
        Poll::Ready(Some(Ok(None))) => (BufferState { buffer_open: false, ..s }, Step::DropBuffer),
        Poll::Ready(None) => (BufferState { buffer_open: false, ..s }, Step::DropBuffer),
    }
}

/// The final step of a poll at end-of-stream: the panic of the failed task
/// that ended the buffer is resumed, once; otherwise the stream ends.
pub open spec fn finish_step<T>(s: BufferState) -> (BufferState, Step<T>) {
    match s.task_err {
        Some(err) => (
            BufferState { task_err: None, ..s },
            if err.panicked() {
                Step::ResumePanic(err.error())
            } else {
                Step::Yield(Poll::Ready(None))
            },
        ),
        None => (s, Step::Yield(Poll::Ready(None))),
    }
}

/// The step once the buffer is gone: release the tasks, then wait for them
/// (unless not asked to, or the wait already resolved) or finish.
pub open spec fn wind_down<T>(s: BufferState) -> (BufferState, Step<T>) {
    let released = BufferState { token_cancelled: true, tracker_closed: true, ..s };
    if s.awaiting_completion && !s.wait_done {
        (released, Step::PollWait)
    } else {
        finish_step(released)
    }
}

/// The first step of a poll.
pub open spec fn first_step<T>(s: BufferState) -> (BufferState, Step<T>) {
    if s.buffer_open {
        (s, Step::PollBuffer)
    } else {
        wind_down(s)
    }
}

/// The step after the wait for every task answered a poll.
pub open spec fn after_wait_event<T>(s: BufferState, event: Poll<()>) -> (BufferState, Step<T>) {
    match event {
        Poll::Pending => (s, Step::Yield(Poll::Pending)),
        Poll::Ready(()) => finish_step(BufferState { wait_done: true, ..s }),
    }
}

/// Where a buffered stream is: with its inner buffer live, or after the
/// buffer ended (with the failure that ended it, not yet reported, and
/// whether the wait for the tasks has resolved).
enum Phase {
    Live,
    Ended { task_err: Option<TaskError>, wait_done: bool },
}

/// The state that a buffered stream keeps besides its pinned inner buffer and
/// wait future: the token and tracker of its tasks, and its place in the
/// shut-down sequence.
pub struct ParallelBuffer {
    awaiting_completion: bool,
    token: StreamToken,
    tracker: StreamTracker,
    phase: Phase,
}

impl View for ParallelBuffer {
    type V = BufferState;

    closed spec fn view(&self) -> BufferState {
        BufferState {
            awaiting_completion: self.awaiting_completion,
            buffer_open: self.phase is Live,
            task_err: match self.phase {
                Phase::Live => None,
                Phase::Ended { task_err, .. } => task_err,
            },
            wait_done: match self.phase {
                Phase::Live => false,
                Phase::Ended { wait_done, .. } => wait_done,
            },
            token_cancelled: self.token.cancelled_here(),
            tracker_closed: self.tracker.closed_here(),
            cancellation_token: self.token.token(),
            task_tracker: self.tracker.tracker(),
        }
    }
}

impl ParallelBuffer {
    /// Every state of a stream is consistent.
    pub proof fn lemma_consistent(&self)
        ensures
            consistent(self@),
    {
    }

    /// A stream state with a fresh task tracker and the given token: the
    /// buffer is live, nothing failed, the stream has neither cancelled the
    /// token nor closed the tracker, and end-of-stream awaits the tasks.
    pub fn new(cancellation_token: CancellationToken) -> (r: Self)
        ensures
            r@.awaiting_completion,
            r@.buffer_open,
            r@.task_err is None,
            !r@.wait_done,
            !r@.token_cancelled,
            !r@.tracker_closed,
            r@.cancellation_token == cancellation_token,
    {
        ParallelBuffer {
            awaiting_completion: true,
            token: StreamToken::new(cancellation_token),
            tracker: StreamTracker::new(),
            phase: Phase::Live,
        }
    }

    /// Sets whether end-of-stream waits for every spawned task to finish.
    pub fn awaiting_completion(self, value: bool) -> (r: Self)
        ensures
            r@ == (BufferState { awaiting_completion: value, ..self@ }),
    {
        let mut r = self;
        r.set_awaiting_completion(value);
        r
    }

    /// Sets, in place, whether end-of-stream waits for every spawned task to
    /// finish.
    pub fn set_awaiting_completion(&mut self, value: bool)
        ensures
            final(self)@ == (BufferState { awaiting_completion: value, ..old(self)@ }),
    {
        self.awaiting_completion = value;
    }

    /// Whether the inner buffer is still there.
    pub fn buffer_open(&self) -> (r: bool)
        ensures
            r == self@.buffer_open,
    {
        match self.phase {
            Phase::Live => true,
            Phase::Ended { .. } => false,
        }
    }

    /// The token that the tasks of the stream watch.
    pub fn cancellation_token(&self) -> (r: &CancellationToken)
        ensures
            *r == self@.cancellation_token,
    {
        self.token.get()
    }

    /// Another handle to the task tracker that the tasks of the stream are
    /// spawned through.
    pub fn task_tracker(&self) -> (r: Arc<TaskTracker>)
        ensures
            r == self@.task_tracker,
    {
        self.tracker.share()
    }

    /// Cancels the token and closes the task tracker.
    fn release_tasks(&mut self)
        ensures
            final(self)@ == (BufferState { token_cancelled: true, tracker_closed: true, ..old(self)@ }),
    {
        self.token.cancel();
        self.tracker.close();
    }

    /// Ends the buffer, holding `task_err` for the end of the stream.
    fn end_buffer(&mut self, task_err: Option<TaskError>)
        ensures
            final(self)@ == (BufferState { buffer_open: false, task_err, wait_done: false, ..old(self)@ }),
    {
        self.phase = Phase::Ended { task_err, wait_done: false };
    }

    fn finish<T>(&mut self) -> (step: Step<T>)
        requires
            !old(self)@.buffer_open,
        ensures
            (final(self)@, step) == finish_step::<T>(old(self)@),
    {
        let mut phase = Phase::Live;
        std::mem::swap(&mut phase, &mut self.phase);
        match phase {
            Phase::Ended { task_err, wait_done } => {
                self.phase = Phase::Ended { task_err: None, wait_done };
                match task_err {
                    Some(err) => {
                        if err.is_panic() {
                            Step::ResumePanic(err.into_join_error())
                        } else {
                            Step::Yield(Poll::Ready(None))
                        }
                    },
                    None => Step::Yield(Poll::Ready(None)),
                }
            },
            Phase::Live => {
                self.phase = Phase::Live;
                Step::Yield(Poll::Ready(None))
            },
        }
    }

    fn wait_pending(&self) -> (r: bool)
        ensures
            r == (self@.awaiting_completion && !self@.wait_done),
    {
        match self.phase {
            Phase::Ended { wait_done, .. } => self.awaiting_completion && !wait_done,
            Phase::Live => self.awaiting_completion,
        }
    }

    fn shut_down<T>(&mut self) -> (step: Step<T>)
        requires
            !old(self)@.buffer_open,
        ensures
            (final(self)@, step) == wind_down::<T>(old(self)@),
    {
        self.release_tasks();
        if self.wait_pending() {
            Step::PollWait
        } else {
            self.finish()
        }
    }

    /// The first step of a call of `poll_next`.
    pub fn begin_poll<T>(&mut self) -> (step: Step<T>)
        ensures
            (final(self)@, step) == first_step::<T>(old(self)@),
    {
        if self.buffer_open() {
            Step::PollBuffer
        } else {
            self.shut_down()
        }
    }

    /// The step after the inner buffer answered a poll with `event`.
    pub fn on_buffer_polled<T>(&mut self, event: Poll<Option<Result<Option<T>, TaskError>>>) -> (step: Step<T>)
        requires
            old(self)@.buffer_open,
        ensures
            (final(self)@, step) == after_buffer_event(old(self)@, event),
    {
        match event {
            Poll::Pending => Step::Yield(Poll::Pending),
            Poll::Ready(Some(Ok(Some(item)))) => Step::Yield(Poll::Ready(Some(item))),
            Poll::Ready(Some(Err(err))) => {
                self.end_buffer(Some(err));
                Step::DropBuffer
            },
            Poll::Ready(Some(Ok(None))) => {
                self.end_buffer(None);
                Step::DropBuffer
            },
            Poll::Ready(None) => {
                self.end_buffer(None);
                Step::DropBuffer
            },
        }
    }

    /// The step after the inner buffer was dropped.
    pub fn on_buffer_dropped<T>(&mut self) -> (step: Step<T>)
        requires
            !old(self)@.buffer_open,
        ensures
            (final(self)@, step) == wind_down::<T>(old(self)@),
    {
        self.shut_down()
    }

    /// The step after the wait for every task answered a poll with `event`.
    pub fn on_wait_polled<T>(&mut self, event: Poll<()>) -> (step: Step<T>)
        requires
            !old(self)@.buffer_open,
        ensures
            (final(self)@, step) == after_wait_event::<T>(old(self)@, event),
    {
        match event {
            Poll::Pending => Step::Yield(Poll::Pending),
            Poll::Ready(()) => {
                let mut phase = Phase::Live;
                std::mem::swap(&mut phase, &mut self.phase);
                let task_err = match phase {
                    Phase::Ended { task_err, .. } => task_err,
                    Phase::Live => None,
                };
                self.phase = Phase::Ended { task_err, wait_done: true };
                self.finish()
            },
        }
    }

    /// The size hint of the stream: that of the inner buffer (`inner`) while
    /// the buffer is there, otherwise no lower bound and no upper bound.
    pub fn size_hint(&self, inner: Option<(usize, Option<usize>)>) -> (r: (usize, Option<usize>))
        ensures
            r == (match inner {
                Some(hint) if self@.buffer_open => hint,
                _ => (0usize, None::<usize>),
            }),
    {
        match inner {
            Some(hint) if self.buffer_open() => hint,
            _ => (0, None),
        }
    }

    /// Shuts the tasks down when the stream is dropped: cancels the token and
    /// closes the tracker.
    pub fn release_on_drop(&mut self)
        ensures
            final(self)@ == (BufferState { token_cancelled: true, tracker_closed: true, ..old(self)@ }),
    {
        self.release_tasks();
    }
}

/// One whole call of `poll_next`, as the steps above chain: `buffer` is what
/// the inner buffer answers if it is polled, `wait` what the wait for the
/// tasks answers if it is polled. Each kind of step comes at most once.
pub open spec fn poll_outcome<T>(
    s: BufferState,
    buffer: Poll<Option<Result<Option<T>, TaskError>>>,
    wait: Poll<()>,
) -> (BufferState, Step<T>) {
    let (s1, step1) = first_step::<T>(s);
    let (s2, step2) = if step1 is PollBuffer {
        after_buffer_event(s1, buffer)
    } else {
        (s1, step1)
    };
    let (s3, step3) = if step2 is DropBuffer {
        wind_down::<T>(s2)
    } else {
        (s2, step2)
    };
    if step3 is PollWait {
        after_wait_event::<T>(s3, wait)
    } else {
        (s3, step3)
    }
}

/// Every poll keeps a stream state consistent.
pub proof fn lemma_poll_keeps_consistency<T>(
    s: BufferState,
    buffer: Poll<Option<Result<Option<T>, TaskError>>>,
    wait: Poll<()>,
)
    requires
        consistent(s),
    ensures
        consistent(poll_outcome(s, buffer, wait).0),
{
}

/// Every call of `poll_next` comes to an answer: after at most four steps it
/// returns a poll outcome or resumes a panic.
pub proof fn lemma_poll_always_answers<T>(
    s: BufferState,
    buffer: Poll<Option<Result<Option<T>, TaskError>>>,
    wait: Poll<()>,
)
    ensures
        poll_outcome(s, buffer, wait).1 is Yield || poll_outcome(s, buffer, wait).1 is ResumePanic,
{
}

/// While the buffer is live, a poll hands out the buffer's next output, as
/// it is, or stays pending with it, and changes nothing.
pub proof fn lemma_poll_hands_out_outputs<T>(s: BufferState, item: T, wait: Poll<()>)
    requires
        s.buffer_open,
    ensures
        poll_outcome(s, Poll::Ready(Some(Ok(Some(item)))), wait) == (s, Step::Yield(Poll::Ready(Some(item)))),
        poll_outcome::<T>(s, Poll::Pending, wait) == (s, Step::<T>::Yield(Poll::Pending)),
{
}

/// No task is left behind: a poll that ends the stream or resumes a panic
/// has cancelled the token and closed the tracker, and when it awaits
/// completion, the wait for every task has resolved. Once the buffer is gone,
/// no poll hands out an output again, and once the wait has resolved it is
/// never polled again.
pub proof fn lemma_poll_ends_only_after_release<T>(
    s: BufferState,
    buffer: Poll<Option<Result<Option<T>, TaskError>>>,
    wait: Poll<()>,
    other_wait: Poll<()>,
)
    ensures
        poll_outcome(s, buffer, wait).1.is_terminal() ==> released(poll_outcome(s, buffer, wait).0),
        poll_outcome(s, buffer, wait).1.is_terminal() && s.awaiting_completion ==> poll_outcome(s, buffer, wait).0.wait_done,
        poll_outcome(s, buffer, wait).0.wait_done ==> (s.wait_done || wait is Ready),
        !s.buffer_open ==> !poll_outcome(s, buffer, wait).1.yields_item(),
        !s.buffer_open ==> !poll_outcome(s, buffer, wait).0.buffer_open,
        s.wait_done ==> poll_outcome(s, buffer, wait) == poll_outcome(s, buffer, other_wait),
{
}

/// The poll in which a task's failure reaches the buffer, once the tasks are
/// done (or not awaited), resumes the task's panic, or ends the stream for an
/// aborted task; every later poll reports end-of-stream.
pub proof fn lemma_poll_resumes_panic_then_ends<T>(
    s: BufferState,
    err: TaskError,
    later: Poll<Option<Result<Option<T>, TaskError>>>,
    later_wait: Poll<()>,
)
    requires
        s.buffer_open,
        consistent(s),
    ensures
        ({
            let (after, step) = poll_outcome::<T>(s, Poll::Ready(Some(Err(err))), Poll::Ready(()));
            &&& step == (if err.panicked() { Step::ResumePanic(err.error()) } else { Step::<T>::Yield(Poll::Ready(None)) })
            &&& released(after)
            &&& poll_outcome::<T>(after, later, later_wait).1 == Step::<T>::Yield(Poll::Ready(None))
        }),
{
}

/// A buffer that ends, or a task cancelled through the token, ends the stream
/// with end-of-stream once the tasks are done (or not awaited), and every
/// later poll reports end-of-stream too.
pub proof fn lemma_poll_plain_end<T>(
    s: BufferState,
    cancelled_task: bool,
    later: Poll<Option<Result<Option<T>, TaskError>>>,
    later_wait: Poll<()>,
)
    requires
        s.buffer_open,
        consistent(s),
    ensures
        ({
            let event = if cancelled_task { Poll::Ready(Some(Ok(None))) } else { Poll::Ready(None) };
            let (after, step) = poll_outcome::<T>(s, event, Poll::Ready(()));
            &&& step == Step::<T>::Yield(Poll::Ready(None))
            &&& released(after)
            &&& poll_outcome::<T>(after, later, later_wait).1 == Step::<T>::Yield(Poll::Ready(None))
        }),
{
}

/// A poll that awaits completion stays pending, without ending the stream,
/// while the wait for the tasks is pending.
pub proof fn lemma_poll_waits_for_tasks<T>(s: BufferState, buffer: Poll<Option<Result<Option<T>, TaskError>>>)
    requires
        s.awaiting_completion,
        !s.wait_done,
        consistent(s),
    ensures
        !s.buffer_open ==> poll_outcome::<T>(s, buffer, Poll::Pending).1 == Step::<T>::Yield(Poll::Pending),
        !poll_outcome::<T>(s, buffer, Poll::Pending).1.is_terminal(),
{
}

/// A poll that hands out an output, or in which the buffer stays live, leaves
/// the tasks alone: the stream cancels its token and closes its tracker only
/// in a poll in which the buffer ends.
pub proof fn lemma_ongoing_poll_leaves_tasks_running<T>(
    s: BufferState,
    buffer: Poll<Option<Result<Option<T>, TaskError>>>,
    wait: Poll<()>,
)
    ensures
        poll_outcome(s, buffer, wait).1.yields_item() ==> poll_outcome(s, buffer, wait).0 == s,
        poll_outcome(s, buffer, wait).0.buffer_open ==> poll_outcome(s, buffer, wait).0 == s,
{
}

/// A run of polls: each poll gets the next of `answers` from the buffer (if
/// it polls the buffer) and a resolved wait (if it waits).
pub open spec fn run<T>(
    s: BufferState,
    answers: Seq<Poll<Option<Result<Option<T>, TaskError>>>>,
) -> (BufferState, Seq<Step<T>>)
    decreases answers.len(),
{
    if answers.len() == 0 {
        (s, Seq::empty())
    } else {
        let (next, step) = poll_outcome(s, answers[0], Poll::Ready(()));
        let (end, steps) = run(next, answers.drop_first());
        (end, seq![step] + steps)
    }
}

/// A buffer that yields `outputs` and then ends.
pub open spec fn outputs_then_end<T>(outputs: Seq<T>) -> Seq<Poll<Option<Result<Option<T>, TaskError>>>> {
    outputs.map_values(|v: T| Poll::Ready(Some(Ok(Some(v))))).push(Poll::Ready(None))
}

/// Over a whole run: a live stream whose buffer yields `outputs` and then
/// ends hands out exactly those outputs, in the buffer's order, and then
/// reports end-of-stream, having released its tasks.
pub proof fn lemma_run_hands_out_all_then_ends<T>(s: BufferState, outputs: Seq<T>)
    requires
        s.buffer_open,
        consistent(s),
    ensures
        run(s, outputs_then_end(outputs)).1
            == outputs.map_values(|v: T| Step::Yield(Poll::Ready(Some(v)))).push(Step::<T>::Yield(Poll::Ready(None))),
        released(run(s, outputs_then_end(outputs)).0),
        !run(s, outputs_then_end(outputs)).0.buffer_open,
    decreases outputs.len(),
{
    let answers = outputs_then_end(outputs);
    if outputs.len() == 0 {
        assert(answers =~= seq![Poll::<Option<Result<Option<T>, TaskError>>>::Ready(None)]);
        assert(answers.drop_first() =~= Seq::<Poll<Option<Result<Option<T>, TaskError>>>>::empty());
        let (next, step) = poll_outcome(s, answers[0], Poll::Ready(()));
        assert(run(next, answers.drop_first()).1 =~= Seq::<Step<T>>::empty());
        assert(outputs.map_values(|v: T| Step::Yield(Poll::Ready(Some(v)))) =~= Seq::<Step<T>>::empty());
    } else {
        let rest = outputs.drop_first();
        lemma_run_hands_out_all_then_ends::<T>(s, rest);
        assert(answers[0] == Poll::<Option<Result<Option<T>, TaskError>>>::Ready(Some(Ok(Some(outputs[0])))));
        assert(answers.drop_first() =~= outputs_then_end(rest));
        assert(outputs.map_values(|v: T| Step::Yield(Poll::Ready(Some(v)))).push(Step::<T>::Yield(Poll::Ready(None)))
            =~= seq![Step::Yield(Poll::Ready(Some(outputs[0])))]
                + rest.map_values(|v: T| Step::Yield(Poll::Ready(Some(v)))).push(Step::<T>::Yield(Poll::Ready(None))));
    }
}

/// An ended stream that holds a failure, after `n` polls in which the wait for
/// the tasks is pending.
pub open spec fn after_pending_waits<T>(s: BufferState, n: nat) -> BufferState
    decreases n,
{
    if n == 0 {
        s
    } else {
        after_pending_waits::<T>(poll_outcome::<T>(s, Poll::Pending, Poll::Pending).0, (n - 1) as nat)
    }
}

/// While the wait for the tasks is pending, a poll of an ended stream that
/// awaits completion stays pending and keeps, unreported, the failure it
/// holds (if any); nothing about it changes but that the tasks are released.
pub proof fn lemma_pending_wait_keeps_failure<T>(
    s: BufferState,
    buffer: Poll<Option<Result<Option<T>, TaskError>>>,
)
    requires
        !s.buffer_open,
        s.awaiting_completion,
        !s.wait_done,
    ensures
        poll_outcome(s, buffer, Poll::Pending).1 == Step::<T>::Yield(Poll::Pending),
        poll_outcome(s, buffer, Poll::Pending).0 == (BufferState { token_cancelled: true, tracker_closed: true, ..s }),
{
}

/// Once the wait for the tasks has resolved (or is not awaited), a poll of an
/// ended stream reports the failure it holds: the task's panic is resumed
/// with the task's own join error, an aborted task ends the stream; the
/// failure is not held any more.
pub proof fn lemma_resolved_wait_reports_failure<T>(
    s: BufferState,
    err: TaskError,
    buffer: Poll<Option<Result<Option<T>, TaskError>>>,
)
    requires
        !s.buffer_open,
        s.task_err == Some(err),
    ensures
        err.panicked() ==> poll_outcome(s, buffer, Poll::Ready(())).1 == Step::<T>::ResumePanic(err.error()),
        !err.panicked() ==> poll_outcome(s, buffer, Poll::Ready(())).1 == Step::<T>::Yield(Poll::Ready(None)),
        poll_outcome(s, buffer, Poll::Ready(())).0.task_err is None,
        released(poll_outcome(s, buffer, Poll::Ready(())).0),
{
}

proof fn lemma_pending_waits_keep_failure<T>(s: BufferState, n: nat)
    requires
        !s.buffer_open,
        s.awaiting_completion,
        !s.wait_done,
    ensures
        ({
            let h = after_pending_waits::<T>(s, n);
            &&& !h.buffer_open
            &&& h.awaiting_completion
            &&& !h.wait_done
            &&& h.task_err == s.task_err
        }),
    decreases n,
{
    if n > 0 {
        lemma_pending_wait_keeps_failure::<T>(s, Poll::Pending);
        lemma_pending_waits_keep_failure::<T>(poll_outcome::<T>(s, Poll::Pending, Poll::Pending).0, (n - 1) as nat);
    }
}

/// A task failure that reaches the buffer while the other tasks are still
/// running (the wait is pending) leaves that poll pending; the failure is
/// held through any number `n` of further polls in which the wait stays
/// pending, and is reported in the first poll whose wait resolves: a panic is
/// resumed with the task's own join error.
pub proof fn lemma_failure_reported_when_wait_resolves<T>(
    s: BufferState,
    err: TaskError,
    n: nat,
    later: Poll<Option<Result<Option<T>, TaskError>>>,
)
    requires
        s.buffer_open,
        consistent(s),
        s.awaiting_completion,
    ensures
        poll_outcome::<T>(s, Poll::Ready(Some(Err(err))), Poll::Pending).1 == Step::<T>::Yield(Poll::Pending),
        ({
            let held = after_pending_waits::<T>(poll_outcome::<T>(s, Poll::Ready(Some(Err(err))), Poll::Pending).0, n);
            &&& err.panicked() ==> poll_outcome(held, later, Poll::Ready(())).1 == Step::<T>::ResumePanic(err.error())
            &&& !err.panicked() ==> poll_outcome(held, later, Poll::Ready(())).1 == Step::<T>::Yield(Poll::Ready(None))
        }),
{
    let first = poll_outcome::<T>(s, Poll::Ready(Some(Err(err))), Poll::Pending).0;
    assert(first.task_err == Some(err));
    lemma_pending_waits_keep_failure::<T>(first, n);
    lemma_resolved_wait_reports_failure::<T>(after_pending_waits::<T>(first, n), err, later);
}

} // verus!
