use tokio::task::JoinError;
use tokio_par_util::poll::{Poll, Step};
use tokio_par_util::stream::into_tasks::TaskError;
use tokio_par_util::try_stream::try_into_tasks::TryTaskError;
use tokio_par_util::try_stream::try_parallel_buffer::TryParallelBuffer;
use tokio_util::sync::CancellationToken;

fn join_error(panicked: bool) -> JoinError {
    let rt = tokio::runtime::Builder::new_current_thread().build().unwrap();
    rt.block_on(async move {
        if panicked {
            tokio::spawn(async { panic!("allergic to the number 2") })
                .await
                .unwrap_err()
        } else {
            let handle = tokio::spawn(std::future::pending::<()>());
            handle.abort();
            handle.await.unwrap_err()
        }
    })
}

type State = TryParallelBuffer<String>;
type Event = Poll<Option<Result<u32, TryTaskError<String, String>>>>;

/// Drives one poll with the buffer answering `event` (when asked) and the
/// wait for the tasks answering ready.
fn drive(state: &mut State, event: Event) -> Step<Result<u32, String>> {
    let mut event = Some(event);
    let mut step = state.begin_poll::<u32>();
    loop {
        step = match step {
            Step::PollBuffer => state.on_buffer_polled(event.take().unwrap()),
            Step::DropBuffer => state.on_buffer_dropped(),
            Step::PollWait => state.on_wait_polled(Poll::Ready(())),
            other => return other,
        }
    }
}

/// Collects the results of a stream whose buffer yields `events` in turn,
/// as `try_collect` would: the successes, or the first error.
fn try_collect(state: &mut State, events: Vec<Event>) -> Result<Vec<u32>, String> {
    let mut out = Vec::new();
    let mut events = events.into_iter();
    loop {
        let event = events.next().unwrap_or(Poll::Ready(None));
        match drive(state, event) {
            Step::Yield(Poll::Ready(Some(Ok(v)))) => out.push(v),
            Step::Yield(Poll::Ready(Some(Err(e)))) => return Err(e),
            Step::Yield(Poll::Ready(None)) => return Ok(out),
            other => panic!("unexpected step {:?}", other),
        }
    }
}

#[test]
fn successful_stream_collects_all_results() {
    let mut state = State::new(CancellationToken::new());
    let events = vec![
        Poll::Ready(Some(Ok(2))),
        Poll::Ready(Some(Ok(4))),
        Poll::Ready(Some(Ok(6))),
        Poll::Ready(Some(Ok(8))),
    ];
    assert_eq!(try_collect(&mut state, events), Ok(vec![2, 4, 6, 8]));
}

#[test]
fn input_stream_error_short_circuits() {
    let mut state = State::new(CancellationToken::new());
    let events = vec![
        Poll::Ready(Some(Ok(2))),
        Poll::Ready(Some(Ok(4))),
        Poll::Ready(Some(Err(TryTaskError::Stream("failed".to_owned())))),
        Poll::Ready(Some(Ok(8))),
    ];
    assert_eq!(try_collect(&mut state, events), Err("failed".to_owned()));
}

#[test]
fn future_error_short_circuits() {
    let mut state = State::new(CancellationToken::new());
    let events = vec![
        Poll::Ready(Some(Ok(2))),
        Poll::Ready(Some(Err(TryTaskError::Future("failed".to_owned())))),
    ];
    assert_eq!(try_collect(&mut state, events), Err("failed".to_owned()));
}

#[test]
fn error_is_reported_once_then_end() {
    let token = CancellationToken::new();
    let mut state = State::new(token.clone());
    let tracker = state.task_tracker();
    let step = drive(&mut state, Poll::Ready(Some(Err(TryTaskError::Stream("failed".to_owned())))));
    assert!(matches!(step, Step::Yield(Poll::Ready(Some(Err(ref e)))) if e == "failed"));
    assert!(token.is_cancelled());
    assert!(tracker.is_closed());
    assert!(!state.buffer_open());
    let step = drive(&mut state, Poll::Pending);
    assert!(matches!(step, Step::Yield(Poll::Ready(None))));
}

#[test]
fn error_waits_for_tasks_before_report() {
    let mut state = State::new(CancellationToken::new());
    let step = state.on_buffer_polled::<u32>(Poll::Ready(Some(Err(TryTaskError::Future("late".to_owned())))));
    assert!(matches!(step, Step::DropBuffer));
    assert!(matches!(state.on_buffer_dropped::<u32>(), Step::PollWait));
    assert!(matches!(state.on_wait_polled::<u32>(Poll::Pending), Step::Yield(Poll::Pending)));
    assert!(matches!(state.begin_poll::<u32>(), Step::PollWait));
    let step = state.on_wait_polled::<u32>(Poll::Ready(()));
    assert!(matches!(step, Step::Yield(Poll::Ready(Some(Err(ref e)))) if e == "late"));
    // The wait resolved: the next poll ends without polling it again.
    assert!(matches!(state.begin_poll::<u32>(), Step::Yield(Poll::Ready(None))));
}

#[test]
fn error_without_awaiting_is_reported_right_away() {
    let mut state = State::new(CancellationToken::new()).awaiting_completion(false);
    state.on_buffer_polled::<u32>(Poll::Ready(Some(Err(TryTaskError::Stream("now".to_owned())))));
    let step = state.on_buffer_dropped::<u32>();
    assert!(matches!(step, Step::Yield(Poll::Ready(Some(Err(ref e)))) if e == "now"));
    assert!(matches!(state.begin_poll::<u32>(), Step::Yield(Poll::Ready(None))));
}

#[test]
fn cancelled_task_ends_stream_quietly() {
    let mut state = State::new(CancellationToken::new());
    let events = vec![Poll::Ready(Some(Ok(1))), Poll::Ready(Some(Err(TryTaskError::Cancelled)))];
    assert_eq!(try_collect(&mut state, events), Ok(vec![1]));
}

#[test]
fn panicked_task_is_resumed() {
    let mut state = State::new(CancellationToken::new());
    let step = drive(&mut state, Poll::Ready(Some(Err(TryTaskError::Join(TaskError::new(join_error(true)))))));
    match step {
        Step::ResumePanic(j) => assert!(j.is_panic()),
        other => panic!("unexpected step {:?}", other),
    }
    assert!(matches!(drive(&mut state, Poll::Pending), Step::Yield(Poll::Ready(None))));
}

#[test]
fn aborted_task_ends_stream() {
    let mut state = State::new(CancellationToken::new());
    let step = drive(&mut state, Poll::Ready(Some(Err(TryTaskError::Join(TaskError::new(join_error(false)))))));
    assert!(matches!(step, Step::Yield(Poll::Ready(None))));
}

#[test]
fn try_pending_buffer_leaves_poll_pending() {
    let token = CancellationToken::new();
    let mut state = State::new(token.clone());
    assert!(matches!(drive(&mut state, Poll::Pending), Step::Yield(Poll::Pending)));
    assert!(state.buffer_open());
    assert!(!token.is_cancelled());
}

#[test]
fn try_size_hint_is_inner_hint_or_default() {
    let state = State::new(CancellationToken::new());
    assert_eq!(state.size_hint(Some((2, None))), (2, None));
    assert_eq!(state.size_hint(None), (0, None));
}

#[test]
fn try_drop_releases_tasks() {
    let token = CancellationToken::new();
    let mut state = State::new(token.clone());
    let tracker = state.task_tracker();
    state.release_on_drop();
    assert!(token.is_cancelled());
    assert!(tracker.is_closed());
    assert!(*state.cancellation_token() == token);
}
