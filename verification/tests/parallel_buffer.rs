use tokio::task::JoinError;
use tokio_par_util::poll::{Poll, Step};
use tokio_par_util::stream::into_tasks::TaskError;
use tokio_par_util::stream::parallel_buffer::ParallelBuffer;
use tokio_util::sync::CancellationToken;

fn join_error(panicked: bool) -> JoinError {
    let rt = tokio::runtime::Builder::new_current_thread().build().unwrap();
    rt.block_on(async move {
        if panicked {
            tokio::spawn(async { panic!("allergic to the number 2") })
                .await
                .unwrap_err()
        } else {
            let handle = tokio::spawn(std::future::pending::<()>());
            handle.abort();
            handle.await.unwrap_err()
        }
    })
}

fn is_end<T>(step: &Step<T>) -> bool {
    matches!(step, Step::Yield(Poll::Ready(None)))
}

#[test]
fn fresh_stream_polls_its_buffer() {
    let token = CancellationToken::new();
    let mut state = ParallelBuffer::new(token.clone());
    assert!(state.buffer_open());
    assert!(matches!(state.begin_poll::<u32>(), Step::PollBuffer));
    assert!(!token.is_cancelled());
    assert!(!state.task_tracker().is_closed());
}

#[test]
fn outputs_are_handed_out_in_the_order_given() {
    let mut state = ParallelBuffer::new(CancellationToken::new()).awaiting_completion(false);
    let mut out = Vec::new();
    for i in [2u32, 3, 4, 5] {
        assert!(matches!(state.begin_poll::<u32>(), Step::PollBuffer));
        match state.on_buffer_polled(Poll::Ready(Some(Ok(Some(i))))) {
            Step::Yield(Poll::Ready(Some(v))) => out.push(v),
            other => panic!("unexpected step {:?}", other),
        }
    }
    assert_eq!(out, vec![2, 3, 4, 5]);
    assert!(state.buffer_open());
    assert!(!state.cancellation_token().is_cancelled());
    assert!(!state.task_tracker().is_closed());
}

#[test]
fn pending_buffer_leaves_poll_pending() {
    let token = CancellationToken::new();
    let mut state = ParallelBuffer::new(token.clone());
    let step = state.on_buffer_polled::<u32>(Poll::Pending);
    assert!(matches!(step, Step::Yield(Poll::Pending)));
    assert!(state.buffer_open());
    assert!(!token.is_cancelled());
}

#[test]
fn end_of_buffer_waits_for_tasks_then_ends() {
    let token = CancellationToken::new();
    let mut state = ParallelBuffer::new(token.clone());
    let tracker = state.task_tracker();
    assert!(matches!(state.on_buffer_polled::<u32>(Poll::Ready(None)), Step::DropBuffer));
    assert!(!state.buffer_open());
    assert!(!token.is_cancelled());
    assert!(matches!(state.on_buffer_dropped::<u32>(), Step::PollWait));
    assert!(token.is_cancelled());
    assert!(tracker.is_closed());
    assert!(matches!(state.on_wait_polled::<u32>(Poll::Pending), Step::Yield(Poll::Pending)));
    assert!(matches!(state.begin_poll::<u32>(), Step::PollWait));
    assert!(is_end(&state.on_wait_polled::<u32>(Poll::Ready(()))));
    // The wait resolved: later polls end without polling it again.
    assert!(is_end(&state.begin_poll::<u32>()));
    assert!(is_end(&state.begin_poll::<u32>()));
}

#[test]
fn without_awaiting_completion_end_is_immediate() {
    let token = CancellationToken::new();
    let mut state = ParallelBuffer::new(token.clone()).awaiting_completion(false);
    assert!(matches!(state.on_buffer_polled::<u32>(Poll::Ready(None)), Step::DropBuffer));
    assert!(is_end(&state.on_buffer_dropped::<u32>()));
    assert!(token.is_cancelled());
    assert!(is_end(&state.begin_poll::<u32>()));
}

#[test]
fn awaiting_completion_can_be_turned_back_on() {
    let mut state = ParallelBuffer::new(CancellationToken::new())
        .awaiting_completion(false)
        .awaiting_completion(true);
    assert!(matches!(state.on_buffer_polled::<u32>(Poll::Ready(None)), Step::DropBuffer));
    assert!(matches!(state.on_buffer_dropped::<u32>(), Step::PollWait));
}

#[test]
fn task_cancelled_through_token_ends_stream_empty() {
    let token = CancellationToken::new();
    let mut state = ParallelBuffer::new(token.clone());
    token.cancel();
    assert!(matches!(state.on_buffer_polled::<u32>(Poll::Ready(Some(Ok(None)))), Step::DropBuffer));
    assert!(matches!(state.on_buffer_dropped::<u32>(), Step::PollWait));
    assert!(is_end(&state.on_wait_polled::<u32>(Poll::Ready(()))));
}

#[test]
fn task_panic_is_resumed_once() {
    let token = CancellationToken::new();
    let mut state = ParallelBuffer::new(token.clone());
    let err = TaskError::new(join_error(true));
    assert!(matches!(state.on_buffer_polled::<u32>(Poll::Ready(Some(Err(err)))), Step::DropBuffer));
    assert!(matches!(state.on_buffer_dropped::<u32>(), Step::PollWait));
    assert!(token.is_cancelled());
    match state.on_wait_polled::<u32>(Poll::Ready(())) {
        Step::ResumePanic(j) => {
            let payload = j.try_into_panic().ok().unwrap();
            assert_eq!(*payload.downcast_ref::<&'static str>().unwrap(), "allergic to the number 2");
        }
        other => panic!("unexpected step {:?}", other),
    }
    assert!(is_end(&state.begin_poll::<u32>()));
}

#[test]
fn panic_is_resumed_only_after_wait() {
    let mut state = ParallelBuffer::new(CancellationToken::new());
    let err = TaskError::new(join_error(true));
    state.on_buffer_polled::<u32>(Poll::Ready(Some(Err(err))));
    state.on_buffer_dropped::<u32>();
    assert!(matches!(state.on_wait_polled::<u32>(Poll::Pending), Step::Yield(Poll::Pending)));
    assert!(matches!(state.begin_poll::<u32>(), Step::PollWait));
    assert!(matches!(state.on_wait_polled::<u32>(Poll::Ready(())), Step::ResumePanic(_)));
}

#[test]
fn aborted_task_ends_stream_without_panic() {
    let mut state = ParallelBuffer::new(CancellationToken::new()).awaiting_completion(false);
    let err = TaskError::new(join_error(false));
    assert!(matches!(state.on_buffer_polled::<u32>(Poll::Ready(Some(Err(err)))), Step::DropBuffer));
    assert!(is_end(&state.on_buffer_dropped::<u32>()));
}

#[test]
fn size_hint_is_inner_hint_or_default() {
    let mut state = ParallelBuffer::new(CancellationToken::new());
    assert_eq!(state.size_hint(Some((1, Some(3)))), (1, Some(3)));
    state.on_buffer_polled::<u32>(Poll::Ready(None));
    assert_eq!(state.size_hint(None), (0, None));
    assert_eq!(state.size_hint(Some((1, Some(3)))), (0, None));
}

#[test]
fn drop_releases_tasks() {
    let token = CancellationToken::new();
    let mut state = ParallelBuffer::new(token.clone());
    let tracker = state.task_tracker();
    state.release_on_drop();
    assert!(token.is_cancelled());
    assert!(tracker.is_closed());
}

#[test]
fn tracker_handles_share_one_tracker() {
    let state = ParallelBuffer::new(CancellationToken::new());
    let a = state.task_tracker();
    let b = state.task_tracker();
    assert!(std::sync::Arc::ptr_eq(&a, &b));
    let token = CancellationToken::new();
    let state = ParallelBuffer::new(token.clone());
    assert!(*state.cancellation_token() == token);
}

#[test]
fn awaiting_completion_can_be_set_in_place() {
    let token = CancellationToken::new();
    let mut state = ParallelBuffer::new(token.clone());
    state.set_awaiting_completion(false);
    state.on_buffer_polled::<u32>(Poll::Ready(None));
    assert!(is_end(&state.on_buffer_dropped::<u32>()));
    assert!(token.is_cancelled());
}
