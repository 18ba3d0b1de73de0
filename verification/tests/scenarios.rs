//! The scenarios of the stream adaptors, played through the state machine
//! that decides each of their polls: the buffer's answers stand for what the
//! spawned tasks produce.
use std::collections::HashSet;
use std::sync::{Arc, Mutex};

use tokio::task::JoinError;
use tokio_par_util::poll::{Poll, Step};
use tokio_par_util::stream::into_tasks::TaskError;
use tokio_par_util::stream::parallel_buffer::ParallelBuffer;
use tokio_util::sync::CancellationToken;

type Event = Poll<Option<Result<Option<u32>, TaskError>>>;

fn panicked_task(message: &'static str) -> JoinError {
    let rt = tokio::runtime::Builder::new_current_thread().build().unwrap();
    rt.block_on(async move { tokio::spawn(async move { panic!("{}", message) }).await.unwrap_err() })
}

/// One call of `poll_next`, the buffer answering `event` when polled and the
/// wait for the tasks answering ready.
fn poll_once(state: &mut ParallelBuffer, event: Event) -> Step<u32> {
    let mut event = Some(event);
    let mut step = state.begin_poll::<u32>();
    loop {
        step = match step {
            Step::PollBuffer => state.on_buffer_polled(event.take().unwrap_or(Poll::Ready(None))),
            Step::DropBuffer => state.on_buffer_dropped(),
            Step::PollWait => state.on_wait_polled(Poll::Ready(())),
            other => return other,
        }
    }
}

/// Collects the stream until it ends; a resumed panic comes back as its
/// message.
fn collect(state: &mut ParallelBuffer, events: Vec<Event>) -> Result<Vec<u32>, String> {
    let mut out = Vec::new();
    let mut events = events.into_iter();
    loop {
        match poll_once(state, events.next().unwrap_or(Poll::Ready(None))) {
            Step::Yield(Poll::Ready(Some(v))) => out.push(v),
            Step::Yield(Poll::Ready(None)) => return Ok(out),
            Step::ResumePanic(j) => {
                let payload = j.try_into_panic().ok().unwrap();
                let message = payload
                    .downcast_ref::<String>()
                    .cloned()
                    .or_else(|| payload.downcast_ref::<&'static str>().map(|s| s.to_string()))
                    .unwrap();
                return Err(message);
            }
            other => panic!("unexpected step {:?}", other),
        }
    }
}

fn outputs(values: &[u32]) -> Vec<Event> {
    values.iter().map(|v| Poll::Ready(Some(Ok(Some(*v))))).collect()
}

#[test]
fn scenario_outputs_in_input_order() {
    let mut state = ParallelBuffer::new(CancellationToken::new());
    let result_vec = collect(&mut state, outputs(&[2, 3, 4, 5])).unwrap();
    assert_eq!(result_vec, &[2, 3, 4, 5]);
}

#[test]
fn scenario_outputs_in_completion_order() {
    let mut state = ParallelBuffer::new(CancellationToken::new());
    let result_set: HashSet<u32> = collect(&mut state, outputs(&[3, 2, 5, 4]))
        .unwrap()
        .into_iter()
        .collect();
    assert!(result_set.contains(&2));
    assert!(result_set.contains(&3));
    assert!(result_set.contains(&4));
    assert!(result_set.contains(&5));
}

/// Tasks spawned through the stream's tracker that watch its token, each
/// blocking until cancelled and recording that it exited; dropping the
/// stream makes all of them exit, and the tracker's wait then resolves.
#[test]
fn scenario_dropped_stream_stops_its_tasks() {
    let rt = tokio::runtime::Builder::new_current_thread().build().unwrap();
    let token = CancellationToken::new();
    let mut state = ParallelBuffer::new(token.clone());
    let tracker = state.task_tracker();
    let exited = Arc::new(Mutex::new(HashSet::new()));
    rt.block_on(async {
        for elem in [1u32, 2, 3, 4] {
            let token = state.cancellation_token().clone();
            let exited = Arc::clone(&exited);
            tracker.spawn(async move {
                token.cancelled().await;
                exited.lock().unwrap().insert(elem);
            });
        }
        tokio::task::yield_now().await;
        assert!(matches!(poll_once(&mut state, Poll::Pending), Step::Yield(Poll::Pending)));
        // The consuming task is aborted, which drops the stream.
        state.release_on_drop();
        assert!(token.is_cancelled());
        assert!(tracker.is_closed());
        tracker.wait().await;
    });
    let exited = exited.lock().unwrap();
    assert!(exited.contains(&1));
    assert!(exited.contains(&2));
    assert!(exited.contains(&3));
    assert!(exited.contains(&4));
}


#[test]
fn scenario_cancelled_token_ends_stream_empty() {
    let token = CancellationToken::new();
    let mut state = ParallelBuffer::new(token.clone());
    let tracker = state.task_tracker();
    assert!(matches!(poll_once(&mut state, Poll::Pending), Step::Yield(Poll::Pending)));
    token.cancel();
    // Every task now ends with `None`.
    let returned = collect(&mut state, vec![Poll::Ready(Some(Ok(None)))]).unwrap();
    assert!(returned.is_empty());
    assert!(tracker.is_closed());
}


#[test]
fn scenario_ordered_panic() {
    let token = CancellationToken::new();
    let mut state = ParallelBuffer::new(token.clone());
    let events = vec![
        Poll::Ready(Some(Ok(Some(2)))),
        Poll::Ready(Some(Err(TaskError::new(panicked_task("allergic to the number 2"))))),
    ];
    let res = collect(&mut state, events);
    assert!(token.is_cancelled());
    assert_eq!(res, Err("allergic to the number 2".to_owned()));
}

#[test]
fn scenario_unordered_panic() {
    let token = CancellationToken::new();
    let mut state = ParallelBuffer::new(token.clone());
    let events = vec![Poll::Ready(Some(Err(TaskError::new(panicked_task("allergic to the number 2")))))];
    let res = collect(&mut state, events);
    assert!(token.is_cancelled());
    assert_eq!(res, Err("allergic to the number 2".to_owned()));
}
