# tokio-par-util

Utilities for running the futures of a stream in parallel on Tokio tasks,
while propagating panics and cancellation and never leaving a task behind.

The decisions that every poll of such a stream makes are a verified library
(`src/`, checked by Verus):

- `stream::parallel_buffer` and `try_stream::try_parallel_buffer`: the state
  machines behind `poll_next` of the buffered streams. Each poll is a chain of
  steps (poll the buffer, drop it, poll the wait for the tasks, yield, resume a
  panic); the modules state each step exactly and prove the laws of a whole
  poll: every poll answers, outputs pass through unchanged, an ended stream
  yields nothing more, the tasks are released before the end, an error or a
  panic is reported, and, when asked, awaited (the wait is never polled again
  once it resolved); while the buffer is live no poll cancels the token or
  closes the tracker; an error or panic is reported exactly once; and over a
  whole run, a buffer that yields some outputs and ends gives exactly those
  outputs, in its order, then the end. The token and the tracker can be
  cancelled and closed only through the wrappers of `CancellationToken::cancel`
  and `TaskTracker::close`, which set a record that the state's view shows.
  Whether a failed task panicked is `JoinError::is_panic`'s answer, a function
  of the join error; the library keeps it with the error and acts on it
  exactly.
- `run_until_cancelled`: the biased race between a task's future and the
  cancellation token.
- `stream::into_tasks`, `try_stream::try_into_tasks`, `*_attach_task_wiring`,
  `stream::into_try_stream`: how task outcomes and stream items are mapped.
- `foreign`: the outside types and functions, with what is assumed of each,
  and the stream's token and tracker with their records of being cancelled
  and closed.

`app/` holds the async streams themselves (pinned futures and streams, the
`StreamParExt` and `TryStreamParExt` extension traits): each poll there runs
the steps that the library decides.
