//! Turns a stream into a fallible stream whose every item succeeds.
use crate::poll::Poll;
use std::marker::PhantomData;
use vstd::prelude::*;

verus! {

/// A stream whose every item is wrapped in `Ok(..)`; `E` is the error type
/// of the resulting fallible stream, which never occurs.
pub struct IntoTryStream<St, E> {
    stream: St,
    phantom: PhantomData<E>,
}

impl<St, E> IntoTryStream<St, E> {
    /// The wrapped stream.
    pub closed spec fn inner(&self) -> St {
        self.stream
    }

    /// Wraps `stream`.
    pub fn new(stream: St) -> (r: Self)
        ensures
            r.inner() == stream,
    {
        let phantom = PhantomData;
        IntoTryStream { stream, phantom }
    }

    /// The wrapped stream, given back.
    pub fn into_inner(self) -> (r: St)
        ensures
            r == self.inner(),
    {
        self.stream
    }

    /// Maps a poll of the wrapped stream: an item comes out as `Ok(item)`; the
    /// end of the stream and a pending poll come out as they are.
    pub fn map_polled<T>(polled: Poll<Option<T>>) -> (out: Poll<Option<Result<T, E>>>)
        ensures
            out == (match polled {
                Poll::Pending => Poll::<Option<Result<T, E>>>::Pending,
                Poll::Ready(None) => Poll::Ready(None),
                Poll::Ready(Some(item)) => Poll::Ready(Some(Ok(item))),
            }),
    {
        match polled {
            Poll::Pending => Poll::Pending,
            Poll::Ready(None) => Poll::Ready(None),
            Poll::Ready(Some(item)) => Poll::Ready(Some(Ok(item))),
        }
    }
}

} // verus!
