//! Choosing how the results of the spawned tasks are buffered.
use vstd::prelude::*;

verus! {

/// A buffer that runs up to a given number of the fallible futures of a
/// fallible stream at a time and yields their results: in input order, or in
/// completion order, stopping at the first error.
///
/// The buffers themselves are streams of `futures_util`, which the verifier
/// cannot see; they implement this trait where they are driven.
pub trait TryFutureBuffer<St>: Sized {
    /// Buffers up to `limit` futures of `stream` at a time.
    fn try_buffer(stream: St, limit: usize) -> Self;
}

} // verus!
