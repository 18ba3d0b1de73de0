//! Choosing how the outputs of the spawned tasks are buffered.
use vstd::prelude::*;

verus! {

/// A buffer that runs up to a given number of the futures of a stream at a
/// time and yields their outputs: in input order, or in completion order.
///
/// The buffers themselves are streams of `futures_util`, which the verifier
/// cannot see; they implement this trait where they are driven.
pub trait FutureBuffer<St>: Sized {
    /// Buffers up to `limit` futures of `stream` at a time.
    fn buffer(stream: St, limit: usize) -> Self;
}

} // verus!
