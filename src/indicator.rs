//! The interfaces shared by every streaming indicator and by the samples it reads.
use vstd::prelude::*;

verus! {

/// A streaming indicator: each call consumes one input and returns the
/// indicator's value as of that input.
pub trait Indicator<T> {
    type Output;

    /// Advances the indicator by one input.
    fn next(&mut self, next: T) -> Self::Output;
}

/// A moving-average engine: an indicator over a window of fixed size.
pub trait MovingAverage<T>: Indicator<T> {
    /// The number of inputs the average spans, fixed when it was built.
    fn window_size(&self) -> usize;
}

/// A sample that carries a traded volume.
pub trait Volume {
    fn volume(&self) -> u64;
}

} // verus!
