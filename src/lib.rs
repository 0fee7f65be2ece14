//! Streaming technical-analysis indicators: the verified core.
use vstd::prelude::*;

pub mod factory;
pub mod indicator;
pub mod psar;
pub mod window;

pub use factory::{AtrFactory, SmaFactory, TrFactory};
pub use indicator::{Indicator, MovingAverage, Volume};
pub use psar::{PsarPhase, PsarTrend};
pub use window::SlidingWindow;

verus! {

/// A window size that cannot hold a moving average: it must be greater than one.
#[derive(Clone, Copy, Debug, PartialEq, Eq, Structural)]
pub struct WindowSizeError {
    pub size: usize,
}

/// Checks that a moving window spans more than one sample.
pub fn check_window_size(size: usize) -> (r: Result<(), WindowSizeError>)
    ensures
        r is Ok <==> size > 1,
        r is Err ==> r->Err_0 == (WindowSizeError { size }),
{
    if size <= 1 {
        return Err(WindowSizeError { size });
    }
    Ok(())
}

} // verus!
