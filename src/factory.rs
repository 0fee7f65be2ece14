//! Configurations of the indicators whose options are window sizes.
use vstd::prelude::*;

use crate::window::SlidingWindow;
use crate::{check_window_size, WindowSizeError};

verus! {

/// The window size a simple moving average uses unless told otherwise.
pub const DEFAULT_SMA_WINDOW: usize = 14;

/// The smoothing window an average true range uses unless told otherwise.
pub const DEFAULT_ATR_WINDOW: usize = 14;

/// Options of a simple moving average.
#[derive(Clone, Copy, Debug, PartialEq, Eq, Structural)]
pub struct SmaFactory {
    window_size: usize,
}

impl SmaFactory {
    pub closed spec fn spec_window_size(&self) -> usize {
        self.window_size
    }

    /// The default configuration.
    pub fn new() -> (r: SmaFactory)
        ensures
            r.spec_window_size() == DEFAULT_SMA_WINDOW,
    {
        SmaFactory { window_size: DEFAULT_SMA_WINDOW }
    }

    /// The same configuration with another window size.
    pub fn with_window_size(self, window_size: usize) -> (r: SmaFactory)
        ensures
            r.spec_window_size() == window_size,
    {
        SmaFactory { window_size }
    }

    /// The configured window size.
    pub fn window_size(&self) -> (r: usize)
        ensures
            r == self.spec_window_size(),
    {
        self.window_size
    }

    /// Validates the configuration and makes the empty window the average runs
    /// over: it fails exactly when the window size is not greater than one.
    pub fn build_window<T: Copy>(&self) -> (r: Result<SlidingWindow<T>, WindowSizeError>)
        ensures
            r is Ok <==> self.spec_window_size() > 1,
            r is Err ==> r->Err_0 == (WindowSizeError { size: self.spec_window_size() }),
            r is Ok ==> {
                let w = r->Ok_0;
                &&& w.wf()
                &&& w.spec_capacity() == self.spec_window_size()
                &&& w@ == Seq::<T>::empty()
                &&& w.seen() == Seq::<T>::empty()
            },
    {
        match check_window_size(self.window_size) {
            Ok(()) => Ok(SlidingWindow::new(self.window_size)),
            Err(e) => Err(e),
        }
    }
}

/// Options of an average true range.
#[derive(Clone, Copy, Debug, PartialEq, Eq, Structural)]
pub struct AtrFactory {
    window_size: usize,
}

impl AtrFactory {
    pub closed spec fn spec_window_size(&self) -> usize {
        self.window_size
    }

    /// The default configuration.
    pub fn new() -> (r: AtrFactory)
        ensures
            r.spec_window_size() == DEFAULT_ATR_WINDOW,
    {
        AtrFactory { window_size: DEFAULT_ATR_WINDOW }
    }

    /// The same configuration with another smoothing window.
    pub fn with_window_size(self, window_size: usize) -> (r: AtrFactory)
        ensures
            r.spec_window_size() == window_size,
    {
        AtrFactory { window_size }
    }

    /// The configured smoothing window.
    pub fn window_size(&self) -> (r: usize)
        ensures
            r == self.spec_window_size(),
    {
        self.window_size
    }
}

/// Options of a true range: it has none.
#[derive(Clone, Copy, Debug, PartialEq, Eq, Structural)]
pub struct TrFactory {}

impl TrFactory {
    /// The only configuration.
    pub fn new() -> (r: TrFactory)
        ensures
            r == (TrFactory {}),
    {
        TrFactory {}
    }
}

} // verus!
