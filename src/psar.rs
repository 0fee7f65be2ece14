//! The trend-reversal state machine of the Parabolic SAR.
use vstd::prelude::*;

verus! {

/// The direction a Parabolic SAR is tracking.
#[derive(Clone, Copy, Debug, PartialEq, Eq, Structural)]
pub enum PsarTrend {
    Up,
    Down,
}

impl PsarTrend {
    pub open spec fn spec_opposite(self) -> PsarTrend {
        match self {
            PsarTrend::Up => PsarTrend::Down,
            PsarTrend::Down => PsarTrend::Up,
        }
    }

    /// The trend a reversal leads to.
    pub fn opposite(self) -> (r: PsarTrend)
        ensures
            r == self.spec_opposite(),
    {
        match self {
            PsarTrend::Up => PsarTrend::Down,
            PsarTrend::Down => PsarTrend::Up,
        }
    }
}

/// The step counter after one sample: a reversal restarts it at one, a new
/// extreme in the current trend raises it by one (staying at the largest `u32`
/// once there), and otherwise it keeps its value.
pub open spec fn next_steps(steps: u32, extends: bool, reverses: bool) -> u32 {
    if reverses {
        1
    } else if extends {
        if steps < u32::MAX {
            (steps + 1) as u32
        } else {
            steps
        }
    } else {
        steps
    }
}

/// The discrete part of a Parabolic SAR's state: the trend it follows and the
/// number of steps since the last reversal, which scales its acceleration.
#[derive(Clone, Copy, Debug, PartialEq, Eq, Structural)]
pub struct PsarPhase {
    pub trend: PsarTrend,
    pub steps: u32,
}

impl PsarPhase {
    /// The phase before the first sample: a downtrend with no steps taken.
    pub fn new() -> (r: PsarPhase)
        ensures
            r.trend == PsarTrend::Down,
            r.steps == 0,
    {
        PsarPhase { trend: PsarTrend::Down, steps: 0 }
    }

    /// Moves the phase over one sample. `extends` tells whether the sample
    /// pushed the tracked extreme further in the current trend's direction (a
    /// higher high in an uptrend, a lower low in a downtrend); `reverses` tells
    /// whether it crossed the current SAR (a low below it in an uptrend, a high
    /// above it in a downtrend). A reversal flips the trend.
    pub fn advance(&mut self, extends: bool, reverses: bool)
        ensures
            final(self).trend == if reverses {
                old(self).trend.spec_opposite()
            } else {
                old(self).trend
            },
            final(self).steps == next_steps(old(self).steps, extends, reverses),
    {
        if extends && self.steps < u32::MAX {
            self.steps = self.steps + 1;
        }
        if reverses {
            self.trend = self.trend.opposite();
            self.steps = 1;
        }
    }
}

} // verus!
