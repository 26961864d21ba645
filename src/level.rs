//! Digital line levels.
use vstd::prelude::*;

verus! {

/// Logic level of a digital line. Sensors are wired active-low: `Low` means
/// the sensor is closed (active), `High` that it is open (at rest).
#[derive(Clone, Copy, Debug, PartialEq, Eq, Structural)]
pub enum Level {
    Low,
    High,
}

impl Level {
    /// The other level.
    pub open spec fn flipped(self) -> Level {
        match self {
            Level::Low => Level::High,
            Level::High => Level::Low,
        }
    }

    /// The level after `n` transitions starting from `self`.
    pub open spec fn after_toggles(self, n: nat) -> Level {
        if n % 2 == 0 {
            self
        } else {
            self.flipped()
        }
    }

    pub fn toggled(self) -> (r: Level)
        ensures
            r == self.flipped(),
            r != self,
    {
        match self {
            Level::Low => Level::High,
            Level::High => Level::Low,
        }
    }

    pub fn is_high(self) -> (r: bool)
        ensures
            r == (self == Level::High),
    {
        match self {
            Level::Low => false,
            Level::High => true,
        }
    }
}

} // verus!
