//! Limit-switch fault model.
//!
//! Two mutually exclusive level sensors report whether the mechanism
//! sits at its zero reference.  A reading is taken by the hardware layer and
//! handed in as two plain booleans; the classification below is pure and
//! stateless — these are level sensors, so no debouncing is involved.

use vstd::prelude::*;

use crate::error::Error;

verus! {

/// Position as the two limit sensors report it.
#[derive(Clone, Copy, Debug, PartialEq, Eq, Structural)]
pub enum State {
    /// At the zero reference.
    Zero,
    /// Away from the zero reference.
    Nonzero,
}

/// An instantaneous reading of the two limit sensors.
///
/// The sensors are wired to be mutually exclusive: exactly one of them is
/// active in any sound reading.  Any other combination implies a wiring
/// or timing fault.
#[derive(Clone, Copy, Debug, PartialEq, Eq, Structural)]
pub struct LimitReading {
    /// The zero sensor is active.
    pub zero_active: bool,
    /// The nonzero sensor is active.
    pub nonzero_active: bool,
}

impl LimitReading {
    /// Classification of this reading: `Zero` or `Nonzero` when exactly
    /// one sensor is active, `ZeroLimitFault` otherwise.
    pub open spec fn spec_state(self) -> Result<State, Error> {
        if self.zero_active && !self.nonzero_active {
            Result::Ok(State::Zero)
        } else if !self.zero_active && self.nonzero_active {
            Result::Ok(State::Nonzero)
        } else {
            Result::Err(Error::ZeroLimitFault)
        }
    }

    /// The tri-state reading: zero, nonzero, or a fault when both or
    /// neither sensor is active.
    pub fn state(&self) -> (r: Result<State, Error>)
        ensures
            r == self.spec_state(),
    {
        if self.zero_active && !self.nonzero_active {
            Ok(State::Zero)
        } else if !self.zero_active && self.nonzero_active {
            Ok(State::Nonzero)
        } else {
            Err(Error::ZeroLimitFault)
        }
    }

    /// Whether the mechanism sits at the zero reference; a fault reading is
    /// passed through unchanged.
    pub fn is_zero(&self) -> (r: Result<bool, Error>)
        ensures
            r == (match self.spec_state() {
                Result::Ok(s) => Result::<bool, Error>::Ok(s == State::Zero),
                Result::Err(e) => Result::<bool, Error>::Err(e),
            }),
    {
        match self.state() {
            Ok(s) => Ok(s == State::Zero),
            Err(e) => Err(e),
        }
    }
}

} // verus!
