//! Limit switches.
use vstd::prelude::*;
use std::convert::Infallible;

verus! {

/// A board resource that reads a digital input, such as a limit switch.
pub trait SwitchResource {
    fn is_low(&mut self) -> Result<bool, Infallible>;

    fn is_high(&mut self) -> Result<bool, Infallible>;
}

} // verus!
