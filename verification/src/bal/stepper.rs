//! Stepper motors under motion control.
use vstd::prelude::*;

pub use crate::fixed_point::MCDelay;

verus! {

/// A motion controller reported a failure (driver, timer or step error).
#[derive(Clone, Copy, Debug, PartialEq, Eq, Structural)]
pub struct MotionError;

/// A board that hands out its steppers by index.
pub trait HasStepper {
    type Resource;

    fn take_stepper(&mut self, id: usize) -> Option<Self::Resource>;
}

} // verus!
