//! The commands that arrive over the network.
use vstd::prelude::*;
use crate::fixed_point::MCDelay;

verus! {

/// Where an axis should go and how fast: `position` in steps, `speed` as a
/// fraction of the axis's maximum speed.
#[derive(Clone, Copy, Debug, PartialEq, Eq, Structural)]
pub struct Target {
    pub speed: MCDelay,
    pub position: i32,
}

/// Targets for both axes.
#[derive(Clone, Copy, Debug, PartialEq, Eq, Structural)]
pub struct MoveCommand {
    pub lateral: Target,
    pub angle: Target,
}

/// A command, addressed to the scheduler or to the blinds controller.
#[derive(Clone, Copy, Debug, PartialEq, Eq, Structural)]
pub enum Command {
    Scheduler(SchedulerCommand),
    Controller(ControllerCommand),
}

/// What the blinds controller can be told to do.
#[derive(Clone, Copy, Debug, PartialEq, Eq, Structural)]
pub enum ControllerCommand {
    Move(MoveCommand),
    Open,
    Close,
    Home,
}

/// What the scheduler can be told to do.
#[derive(Clone, Copy, Debug, PartialEq, Eq, Structural)]
pub enum SchedulerCommand {
    Start,
    Stop,
}

/// Why a request could not be turned into a command.
#[derive(Clone, Copy, Debug, PartialEq, Eq, Structural)]
pub enum Error {
    RequestParsing,
    Deserialize,
    Driver,
    MotionControl,
}

/// The message of each protocol error.
pub open spec fn spec_protocol_message(e: Error) -> Seq<char> {
    match e {
        Error::RequestParsing => "Couldn't parse the request"@,
        Error::Deserialize => "Couldn't Deserialize the request"@,
        Error::Driver => "Stepper driver encountered an error"@,
        Error::MotionControl => "Motion controller calculation error"@,
    }
}

impl Error {
    /// The error's message.
    pub fn message(&self) -> (r: String)
        ensures
            r@ == spec_protocol_message(*self),
    {
        match self {
            Error::RequestParsing => String::from_str("Couldn't parse the request"),
            Error::Deserialize => String::from_str("Couldn't Deserialize the request"),
            Error::Driver => String::from_str("Stepper driver encountered an error"),
            Error::MotionControl => String::from_str("Motion controller calculation error"),
        }
    }
}

} // verus!
