//! The first prototype's axis homing, as a step machine.
//!
//! The prototype homes an axis in one go: it sends the stepper the full
//! range towards the switch, polls the stepper and, while it moves, the
//! switch (low = home reached); at home it declares the position to be
//! `-home_step` and travels back to step 0. Each poll either asks to be
//! polled again (`Pending`) or ends (`Ready`). Here every hardware access
//! is an action the caller performs, and its outcome the next event.
use vstd::prelude::*;
use std::convert::Infallible;
use crate::axis::StepperCommand;
use crate::bal::stepper::MotionError;
use crate::fixed_point::MCDelay;

verus! {

/// Why the prototype's homing failed.
#[derive(Clone, Copy, Debug, PartialEq, Eq, Structural)]
pub enum Error {
    HomeLimitReached,
    Driver,
    MotionControl,
    Infallible,
}

/// The message of each error.
pub open spec fn spec_prototype_message(e: Error) -> Seq<char> {
    match e {
        Error::HomeLimitReached => "Couldn't find home before reaching the limit"@,
        Error::Driver => "Stepper driver encountered an error"@,
        Error::MotionControl => "Motion controller calculation error"@,
        Error::Infallible => "Something that's not supposed to fail failed"@,
    }
}

impl Error {
    /// The error's message.
    pub fn message(&self) -> (r: String)
        ensures
            r@ == spec_prototype_message(*self),
    {
        match self {
            Error::HomeLimitReached => String::from_str("Couldn't find home before reaching the limit"),
            Error::Driver => String::from_str("Stepper driver encountered an error"),
            Error::MotionControl => String::from_str("Motion controller calculation error"),
            Error::Infallible => String::from_str("Something that's not supposed to fail failed"),
        }
    }
}

/// Where a homing stands.
#[derive(Clone, Copy, Debug, PartialEq, Eq, Structural)]
pub enum HomingState {
    /// Not started: the next poll starts the search.
    Start,
    /// The search's move was sent; waiting for its result.
    StartingSearch,
    /// Searching, between polls.
    Homing,
    /// In a search poll, waiting for the stepper's update.
    SearchUpdate,
    /// In a search poll, waiting for the switch's low reading.
    SearchSwitch,
    /// Home found, the position reset was sent; waiting for its result.
    Resetting,
    /// The move back to step 0 was sent; waiting for its result.
    StartingReturn,
    /// Returning, between polls.
    Returning,
    /// In a return poll, waiting for the stepper's update.
    ReturnUpdate,
    /// The homing has ended.
    Done,
}

/// What the caller reports.
#[derive(Clone, Copy, Debug)]
pub enum HomingEvent {
    /// The homing is polled.
    Poll,
    /// The outcome of the command sent to the stepper.
    Sent(Result<(), MotionError>),
    /// The stepper's update (`true` while it is still moving).
    Update(Result<bool, MotionError>),
    /// Whether the limit switch reads low.
    SwitchLow(Result<bool, Infallible>),
}

/// What the homing asks of the caller next.
#[derive(Clone, Copy, Debug)]
pub enum HomingAction {
    /// Send this command to the stepper and report its outcome (`Sent`).
    Send(StepperCommand),
    /// Update the stepper and report it (`Update`).
    PollStepper,
    /// Read whether the switch is low and report it (`SwitchLow`).
    ReadSwitchLow,
    /// Not done yet: poll again.
    Pending,
    /// The homing is over, with this outcome.
    Ready(Result<(), Error>),
}

/// Whether the event is the one the state waits for.
pub open spec fn spec_homing_expects(state: HomingState, event: HomingEvent) -> bool {
    match state {
        HomingState::Start | HomingState::Homing | HomingState::Returning => event is Poll,
        HomingState::StartingSearch | HomingState::Resetting | HomingState::StartingReturn => event is Sent,
        HomingState::SearchUpdate | HomingState::ReturnUpdate => event is Update,
        HomingState::SearchSwitch => event is SwitchLow,
        HomingState::Done => false,
    }
}

/// One step of the homing, with the axis's range, its home step and the
/// homing speed.
///
/// - The first poll sends the stepper to `-range`; a failed command ends
///   with `MotionControl`, else the poll is pending.
/// - A search poll updates the stepper: a failed update ends with `Driver`,
///   a stopped stepper with `HomeLimitReached`; a moving one calls for the
///   switch. A failed reading ends with `Infallible`; a high switch leaves
///   the poll pending; a low one resets the position to `-home_step`, then
///   sends the stepper to step 0 (a failed command ends with
///   `MotionControl`) and the poll is pending.
/// - A return poll updates the stepper: a failed update ends with
///   `Driver`, a moving stepper leaves the poll pending, and a stopped one
///   ends the homing successfully.
pub open spec fn spec_homing_step(
    state: HomingState,
    range: i32,
    home_step: i32,
    speed: MCDelay,
    event: HomingEvent,
) -> (HomingState, HomingAction) {
    let done_err = |e: Error| (HomingState::Done, HomingAction::Ready(Err(e)));
    match (state, event) {
        (HomingState::Start, _) => (
            HomingState::StartingSearch,
            HomingAction::Send(StepperCommand::MoveTo { velocity: speed, target: -range as i32 }),
        ),
        (HomingState::StartingSearch, HomingEvent::Sent(Ok(()))) => (HomingState::Homing, HomingAction::Pending),
        (HomingState::Homing, _) => (HomingState::SearchUpdate, HomingAction::PollStepper),
        (HomingState::SearchUpdate, HomingEvent::Update(Ok(true))) => (HomingState::SearchSwitch, HomingAction::ReadSwitchLow),
        (HomingState::SearchUpdate, HomingEvent::Update(Ok(false))) => done_err(Error::HomeLimitReached),
        (HomingState::SearchSwitch, HomingEvent::SwitchLow(Ok(true))) => (
            HomingState::Resetting,
            HomingAction::Send(StepperCommand::ResetPosition { step: -home_step as i32 }),
        ),
        (HomingState::SearchSwitch, HomingEvent::SwitchLow(Ok(false))) => (HomingState::Homing, HomingAction::Pending),
        (HomingState::SearchSwitch, _) => done_err(Error::Infallible),
        (HomingState::Resetting, HomingEvent::Sent(Ok(()))) => (
            HomingState::StartingReturn,
            HomingAction::Send(StepperCommand::MoveTo { velocity: speed, target: 0 }),
        ),
        (HomingState::StartingReturn, HomingEvent::Sent(Ok(()))) => (HomingState::Returning, HomingAction::Pending),
        (HomingState::Returning, _) => (HomingState::ReturnUpdate, HomingAction::PollStepper),
        (HomingState::ReturnUpdate, HomingEvent::Update(Ok(true))) => (HomingState::Returning, HomingAction::Pending),
        (HomingState::ReturnUpdate, HomingEvent::Update(Ok(false))) => (HomingState::Done, HomingAction::Ready(Ok(()))),
        (HomingState::SearchUpdate, _) | (HomingState::ReturnUpdate, _) => done_err(Error::Driver),
        _ => done_err(Error::MotionControl),
    }
}

/// Takes one step of the homing (see `spec_homing_step`). The event must
/// be the one the state waits for; the range is negated when the search
/// starts and the home step when home is found, so neither may then be
/// `i32::MIN`.
pub fn step_homing(
    state: HomingState,
    range: i32,
    home_step: i32,
    speed: MCDelay,
    event: HomingEvent,
) -> (r: (HomingState, HomingAction))
    requires
        spec_homing_expects(state, event),
        state == HomingState::Start ==> range != i32::MIN,
        (state == HomingState::SearchSwitch && event matches HomingEvent::SwitchLow(Ok(true))) ==> home_step
            != i32::MIN,
    ensures
        r == spec_homing_step(state, range, home_step, speed, event),
{
    match state {
        HomingState::Start => (
            HomingState::StartingSearch,
            HomingAction::Send(StepperCommand::MoveTo { velocity: speed, target: -range }),
        ),
        HomingState::Homing => (HomingState::SearchUpdate, HomingAction::PollStepper),
        HomingState::Returning => (HomingState::ReturnUpdate, HomingAction::PollStepper),
        HomingState::StartingSearch | HomingState::Resetting | HomingState::StartingReturn => match event {
            HomingEvent::Sent(Ok(())) => match state {
                HomingState::StartingSearch => (HomingState::Homing, HomingAction::Pending),
                HomingState::Resetting => (
                    HomingState::StartingReturn,
                    HomingAction::Send(StepperCommand::MoveTo { velocity: speed, target: 0 }),
                ),
                _ => (HomingState::Returning, HomingAction::Pending),
            },
            _ => (HomingState::Done, HomingAction::Ready(Err(Error::MotionControl))),
        },
        HomingState::SearchUpdate | HomingState::ReturnUpdate => match event {
            HomingEvent::Update(Ok(moving)) => {
                if state == HomingState::SearchUpdate {
                    if moving {
                        (HomingState::SearchSwitch, HomingAction::ReadSwitchLow)
                    } else {
                        (HomingState::Done, HomingAction::Ready(Err(Error::HomeLimitReached)))
                    }
                } else if moving {
                    (HomingState::Returning, HomingAction::Pending)
                } else {
                    (HomingState::Done, HomingAction::Ready(Ok(())))
                }
            },
            _ => (HomingState::Done, HomingAction::Ready(Err(Error::Driver))),
        },
        HomingState::SearchSwitch => match event {
            HomingEvent::SwitchLow(Ok(true)) => (
                HomingState::Resetting,
                HomingAction::Send(StepperCommand::ResetPosition { step: -home_step }),
            ),
            HomingEvent::SwitchLow(Ok(false)) => (HomingState::Homing, HomingAction::Pending),
            _ => (HomingState::Done, HomingAction::Ready(Err(Error::Infallible))),
        },
        HomingState::Done => (HomingState::Done, HomingAction::Ready(Err(Error::MotionControl))),
    }
}

} // verus!

verus! {

/// A homing whose switch reads low at the first look: the stepper is sent
/// to `-range`, its position is reset to `-home_step`, it is sent back to
/// step 0, and once it stops the homing ends successfully.
pub proof fn law_prototype_homing_at_switch(range: i32, home_step: i32, speed: MCDelay)
    ensures
        ({
            let (s1, a1) = spec_homing_step(HomingState::Start, range, home_step, speed, HomingEvent::Poll);
            let (s2, a2) = spec_homing_step(s1, range, home_step, speed, HomingEvent::Sent(Ok(())));
            let (s3, a3) = spec_homing_step(s2, range, home_step, speed, HomingEvent::Poll);
            let (s4, a4) = spec_homing_step(s3, range, home_step, speed, HomingEvent::Update(Ok(true)));
            let (s5, a5) = spec_homing_step(s4, range, home_step, speed, HomingEvent::SwitchLow(Ok(true)));
            let (s6, a6) = spec_homing_step(s5, range, home_step, speed, HomingEvent::Sent(Ok(())));
            let (s7, a7) = spec_homing_step(s6, range, home_step, speed, HomingEvent::Sent(Ok(())));
            let (s8, a8) = spec_homing_step(s7, range, home_step, speed, HomingEvent::Poll);
            let (s9, a9) = spec_homing_step(s8, range, home_step, speed, HomingEvent::Update(Ok(false)));
            &&& a1 == HomingAction::Send(StepperCommand::MoveTo { velocity: speed, target: -range as i32 })
            &&& a2 is Pending
            &&& a5 == HomingAction::Send(StepperCommand::ResetPosition { step: -home_step as i32 })
            &&& a6 == HomingAction::Send(StepperCommand::MoveTo { velocity: speed, target: 0 })
            &&& a7 is Pending
            &&& a9 == HomingAction::Ready(Ok(()))
            &&& s9 == HomingState::Done
        }),
{
}

/// A search whose stepper stops before the switch reads low ends with
/// `HomeLimitReached`, having sent nothing but the search's move.
pub proof fn law_prototype_homing_without_switch(range: i32, home_step: i32, speed: MCDelay)
    ensures
        ({
            let (s1, a1) = spec_homing_step(HomingState::Homing, range, home_step, speed, HomingEvent::Poll);
            let (s2, a2) = spec_homing_step(s1, range, home_step, speed, HomingEvent::Update(Ok(false)));
            &&& a1 is PollStepper
            &&& a2 == HomingAction::Ready(Err(Error::HomeLimitReached))
            &&& s2 == HomingState::Done
        }),
{
}

} // verus!
