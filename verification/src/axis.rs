//! One stepper-driven axis with its limit switch: homing against the
//! switch, and moves within the axis's range.
//!
//! The axis does not block on the hardware. Each operation is a sequence
//! of steps: the axis says what it needs next (`AxisStep`), the caller
//! performs that on the hardware and reports the reading back, until the
//! axis reports that the operation has finished.
use vstd::prelude::*;
use std::convert::Infallible;
use crate::bal::stepper::MotionError;
use crate::board::{StepperContainer, SwitchContainer};
use crate::fixed_point::{MCDelay, fits_i128, spec_mul_bits};
use crate::user_settings::AxisUserSettings;

verus! {

/// Why an axis operation failed.
#[derive(Clone, Copy, Debug, PartialEq, Eq, Structural)]
pub enum Error {
    HomeLimitReached,
    Driver,
    Swtich,
    MotionControl,
    LimitTrigger,
    NotHomed,
    InputError,
    OutOfRange,
    Infallible,
}

/// The message of each axis error.
pub open spec fn spec_axis_message(e: Error) -> Seq<char> {
    match e {
        Error::HomeLimitReached => "Couldn't find home before reaching the limit"@,
        Error::Driver => "Stepper driver encountered an error"@,
        Error::Swtich => "Failed to read limit switch"@,
        Error::MotionControl => "Motion controller calculation error"@,
        Error::LimitTrigger => "Stepper unexpectedly reached it's limit"@,
        Error::NotHomed => "Stepper Axis hasn't been homed before movement"@,
        Error::InputError => "Invalid input given"@,
        Error::OutOfRange => "The requested motion is outside of the axis range"@,
        Error::Infallible => "Something that's not supposed to fail failed"@,
    }
}

impl Error {
    /// The error's message.
    pub fn message(&self) -> (r: String)
        ensures
            r@ == spec_axis_message(*self),
    {
        match self {
            Error::HomeLimitReached => String::from_str("Couldn't find home before reaching the limit"),
            Error::Driver => String::from_str("Stepper driver encountered an error"),
            Error::Swtich => String::from_str("Failed to read limit switch"),
            Error::MotionControl => String::from_str("Motion controller calculation error"),
            Error::LimitTrigger => String::from_str("Stepper unexpectedly reached it's limit"),
            Error::NotHomed => String::from_str("Stepper Axis hasn't been homed before movement"),
            Error::InputError => String::from_str("Invalid input given"),
            Error::OutOfRange => String::from_str("The requested motion is outside of the axis range"),
            Error::Infallible => String::from_str("Something that's not supposed to fail failed"),
        }
    }
}

/// A command the axis gave its stepper.
#[derive(Clone, Copy, Debug, PartialEq, Eq, Structural)]
pub enum StepperCommand {
    /// Move to `target` steps at up to `velocity`.
    MoveTo { velocity: MCDelay, target: i32 },
    /// Declare the current position to be `step`.
    ResetPosition { step: i32 },
}

/// What the axis is in the middle of.
#[derive(Clone, Copy, Debug, PartialEq, Eq, Structural)]
pub enum AxisMotion {
    /// No operation under way.
    Idle,
    /// Homing: travelling towards the limit switch, waiting for the stepper.
    Seeking,
    /// Homing: the stepper is still moving, waiting for the switch (low = home reached).
    CheckingHome,
    /// Homing: home was found, travelling back to step 0, waiting for the stepper.
    Returning,
    /// Moving to a target, waiting for the stepper.
    Moving,
    /// Moving: the stepper is still moving, waiting for the switch (high = limit hit).
    CheckingLimit,
}

/// What the axis needs next.
#[derive(Clone, Copy, Debug)]
pub enum AxisStep {
    /// Update the stepper's motion and report whether it is still moving (`on_update`).
    PollStepper,
    /// Read whether the limit switch is low (`on_switch`).
    ReadSwitchLow,
    /// Read whether the limit switch is high (`on_switch`).
    ReadSwitchHigh,
    /// The operation is over, with this outcome.
    Finished(Result<(), Error>),
}

/// Whether the axis waits for a stepper update.
pub open spec fn awaits_update(motion: AxisMotion) -> bool {
    motion == AxisMotion::Seeking || motion == AxisMotion::Returning || motion == AxisMotion::Moving
}

/// Whether the axis waits for a switch reading.
pub open spec fn awaits_switch(motion: AxisMotion) -> bool {
    motion == AxisMotion::CheckingHome || motion == AxisMotion::CheckingLimit
}

/// The state of an axis that its operations read and change.
pub struct AxisView {
    pub settings: AxisUserSettings,
    pub homed: bool,
    pub motion: AxisMotion,
    /// Every command given to the stepper, oldest first.
    pub commands: Seq<StepperCommand>,
}

/// The axis after an operation step: its motion and homed flag, with the
/// commands given to the stepper appended.
pub open spec fn spec_axis_after(
    v: AxisView,
    motion: AxisMotion,
    homed: bool,
    sent: Seq<StepperCommand>,
) -> AxisView {
    AxisView { settings: v.settings, homed, motion, commands: v.commands + sent }
}

/// Homing starts by travelling the full range towards the switch (to
/// `-range`) at the homing speed.
pub open spec fn spec_home(v: AxisView) -> (AxisView, AxisStep) {
    let cmd = StepperCommand::MoveTo { velocity: v.settings.homing_speed, target: -v.settings.range as i32 };
    (spec_axis_after(v, AxisMotion::Seeking, v.homed, seq![cmd]), AxisStep::PollStepper)
}

/// What a stepper update means.
///
/// While seeking home, a failed update is a driver error, a stepper that
/// has stopped means the whole range was travelled without finding home,
/// and a stepper still moving calls for a look at the switch. While
/// returning, and while moving, a stopped stepper ends the operation
/// successfully; a moving one is polled again (returning) or calls for a
/// look at the switch (moving).
pub open spec fn spec_on_update(v: AxisView, update: Result<bool, MotionError>) -> (AxisView, AxisStep) {
    let none = Seq::<StepperCommand>::empty();
    match update {
        Err(_) => (spec_axis_after(v, AxisMotion::Idle, v.homed, none), AxisStep::Finished(Err(Error::Driver))),
        Ok(moving) => match v.motion {
            AxisMotion::Seeking => if moving {
                (spec_axis_after(v, AxisMotion::CheckingHome, v.homed, none), AxisStep::ReadSwitchLow)
            } else {
                (spec_axis_after(v, AxisMotion::Idle, v.homed, none), AxisStep::Finished(Err(Error::HomeLimitReached)))
            },
            AxisMotion::Returning => if moving {
                (spec_axis_after(v, AxisMotion::Returning, v.homed, none), AxisStep::PollStepper)
            } else {
                (spec_axis_after(v, AxisMotion::Idle, v.homed, none), AxisStep::Finished(Ok(())))
            },
            _ => if moving {
                (spec_axis_after(v, AxisMotion::CheckingLimit, v.homed, none), AxisStep::ReadSwitchHigh)
            } else {
                (spec_axis_after(v, AxisMotion::Idle, v.homed, none), AxisStep::Finished(Ok(())))
            },
        },
    }
}

/// What a switch reading means.
///
/// While homing, a switch that reads low marks home: the position is reset
/// to the home position, the axis counts as homed and travels back to step
/// 0; otherwise the search goes on. A failed reading ends homing. While
/// moving, a switch that reads high means the limit was hit unexpectedly;
/// otherwise (or when the reading failed) the move goes on.
pub open spec fn spec_on_switch(v: AxisView, reading: Result<bool, Infallible>) -> (AxisView, AxisStep) {
    let none = Seq::<StepperCommand>::empty();
    if v.motion == AxisMotion::CheckingHome {
        match reading {
            Err(_) => (spec_axis_after(v, AxisMotion::Idle, v.homed, none), AxisStep::Finished(Err(Error::Swtich))),
            Ok(true) => (
                spec_axis_after(v, AxisMotion::Returning, true, seq![
                    StepperCommand::ResetPosition { step: v.settings.home_position },
                    StepperCommand::MoveTo { velocity: v.settings.homing_speed, target: 0 },
                ]),
                AxisStep::PollStepper,
            ),
            Ok(false) => (spec_axis_after(v, AxisMotion::Seeking, v.homed, none), AxisStep::PollStepper),
        }
    } else {
        match reading {
            Ok(true) => (spec_axis_after(v, AxisMotion::Idle, v.homed, none), AxisStep::Finished(Err(Error::LimitTrigger))),
            _ => (spec_axis_after(v, AxisMotion::Moving, v.homed, none), AxisStep::PollStepper),
        }
    }
}

/// The velocity of a move at `speed` (a fraction of the maximum speed).
pub open spec fn spec_velocity(settings: AxisUserSettings, speed: MCDelay) -> MCDelay {
    MCDelay { bits: spec_mul_bits(settings.max_speed.bits, speed.bits) as i128 }
}

/// Whether the velocity of a move at `speed` fits the fixed-point type.
pub open spec fn velocity_fits(settings: AxisUserSettings, speed: MCDelay) -> bool {
    fits_i128(spec_mul_bits(settings.max_speed.bits, speed.bits))
}

/// A move to `step` at `speed`: refused with `OutOfRange` when the step is
/// outside `[0, range]`, then with `NotHomed` when the axis is not homed;
/// otherwise the stepper is sent to the step at the scaled velocity.
pub open spec fn spec_move_to(v: AxisView, step: i32, speed: MCDelay) -> (AxisView, AxisStep) {
    let none = Seq::<StepperCommand>::empty();
    if step > v.settings.range || step < 0 {
        (v, AxisStep::Finished(Err(Error::OutOfRange)))
    } else if !v.homed {
        (v, AxisStep::Finished(Err(Error::NotHomed)))
    } else {
        let cmd = StepperCommand::MoveTo { velocity: spec_velocity(v.settings, speed), target: step };
        (spec_axis_after(v, AxisMotion::Moving, v.homed, seq![cmd]), AxisStep::PollStepper)
    }
}

/// A stepper-driven axis with a limit switch at its home end.
pub struct Axis {
    stepper: StepperContainer,
    limit_switch: SwitchContainer,
    settings: AxisUserSettings,
    homed: bool,
    motion: AxisMotion,
    commands: Ghost<Seq<StepperCommand>>,
}

impl View for Axis {
    type V = AxisView;

    closed spec fn view(&self) -> AxisView {
        AxisView {
            settings: self.settings,
            homed: self.homed,
            motion: self.motion,
            commands: self.commands@,
        }
    }
}

impl Axis {
    /// The axis's stepper.
    pub closed spec fn spec_stepper(&self) -> StepperContainer {
        self.stepper
    }

    /// The axis's limit switch.
    pub closed spec fn spec_limit_switch(&self) -> SwitchContainer {
        self.limit_switch
    }

    /// An axis from its stepper, its limit switch and its settings. It is
    /// not homed yet (a move before a successful homing is refused with
    /// `NotHomed`), and nothing is under way.
    pub fn new(stepper: StepperContainer, switch: SwitchContainer, settings: AxisUserSettings) -> (r: Axis)
        ensures
            r@.settings == settings,
            !r@.homed,
            r@.motion == AxisMotion::Idle,
            r@.commands == Seq::<StepperCommand>::empty(),
            r.spec_stepper() == stepper,
            r.spec_limit_switch() == switch,
    {
        Axis {
            stepper,
            limit_switch: switch,
            settings,
            homed: false,
            motion: AxisMotion::Idle,
            commands: Ghost(Seq::empty()),
        }
    }

    /// The axis's stepper.
    pub fn stepper(&self) -> (r: &StepperContainer)
        ensures
            *r == self.spec_stepper(),
    {
        &self.stepper
    }

    /// The axis's limit switch.
    pub fn limit_switch(&self) -> (r: &SwitchContainer)
        ensures
            *r == self.spec_limit_switch(),
    {
        &self.limit_switch
    }

    /// The axis's settings.
    pub fn settings(&self) -> (r: AxisUserSettings)
        ensures
            r == self@.settings,
    {
        self.settings
    }

    /// Whether the axis has been homed.
    pub fn is_homed(&self) -> (r: bool)
        ensures
            r == self@.homed,
    {
        self.homed
    }

    /// What the axis is in the middle of.
    pub fn motion(&self) -> (r: AxisMotion)
        ensures
            r == self@.motion,
    {
        self.motion
    }

    fn finish(&mut self, outcome: Result<(), Error>) -> (r: AxisStep)
        ensures
            final(self)@ == spec_axis_after(old(self)@, AxisMotion::Idle, old(self)@.homed, Seq::empty()),
            final(self).spec_stepper() == old(self).spec_stepper(),
            final(self).spec_limit_switch() == old(self).spec_limit_switch(),
            r == AxisStep::Finished(outcome),
    {
        self.motion = AxisMotion::Idle;
        proof {
            assert(self.commands@ == self.commands@ + Seq::<StepperCommand>::empty());
        }
        AxisStep::Finished(outcome)
    }

    fn command_move(&mut self, velocity: MCDelay, target: i32) -> (r: Result<(), MotionError>)
        ensures
            final(self).commands@ == old(self).commands@.push(StepperCommand::MoveTo { velocity, target }),
            final(self).settings == old(self).settings,
            final(self).homed == old(self).homed,
            final(self).motion == old(self).motion,
            final(self).spec_stepper().spec_name() == old(self).spec_stepper().spec_name(),
            final(self).spec_limit_switch() == old(self).spec_limit_switch(),
            r is Ok,
    {
        let r = self.stepper.move_to_position(velocity, target);
        proof {
            self.commands@ = self.commands@.push(StepperCommand::MoveTo { velocity, target });
        }
        r
    }

    fn command_reset(&mut self, step: i32) -> (r: Result<(), MotionError>)
        ensures
            final(self).commands@ == old(self).commands@.push(StepperCommand::ResetPosition { step }),
            final(self).settings == old(self).settings,
            final(self).homed == old(self).homed,
            final(self).motion == old(self).motion,
            final(self).spec_stepper().spec_name() == old(self).spec_stepper().spec_name(),
            final(self).spec_limit_switch() == old(self).spec_limit_switch(),
            r is Ok,
    {
        let r = self.stepper.reset_position(step);
        proof {
            self.commands@ = self.commands@.push(StepperCommand::ResetPosition { step });
        }
        r
    }
    /// Starts homing: the stepper is sent the full range towards the
    /// switch at the homing speed, and the axis then needs stepper updates.
    pub fn home(&mut self) -> (r: AxisStep)
        requires
            old(self)@.motion == AxisMotion::Idle,
            old(self)@.settings.range != i32::MIN,
        ensures
            (final(self)@, r) == spec_home(old(self)@),
            final(self).spec_stepper().spec_name() == old(self).spec_stepper().spec_name(),
            final(self).spec_limit_switch() == old(self).spec_limit_switch(),
    {
        let speed = self.settings.homing_speed;
        let target = -self.settings.range;
        match self.command_move(speed, target) {
            Err(_) => self.finish(Err(Error::MotionControl)),
            Ok(()) => {
                self.motion = AxisMotion::Seeking;
                proof {
                    assert(self.commands@ =~= old(self).commands@ + seq![
                        StepperCommand::MoveTo { velocity: speed, target },
                    ]);
                }
                AxisStep::PollStepper
            },
        }
    }

    /// Takes in the stepper's report (`true` while it is still moving).
    pub fn on_update(&mut self, update: Result<bool, MotionError>) -> (r: AxisStep)
        requires
            awaits_update(old(self)@.motion),
        ensures
            (final(self)@, r) == spec_on_update(old(self)@, update),
            final(self).spec_stepper().spec_name() == old(self).spec_stepper().spec_name(),
            final(self).spec_limit_switch() == old(self).spec_limit_switch(),
    {
        proof {
            assert(self.commands@ == self.commands@ + Seq::<StepperCommand>::empty());
        }
        match update {
            Err(_) => self.finish(Err(Error::Driver)),
            Ok(moving) => match self.motion {
                AxisMotion::Seeking => {
                    if moving {
                        self.motion = AxisMotion::CheckingHome;
                        AxisStep::ReadSwitchLow
                    } else {
                        self.finish(Err(Error::HomeLimitReached))
                    }
                },
                AxisMotion::Returning => {
                    if moving {
                        AxisStep::PollStepper
                    } else {
                        self.finish(Ok(()))
                    }
                },
                _ => {
                    if moving {
                        self.motion = AxisMotion::CheckingLimit;
                        AxisStep::ReadSwitchHigh
                    } else {
                        self.finish(Ok(()))
                    }
                },
            },
        }
    }

    /// Takes in the limit switch's reading (low while homing, high while moving).
    pub fn on_switch(&mut self, reading: Result<bool, Infallible>) -> (r: AxisStep)
        requires
            awaits_switch(old(self)@.motion),
        ensures
            (final(self)@, r) == spec_on_switch(old(self)@, reading),
            final(self).spec_stepper().spec_name() == old(self).spec_stepper().spec_name(),
            final(self).spec_limit_switch() == old(self).spec_limit_switch(),
    {
        proof {
            assert(self.commands@ == self.commands@ + Seq::<StepperCommand>::empty());
        }
        if self.motion == AxisMotion::CheckingHome {
            match reading {
                Err(_) => self.finish(Err(Error::Swtich)),
                Ok(home_reached) => {
                    if home_reached {
                        let ghost before = self.commands@;
                        let home = self.settings.home_position;
                        match self.command_reset(home) {
                            Err(_) => { return self.finish(Err(Error::MotionControl)); },
                            Ok(()) => {},
                        }
                        self.homed = true;
                        let speed = self.settings.homing_speed;
                        match self.command_move(speed, 0) {
                            Err(_) => { return self.finish(Err(Error::MotionControl)); },
                            Ok(()) => {},
                        }
                        self.motion = AxisMotion::Returning;
                        proof {
                            assert(self.commands@ =~= before + seq![
                                StepperCommand::ResetPosition { step: home },
                                StepperCommand::MoveTo { velocity: speed, target: 0i32 },
                            ]);
                        }
                        AxisStep::PollStepper
                    } else {
                        self.motion = AxisMotion::Seeking;
                        AxisStep::PollStepper
                    }
                },
            }
        } else {
            match reading {
                Ok(true) => self.finish(Err(Error::LimitTrigger)),
                _ => {
                    self.motion = AxisMotion::Moving;
                    AxisStep::PollStepper
                },
            }
        }
    }

    /// Starts a move to `step` at `speed` (a fraction of the maximum
    /// speed); see `spec_move_to`.
    pub fn move_to(&mut self, step: i32, speed: MCDelay) -> (r: AxisStep)
        requires
            old(self)@.motion == AxisMotion::Idle,
            velocity_fits(old(self)@.settings, speed),
        ensures
            (final(self)@, r) == spec_move_to(old(self)@, step, speed),
            final(self).spec_stepper().spec_name() == old(self).spec_stepper().spec_name(),
            final(self).spec_limit_switch() == old(self).spec_limit_switch(),
    {
        let velocity = self.settings.max_speed.mul(speed);
        if step > self.settings.range || step < 0 {
            return AxisStep::Finished(Err(Error::OutOfRange));
        }
        if !self.homed {
            return AxisStep::Finished(Err(Error::NotHomed));
        }
        let _ = self.command_move(velocity, step);
        self.motion = AxisMotion::Moving;
        proof {
            assert(self.commands@ =~= old(self).commands@ + seq![
                StepperCommand::MoveTo { velocity, target: step },
            ]);
        }
        AxisStep::PollStepper
    }

    /// Meant to replace the settings; for now it leaves the axis unchanged.
    pub fn update_settings(&mut self, settings: AxisUserSettings)
        ensures
            final(self)@ == old(self)@,
    {
    }
}

} // verus!

verus! {

/// A homing in which the switch reads low at the first look ends homed,
/// with the stepper sent the full range towards the switch, its position
/// reset to the home position, and sent back to step 0.
pub proof fn law_homing_at_switch(v: AxisView)
    ensures
        ({
            let (v1, s1) = spec_home(v);
            let (v2, s2) = spec_on_update(v1, Ok(true));
            let (v3, s3) = spec_on_switch(v2, Ok(true));
            let (v4, s4) = spec_on_update(v3, Ok(false));
            &&& s4 matches AxisStep::Finished(Ok(()))
            &&& v4.homed
            &&& v4.motion == AxisMotion::Idle
            &&& v4.settings == v.settings
            &&& v4.commands == v.commands + seq![
                StepperCommand::MoveTo { velocity: v.settings.homing_speed, target: -v.settings.range as i32 },
                StepperCommand::ResetPosition { step: v.settings.home_position },
                StepperCommand::MoveTo { velocity: v.settings.homing_speed, target: 0 },
            ]
        }),
{
    let (v1, s1) = spec_home(v);
    let (v2, s2) = spec_on_update(v1, Ok(true));
    let (v3, s3) = spec_on_switch(v2, Ok(true));
    let (v4, s4) = spec_on_update(v3, Ok(false));
    assert(v4.commands =~= v.commands + seq![
        StepperCommand::MoveTo { velocity: v.settings.homing_speed, target: -v.settings.range as i32 },
        StepperCommand::ResetPosition { step: v.settings.home_position },
        StepperCommand::MoveTo { velocity: v.settings.homing_speed, target: 0 },
    ]);
}

/// A homing whose stepper stops before the switch is found fails with
/// `HomeLimitReached` and leaves the homed flag as it was.
pub proof fn law_homing_without_switch(v: AxisView)
    ensures
        ({
            let (v1, s1) = spec_home(v);
            let (v2, s2) = spec_on_update(v1, Ok(false));
            &&& s2 matches AxisStep::Finished(Err(Error::HomeLimitReached))
            &&& v2.homed == v.homed
            &&& v2.motion == AxisMotion::Idle
        }),
{
}

/// A move that reaches the limit switch while the stepper still moves is
/// aborted with `LimitTrigger`; one whose stepper stops first succeeds.
pub proof fn law_move_limit(v: AxisView, step: i32, speed: MCDelay)
    requires
        v.homed,
        0 <= step <= v.settings.range,
    ensures
        ({
            let (v1, s1) = spec_move_to(v, step, speed);
            let (v2, s2) = spec_on_update(v1, Ok(true));
            let (v3, s3) = spec_on_switch(v2, Ok(true));
            let (w2, t2) = spec_on_update(v1, Ok(false));
            &&& s1 matches AxisStep::PollStepper
            &&& v1.commands == v.commands.push(StepperCommand::MoveTo { velocity: spec_velocity(v.settings, speed), target: step })
            &&& s3 matches AxisStep::Finished(Err(Error::LimitTrigger))
            &&& t2 matches AxisStep::Finished(Ok(()))
        }),
{
    let (v1, s1) = spec_move_to(v, step, speed);
    assert(v1.commands =~= v.commands.push(StepperCommand::MoveTo { velocity: spec_velocity(v.settings, speed), target: step }));
}

/// A move to a step within `[0, range]` on an axis that has not been homed
/// is refused with `NotHomed` and leaves the axis exactly as it was, with
/// nothing sent to the stepper.
pub proof fn law_move_before_homing(v: AxisView, step: i32, speed: MCDelay)
    requires
        !v.homed,
        0 <= step <= v.settings.range,
    ensures
        spec_move_to(v, step, speed).0 == v,
        spec_move_to(v, step, speed).1 matches AxisStep::Finished(Err(Error::NotHomed)),
{
}

/// A move to a step outside `[0, range]` is refused with `OutOfRange` and
/// leaves the axis exactly as it was, with nothing sent to the stepper.
pub proof fn law_move_out_of_range(v: AxisView, step: i32, speed: MCDelay)
    requires
        step < 0 || step > v.settings.range,
    ensures
        spec_move_to(v, step, speed).0 == v,
        spec_move_to(v, step, speed).1 matches AxisStep::Finished(Err(Error::OutOfRange)),
{
}

/// A move within range on a homed axis sends the stepper exactly one
/// command: to the requested step, at the maximum speed scaled by the
/// requested fraction, that is with raw velocity bits
/// `floor(max_speed.bits * speed.bits / 2^64)`.
pub proof fn law_move_velocity(v: AxisView, step: i32, speed: MCDelay)
    requires
        v.homed,
        0 <= step <= v.settings.range,
        i128::MIN <= (v.settings.max_speed.bits as int * speed.bits as int) / 0x1_0000_0000_0000_0000int <= i128::MAX,
    ensures
        ({
            let (v1, s1) = spec_move_to(v, step, speed);
            &&& s1 matches AxisStep::PollStepper
            &&& v1.motion == AxisMotion::Moving
            &&& v1.commands.len() == v.commands.len() + 1
            &&& v1.commands.take(v.commands.len() as int) == v.commands
            &&& v1.commands.last() matches StepperCommand::MoveTo { velocity, target }
            &&& target == step
            &&& velocity.bits as int == (v.settings.max_speed.bits as int * speed.bits as int) / 0x1_0000_0000_0000_0000int
        }),
{
    let (v1, s1) = spec_move_to(v, step, speed);
    assert(v1.commands.take(v.commands.len() as int) =~= v.commands);
}

/// Failures of the hardware end an operation, the axis going idle with
/// nothing more sent and its homed flag as it was: a failed stepper update
/// with `Driver`, whatever the operation; a failed switch reading while
/// homing with `Swtich`. While moving, a failed switch reading is not taken
/// for the limit: the move goes on and the stepper is polled again.
pub proof fn law_hardware_failures(v: AxisView, e: MotionError, i: Infallible)
    ensures
        ({
            let (v1, s1) = spec_on_update(v, Err(e));
            &&& s1 matches AxisStep::Finished(Err(Error::Driver))
            &&& v1.motion == AxisMotion::Idle
            &&& v1.commands == v.commands
            &&& v1.homed == v.homed
        }),
        v.motion == AxisMotion::CheckingHome ==> ({
            let (v1, s1) = spec_on_switch(v, Err(i));
            &&& s1 matches AxisStep::Finished(Err(Error::Swtich))
            &&& v1.motion == AxisMotion::Idle
            &&& v1.commands == v.commands
            &&& v1.homed == v.homed
        }),
        v.motion == AxisMotion::CheckingLimit ==> ({
            let (v1, s1) = spec_on_switch(v, Err(i));
            &&& s1 matches AxisStep::PollStepper
            &&& v1.motion == AxisMotion::Moving
            &&& v1.commands == v.commands
        }),
{
    assert(v.commands + Seq::<StepperCommand>::empty() =~= v.commands);
}

} // verus!
