use rollo::axis::{Axis, Error as AxisError, AxisMotion, AxisStep};
use rollo::bal::stepper::{HasStepper, MotionError};
use rollo::board::BoardResourceBuilder;
use rollo::fixed_point::MCDelay;
use rollo::user_settings::AxisUserSettings;

fn settings() -> AxisUserSettings {
    AxisUserSettings {
        homing_speed: MCDelay::from_num(10),
        max_speed: MCDelay::from_num(100000),
        home_position: -10,
        range: 1000,
    }
}

fn axis() -> Axis {
    let mut board = BoardResourceBuilder::resolve(MCDelay::from_num(1)).unwrap();
    let stepper = board.take_stepper(0).unwrap();
    let switch = board.switches[0].take().unwrap();
    Axis::new(stepper, switch, settings())
}

/// An axis that has been homed, with the switch found at the first look.
fn homed_axis() -> Axis {
    let mut a = axis();
    assert!(matches!(a.home(), AxisStep::PollStepper));
    assert!(matches!(a.on_update(Ok(true)), AxisStep::ReadSwitchLow));
    assert!(matches!(a.on_switch(Ok(true)), AxisStep::PollStepper));
    assert!(matches!(a.on_update(Ok(false)), AxisStep::Finished(Ok(()))));
    assert!(a.is_homed());
    a
}

#[test]
fn new_axis_is_idle_and_not_homed() {
    let a = axis();
    assert!(!a.is_homed());
    assert_eq!(a.motion(), AxisMotion::Idle);
    assert_eq!(a.settings(), settings());
    assert_eq!(a.stepper().name(), "axis a stepper");
    assert_eq!(a.limit_switch().name(), "axis a limit switch");
}

#[test]
fn homing_finds_the_switch() {
    let mut a = axis();
    assert!(matches!(a.home(), AxisStep::PollStepper));
    assert_eq!(a.motion(), AxisMotion::Seeking);
    assert!(matches!(a.on_update(Ok(true)), AxisStep::ReadSwitchLow));
    assert!(matches!(a.on_switch(Ok(false)), AxisStep::PollStepper));
    assert!(matches!(a.on_update(Ok(true)), AxisStep::ReadSwitchLow));
    assert!(matches!(a.on_switch(Ok(true)), AxisStep::PollStepper));
    assert_eq!(a.motion(), AxisMotion::Returning);
    assert!(a.is_homed());
    assert!(matches!(a.on_update(Ok(true)), AxisStep::PollStepper));
    assert!(matches!(a.on_update(Ok(false)), AxisStep::Finished(Ok(()))));
    assert_eq!(a.motion(), AxisMotion::Idle);
}

#[test]
fn homing_fails_at_the_end_of_travel() {
    let mut a = axis();
    a.home();
    assert!(matches!(a.on_update(Ok(false)), AxisStep::Finished(Err(AxisError::HomeLimitReached))));
    assert_eq!(a.motion(), AxisMotion::Idle);
    assert!(!a.is_homed());
}

#[test]
fn move_before_homing_is_refused() {
    let mut a = axis();
    assert!(matches!(a.move_to(500, MCDelay::from_num(1)), AxisStep::Finished(Err(AxisError::NotHomed))));
    assert_eq!(a.motion(), AxisMotion::Idle);
    assert!(matches!(a.move_to(1001, MCDelay::from_num(1)), AxisStep::Finished(Err(AxisError::OutOfRange))));
    a.home();
    a.on_update(Ok(false));
    assert!(matches!(a.move_to(500, MCDelay::from_num(1)), AxisStep::Finished(Err(AxisError::NotHomed))));
}

#[test]
fn driver_failure_ends_any_operation() {
    let mut a = homed_axis();
    a.home();
    assert!(matches!(a.on_update(Err(MotionError)), AxisStep::Finished(Err(AxisError::Driver))));
    assert!(matches!(a.move_to(10, MCDelay::from_num(1)), AxisStep::PollStepper));
    assert!(matches!(a.on_update(Err(MotionError)), AxisStep::Finished(Err(AxisError::Driver))));
}

#[test]
fn move_within_range() {
    let mut a = homed_axis();
    assert!(matches!(a.move_to(500, MCDelay::from_bits(1i128 << 63)), AxisStep::PollStepper));
    assert_eq!(a.motion(), AxisMotion::Moving);
    assert!(matches!(a.on_update(Ok(true)), AxisStep::ReadSwitchHigh));
    assert!(matches!(a.on_switch(Ok(false)), AxisStep::PollStepper));
    assert!(matches!(a.on_update(Ok(false)), AxisStep::Finished(Ok(()))));
}

#[test]
fn move_hitting_the_limit() {
    let mut a = homed_axis();
    a.move_to(1000, MCDelay::from_num(1));
    assert!(matches!(a.on_update(Ok(true)), AxisStep::ReadSwitchHigh));
    assert!(matches!(a.on_switch(Ok(true)), AxisStep::Finished(Err(AxisError::LimitTrigger))));
}

#[test]
fn move_out_of_range() {
    let mut a = homed_axis();
    assert!(matches!(a.move_to(1001, MCDelay::from_num(1)), AxisStep::Finished(Err(AxisError::OutOfRange))));
    assert!(matches!(a.move_to(-1, MCDelay::from_num(1)), AxisStep::Finished(Err(AxisError::OutOfRange))));
    assert_eq!(a.motion(), AxisMotion::Idle);
    assert!(matches!(a.move_to(0, MCDelay::from_num(1)), AxisStep::PollStepper));
}

#[test]
fn update_settings_changes_nothing() {
    let mut a = axis();
    let mut other = settings();
    other.range = 5;
    a.update_settings(other);
    assert_eq!(a.settings(), settings());
}

#[test]
fn axis_error_messages() {
    assert_eq!(AxisError::HomeLimitReached.message(), "Couldn't find home before reaching the limit");
    assert_eq!(AxisError::Driver.message(), "Stepper driver encountered an error");
    assert_eq!(AxisError::Swtich.message(), "Failed to read limit switch");
    assert_eq!(AxisError::MotionControl.message(), "Motion controller calculation error");
    assert_eq!(AxisError::LimitTrigger.message(), "Stepper unexpectedly reached it's limit");
    assert_eq!(AxisError::NotHomed.message(), "Stepper Axis hasn't been homed before movement");
    assert_eq!(AxisError::InputError.message(), "Invalid input given");
    assert_eq!(AxisError::OutOfRange.message(), "The requested motion is outside of the axis range");
    assert_eq!(AxisError::Infallible.message(), "Something that's not supposed to fail failed");
}
