use rollo::axis::{Error as AxisError, AxisMotion};
use rollo::blinds_controller::{plan_for, AxisId, AxisOp, BlindsController, Error as ControllerError, ControllerStep};
use rollo::board::BoardResourceBuilder;
use rollo::fixed_point::MCDelay;
use rollo::user_settings::UserSettings;
use rollo::web_protocol::{ControllerCommand, MoveCommand, Target};

fn controller() -> BlindsController {
    let mut board = BoardResourceBuilder::resolve(MCDelay::from_num(1)).unwrap();
    let c = BlindsController::new(&mut board, UserSettings::default());
    assert!(board.steppers[0].is_none() && board.steppers[1].is_none());
    assert!(board.switches[0].is_none() && board.switches[1].is_none());
    assert!(board.clients[0].is_some());
    c
}

/// A controller whose two axes have been homed, each finding its switch at
/// the first look.
fn homed_controller() -> BlindsController {
    let mut c = controller();
    assert!(matches!(c.execute(ControllerCommand::Home), ControllerStep::PollStepper(AxisId::Angle)));
    c.on_update(Ok(true));
    c.on_switch(Ok(true));
    c.on_update(Ok(false));
    c.on_update(Ok(true));
    c.on_switch(Ok(true));
    assert!(matches!(c.on_update(Ok(false)), ControllerStep::Finished(Ok(()))));
    assert!(c.axis(AxisId::Angle).is_homed() && c.axis(AxisId::Lateral).is_homed());
    c
}

fn move_command(lateral: i32, angle: i32) -> ControllerCommand {
    ControllerCommand::Move(MoveCommand {
        lateral: Target { speed: MCDelay::from_num(1), position: lateral },
        angle: Target { speed: MCDelay::from_bits(1i128 << 63), position: angle },
    })
}

/// Answers every stepper poll with "stopped" and every switch read with
/// "not triggered", recording which axis moved.
fn run_to_end(c: &mut BlindsController, mut step: ControllerStep) -> (Result<(), ControllerError>, Vec<AxisId>) {
    let mut polled = Vec::new();
    loop {
        step = match step {
            ControllerStep::PollStepper(id) => {
                polled.push(id);
                c.on_update(Ok(false))
            }
            ControllerStep::ReadSwitchLow(_) | ControllerStep::ReadSwitchHigh(_) => c.on_switch(Ok(false)),
            ControllerStep::Finished(r) => return (r, polled),
        }
    }
}

#[test]
fn new_controller_uses_the_board() {
    let c = controller();
    assert_eq!(c.axis(AxisId::Angle).stepper().name(), "axis a stepper");
    assert_eq!(c.axis(AxisId::Lateral).stepper().name(), "axis b stepper");
    assert_eq!(c.axis(AxisId::Angle).limit_switch().name(), "axis a limit switch");
    assert_eq!(c.axis(AxisId::Lateral).settings().range, 100000);
}

#[test]
fn move_plan() {
    let settings = UserSettings::default().blinds_settings;
    let speed = MCDelay::from_num(1);
    let plan = plan_for(move_command(300, 40), settings);
    assert_eq!(plan, vec![
        (AxisId::Angle, AxisOp::MoveTo { step: 100, speed }),
        (AxisId::Lateral, AxisOp::MoveTo { step: 300, speed }),
        (AxisId::Angle, AxisOp::MoveTo { step: 40, speed }),
    ]);
    assert_eq!(plan_for(ControllerCommand::Home, settings), vec![(AxisId::Angle, AxisOp::Home), (AxisId::Lateral, AxisOp::Home)]);
    assert!(plan_for(ControllerCommand::Open, settings).is_empty());
    assert!(plan_for(ControllerCommand::Close, settings).is_empty());
}

#[test]
fn move_runs_angle_lateral_angle() {
    let mut c = homed_controller();
    let step = c.execute(move_command(300, 40));
    let (result, polled) = run_to_end(&mut c, step);
    assert_eq!(result, Ok(()));
    assert_eq!(polled, vec![AxisId::Angle, AxisId::Lateral, AxisId::Angle]);
    assert_eq!(c.axis(AxisId::Angle).motion(), AxisMotion::Idle);
    assert_eq!(c.axis(AxisId::Lateral).motion(), AxisMotion::Idle);
}

#[test]
fn move_stops_at_the_first_failure() {
    let mut c = homed_controller();
    // the lateral target is out of range: the slats open, then the job stops
    let step = c.execute(move_command(-5, 40));
    let (result, polled) = run_to_end(&mut c, step);
    assert_eq!(result, Err(ControllerError::MovementError(AxisError::OutOfRange)));
    assert_eq!(polled, vec![AxisId::Angle]);
    // the controller takes the next command
    let step = c.execute(ControllerCommand::Open);
    assert!(matches!(step, ControllerStep::Finished(Ok(()))));
}

#[test]
fn controller_move_before_homing_is_refused() {
    let mut c = controller();
    assert!(!c.axis(AxisId::Angle).is_homed());
    let step = c.execute(move_command(300, 40));
    assert!(matches!(step, ControllerStep::Finished(Err(ControllerError::MovementError(AxisError::NotHomed)))));
    assert_eq!(c.next_op(), None);
    assert_eq!(c.axis(AxisId::Lateral).motion(), AxisMotion::Idle);
}

#[test]
fn next_op_follows_the_plan() {
    let mut c = homed_controller();
    assert_eq!(c.next_op(), None);
    let speed = MCDelay::from_num(1);
    c.execute(move_command(300, 40));
    assert_eq!(c.next_op(), Some((AxisId::Lateral, AxisOp::MoveTo { step: 300, speed })));
    assert!(matches!(c.on_update(Ok(false)), ControllerStep::PollStepper(AxisId::Lateral)));
    assert_eq!(c.next_op(), Some((AxisId::Angle, AxisOp::MoveTo { step: 40, speed })));
}

#[test]
fn limit_hit_during_a_move() {
    let mut c = homed_controller();
    assert!(matches!(c.execute(move_command(300, 40)), ControllerStep::PollStepper(AxisId::Angle)));
    assert!(matches!(c.on_update(Ok(true)), ControllerStep::ReadSwitchHigh(AxisId::Angle)));
    let step = c.on_switch(Ok(true));
    assert!(matches!(step, ControllerStep::Finished(Err(ControllerError::MovementError(AxisError::LimitTrigger)))));
}

#[test]
fn homing_both_axes() {
    let mut c = controller();
    assert!(matches!(c.execute(ControllerCommand::Home), ControllerStep::PollStepper(AxisId::Angle)));
    assert!(matches!(c.on_update(Ok(true)), ControllerStep::ReadSwitchLow(AxisId::Angle)));
    assert!(matches!(c.on_switch(Ok(true)), ControllerStep::PollStepper(AxisId::Angle)));
    // the angle axis is back at 0: the lateral axis starts homing
    assert!(matches!(c.on_update(Ok(false)), ControllerStep::PollStepper(AxisId::Lateral)));
    assert!(matches!(c.on_update(Ok(true)), ControllerStep::ReadSwitchLow(AxisId::Lateral)));
    assert!(matches!(c.on_switch(Ok(true)), ControllerStep::PollStepper(AxisId::Lateral)));
    assert!(matches!(c.on_update(Ok(false)), ControllerStep::Finished(Ok(()))));
}

#[test]
fn homing_failure_is_a_homing_error() {
    let mut c = controller();
    c.execute(ControllerCommand::Home);
    let step = c.on_update(Ok(false));
    assert!(matches!(step, ControllerStep::Finished(Err(ControllerError::HomingError(AxisError::HomeLimitReached)))));
}

#[test]
fn open_and_close_move_nothing() {
    let mut c = controller();
    assert!(matches!(c.execute(ControllerCommand::Open), ControllerStep::Finished(Ok(()))));
    assert!(matches!(c.execute(ControllerCommand::Close), ControllerStep::Finished(Ok(()))));
    assert_eq!(c.axis(AxisId::Angle).motion(), AxisMotion::Idle);
}

#[test]
fn controller_error_messages() {
    assert_eq!(
        ControllerError::MovementError(AxisError::OutOfRange).message(),
        "Couldn't move to the desired location: The requested motion is outside of the axis range"
    );
    assert_eq!(
        ControllerError::HomingError(AxisError::HomeLimitReached).message(),
        "Couldn't home axis: Couldn't find home before reaching the limit"
    );
    assert_eq!(
        ControllerError::ThreadSet(rollo::network::Error::ResourceBusy).message(),
        "Couldn't set the thread id for the comms channel:Resource busy"
    );
}

#[test]
fn operations_fit_the_axes() {
    let c = controller();
    assert!(c.op_fits(AxisId::Angle, AxisOp::Home));
    assert!(c.op_fits(AxisId::Lateral, AxisOp::MoveTo { step: 10, speed: MCDelay::from_num(1) }));
    let huge = MCDelay::from_bits(i128::MAX);
    assert!(!c.op_fits(AxisId::Lateral, AxisOp::MoveTo { step: 10, speed: huge }));
}
