//! The blinds controller: turns commands into operations on the two axes
//! (the slat angle and the lateral travel) and runs them one after the
//! other, stopping at the first failure.
//!
//! Like the axes, the controller does not block on the hardware: it says
//! which axis needs what next (`ControllerStep`) and is told the readings.
use vstd::prelude::*;
use std::convert::Infallible;
use crate::axis::{
    Axis, Error as AxisError, AxisMotion, AxisStep, AxisView, awaits_switch, awaits_update, spec_home,
    spec_axis_message, spec_move_to, spec_on_switch, spec_on_update, velocity_fits,
};
use crate::bal::stepper::MotionError;
use crate::board::BoardResources;
use crate::fixed_point::MCDelay;
use crate::network::{Error as NetworkError, spec_network_message};
use crate::user_settings::{AxisUserSettings, BlindsUserSettings, UserSettings};
use crate::web_protocol::ControllerCommand;

verus! {

/// Why a command could not be carried out.
#[derive(Debug, PartialEq, Eq)]
pub enum Error {
    ThreadSet(NetworkError),
    MovementError(AxisError),
    HomingError(AxisError),
}

/// The message of each controller error.
pub open spec fn spec_controller_message(e: Error) -> Seq<char> {
    match e {
        Error::ThreadSet(n) => "Couldn't set the thread id for the comms channel:"@ + spec_network_message(n),
        Error::MovementError(a) => "Couldn't move to the desired location: "@ + spec_axis_message(a),
        Error::HomingError(a) => "Couldn't home axis: "@ + spec_axis_message(a),
    }
}

impl Error {
    /// The error's message.
    pub fn message(&self) -> (r: String)
        ensures
            r@ == spec_controller_message(*self),
    {
        match self {
            Error::ThreadSet(n) => {
                let detail = n.message();
                String::from_str("Couldn't set the thread id for the comms channel:").concat(detail.as_str())
            },
            Error::MovementError(a) => {
                let detail = a.message();
                String::from_str("Couldn't move to the desired location: ").concat(detail.as_str())
            },
            Error::HomingError(a) => {
                let detail = a.message();
                String::from_str("Couldn't home axis: ").concat(detail.as_str())
            },
        }
    }
}

/// One of the two axes.
#[derive(Clone, Copy, Debug, PartialEq, Eq, Structural)]
pub enum AxisId {
    Angle,
    Lateral,
}

/// An operation on one axis.
#[derive(Clone, Copy, Debug, PartialEq, Eq, Structural)]
pub enum AxisOp {
    Home,
    MoveTo { step: i32, speed: MCDelay },
}

/// Whether a job moves the blinds or homes the axes; it decides how an
/// axis failure is reported.
#[derive(Clone, Copy, Debug, PartialEq, Eq, Structural)]
pub enum JobKind {
    Movement,
    Homing,
}

/// What the controller needs next.
#[derive(Debug)]
pub enum ControllerStep {
    /// Update this axis's stepper and report it (`on_update`).
    PollStepper(AxisId),
    /// Read whether this axis's limit switch is low (`on_switch`).
    ReadSwitchLow(AxisId),
    /// Read whether this axis's limit switch is high (`on_switch`).
    ReadSwitchHigh(AxisId),
    /// The command is done, with this outcome.
    Finished(Result<(), Error>),
}

/// The operations a command stands for, in order.
///
/// A move first opens the slats (angle to the open angle), then travels
/// laterally, then sets the requested angle; all three at the lateral
/// target's speed. Homing homes the angle axis, then the lateral axis.
/// Opening and closing involve no axis operation.
pub open spec fn spec_plan(command: ControllerCommand, settings: BlindsUserSettings) -> Seq<(AxisId, AxisOp)> {
    match command {
        ControllerCommand::Move(m) => seq![
            (AxisId::Angle, AxisOp::MoveTo { step: settings.angle_open, speed: m.lateral.speed }),
            (AxisId::Lateral, AxisOp::MoveTo { step: m.lateral.position, speed: m.lateral.speed }),
            (AxisId::Angle, AxisOp::MoveTo { step: m.angle.position, speed: m.lateral.speed }),
        ],
        ControllerCommand::Home => seq![(AxisId::Angle, AxisOp::Home), (AxisId::Lateral, AxisOp::Home)],
        _ => Seq::empty(),
    }
}

/// How a command's axis failures are reported.
pub open spec fn spec_kind(command: ControllerCommand) -> JobKind {
    match command {
        ControllerCommand::Home => JobKind::Homing,
        _ => JobKind::Movement,
    }
}

/// An axis failure, as reported for a job of the given kind.
pub open spec fn spec_wrap(kind: JobKind, e: AxisError) -> Error {
    match kind {
        JobKind::Movement => Error::MovementError(e),
        JobKind::Homing => Error::HomingError(e),
    }
}

/// Whether an operation can be started on an axis with these settings.
pub open spec fn spec_op_ok(settings: AxisUserSettings, op: AxisOp) -> bool {
    match op {
        AxisOp::Home => settings.range != i32::MIN,
        AxisOp::MoveTo { step, speed } => velocity_fits(settings, speed),
    }
}

/// The state of the controller that its operations read and change.
pub struct ControllerView {
    pub angle: AxisView,
    pub lateral: AxisView,
    pub settings: BlindsUserSettings,
    /// The axis whose operation is under way, if any.
    pub active: Option<AxisId>,
    pub kind: JobKind,
    /// Operations still to start, next first.
    pub pending: Seq<(AxisId, AxisOp)>,
}

/// The view of one axis.
pub open spec fn spec_axis(c: ControllerView, id: AxisId) -> AxisView {
    match id {
        AxisId::Angle => c.angle,
        AxisId::Lateral => c.lateral,
    }
}

/// The controller with one axis's view replaced.
pub open spec fn spec_with_axis(c: ControllerView, id: AxisId, a: AxisView) -> ControllerView {
    match id {
        AxisId::Angle => ControllerView { angle: a, ..c },
        AxisId::Lateral => ControllerView { lateral: a, ..c },
    }
}

/// Whether the operation that a step leads to can be started: only a
/// success of the active operation starts the next pending one, and that
/// one must then fit its axis.
pub open spec fn spec_next_ok(c: ControllerView, s: AxisStep) -> bool {
    (s matches AxisStep::Finished(Ok(())) && c.pending.len() > 0) ==>
        spec_op_ok(spec_axis(c, c.pending[0].0).settings, c.pending[0].1)
}

/// The controller's consistency: with no operation under way both axes
/// are idle and nothing is pending; with one under way on an axis, that
/// axis is busy and the other idle.
pub open spec fn spec_controller_ok(c: ControllerView) -> bool {
    match c.active {
        None => c.angle.motion == AxisMotion::Idle && c.lateral.motion == AxisMotion::Idle
            && c.pending.len() == 0,
        Some(id) => spec_axis(c, id).motion != AxisMotion::Idle
            && spec_axis(c, other(id)).motion == AxisMotion::Idle,
    }
}

/// The other axis.
pub open spec fn other(id: AxisId) -> AxisId {
    match id {
        AxisId::Angle => AxisId::Lateral,
        AxisId::Lateral => AxisId::Angle,
    }
}

/// Starting an operation on an axis, as the axis's own contract states it.
pub open spec fn spec_start_op(c: ControllerView, id: AxisId, op: AxisOp) -> (ControllerView, AxisStep) {
    let a = spec_axis(c, id);
    let (a2, s) = match op {
        AxisOp::Home => spec_home(a),
        AxisOp::MoveTo { step, speed } => spec_move_to(a, step, speed),
    };
    (spec_with_axis(ControllerView { active: Some(id), ..c }, id, a2), s)
}

/// How the controller goes on once the active axis has taken a step:
/// a step that needs the hardware is passed on for the active axis; a
/// failure ends the job, reported by its kind, and drops what is pending;
/// a success starts the next pending operation, or ends the job when none
/// is left.
pub open spec fn spec_continue(c: ControllerView, s: AxisStep) -> (ControllerView, ControllerStep)
    decreases c.pending.len(),
{
    let id = c.active->0;
    match s {
        AxisStep::PollStepper => (c, ControllerStep::PollStepper(id)),
        AxisStep::ReadSwitchLow => (c, ControllerStep::ReadSwitchLow(id)),
        AxisStep::ReadSwitchHigh => (c, ControllerStep::ReadSwitchHigh(id)),
        AxisStep::Finished(Err(e)) => (
            ControllerView { active: None, pending: Seq::empty(), ..c },
            ControllerStep::Finished(Err(spec_wrap(c.kind, e))),
        ),
        AxisStep::Finished(Ok(())) => if c.pending.len() == 0 {
            (ControllerView { active: None, ..c }, ControllerStep::Finished(Ok(())))
        } else {
            let next = c.pending[0];
            let (c2, s2) = spec_start_op(ControllerView { pending: c.pending.drop_first(), ..c }, next.0, next.1);
            spec_continue(c2, s2)
        },
    }
}

/// Carrying out a command from an idle controller: its plan becomes the
/// pending operations, and the first one is started.
pub open spec fn spec_execute(c: ControllerView, command: ControllerCommand) -> (ControllerView, ControllerStep) {
    let plan = spec_plan(command, c.settings);
    let kind = spec_kind(command);
    if plan.len() == 0 {
        (ControllerView { kind, ..c }, ControllerStep::Finished(Ok(())))
    } else {
        let (c2, s2) = spec_start_op(ControllerView { kind, pending: plan.drop_first(), ..c }, plan[0].0, plan[0].1);
        spec_continue(c2, s2)
    }
}

/// The blinds: an angle axis, a lateral axis and the blinds' positions.
pub struct BlindsController {
    axis_angle: Axis,
    axis_lateral: Axis,
    settings: BlindsUserSettings,
    active: Option<AxisId>,
    kind: JobKind,
    pending: Vec<(AxisId, AxisOp)>,
}

impl View for BlindsController {
    type V = ControllerView;

    closed spec fn view(&self) -> ControllerView {
        ControllerView {
            angle: self.axis_angle@,
            lateral: self.axis_lateral@,
            settings: self.settings,
            active: self.active,
            kind: self.kind,
            pending: self.pending@,
        }
    }
}

impl BlindsController {
    /// Whether the controller is consistent (see `spec_controller_ok`).
    pub open spec fn wf(&self) -> bool {
        spec_controller_ok(self@)
    }

    /// One of the axes.
    pub closed spec fn axis_of(&self, id: AxisId) -> Axis {
        match id {
            AxisId::Angle => self.axis_angle,
            AxisId::Lateral => self.axis_lateral,
        }
    }

    /// One of the axes.
    pub fn axis(&self, id: AxisId) -> (r: &Axis)
        ensures
            *r == self.axis_of(id),
            r@ == spec_axis(self@, id),
    {
        match id {
            AxisId::Angle => &self.axis_angle,
            AxisId::Lateral => &self.axis_lateral,
        }
    }

    /// Whether an operation can be started on one of the axes (see
    /// `spec_op_ok`): a homing needs a range that can be negated, a move a
    /// velocity that fits the fixed-point type.
    pub fn op_fits(&self, id: AxisId, op: AxisOp) -> (r: bool)
        ensures
            r == spec_op_ok(spec_axis(self@, id).settings, op),
    {
        let settings = match id {
            AxisId::Angle => self.axis_angle.settings(),
            AxisId::Lateral => self.axis_lateral.settings(),
        };
        match op {
            AxisOp::Home => settings.range != i32::MIN,
            AxisOp::MoveTo { step, speed } => settings.max_speed.checked_mul(speed).is_some(),
        }
    }

    /// The operation that is started next, if any.
    pub fn next_op(&self) -> (r: Option<(AxisId, AxisOp)>)
        ensures
            r == (if self@.pending.len() > 0 { Some(self@.pending[0]) } else { None::<(AxisId, AxisOp)> }),
    {
        if self.pending.len() > 0 {
            Some(self.pending[0])
        } else {
            None
        }
    }

    /// The blinds' positions.
    pub fn blinds_settings(&self) -> (r: BlindsUserSettings)
        ensures
            r == self@.settings,
    {
        self.settings
    }

    /// The controller over the board's steppers and switches: slot 0 drives
    /// the angle axis, slot 1 the lateral axis.
    pub fn new(board_res: &mut BoardResources, settings: UserSettings) -> (r: BlindsController)
        requires
            old(board_res).steppers[0] is Some,
            old(board_res).steppers[1] is Some,
            old(board_res).switches[0] is Some,
            old(board_res).switches[1] is Some,
        ensures
            r.wf(),
            r@.angle.settings == settings.axis_angle_settings,
            r@.lateral.settings == settings.axis_open_settings,
            !r@.angle.homed && !r@.lateral.homed,
            r@.angle.commands.len() == 0 && r@.lateral.commands.len() == 0,
            r@.settings == settings.blinds_settings,
            r@.active is None,
            r.axis_of(AxisId::Angle).spec_stepper() == old(board_res).steppers[0]->0,
            r.axis_of(AxisId::Lateral).spec_stepper() == old(board_res).steppers[1]->0,
            r.axis_of(AxisId::Angle).spec_limit_switch() == old(board_res).switches[0]->0,
            r.axis_of(AxisId::Lateral).spec_limit_switch() == old(board_res).switches[1]->0,
            final(board_res).steppers[0] is None && final(board_res).steppers[1] is None,
            final(board_res).switches[0] is None && final(board_res).switches[1] is None,
            final(board_res).wifis == old(board_res).wifis,
            final(board_res).servers == old(board_res).servers,
            final(board_res).clients == old(board_res).clients,
    {
        let mut stepper_a = None;
        std::mem::swap(&mut stepper_a, &mut board_res.steppers[0]);
        let mut switch_a = None;
        std::mem::swap(&mut switch_a, &mut board_res.switches[0]);
        let mut stepper_b = None;
        std::mem::swap(&mut stepper_b, &mut board_res.steppers[1]);
        let mut switch_b = None;
        std::mem::swap(&mut switch_b, &mut board_res.switches[1]);
        BlindsController {
            axis_angle: Axis::new(stepper_a.unwrap(), switch_a.unwrap(), settings.axis_angle_settings),
            axis_lateral: Axis::new(stepper_b.unwrap(), switch_b.unwrap(), settings.axis_open_settings),
            settings: settings.blinds_settings,
            active: None,
            kind: JobKind::Movement,
            pending: Vec::new(),
        }
    }

    fn start_op(&mut self, id: AxisId, op: AxisOp) -> (r: AxisStep)
        requires
            spec_axis(old(self)@, id).motion == AxisMotion::Idle,
            spec_op_ok(spec_axis(old(self)@, id).settings, op),
        ensures
            (final(self)@, r) == spec_start_op(old(self)@, id, op),
    {
        self.active = Some(id);
        match id {
            AxisId::Angle => match op {
                AxisOp::Home => self.axis_angle.home(),
                AxisOp::MoveTo { step, speed } => self.axis_angle.move_to(step, speed),
            },
            AxisId::Lateral => match op {
                AxisOp::Home => self.axis_lateral.home(),
                AxisOp::MoveTo { step, speed } => self.axis_lateral.move_to(step, speed),
            },
        }
    }

    fn continue_job(&mut self, first_step: AxisStep) -> (r: ControllerStep)
        requires
            old(self)@.active is Some,
            spec_step_matches(old(self)@, first_step),
            spec_axis(old(self)@, other(old(self)@.active->0)).motion == AxisMotion::Idle,
            spec_next_ok(old(self)@, first_step),
        ensures
            (final(self)@, r) == spec_continue(old(self)@, first_step),
            final(self).wf(),
    {
        let mut step = first_step;
        loop
            invariant
                self@.active is Some,
                spec_step_matches(self@, step),
                spec_axis(self@, other(self@.active->0)).motion == AxisMotion::Idle,
                spec_next_ok(self@, step),
                spec_continue(self@, step) == spec_continue(old(self)@, first_step),
            decreases self@.pending.len(),
        {
            let id = self.active.unwrap();
            match step {
                AxisStep::PollStepper => {
                    return ControllerStep::PollStepper(id);
                },
                AxisStep::ReadSwitchLow => {
                    return ControllerStep::ReadSwitchLow(id);
                },
                AxisStep::ReadSwitchHigh => {
                    return ControllerStep::ReadSwitchHigh(id);
                },
                AxisStep::Finished(Err(e)) => {
                    self.active = None;
                    self.pending = Vec::new();
                    let err = wrap(self.kind, e);
                    return ControllerStep::Finished(Err(err));
                },
                AxisStep::Finished(Ok(())) => {
                    if self.pending.len() == 0 {
                        self.active = None;
                        return ControllerStep::Finished(Ok(()));
                    }
                    let ghost before = self@;
                    let next = self.pending.remove(0);
                    proof {
                        assert(self@.pending =~= before.pending.drop_first());
                        assert(spec_op_ok(spec_axis(before, before.pending[0].0).settings, before.pending[0].1));
                    }
                    step = self.start_op(next.0, next.1);
                },
            }
        }
    }

    /// Carries out a command: its plan's operations are run in order (see
    /// `spec_plan`), stopping at the first failure; opening and closing do
    /// nothing on the axes. The first operation must fit its axis; each
    /// later one is checked when it is reached (see `on_update`).
    pub fn execute(&mut self, command: ControllerCommand) -> (r: ControllerStep)
        requires
            old(self).wf(),
            old(self)@.active is None,
            ({
                let plan = spec_plan(command, old(self)@.settings);
                plan.len() > 0 ==> spec_op_ok(spec_axis(old(self)@, plan[0].0).settings, plan[0].1)
            }),
        ensures
            (final(self)@, r) == spec_execute(old(self)@, command),
            final(self).wf(),
    {
        let kind = match command {
            ControllerCommand::Home => JobKind::Homing,
            _ => JobKind::Movement,
        };
        self.kind = kind;
        let mut plan = plan_for(command, self.settings);
        if plan.len() == 0 {
            return ControllerStep::Finished(Ok(()));
        }
        let ghost full = plan@;
        let first = plan.remove(0);
        self.pending = plan;
        proof {
            assert(self@.pending =~= full.drop_first());
            assert(spec_op_ok(spec_axis(self@, full[0].0).settings, full[0].1));
        }
        let step = self.start_op(first.0, first.1);
        self.continue_job(step)
    }

    /// Takes in the active axis's stepper report. Where it ends the active
    /// operation successfully, the next pending one is started, and must
    /// fit its axis.
    pub fn on_update(&mut self, update: Result<bool, MotionError>) -> (r: ControllerStep)
        requires
            old(self).wf(),
            old(self)@.active is Some,
            awaits_update(spec_axis(old(self)@, old(self)@.active->0).motion),
            ({
                let id = old(self)@.active->0;
                let (a, s) = spec_on_update(spec_axis(old(self)@, id), update);
                spec_next_ok(spec_with_axis(old(self)@, id, a), s)
            }),
        ensures
            ({
                let id = old(self)@.active->0;
                let (a, s) = spec_on_update(spec_axis(old(self)@, id), update);
                (final(self)@, r) == spec_continue(spec_with_axis(old(self)@, id, a), s)
            }),
            final(self).wf(),
    {
        let id = self.active.unwrap();
        let step = match id {
            AxisId::Angle => self.axis_angle.on_update(update),
            AxisId::Lateral => self.axis_lateral.on_update(update),
        };
        self.continue_job(step)
    }

    /// Takes in the active axis's limit switch reading.
    pub fn on_switch(&mut self, reading: Result<bool, Infallible>) -> (r: ControllerStep)
        requires
            old(self).wf(),
            old(self)@.active is Some,
            awaits_switch(spec_axis(old(self)@, old(self)@.active->0).motion),
        ensures
            ({
                let id = old(self)@.active->0;
                let (a, s) = spec_on_switch(spec_axis(old(self)@, id), reading);
                (final(self)@, r) == spec_continue(spec_with_axis(old(self)@, id, a), s)
            }),
            final(self).wf(),
    {
        let id = self.active.unwrap();
        let step = match id {
            AxisId::Angle => self.axis_angle.on_switch(reading),
            AxisId::Lateral => self.axis_lateral.on_switch(reading),
        };
        self.continue_job(step)
    }
}

/// Whether the active axis's state fits the step it took: a finished
/// operation leaves the axis idle, and any other step is the one the
/// axis's motion waits on.
pub open spec fn spec_step_matches(c: ControllerView, s: AxisStep) -> bool {
    let m = spec_axis(c, c.active->0).motion;
    match s {
        AxisStep::Finished(_) => m == AxisMotion::Idle,
        AxisStep::PollStepper => awaits_update(m),
        AxisStep::ReadSwitchLow => m == AxisMotion::CheckingHome,
        AxisStep::ReadSwitchHigh => m == AxisMotion::CheckingLimit,
    }
}

/// An axis failure, as reported for a job of the given kind.
fn wrap(kind: JobKind, e: AxisError) -> (r: Error)
    ensures
        r == spec_wrap(kind, e),
{
    match kind {
        JobKind::Movement => Error::MovementError(e),
        JobKind::Homing => Error::HomingError(e),
    }
}

/// The operations a command stands for (see `spec_plan`).
pub fn plan_for(command: ControllerCommand, settings: BlindsUserSettings) -> (r: Vec<(AxisId, AxisOp)>)
    ensures
        r@ == spec_plan(command, settings),
{
    let mut plan = Vec::new();
    match command {
        ControllerCommand::Move(m) => {
            plan.push((AxisId::Angle, AxisOp::MoveTo { step: settings.angle_open, speed: m.lateral.speed }));
            plan.push((AxisId::Lateral, AxisOp::MoveTo { step: m.lateral.position, speed: m.lateral.speed }));
            plan.push((AxisId::Angle, AxisOp::MoveTo { step: m.angle.position, speed: m.lateral.speed }));
        },
        ControllerCommand::Home => {
            plan.push((AxisId::Angle, AxisOp::Home));
            plan.push((AxisId::Lateral, AxisOp::Home));
        },
        _ => {},
    }
    proof {
        assert(plan@ =~= spec_plan(command, settings));
    }
    plan
}

} // verus!

verus! {

/// Opening and closing move no axis: the command finishes at once and the
/// axes are left as they were.
pub proof fn law_open_close_move_nothing(c: ControllerView, command: ControllerCommand)
    requires
        command == ControllerCommand::Open || command == ControllerCommand::Close,
    ensures
        spec_execute(c, command).1 matches ControllerStep::Finished(Ok(())),
        spec_execute(c, command).0.angle == c.angle,
        spec_execute(c, command).0.lateral == c.lateral,
        spec_execute(c, command).0.pending == c.pending,
{
}

/// A move starts by opening the slats: the angle axis is sent to the open
/// angle at the lateral target's speed, and the lateral travel and the
/// final angle wait their turn.
pub proof fn law_move_opens_slats_first(c: ControllerView, m: crate::web_protocol::MoveCommand)
    requires
        c.angle.homed,
        0 <= c.settings.angle_open <= c.angle.settings.range,
    ensures
        ({
            let (c2, s) = spec_execute(c, ControllerCommand::Move(m));
            &&& s matches ControllerStep::PollStepper(AxisId::Angle)
            &&& c2.active == Some(AxisId::Angle)
            &&& c2.angle.motion == AxisMotion::Moving
            &&& c2.angle.commands == c.angle.commands.push(crate::axis::StepperCommand::MoveTo {
                velocity: crate::axis::spec_velocity(c.angle.settings, m.lateral.speed),
                target: c.settings.angle_open,
            })
            &&& c2.lateral == c.lateral
            &&& c2.pending == seq![
                (AxisId::Lateral, AxisOp::MoveTo { step: m.lateral.position, speed: m.lateral.speed }),
                (AxisId::Angle, AxisOp::MoveTo { step: m.angle.position, speed: m.lateral.speed }),
            ]
        }),
{
    let plan = spec_plan(ControllerCommand::Move(m), c.settings);
    assert(plan.drop_first() =~= seq![
        (AxisId::Lateral, AxisOp::MoveTo { step: m.lateral.position, speed: m.lateral.speed }),
        (AxisId::Angle, AxisOp::MoveTo { step: m.angle.position, speed: m.lateral.speed }),
    ]);
    let v = c.angle;
    let (v1, s1) = spec_move_to(v, c.settings.angle_open, m.lateral.speed);
    assert(v1.commands =~= v.commands.push(crate::axis::StepperCommand::MoveTo {
        velocity: crate::axis::spec_velocity(v.settings, m.lateral.speed),
        target: c.settings.angle_open,
    }));
}

/// A move whose first operation fails stops there: the failure is
/// reported as a movement error, nothing stays pending, and the lateral
/// axis is never touched.
pub proof fn law_move_stops_at_first_failure(c: ControllerView, m: crate::web_protocol::MoveCommand)
    requires
        c.settings.angle_open < 0 || c.settings.angle_open > c.angle.settings.range,
    ensures
        ({
            let (c2, s) = spec_execute(c, ControllerCommand::Move(m));
            &&& s matches ControllerStep::Finished(Err(Error::MovementError(AxisError::OutOfRange)))
            &&& c2.active is None
            &&& c2.pending.len() == 0
            &&& c2.lateral == c.lateral
            &&& c2.angle == c.angle
        }),
{
}

/// A move on blinds whose angle axis has not been homed is refused at its
/// first operation with a `NotHomed` movement error: nothing is sent to
/// either stepper and nothing stays pending.
pub proof fn law_move_needs_homing(c: ControllerView, m: crate::web_protocol::MoveCommand)
    requires
        !c.angle.homed,
        0 <= c.settings.angle_open <= c.angle.settings.range,
    ensures
        ({
            let (c2, s) = spec_execute(c, ControllerCommand::Move(m));
            &&& s matches ControllerStep::Finished(Err(Error::MovementError(AxisError::NotHomed)))
            &&& c2.active is None
            &&& c2.pending.len() == 0
            &&& c2.angle == c.angle
            &&& c2.lateral == c.lateral
        }),
{
}

/// Homing homes the angle axis first, with the lateral axis waiting; a
/// failure while homing is reported as a homing error.
pub proof fn law_home_angle_first(c: ControllerView)
    ensures
        ({
            let (c2, s) = spec_execute(c, ControllerCommand::Home);
            &&& s matches ControllerStep::PollStepper(AxisId::Angle)
            &&& c2.angle.motion == AxisMotion::Seeking
            &&& c2.lateral == c.lateral
            &&& c2.kind == JobKind::Homing
            &&& c2.pending == seq![(AxisId::Lateral, AxisOp::Home)]
        }),
        ({
            let (c2, s) = spec_execute(c, ControllerCommand::Home);
            let (a, t) = spec_on_update(c2.angle, Ok(false));
            spec_continue(spec_with_axis(c2, AxisId::Angle, a), t).1
                matches ControllerStep::Finished(Err(Error::HomingError(AxisError::HomeLimitReached)))
        }),
{
    let plan = spec_plan(ControllerCommand::Home, c.settings);
    assert(plan.drop_first() =~= seq![(AxisId::Lateral, AxisOp::Home)]);
}

} // verus!

verus! {

/// However the hardware answers, a job that ends, in success or failure,
/// leaves the controller ready for the next command: consistent, no axis
/// busy and nothing pending, which is what `execute` asks of it.
pub proof fn law_job_ends_ready(c: ControllerView, s: AxisStep)
    requires
        c.active is Some,
        spec_step_matches(c, s),
        spec_axis(c, other(c.active->0)).motion == AxisMotion::Idle,
    ensures
        spec_continue(c, s).1 is Finished ==> {
            let done = spec_continue(c, s).0;
            &&& spec_controller_ok(done)
            &&& done.active is None
            &&& done.pending.len() == 0
            &&& done.angle.motion == AxisMotion::Idle
            &&& done.lateral.motion == AxisMotion::Idle
        },
    decreases c.pending.len(),
{
    match s {
        AxisStep::Finished(Ok(())) => {
            if c.pending.len() > 0 {
                let next = c.pending[0];
                let c1 = ControllerView { pending: c.pending.drop_first(), ..c };
                let (c2, s2) = spec_start_op(c1, next.0, next.1);
                law_job_ends_ready(c2, s2);
            }
        },
        _ => {},
    }
}

} // verus!

verus! {

/// A move whose three motions each run to the end without touching a limit
/// succeeds, having sent the angle axis to the open angle and then to the
/// requested angle, and the lateral axis to the requested position, all at
/// the lateral target's speed.
pub proof fn law_move_completes(c: ControllerView, m: crate::web_protocol::MoveCommand)
    requires
        c.angle.homed,
        c.lateral.homed,
        0 <= c.settings.angle_open <= c.angle.settings.range,
        0 <= m.lateral.position <= c.lateral.settings.range,
        0 <= m.angle.position <= c.angle.settings.range,
    ensures
        ({
            let (c1, s1) = spec_execute(c, ControllerCommand::Move(m));
            let (a1, t1) = spec_on_update(c1.angle, Ok(false));
            let (c2, s2) = spec_continue(spec_with_axis(c1, AxisId::Angle, a1), t1);
            let (l2, t2) = spec_on_update(c2.lateral, Ok(false));
            let (c3, s3) = spec_continue(spec_with_axis(c2, AxisId::Lateral, l2), t2);
            let (a3, t3) = spec_on_update(c3.angle, Ok(false));
            let (c4, s4) = spec_continue(spec_with_axis(c3, AxisId::Angle, a3), t3);
            let speed = m.lateral.speed;
            &&& s1 matches ControllerStep::PollStepper(AxisId::Angle)
            &&& s2 matches ControllerStep::PollStepper(AxisId::Lateral)
            &&& s3 matches ControllerStep::PollStepper(AxisId::Angle)
            &&& s4 matches ControllerStep::Finished(Ok(()))
            &&& c4.angle.commands == c.angle.commands + seq![
                crate::axis::StepperCommand::MoveTo {
                    velocity: crate::axis::spec_velocity(c.angle.settings, speed),
                    target: c.settings.angle_open,
                },
                crate::axis::StepperCommand::MoveTo {
                    velocity: crate::axis::spec_velocity(c.angle.settings, speed),
                    target: m.angle.position,
                },
            ]
            &&& c4.lateral.commands == c.lateral.commands + seq![
                crate::axis::StepperCommand::MoveTo {
                    velocity: crate::axis::spec_velocity(c.lateral.settings, speed),
                    target: m.lateral.position,
                },
            ]
            &&& c4.active is None
        }),
{
    reveal_with_fuel(spec_continue, 3);
    let plan = spec_plan(ControllerCommand::Move(m), c.settings);
    let rest = seq![
        (AxisId::Lateral, AxisOp::MoveTo { step: m.lateral.position, speed: m.lateral.speed }),
        (AxisId::Angle, AxisOp::MoveTo { step: m.angle.position, speed: m.lateral.speed }),
    ];
    assert(plan.drop_first() =~= rest);
    assert(rest.drop_first() =~= seq![(AxisId::Angle, AxisOp::MoveTo { step: m.angle.position, speed: m.lateral.speed })]);
    assert(rest.drop_first().drop_first() =~= Seq::<(AxisId, AxisOp)>::empty());
    let (c1, s1) = spec_execute(c, ControllerCommand::Move(m));
    let (a1, t1) = spec_on_update(c1.angle, Ok(false));
    let (c2, s2) = spec_continue(spec_with_axis(c1, AxisId::Angle, a1), t1);
    let (l2, t2) = spec_on_update(c2.lateral, Ok(false));
    let (c3, s3) = spec_continue(spec_with_axis(c2, AxisId::Lateral, l2), t2);
    let (a3, t3) = spec_on_update(c3.angle, Ok(false));
    let (c4, s4) = spec_continue(spec_with_axis(c3, AxisId::Angle, a3), t3);
    let speed = m.lateral.speed;
    let open_cmd = crate::axis::StepperCommand::MoveTo {
        velocity: crate::axis::spec_velocity(c.angle.settings, speed),
        target: c.settings.angle_open,
    };
    let angle_cmd = crate::axis::StepperCommand::MoveTo {
        velocity: crate::axis::spec_velocity(c.angle.settings, speed),
        target: m.angle.position,
    };
    let lateral_cmd = crate::axis::StepperCommand::MoveTo {
        velocity: crate::axis::spec_velocity(c.lateral.settings, speed),
        target: m.lateral.position,
    };
    assert(c1.angle.commands =~= c.angle.commands + seq![open_cmd]);
    assert(c3.lateral.commands =~= c.lateral.commands + seq![lateral_cmd]);
    assert(c4.angle.commands =~= c.angle.commands + seq![open_cmd, angle_cmd]);
    assert(c4.lateral.commands =~= c.lateral.commands + seq![lateral_cmd]);
}

/// Whatever is still pending, even nothing (the failing operation was the
/// plan's last), a failed operation ends the job with that very failure,
/// reported as a movement error for a move and as a homing error for a
/// homing; nothing stays pending and no axis is touched any further.
pub proof fn law_failure_ends_job(c: ControllerView, e: AxisError)
    requires
        c.active is Some,
    ensures
        ({
            let (c2, r) = spec_continue(c, AxisStep::Finished(Err(e)));
            &&& r == ControllerStep::Finished(Err(match c.kind {
                JobKind::Movement => Error::MovementError(e),
                JobKind::Homing => Error::HomingError(e),
            }))
            &&& c2.active is None
            &&& c2.pending.len() == 0
            &&& c2.angle == c.angle
            &&& c2.lateral == c.lateral
        }),
{
}

/// A successful operation with nothing left pending ends the job
/// successfully, with the axes as they are.
pub proof fn law_last_success_ends_job(c: ControllerView)
    requires
        c.active is Some,
        c.pending.len() == 0,
    ensures
        ({
            let (c2, r) = spec_continue(c, AxisStep::Finished(Ok(())));
            &&& r matches ControllerStep::Finished(Ok(()))
            &&& c2.active is None
            &&& c2.angle == c.angle
            &&& c2.lateral == c.lateral
        }),
{
}

/// An operation's step never changes the kind of the job it belongs to,
/// down to the job's end.
pub proof fn law_job_keeps_kind(c: ControllerView, s: AxisStep)
    requires
        c.active is Some,
    ensures
        spec_continue(c, s).0.kind == c.kind,
    decreases c.pending.len(),
{
    match s {
        AxisStep::Finished(Ok(())) => {
            if c.pending.len() > 0 {
                let next = c.pending[0];
                let c1 = ControllerView { pending: c.pending.drop_first(), ..c };
                let (c2, s2) = spec_start_op(c1, next.0, next.1);
                law_job_keeps_kind(c2, s2);
            }
        },
        _ => {},
    }
}

/// A homing command runs as a homing job and every other command as a
/// movement job, to the job's end, so that a failure of any of its
/// operations is reported by that kind.
pub proof fn law_job_kind(c: ControllerView, command: ControllerCommand)
    ensures
        spec_execute(c, command).0.kind == match command {
            ControllerCommand::Home => JobKind::Homing,
            _ => JobKind::Movement,
        },
{
    let plan = spec_plan(command, c.settings);
    if plan.len() > 0 {
        let kind = spec_kind(command);
        let (c2, s2) = spec_start_op(ControllerView { kind, pending: plan.drop_first(), ..c }, plan[0].0, plan[0].1);
        law_job_keeps_kind(c2, s2);
    }
}

} // verus!
