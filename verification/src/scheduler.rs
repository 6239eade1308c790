//! The scheduler: once started, it follows the sun, opening the blinds
//! after sunrise and closing them after sunset.
//!
//! Each time it wakes up the scheduler first takes in any command it was
//! sent (`on_wake`); when running, it is then given the sun's state (or
//! why that could not be had) and decides which command to send the blinds
//! controller and how long to sleep (`process_schedule`).
use vstd::prelude::*;
use crate::astronomy::{Error as AstronomyError, SunPosition, SunState};
use crate::board::{BoardResources, ClientContainer};
use crate::clock::{Duration, nanos_per_day, nanos_per_hour, nanos_per_minute};
use crate::ip_geolocation::Getter;
use crate::network::Error as NetworkError;
use crate::web_protocol::{ControllerCommand, SchedulerCommand};

verus! {

/// Why the scheduler could not go on.
#[derive(Debug, PartialEq, Eq)]
pub enum Error {
    Threading(NetworkError),
    Undefined,
}

/// What the scheduler will tell the blinds controller at its next round.
#[derive(Clone, Copy, Debug, PartialEq, Eq, Structural)]
pub enum SchedulerAction {
    OpenBlinds,
    CloseBlinds,
    Idle,
}

/// The command a pending action sends.
pub open spec fn spec_action_command(action: SchedulerAction) -> Option<ControllerCommand> {
    match action {
        SchedulerAction::OpenBlinds => Some(ControllerCommand::Open),
        SchedulerAction::CloseBlinds => Some(ControllerCommand::Close),
        SchedulerAction::Idle => None,
    }
}

/// The outcome of one round of the schedule, given the action pending and
/// the sun's state: the action to keep pending, the command to send now,
/// and how long to sleep (in nanoseconds).
///
/// Without the sun's state nothing is sent and the round is retried in a
/// minute. With it, the pending action's command is sent; if the next
/// sunrise or sunset is less than two hours away the scheduler goes idle,
/// otherwise it prepares to close the blinds while the sun is up and to
/// open them while it is down; either way it sleeps until ten minutes
/// after the next event.
pub open spec fn spec_process_schedule(
    action: SchedulerAction,
    sun: Result<SunState, AstronomyError>,
) -> (SchedulerAction, Option<ControllerCommand>, int) {
    match sun {
        Err(_) => (action, None, nanos_per_minute()),
        Ok(s) => {
            let command = spec_action_command(action);
            let next = s.spec_time_to_next();
            let sleep = next + 10 * nanos_per_minute();
            if next < 2 * nanos_per_hour() {
                (SchedulerAction::Idle, command, sleep)
            } else {
                let new_action = match s.spec_position() {
                    SunPosition::Up => SchedulerAction::CloseBlinds,
                    SunPosition::Down => SchedulerAction::OpenBlinds,
                };
                (new_action, command, sleep)
            }
        },
    }
}

/// The scheduler's state after a wake-up with the given command (or error
/// from its buffer): start and stop set whether it runs and clear the
/// pending action; no command leaves it as it was.
pub open spec fn spec_on_wake(running: bool, action: SchedulerAction, popped: Result<SchedulerCommand, NetworkError>) -> (bool, SchedulerAction) {
    match popped {
        Ok(SchedulerCommand::Start) => (true, SchedulerAction::Idle),
        Ok(SchedulerCommand::Stop) => (false, SchedulerAction::Idle),
        Err(_) => (running, action),
    }
}

/// The scheduler's state: whether it runs and the action it will take.
pub struct SchedulerView {
    pub running: bool,
    pub action: SchedulerAction,
}

/// The scheduler.
pub struct Scheduler {
    client: ClientContainer,
    astronomy_getter: Getter,
    running: bool,
    action: SchedulerAction,
}

impl View for Scheduler {
    type V = SchedulerView;

    closed spec fn view(&self) -> SchedulerView {
        SchedulerView { running: self.running, action: self.action }
    }
}

impl Scheduler {
    /// A stopped scheduler with nothing pending, using the board's HTTP client.
    pub fn new(board: &mut BoardResources) -> (r: Scheduler)
        requires
            old(board).clients[0] is Some,
        ensures
            !r@.running,
            r@.action == SchedulerAction::Idle,
            final(board).clients[0] is None,
            final(board).steppers == old(board).steppers,
            final(board).switches == old(board).switches,
            final(board).wifis == old(board).wifis,
            final(board).servers == old(board).servers,
    {
        let mut client = None;
        std::mem::swap(&mut client, &mut board.clients[0]);
        Scheduler {
            client: client.unwrap(),
            astronomy_getter: Getter {},
            running: false,
            action: SchedulerAction::Idle,
        }
    }

    /// The client the scheduler asks for the sun's state with.
    pub closed spec fn spec_client(&self) -> ClientContainer {
        self.client
    }

    /// How the scheduler finds out the sun's state.
    pub closed spec fn spec_astronomy_getter(&self) -> Getter {
        self.astronomy_getter
    }

    /// The client the scheduler asks for the sun's state with, lent out:
    /// what is done to it through the reference is done to the scheduler's
    /// own client, and nothing else of the scheduler changes.
    pub fn client_mut(&mut self) -> (r: &mut ClientContainer)
        ensures
            *r == old(self).spec_client(),
            final(self).spec_client() == *final(r),
            final(self)@ == old(self)@,
            final(self).spec_astronomy_getter() == old(self).spec_astronomy_getter(),
    {
        &mut self.client
    }

    /// How the scheduler finds out the sun's state.
    pub fn astronomy_getter(&self) -> (r: &Getter)
        ensures
            *r == self.spec_astronomy_getter(),
    {
        &self.astronomy_getter
    }

    /// Whether the scheduler is running.
    pub fn is_running(&self) -> (r: bool)
        ensures
            r == self@.running,
    {
        self.running
    }

    /// Takes in what the scheduler's command buffer gave on waking up, and
    /// tells whether a round of the schedule is due (the scheduler runs).
    pub fn on_wake(&mut self, popped: Result<SchedulerCommand, NetworkError>) -> (r: bool)
        ensures
            (final(self)@.running, final(self)@.action) == spec_on_wake(old(self)@.running, old(self)@.action, popped),
            r == final(self)@.running,
            final(self).spec_client() == old(self).spec_client(),
            final(self).spec_astronomy_getter() == old(self).spec_astronomy_getter(),
    {
        match popped {
            Ok(SchedulerCommand::Start) => {
                self.running = true;
                self.action = SchedulerAction::Idle;
            },
            Ok(SchedulerCommand::Stop) => {
                self.running = false;
                self.action = SchedulerAction::Idle;
            },
            Err(_) => {},
        }
        self.running
    }

    /// One round of the schedule (see `spec_process_schedule`): the command
    /// to send the blinds controller, if any, and how long to sleep.
    pub fn process_schedule(&mut self, sun: Result<SunState, AstronomyError>) -> (r: (Option<ControllerCommand>, Duration))
        ensures
            ({
                let (action, command, sleep) = spec_process_schedule(old(self)@.action, sun);
                &&& final(self)@.action == action
                &&& r.0 == command
                &&& r.1.nanos == sleep
            }),
            final(self)@.running == old(self)@.running,
            final(self).spec_client() == old(self).spec_client(),
            final(self).spec_astronomy_getter() == old(self).spec_astronomy_getter(),
    {
        match sun {
            Ok(sun_s) => {
                let command = match self.action {
                    SchedulerAction::OpenBlinds => Some(ControllerCommand::Open),
                    SchedulerAction::CloseBlinds => Some(ControllerCommand::Close),
                    SchedulerAction::Idle => None,
                };
                let time_to_next_event = sun_s.get_time_to_next_event();
                if time_to_next_event.is_shorter_than(&Duration::hours(2)) {
                    self.action = SchedulerAction::Idle;
                    return (command, time_to_next_event.add(Duration::minutes(10)));
                }
                match sun_s.get_current_sun_pos() {
                    SunPosition::Up => {
                        self.action = SchedulerAction::CloseBlinds;
                    },
                    SunPosition::Down => {
                        self.action = SchedulerAction::OpenBlinds;
                    },
                }
                (command, sun_s.get_time_to_next_event().add(Duration::minutes(10)))
            },
            Err(_) => (None, Duration::minutes(1)),
        }
    }
}

} // verus!

verus! {

/// The scheduler never spins: every round sleeps at least a minute, and
/// less than a day and ten minutes.
pub proof fn law_schedule_sleep_bounded(action: SchedulerAction, sun: Result<SunState, AstronomyError>)
    requires
        sun is Ok ==> sun->Ok_0.current_time.is_valid() && sun->Ok_0.sunrise.is_valid()
            && sun->Ok_0.sunset.is_valid(),
    ensures
        nanos_per_minute() <= spec_process_schedule(action, sun).2 < nanos_per_day() + 10 * nanos_per_minute(),
{
    if sun is Ok {
        crate::astronomy::law_time_to_next_event_reaches_event(sun->Ok_0);
    }
}

/// Stopping or starting the scheduler drops the pending action: the next
/// round sends the blinds controller nothing.
pub proof fn law_wake_command_clears_action(
    running: bool,
    action: SchedulerAction,
    command: SchedulerCommand,
    sun: Result<SunState, AstronomyError>,
)
    ensures
        spec_process_schedule(spec_on_wake(running, action, Ok(command)).1, sun).1 is None,
        spec_on_wake(running, action, Ok(command)).0 == (command == SchedulerCommand::Start),
{
}

/// A round that has the sun's state, with the next event at least two
/// hours away, prepares the blinds for the sun: at the following round the
/// scheduler closes them if the sun was up and opens them if it was down.
pub proof fn law_schedule_follows_the_sun(
    action: SchedulerAction,
    state: SunState,
    later: SunState,
)
    requires
        state.spec_time_to_next() >= 2 * nanos_per_hour(),
    ensures
        spec_process_schedule(spec_process_schedule(action, Ok(state)).0, Ok(later)).1 == match state.spec_position() {
            SunPosition::Up => Some(ControllerCommand::Close),
            SunPosition::Down => Some(ControllerCommand::Open),
        },
{
}

/// Whenever the sun's state could not be had, whatever the reason, a round
/// sends the blinds controller nothing, keeps the pending action for a
/// later round, and tries again after exactly one minute.
pub proof fn law_no_sun_state_retries_in_a_minute(action: SchedulerAction, e: AstronomyError)
    ensures
        spec_process_schedule(action, Err(e)).0 == action,
        spec_process_schedule(action, Err(e)).1 is None,
        spec_process_schedule(action, Err(e)).2 == 60_000_000_000int,
{
}

/// A round that has the sun's state sends the command the previous round
/// prepared (open, close, or nothing when idle) and sleeps until ten
/// minutes after the next sunrise or sunset. With that event less than two
/// hours away it prepares nothing; otherwise it prepares to close the
/// blinds while the sun is up and to open them while it is down.
pub proof fn law_round_with_sun_state(action: SchedulerAction, state: SunState)
    ensures
        ({
            let (next_action, command, sleep) = spec_process_schedule(action, Ok(state));
            &&& command == match action {
                SchedulerAction::OpenBlinds => Some(ControllerCommand::Open),
                SchedulerAction::CloseBlinds => Some(ControllerCommand::Close),
                SchedulerAction::Idle => None,
            }
            &&& sleep == state.spec_time_to_next() + 600_000_000_000int
            &&& state.spec_time_to_next() < 7_200_000_000_000int ==> next_action == SchedulerAction::Idle
            &&& state.spec_time_to_next() >= 7_200_000_000_000int ==> next_action == match state.spec_position() {
                SunPosition::Up => SchedulerAction::CloseBlinds,
                SunPosition::Down => SchedulerAction::OpenBlinds,
            }
        }),
{
}

/// A wake-up that brings no command (the buffer gave an error, as on the
/// ordinary timeout) leaves the scheduler as it was: running or not, with
/// the same action pending, so a close or open prepared before it is still
/// sent at the following round. A start makes it run and a stop stops it,
/// each with nothing pending.
pub proof fn law_wake_up(running: bool, action: SchedulerAction, popped: Result<SchedulerCommand, NetworkError>, state: SunState)
    ensures
        popped is Err ==> spec_on_wake(running, action, popped) == (running, action),
        popped is Err ==> spec_process_schedule(spec_on_wake(running, action, popped).1, Ok(state)).1
            == spec_process_schedule(action, Ok(state)).1,
        popped == Ok::<SchedulerCommand, NetworkError>(SchedulerCommand::Start)
            ==> spec_on_wake(running, action, popped) == (true, SchedulerAction::Idle),
        popped == Ok::<SchedulerCommand, NetworkError>(SchedulerCommand::Stop)
            ==> spec_on_wake(running, action, popped) == (false, SchedulerAction::Idle),
{
}

} // verus!
