use rollo::astronomy::{Error as AstronomyError, SunState};
use rollo::board::BoardResourceBuilder;
use rollo::clock::{Duration, TimeOfDay};
use rollo::fixed_point::MCDelay;
use rollo::network::Error as NetworkError;
use rollo::scheduler::Scheduler;
use rollo::web_protocol::{ControllerCommand, SchedulerCommand};

fn sun(now: (u8, u8), sunrise: (u8, u8), sunset: (u8, u8)) -> SunState {
    SunState {
        current_time: TimeOfDay::from_hms(now.0, now.1, 0).unwrap(),
        sunrise: TimeOfDay::from_hms(sunrise.0, sunrise.1, 0).unwrap(),
        sunset: TimeOfDay::from_hms(sunset.0, sunset.1, 0).unwrap(),
    }
}

fn scheduler() -> Scheduler {
    let mut board = BoardResourceBuilder::resolve(MCDelay::from_num(1)).unwrap();
    let s = Scheduler::new(&mut board);
    assert!(board.clients[0].is_none());
    s
}

#[test]
fn starts_stopped_and_follows_commands() {
    let mut s = scheduler();
    assert!(!s.is_running());
    assert!(!s.on_wake(Err(NetworkError::BufferEmpty)));
    assert!(s.on_wake(Ok(SchedulerCommand::Start)));
    assert!(s.on_wake(Err(NetworkError::BufferEmpty)));
    assert!(s.on_wake(Err(NetworkError::ResourceBusy)));
    assert!(!s.on_wake(Ok(SchedulerCommand::Stop)));
}

#[test]
fn daytime_round_prepares_closing() {
    let mut s = scheduler();
    s.on_wake(Ok(SchedulerCommand::Start));
    // 10:00, sun up until 15:00: nothing to send yet, sleep until 15:10
    let (command, sleep) = s.process_schedule(Ok(sun((10, 0), (5, 0), (15, 0))));
    assert_eq!(command, None);
    assert_eq!(sleep, Duration::hours(5).add(Duration::minutes(10)));
    // 15:10, sun down until 05:00: close the blinds now, then prepare opening
    let (command, sleep) = s.process_schedule(Ok(sun((15, 10), (5, 0), (15, 0))));
    assert_eq!(command, Some(ControllerCommand::Close));
    assert_eq!(sleep, Duration::hours(13).add(Duration::minutes(50)).add(Duration::minutes(10)));
    let (command, _) = s.process_schedule(Ok(sun((5, 10), (5, 0), (15, 0))));
    assert_eq!(command, Some(ControllerCommand::Open));
}

#[test]
fn close_event_makes_the_scheduler_wait() {
    let mut s = scheduler();
    s.on_wake(Ok(SchedulerCommand::Start));
    s.process_schedule(Ok(sun((10, 0), (5, 0), (15, 0))));
    // an hour before sunset: the closing prepared earlier is sent, then idle
    let (command, sleep) = s.process_schedule(Ok(sun((14, 0), (5, 0), (15, 0))));
    assert_eq!(command, Some(ControllerCommand::Close));
    assert_eq!(sleep, Duration::hours(1).add(Duration::minutes(10)));
    let (command, _) = s.process_schedule(Ok(sun((15, 10), (5, 0), (15, 0))));
    assert_eq!(command, None);
}

#[test]
fn missing_sun_state_retries_in_a_minute() {
    let mut s = scheduler();
    s.on_wake(Ok(SchedulerCommand::Start));
    s.process_schedule(Ok(sun((10, 0), (5, 0), (15, 0))));
    let (command, sleep) = s.process_schedule(Err(AstronomyError::ResponseParsing));
    assert_eq!(command, None);
    assert_eq!(sleep, Duration::minutes(1));
    // the prepared action is kept for the next round
    let (command, _) = s.process_schedule(Ok(sun((15, 10), (5, 0), (15, 0))));
    assert_eq!(command, Some(ControllerCommand::Close));
}

#[test]
fn stop_drops_the_prepared_action() {
    let mut s = scheduler();
    s.on_wake(Ok(SchedulerCommand::Start));
    s.process_schedule(Ok(sun((10, 0), (5, 0), (15, 0))));
    s.on_wake(Ok(SchedulerCommand::Stop));
    s.on_wake(Ok(SchedulerCommand::Start));
    let (command, _) = s.process_schedule(Ok(sun((15, 10), (5, 0), (15, 0))));
    assert_eq!(command, None);
}

#[test]
fn sleep_splits_into_seconds() {
    let mut s = scheduler();
    let (_, sleep) = s.process_schedule(Ok(sun((10, 0), (5, 0), (15, 0))));
    assert_eq!(sleep.as_secs_nanos(), (5 * 3600 + 600, 0));
}
