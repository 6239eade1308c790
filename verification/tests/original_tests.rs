use rollo::astronomy::{SunPosition, SunState};
use rollo::clock::{Duration, TimeOfDay};

fn time(hour: u8, minute: u8) -> TimeOfDay {
    TimeOfDay::from_hms(hour, minute, 0).unwrap()
}

#[test]
fn lib_it_works() {
    let result = 2 + 2;
    assert_eq!(result, 4);
}

#[test]
fn test_sunstate() {
    let mut state = SunState {
        current_time: time(2, 0),
        sunset: time(15, 0),
        sunrise: time(5, 0),
    };
    assert_eq!(state.get_time_to_next_event(), Duration::hours(3));
    let res = state.get_current_sun_pos();
    assert_eq!(res, SunPosition::Down);
    state.current_time = time(10, 0);
    assert_eq!(state.get_time_to_next_event(), Duration::hours(5));
    assert_eq!(state.get_current_sun_pos(), SunPosition::Up);
    state.current_time = time(20, 0);
    assert_eq!(state.get_time_to_next_event(), Duration::hours(9));
    assert_eq!(state.get_current_sun_pos(), SunPosition::Down);

    let mut state = SunState {
        current_time: time(2, 0),
        sunset: time(5, 0),
        sunrise: time(15, 0),
    };
    assert_eq!(state.get_time_to_next_event(), Duration::hours(3));
    assert_eq!(state.get_current_sun_pos(), SunPosition::Up);
    state.current_time = time(10, 0);
    assert_eq!(state.get_time_to_next_event(), Duration::hours(5));
    assert_eq!(state.get_current_sun_pos(), SunPosition::Down);
    state.current_time = time(20, 0);
    assert_eq!(state.get_time_to_next_event(), Duration::hours(9));
    assert_eq!(state.get_current_sun_pos(), SunPosition::Up);
}

#[test]
fn time_to_next_event_lands_on_the_event() {
    let sunrise = TimeOfDay::from_hms(6, 30, 0).unwrap();
    let sunset = TimeOfDay::from_hms(21, 15, 0).unwrap();
    for (h, m) in [(0, 0), (6, 30), (6, 31), (12, 0), (21, 15), (23, 59)] {
        let now = TimeOfDay::from_hms(h, m, 0).unwrap();
        let state = SunState { current_time: now, sunset, sunrise };
        let wait = state.get_time_to_next_event().nanos;
        assert!(wait >= 0 && wait < 86_400_000_000_000);
        let target = match state.get_current_sun_pos() {
            SunPosition::Up => sunset,
            SunPosition::Down => sunrise,
        };
        assert_eq!((now.nanos_since_midnight() + wait) % 86_400_000_000_000, target.nanos_since_midnight());
    }
}

#[test]
fn sun_at_the_event_instants() {
    let sunrise = TimeOfDay::from_hms(6, 0, 0).unwrap();
    let sunset = TimeOfDay::from_hms(18, 0, 0).unwrap();
    let at = |t: TimeOfDay| SunState { current_time: t, sunset, sunrise }.get_current_sun_pos();
    assert_eq!(at(sunrise), SunPosition::Down);
    assert_eq!(at(sunset), SunPosition::Down);
    assert_eq!(at(TimeOfDay::from_hms(6, 0, 1).unwrap()), SunPosition::Up);
    // sunrise exactly now: the next event is zero away
    assert_eq!(SunState { current_time: sunrise, sunset, sunrise }.get_time_to_next_event(), Duration::nanoseconds(0));
    // sunrise and sunset at the same instant: always down
    let same = SunState { current_time: TimeOfDay::from_hms(3, 0, 0).unwrap(), sunset: sunrise, sunrise };
    assert_eq!(same.get_current_sun_pos(), SunPosition::Down);
}
