use rollo::astronomy::{Error as AstronomyError, SunPosition};
use rollo::bal::networking_types::{Method, Status};
use rollo::ip_geolocation::{get_time_from_sring, Getter, SunTimesText};

fn body(current: &str, sunrise: &str, sunset: &str) -> Option<SunTimesText> {
    Some(SunTimesText {
        current_time: current.to_string(),
        sunrise: sunrise.to_string(),
        sunset: sunset.to_string(),
    })
}

#[test]
fn astronomy_request() {
    let request = Getter {}.request().unwrap();
    assert_eq!(request.method, Method::Get);
    assert_eq!(request.url, "https://api.ipgeolocation.io/astronomy?apiKey=75bdd8f840044c509ab39667550643fe");
    assert_eq!(request.body, "");
}

#[test]
fn reply_is_read() {
    let state = Getter {}
        .sun_state_from_reply(Status::Okay, body("14:25:10.123", "06:12", "20:45"))
        .unwrap();
    assert_eq!(state.current_time.as_hms_nano(), (14, 25, 10, 123_000_000));
    assert_eq!(state.sunrise.as_hms_nano(), (6, 12, 0, 0));
    assert_eq!(state.sunset.as_hms_nano(), (20, 45, 0, 0));
    assert_eq!(state.get_current_sun_pos(), SunPosition::Up);
}

#[test]
fn failed_reply_is_undefined() {
    let g = Getter {};
    assert_eq!(g.sun_state_from_reply(Status::BadRequest, body("14:25:10.123", "06:12", "20:45")).unwrap_err(), AstronomyError::Undefined);
    assert_eq!(g.sun_state_from_reply(Status::InternalServerError, None).unwrap_err(), AstronomyError::Undefined);
}

#[test]
fn undecodable_reply_is_a_parsing_error() {
    let g = Getter {};
    assert_eq!(g.sun_state_from_reply(Status::Okay, None).unwrap_err(), AstronomyError::ResponseParsing);
    // the current time needs its seconds and milliseconds
    assert_eq!(g.sun_state_from_reply(Status::Okay, body("14:25", "06:12", "20:45")).unwrap_err(), AstronomyError::ResponseParsing);
    assert_eq!(g.sun_state_from_reply(Status::Okay, body("14:25:10.123", "6 am", "20:45")).unwrap_err(), AstronomyError::ResponseParsing);
    assert_eq!(g.sun_state_from_reply(Status::Okay, body("14:25:10.123", "06:12", "25:00")).unwrap_err(), AstronomyError::ResponseParsing);
}

#[test]
fn string_times_read_as_midnight() {
    assert_eq!(get_time_from_sring("12:00".to_string()).unwrap().as_hms_nano(), (0, 0, 0, 0));
}
