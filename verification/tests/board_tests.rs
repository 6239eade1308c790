#[test]
fn it_works() {
    let result = 2 + 2;
    assert_eq!(result, 4);
}

use rollo::bal::client::Error as ClientError;
use rollo::bal::networking_types::{Method, Status};
use rollo::bal::stepper::HasStepper;
use rollo::bal::wifi::Error as WifiError;
use rollo::board::{parse_answer, BoardResourceBuilder, DelayToTicks, NanosecWrapper};
use rollo::board_wifi::{connect_wifi, Error as ConnectError};
use rollo::fixed_point::MCDelay;

#[test]
fn resolve_stocks_every_slot() {
    let board = BoardResourceBuilder::resolve(MCDelay::from_num(1000)).unwrap();
    assert_eq!(board.steppers[0].as_ref().unwrap().name(), "axis a stepper");
    assert_eq!(board.steppers[1].as_ref().unwrap().name(), "axis b stepper");
    assert_eq!(board.switches[0].as_ref().unwrap().name(), "axis a limit switch");
    assert_eq!(board.switches[1].as_ref().unwrap().name(), "axis b limit switch");
    assert!(board.wifis[0].is_some());
    assert!(board.servers[0].is_some());
    assert!(board.clients[0].is_some());
}

#[test]
fn stepper_can_be_taken_once() {
    let mut board = BoardResourceBuilder::resolve(MCDelay::from_num(1)).unwrap();
    let first = board.take_stepper(1);
    assert_eq!(first.unwrap().name(), "axis b stepper");
    assert!(board.take_stepper(1).is_none());
    assert!(board.steppers[0].is_some());
    assert!(board.take_stepper(2).is_none());
    assert_eq!(board.take_stepper(0).unwrap().name(), "axis a stepper");
}

#[test]
fn stepper_commands_are_accepted() {
    let mut board = BoardResourceBuilder::resolve(MCDelay::from_num(1)).unwrap();
    let mut stepper = board.take_stepper(0).unwrap();
    assert!(stepper.move_to_position(MCDelay::from_num(5), -100).is_ok());
    assert!(stepper.reset_position(-10).is_ok());
}

#[test]
fn answers_at_the_terminal() {
    assert_eq!(parse_answer("y\n"), Some(true));
    assert_eq!(parse_answer("yes"), Some(true));
    assert_eq!(parse_answer("n\n"), Some(false));
    assert_eq!(parse_answer("\n"), None);
    assert_eq!(parse_answer("Y"), None);
    assert_eq!(parse_answer("maybe"), None);
}

#[test]
fn client_status_codes() {
    let board = BoardResourceBuilder::resolve(MCDelay::from_num(1)).unwrap();
    let client = board.clients[0].as_ref().unwrap();
    assert_eq!(client.status_from_code(200), Ok(Status::Okay));
    assert_eq!(client.status_from_code(400), Ok(Status::BadRequest));
    assert_eq!(client.status_from_code(500), Ok(Status::InternalServerError));
    assert_eq!(client.status_from_code(404), Err(ClientError::UnknownStatus(404)));
    assert_eq!(client.status_from_code(201), Err(ClientError::UnknownStatus(201)));
}

#[test]
fn client_only_sends_get() {
    let board = BoardResourceBuilder::resolve(MCDelay::from_num(1)).unwrap();
    let client = board.clients[0].as_ref().unwrap();
    assert_eq!(client.check_method(Method::Get), Ok(()));
    assert_eq!(client.check_method(Method::Put), Err(ClientError::ReqCreate));
    assert_eq!(client.check_method(Method::Post), Err(ClientError::ReqCreate));
    assert_eq!(client.check_method(Method::Delete), Err(ClientError::ReqCreate));
}

#[test]
fn server_status_codes_round_trip() {
    let board = BoardResourceBuilder::resolve(MCDelay::from_num(1)).unwrap();
    let server = board.servers[0].as_ref().unwrap();
    let client = board.clients[0].as_ref().unwrap();
    assert_eq!(server.http_status_code(Status::Okay), 200);
    assert_eq!(server.http_status_code(Status::InternalServerError), 500);
    assert_eq!(server.http_status_code(Status::BadRequest), 400);
    for status in [Status::Okay, Status::InternalServerError, Status::BadRequest] {
        assert_eq!(client.status_from_code(server.http_status_code(status)), Ok(status));
    }
}

#[test]
fn delay_to_ticks_in_nanoseconds() {
    let d = DelayToTicks;
    // 2 seconds
    assert_eq!(d.delay_to_ticks(MCDelay::from_num(2)).unwrap().ns(), 2_000_000_000);
    // 0.5 seconds
    assert_eq!(d.delay_to_ticks(MCDelay::from_bits(1i128 << 63)).unwrap().ns(), 500_000_000);
    // a quarter of a nanosecond rounds down to 0, and its negative down to -1
    let tiny = (1i128 << 64) / 4_000_000_000;
    assert_eq!(d.delay_to_ticks(MCDelay::from_bits(tiny)).unwrap().ns(), 0);
    assert_eq!(d.delay_to_ticks(MCDelay::from_bits(-tiny)).unwrap().ns(), -1);
}

#[test]
fn nanosec_wrapper_arithmetic() {
    let a = NanosecWrapper::from_i64(1_500);
    let b: NanosecWrapper = NanosecWrapper::from(500i64);
    assert_eq!(a.sub(b).ns(), 1_000);
    assert_eq!(b.sub(a).ns(), -1_000);
}

#[test]
fn wifi_is_not_available() {
    let mut board = BoardResourceBuilder::resolve(MCDelay::from_num(1)).unwrap();
    let wifi = board.wifis[0].as_mut().unwrap();
    assert_eq!(wifi.scan::<Vec<u8>>(), Err(WifiError::Undefined));
    assert_eq!(wifi.get_capabilities::<u32>(), Err(WifiError::Undefined));
    assert_eq!(wifi.get_configuration::<String>(), Err(WifiError::Undefined));
    assert_eq!(wifi.set_configuration(&0u8), Err(WifiError::Undefined));
    assert_eq!(WifiError::Undefined.message(), "Used method not implemented");
}

#[test]
fn connect_wifi_reports_scan_failure() {
    let mut board = BoardResourceBuilder::resolve(MCDelay::from_num(1)).unwrap();
    let wifi = board.wifis[0].as_mut().unwrap();
    assert_eq!(connect_wifi(wifi.scan::<Vec<String>>()), Err(ConnectError::WifiScan));
    assert_eq!(connect_wifi::<Vec<String>>(Ok(vec!["ap".to_string()])), Ok(()));
}
