use rollo::bal::networking_types::{Method, Status};
use rollo::bal::server::Error as ServerError;
use rollo::esp32_board::{esp_route, esp_status_code, ping_outcome, EspRoute, PingError};

#[test]
fn esp_routes() {
    assert_eq!(esp_route(Method::Get), Ok(EspRoute::Get));
    assert_eq!(esp_route(Method::Put), Ok(EspRoute::Put));
    assert_eq!(esp_route(Method::Post), Err(ServerError::Undefined));
    assert_eq!(esp_route(Method::Delete), Err(ServerError::Undefined));
}

#[test]
fn esp_status_codes() {
    assert_eq!(esp_status_code(Status::Okay), 200);
    assert_eq!(esp_status_code(Status::InternalServerError), 400);
    assert_eq!(esp_status_code(Status::BadRequest), 500);
}

#[test]
fn ping_outcomes() {
    assert_eq!(ping_outcome(5, 5), Ok(()));
    assert_eq!(ping_outcome(5, 4), Err(PingError::Timeout));
    assert_eq!(ping_outcome(0, 0), Ok(()));
}
