//! The decisions of the ESP32 board's server and network check, apart
//! from the ESP-IDF calls they sit between.
use vstd::prelude::*;
use crate::bal::networking_types::{Method, Status};
use crate::bal::server::Error as ServerError;

verus! {

/// The kinds of route the ESP32 web server registers.
#[derive(Clone, Copy, Debug, PartialEq, Eq, Structural)]
pub enum EspRoute {
    Get,
    Put,
}

/// The route kind for a handler's method: the ESP32 server registers
/// `GET` and `PUT` routes and refuses any other method with `Undefined`.
pub fn esp_route(method: Method) -> (r: Result<EspRoute, ServerError>)
    ensures
        method == Method::Get ==> r == Ok::<EspRoute, ServerError>(EspRoute::Get),
        method == Method::Put ==> r == Ok::<EspRoute, ServerError>(EspRoute::Put),
        method != Method::Get && method != Method::Put ==> r == Err::<EspRoute, ServerError>(ServerError::Undefined),
{
    match method {
        Method::Get => Ok(EspRoute::Get),
        Method::Put => Ok(EspRoute::Put),
        _ => Err(ServerError::Undefined),
    }
}

/// The HTTP status code the ESP32 server answers with. Unlike the host
/// server, it sends server errors as 400 and bad requests as 500.
pub fn esp_status_code(status: Status) -> (r: u16)
    ensures
        status == Status::Okay ==> r == 200,
        status == Status::InternalServerError ==> r == 400,
        status == Status::BadRequest ==> r == 500,
{
    match status {
        Status::Okay => 200,
        Status::InternalServerError => 400,
        Status::BadRequest => 500,
    }
}

/// Why pinging the gateway failed.
#[derive(Clone, Copy, Debug, PartialEq, Eq, Structural)]
pub enum PingError {
    SetUp,
    Timeout,
}

/// The outcome of pinging the gateway, given how many echo requests were
/// sent and how many answers came back: any lost answer is a `Timeout`.
pub fn ping_outcome(transmitted: u32, received: u32) -> (r: Result<(), PingError>)
    ensures
        transmitted == received ==> r is Ok,
        transmitted != received ==> r == Err::<(), PingError>(PingError::Timeout),
{
    if transmitted != received {
        return Err(PingError::Timeout);
    }
    Ok(())
}

} // verus!
