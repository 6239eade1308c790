use rollo::bal::networking_types::Status;
use rollo::bal::server::Error as ServerError;
use rollo::board::BoardResourceBuilder;
use rollo::board_wifi::Error as ConnectError;
use rollo::fixed_point::MCDelay;
use rollo::network::{command_response, Network, Error as NetworkError};
use rollo::web_protocol::Error as ProtocolError;

#[test]
fn accepted_command_is_acknowledged() {
    let r = command_response(Ok(Ok(())));
    assert_eq!(r.status, Status::Okay);
    assert_eq!(r.body, "a-ok");
}

#[test]
fn refused_command_is_a_server_error() {
    let r = command_response(Ok(Err(NetworkError::BufferFull)));
    assert_eq!(r.status, Status::InternalServerError);
    assert_eq!(r.body, "Can't push command to the buffer");
    let r = command_response(Ok(Err(NetworkError::ResourceBusy)));
    assert_eq!(r.body, "Resource busy");
    let r = command_response(Ok(Err(NetworkError::ResourceNotAvailable)));
    assert_eq!(r.body, "Resource Not available");
}

#[test]
fn unparsable_request_is_a_bad_request() {
    let r = command_response(Err(ProtocolError::Deserialize));
    assert_eq!(r.status, Status::BadRequest);
    assert_eq!(r.body, "Couldn't Deserialize the request");
    assert_eq!(ProtocolError::RequestParsing.message(), "Couldn't parse the request");
    assert_eq!(ProtocolError::Driver.message(), "Stepper driver encountered an error");
    assert_eq!(ProtocolError::MotionControl.message(), "Motion controller calculation error");
}

#[test]
fn network_error_messages() {
    assert_eq!(NetworkError::WifiConnection(ConnectError::Config).message(), "Couldn't connect to wifi");
    assert_eq!(NetworkError::RegisterEndpoint.message(), "Couldn't register endpoint");
    assert_eq!(
        NetworkError::ServerCreation(ServerError::Start).message(),
        "Couldn't start web server: Could not start the server"
    );
    assert_eq!(NetworkError::BufferEmpty.message(), "No command to pop from the buffer");
    assert_eq!(ServerError::Register.message(), "Could not register handler to server");
    assert_eq!(ServerError::Undefined.message(), "Used method not implemented");
}

#[test]
fn network_takes_wifi_and_server() {
    let mut board = BoardResourceBuilder::resolve(MCDelay::from_num(1)).unwrap();
    let network = Network::new(&mut board, 7u8);
    assert_eq!(network.thread_signals, 7u8);
    assert!(board.wifis[0].is_none());
    assert!(board.servers[0].is_none());
    assert!(board.clients[0].is_some());
    assert!(board.steppers[0].is_some());
}
