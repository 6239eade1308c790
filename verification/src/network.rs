//! The network side: taking the board's network resources and answering
//! command requests.
use vstd::prelude::*;
use crate::bal::networking_types::{Response, Status};
use crate::bal::server::Error as ServerError;
use crate::board::{BoardResources, ServerContainer, WifiContainer};
use crate::board_wifi::Error as ConnectError;
use crate::command_queue::{ControllerCommandBuffer, SchedulerCommandBuffer, spec_buffer_push, spec_buffer_push_result};
use crate::web_protocol::{Command, Error as ProtocolError, spec_protocol_message};

verus! {

/// Why the network side could not do what was asked.
#[derive(Debug, PartialEq, Eq)]
pub enum Error {
    WifiConnection(ConnectError),
    RegisterEndpoint,
    ServerCreation(ServerError),
    ResourceBusy,
    ResourceNotAvailable,
    BufferFull,
    BufferEmpty,
}

/// The message of each server error.
pub open spec fn spec_server_message(e: ServerError) -> Seq<char> {
    match e {
        ServerError::Register => "Could not register handler to server"@,
        ServerError::Undefined => "Used method not implemented"@,
        ServerError::Start => "Could not start the server"@,
    }
}

impl ServerError {
    /// The error's message.
    pub fn message(&self) -> (r: String)
        ensures
            r@ == spec_server_message(*self),
    {
        match self {
            ServerError::Register => String::from_str("Could not register handler to server"),
            ServerError::Undefined => String::from_str("Used method not implemented"),
            ServerError::Start => String::from_str("Could not start the server"),
        }
    }
}

/// The message of each network error.
pub open spec fn spec_network_message(e: Error) -> Seq<char> {
    match e {
        Error::WifiConnection(_) => "Couldn't connect to wifi"@,
        Error::RegisterEndpoint => "Couldn't register endpoint"@,
        Error::ServerCreation(s) => "Couldn't start web server: "@ + spec_server_message(s),
        Error::ResourceBusy => "Resource busy"@,
        Error::ResourceNotAvailable => "Resource Not available"@,
        Error::BufferFull => "Can't push command to the buffer"@,
        Error::BufferEmpty => "No command to pop from the buffer"@,
    }
}

impl Error {
    /// The error's message.
    pub fn message(&self) -> (r: String)
        ensures
            r@ == spec_network_message(*self),
    {
        match self {
            Error::WifiConnection(_) => String::from_str("Couldn't connect to wifi"),
            Error::RegisterEndpoint => String::from_str("Couldn't register endpoint"),
            Error::ServerCreation(e) => {
                let head = String::from_str("Couldn't start web server: ");
                let detail = e.message();
                head.concat(detail.as_str())
            },
            Error::ResourceBusy => String::from_str("Resource busy"),
            Error::ResourceNotAvailable => String::from_str("Resource Not available"),
            Error::BufferFull => String::from_str("Can't push command to the buffer"),
            Error::BufferEmpty => String::from_str("No command to pop from the buffer"),
        }
    }
}

/// The answer to a command request: a request that could not be parsed is
/// a bad request, one whose command could not be handed on is a server
/// error, and one that was handed on is acknowledged with `a-ok`.
pub open spec fn spec_command_response(outcome: Result<Result<(), Error>, ProtocolError>) -> (Status, Seq<char>) {
    match outcome {
        Ok(Ok(())) => (Status::Okay, "a-ok"@),
        Ok(Err(e)) => (Status::InternalServerError, spec_network_message(e)),
        Err(e) => (Status::BadRequest, spec_protocol_message(e)),
    }
}

/// Answers a command request, given whether it parsed and, if it did,
/// whether its command was handed on.
pub fn command_response(outcome: Result<Result<(), Error>, ProtocolError>) -> (r: Response)
    ensures
        (r.status, r.body@) == spec_command_response(outcome),
{
    match outcome {
        Ok(Ok(())) => Response { status: Status::Okay, body: String::from_str("a-ok") },
        Ok(Err(error)) => Response { status: Status::InternalServerError, body: error.message() },
        Err(error) => Response { status: Status::BadRequest, body: error.message() },
    }
}

/// The thread a command is for.
#[derive(Clone, Copy, Debug, PartialEq, Eq, Structural)]
pub enum CommandTarget {
    Scheduler,
    Controller,
}

/// The thread a command is for, and the outcome of offering it to that
/// thread's buffer.
pub open spec fn spec_route_result<T>(items: Seq<T>, target: CommandTarget) -> Result<CommandTarget, Error> {
    match spec_buffer_push_result(items) {
        Ok(()) => Ok(target),
        Err(e) => Err(e),
    }
}

/// Hands a command to the buffer of the thread it is for: a scheduler
/// command is offered to the scheduler's buffer, a controller command to
/// the controller's; the other buffer is left as it was. The result names
/// the thread to wake, or is `BufferFull` when that buffer had no room.
pub fn route_command(
    command: Command,
    scheduler: &mut SchedulerCommandBuffer,
    controller: &mut ControllerCommandBuffer,
) -> (r: Result<CommandTarget, Error>)
    requires
        old(scheduler).wf(),
        old(controller).wf(),
    ensures
        final(scheduler).wf(),
        final(controller).wf(),
        match command {
            Command::Scheduler(c) => {
                &&& final(scheduler)@ == spec_buffer_push(old(scheduler)@, c)
                &&& final(controller)@ == old(controller)@
                &&& r == spec_route_result(old(scheduler)@, CommandTarget::Scheduler)
            },
            Command::Controller(c) => {
                &&& final(controller)@ == spec_buffer_push(old(controller)@, c)
                &&& final(scheduler)@ == old(scheduler)@
                &&& r == spec_route_result(old(controller)@, CommandTarget::Controller)
            },
        },
{
    match command {
        Command::Scheduler(c) => match scheduler.push_item(c) {
            Ok(()) => Ok(CommandTarget::Scheduler),
            Err(e) => Err(e),
        },
        Command::Controller(c) => match controller.push_item(c) {
            Ok(()) => Ok(CommandTarget::Controller),
            Err(e) => Err(e),
        },
    }
}

/// The network side: the board's wifi radio and HTTP server, with the
/// signals through which commands reach the controller and the scheduler.
pub struct Network<Signals> {
    pub wifi: WifiContainer,
    pub server: ServerContainer,
    pub thread_signals: Signals,
}

impl<Signals> Network<Signals> {
    /// Takes the board's wifi radio and server.
    pub fn new(board: &mut BoardResources, thread_signals: Signals) -> (r: Network<Signals>)
        requires
            old(board).wifis[0] is Some,
            old(board).servers[0] is Some,
        ensures
            r.thread_signals == thread_signals,
            final(board).wifis[0] is None,
            final(board).servers[0] is None,
            final(board).steppers == old(board).steppers,
            final(board).switches == old(board).switches,
            final(board).clients == old(board).clients,
    {
        let mut wifi = None;
        std::mem::swap(&mut wifi, &mut board.wifis[0]);
        let mut server = None;
        std::mem::swap(&mut server, &mut board.servers[0]);
        Network { wifi: wifi.unwrap(), server: server.unwrap(), thread_signals }
    }
}

/// How a command request is answered, for every outcome: a command that
/// was parsed and handed on gets `Okay` with `a-ok`; one that was parsed but
/// could not be handed on, whatever the network error, gets
/// `InternalServerError` with that error's message; a request that did not
/// parse gets `BadRequest` with the parse error's message.
pub proof fn law_command_response(outcome: Result<Result<(), Error>, ProtocolError>)
    ensures
        outcome == Ok::<Result<(), Error>, ProtocolError>(Ok(())) ==> spec_command_response(outcome) == (Status::Okay, "a-ok"@),
        outcome matches Ok(Err(e)) ==> spec_command_response(outcome) == (Status::InternalServerError, spec_network_message(e)),
        outcome matches Err(e) ==> spec_command_response(outcome) == (Status::BadRequest, spec_protocol_message(e)),
        (outcome is Err || (outcome matches Ok(Err(_)))) ==> spec_command_response(outcome).0 != Status::Okay,
{
}

} // verus!
