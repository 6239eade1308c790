//! The host board: the stand-in resources that let the controller run on a
//! desktop, with a person at the terminal answering for the hardware.
use vstd::prelude::*;
use std::convert::Infallible;
use crate::bal::client::Error as ClientError;
use crate::bal::networking_types::{Method, Status};
use crate::bal::stepper::{HasStepper, MCDelay, MotionError};
use crate::bal::wifi::Error as WifiError;
use crate::fixed_point::{fits_i128, spec_floor};

verus! {

/// A board, described by the types of its steppers, switches, wifi radios
/// and servers.
pub struct Board<ST, SW, WI, SE> {
    _phantom_stepper: std::marker::PhantomData<ST>,
    _phantom_switch: std::marker::PhantomData<SW>,
    _phantom_wifi: std::marker::PhantomData<WI>,
    _phantom_server: std::marker::PhantomData<SE>,
}

/// A stepper motor under motion control, known by its name.
#[derive(Debug)]
pub struct StepperContainer {
    name: &'static str,
}

/// A limit switch, known by its name.
#[derive(Debug)]
pub struct SwitchContainer {
    name: &'static str,
}

/// The board's wifi radio. None of its operations are available on this board.
#[derive(Debug)]
pub struct WifiContainer;

/// The board's HTTP server.
#[derive(Debug)]
pub struct ServerContainer;

/// The board's HTTP client.
#[derive(Debug)]
pub struct ClientContainer;

/// The resources a board hands out, each slot holding its resource until
/// it is taken.
pub struct BoardResources {
    pub steppers: [Option<StepperContainer>; 2],
    pub switches: [Option<SwitchContainer>; 2],
    pub wifis: [Option<WifiContainer>; 1],
    pub servers: [Option<ServerContainer>; 1],
    pub clients: [Option<ClientContainer>; 1],
}

impl StepperContainer {
    /// The name the stepper was given.
    pub closed spec fn spec_name(&self) -> Seq<char> {
        self.name@
    }

    /// The name the stepper was given.
    pub fn name(&self) -> (r: &'static str)
        ensures
            r@ == self.spec_name(),
    {
        self.name
    }

    /// Starts a motion towards `target_step` at up to `max_velocity`.
    /// On this board the motion is simulated and always accepted.
    pub fn move_to_position(&mut self, max_velocity: MCDelay, target_step: i32) -> (r: Result<(), MotionError>)
        ensures
            r is Ok,
            final(self).spec_name() == old(self).spec_name(),
    {
        Ok(())
    }

    /// Declares the current position to be `step`.
    /// On this board this is always accepted.
    pub fn reset_position(&mut self, step: i32) -> (r: Result<(), MotionError>)
        ensures
            r is Ok,
            final(self).spec_name() == old(self).spec_name(),
    {
        Ok(())
    }
}

impl SwitchContainer {
    /// The name the switch was given.
    pub closed spec fn spec_name(&self) -> Seq<char> {
        self.name@
    }

    /// The name the switch was given.
    pub fn name(&self) -> (r: &'static str)
        ensures
            r@ == self.spec_name(),
    {
        self.name
    }
}


/// Every slot of the board holds its resource.
pub open spec fn fully_stocked(b: BoardResources) -> bool {
    &&& b.steppers[0] is Some
    &&& b.steppers[1] is Some
    &&& b.switches[0] is Some
    &&& b.switches[1] is Some
    &&& b.wifis[0] is Some
    &&& b.servers[0] is Some
    &&& b.clients[0] is Some
}

/// Taking the resource in slot `id`: the slot's content is handed out and
/// the slot left empty; an index past the slots hands out nothing.
pub open spec fn spec_take_slot<T>(slots: Seq<Option<T>>, id: int) -> (Seq<Option<T>>, Option<T>) {
    if 0 <= id < slots.len() {
        (slots.update(id, None), slots[id])
    } else {
        (slots, None)
    }
}

/// A resource can be taken only once: taking from the same slot again
/// hands out nothing.
pub proof fn law_take_once<T>(slots: Seq<Option<T>>, id: int)
    ensures
        spec_take_slot(spec_take_slot(slots, id).0, id).1 is None,
{
}

/// Builds the board's resources.
pub struct BoardResourceBuilder {}

impl BoardResourceBuilder {
    /// The host board's resources: two steppers and two limit switches
    /// (one of each per axis, named after the axis), a wifi radio, an HTTP
    /// server and an HTTP client. The acceleration is not used on this board.
    pub fn resolve(target_accel: MCDelay) -> (r: Option<BoardResources>)
        ensures
            r is Some,
            fully_stocked(r->0),
            r->0.steppers[0]->0.spec_name() == "axis a stepper"@,
            r->0.steppers[1]->0.spec_name() == "axis b stepper"@,
            r->0.switches[0]->0.spec_name() == "axis a limit switch"@,
            r->0.switches[1]->0.spec_name() == "axis b limit switch"@,
    {
        proof {
            reveal_strlit("axis a stepper");
            reveal_strlit("axis b stepper");
            reveal_strlit("axis a limit switch");
            reveal_strlit("axis b limit switch");
        }
        Some(BoardResources {
            steppers: [
                Some(StepperContainer { name: "axis a stepper" }),
                Some(StepperContainer { name: "axis b stepper" }),
            ],
            switches: [
                Some(SwitchContainer { name: "axis a limit switch" }),
                Some(SwitchContainer { name: "axis b limit switch" }),
            ],
            wifis: [Some(WifiContainer)],
            servers: [Some(ServerContainer)],
            clients: [Some(ClientContainer)],
        })
    }
}

impl HasStepper for BoardResources {
    type Resource = StepperContainer;

    /// Takes the stepper in slot `id`, leaving the slot empty. An index past
    /// the slots, or an empty slot, gives `None`.
    fn take_stepper(&mut self, id: usize) -> (r: Option<StepperContainer>)
        ensures
            (final(self).steppers@, r) == spec_take_slot(old(self).steppers@, id as int),
            final(self).switches == old(self).switches,
            final(self).wifis == old(self).wifis,
            final(self).servers == old(self).servers,
            final(self).clients == old(self).clients,
    {
        if id < 2 {
            let mut slot = None;
            std::mem::swap(&mut slot, &mut self.steppers[id]);
            proof {
                assert(self.steppers@ =~= old(self).steppers@.update(id as int, None));
            }
            slot
        } else {
            None
        }
    }
}


/// A span of time in nanoseconds, as the motion controller's timer counts it.
#[derive(Clone, Copy, Debug, PartialEq, Eq, Structural)]
pub struct NanosecWrapper {
    ns: i64,
}

impl NanosecWrapper {
    /// The number of nanoseconds.
    pub closed spec fn spec_ns(self) -> i64 {
        self.ns
    }

    /// The span of `n` nanoseconds.
    pub closed spec fn spec_from_i64(n: i64) -> NanosecWrapper {
        NanosecWrapper { ns: n }
    }

    /// The span of `n` nanoseconds.
    pub fn from_i64(n: i64) -> (r: NanosecWrapper)
        ensures
            r.spec_ns() == n,
    {
        NanosecWrapper { ns: n }
    }

    /// The number of nanoseconds.
    pub fn ns(&self) -> (r: i64)
        ensures
            r == self.spec_ns(),
    {
        self.ns
    }

    /// The difference of two spans.
    pub fn sub(self, rhs: NanosecWrapper) -> (r: NanosecWrapper)
        requires
            i64::MIN <= self.spec_ns() - rhs.spec_ns() <= i64::MAX,
        ensures
            r.spec_ns() == self.spec_ns() - rhs.spec_ns(),
    {
        NanosecWrapper { ns: self.ns - rhs.ns }
    }
}

impl From<i64> for NanosecWrapper {
    fn from(n: i64) -> (r: NanosecWrapper) {
        NanosecWrapper { ns: n }
    }
}

impl vstd::std_specs::convert::FromSpecImpl<i64> for NanosecWrapper {
    open spec fn obeys_from_spec() -> bool {
        true
    }

    open spec fn from_spec(v: i64) -> NanosecWrapper {
        NanosecWrapper::spec_from_i64(v)
    }
}

/// The number of nanoseconds a step delay (in seconds, fixed point) lasts:
/// the delay times one billion, rounded towards minus infinity.
pub open spec fn spec_delay_nanos(delay: MCDelay) -> int {
    spec_floor((delay.bits * 1_000_000_000) as i128)
}

/// Whether a step delay can be converted to nanoseconds: the scaled value
/// fits the fixed-point type and its integer part fits an `i64`.
pub open spec fn delay_convertible(delay: MCDelay) -> bool {
    &&& fits_i128(delay.bits * 1_000_000_000)
    &&& i64::MIN <= spec_delay_nanos(delay) <= i64::MAX
}

/// Converts the motion controller's step delays into timer ticks.
pub struct DelayToTicks;

impl DelayToTicks {
    /// The timer ticks (nanoseconds) that a step delay given in seconds lasts.
    pub fn delay_to_ticks(&self, delay: MCDelay) -> (r: Result<NanosecWrapper, Infallible>)
        requires
            delay_convertible(delay),
        ensures
            r is Ok,
            r->Ok_0.spec_ns() == spec_delay_nanos(delay),
    {
        let scaled = delay.mul_int(1_000_000_000);
        match scaled.to_i64() {
            Some(ns) => Ok(NanosecWrapper::from_i64(ns)),
            None => {
                assert(false);
                Ok(NanosecWrapper::from_i64(0))
            },
        }
    }
}

/// What a person's answer at the terminal means: a first character of `y`
/// is yes, `n` is no, and anything else is not an answer.
pub open spec fn spec_answer(input: Seq<char>) -> Option<bool> {
    if input[0] == 'y' {
        Some(true)
    } else if input[0] == 'n' {
        Some(false)
    } else {
        None
    }
}

/// Reads a yes/no answer from a line typed at the terminal.
pub fn parse_answer(input: &str) -> (r: Option<bool>)
    requires
        input@.len() > 0,
    ensures
        r == spec_answer(input@),
{
    let c = input.get_char(0);
    if c == 'y' {
        Some(true)
    } else if c == 'n' {
        Some(false)
    } else {
        None
    }
}

/// The status a response code stands for.
pub open spec fn spec_status_from_code(code: u16) -> Result<Status, ClientError> {
    if code == 200 {
        Ok(Status::Okay)
    } else if code == 400 {
        Ok(Status::BadRequest)
    } else if code == 500 {
        Ok(Status::InternalServerError)
    } else {
        Err(ClientError::UnknownStatus(code))
    }
}

impl ClientContainer {
    /// Whether the client can send a request with this method: it only
    /// sends `GET` requests.
    pub fn check_method(&self, method: Method) -> (r: Result<(), ClientError>)
        ensures
            method == Method::Get ==> r is Ok,
            method != Method::Get ==> r == Err::<(), ClientError>(ClientError::ReqCreate),
    {
        match method {
            Method::Get => Ok(()),
            _ => Err(ClientError::ReqCreate),
        }
    }

    /// The status of a response with the given HTTP status code; codes
    /// other than 200, 400 and 500 are refused.
    pub fn status_from_code(&self, code: u16) -> (r: Result<Status, ClientError>)
        ensures
            r == spec_status_from_code(code),
    {
        if code == 200 {
            Ok(Status::Okay)
        } else if code == 400 {
            Ok(Status::BadRequest)
        } else if code == 500 {
            Ok(Status::InternalServerError)
        } else {
            Err(ClientError::UnknownStatus(code))
        }
    }
}

/// The HTTP status code the host server answers with for each status.
pub open spec fn spec_http_status_code(status: Status) -> u16 {
    match status {
        Status::Okay => 200,
        Status::InternalServerError => 500,
        Status::BadRequest => 400,
    }
}

impl ServerContainer {
    /// The HTTP status code a response with this status is sent with.
    pub fn http_status_code(&self, status: Status) -> (r: u16)
        ensures
            r == spec_http_status_code(status),
    {
        match status {
            Status::Okay => 200,
            Status::InternalServerError => 500,
            Status::BadRequest => 400,
        }
    }
}

/// A status survives the trip through the host server and the host
/// client: the code the server sends it with is read back as the same
/// status, and every code the client accepts is one the server sends.
pub proof fn law_status_round_trip(status: Status, code: u16)
    ensures
        spec_status_from_code(spec_http_status_code(status)) == Ok::<Status, ClientError>(status),
        spec_status_from_code(code) is Ok ==> spec_http_status_code(spec_status_from_code(code)->Ok_0) == code,
{
}

impl WifiContainer {
    /// Reports the radio's capabilities: not available on this board.
    pub fn get_capabilities<Capabilities>(&self) -> (r: Result<Capabilities, WifiError>)
        ensures
            r matches Err(e) && e == WifiError::Undefined,
    {
        Err(WifiError::Undefined)
    }

    /// Scans for access points: not available on this board.
    pub fn scan<AccessPoints>(&mut self) -> (r: Result<AccessPoints, WifiError>)
        ensures
            r matches Err(e) && e == WifiError::Undefined,
    {
        Err(WifiError::Undefined)
    }

    /// Reports the radio's configuration: not available on this board.
    pub fn get_configuration<Configuration>(&self) -> (r: Result<Configuration, WifiError>)
        ensures
            r matches Err(e) && e == WifiError::Undefined,
    {
        Err(WifiError::Undefined)
    }

    /// Configures the radio: not available on this board.
    pub fn set_configuration<Configuration>(&mut self, conf: &Configuration) -> (r: Result<(), WifiError>)
        ensures
            r == Err::<(), WifiError>(WifiError::Undefined),
    {
        Err(WifiError::Undefined)
    }
}

} // verus!
