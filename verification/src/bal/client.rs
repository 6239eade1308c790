//! Making HTTP requests.
use vstd::prelude::*;
use crate::bal::networking_types::{Request, Response};

verus! {

/// Why a request could not be completed.
#[derive(Clone, Copy, Debug, PartialEq, Eq, Structural)]
pub enum Error {
    ClientCreate,
    ReqCreate,
    ReqDisp,
    RespRead,
    UnknownStatus(u16),
}

/// A board resource that can perform HTTP requests.
pub trait ClientResource {
    fn make_request(&mut self, request: Request) -> Result<Response, Error>;
}

} // verus!
