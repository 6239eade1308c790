//! Requests and responses exchanged with HTTP clients and servers.
use vstd::prelude::*;

verus! {

/// The HTTP methods a request or a route can carry.
#[derive(Clone, Copy, Debug, PartialEq, Eq, Structural)]
pub enum Method {
    Get,
    Put,
    Post,
    Delete,
}

/// The outcome classes a response can carry.
#[derive(Clone, Copy, Debug, PartialEq, Eq, Structural)]
pub enum Status {
    Okay,
    InternalServerError,
    BadRequest,
}

/// A response: its status and its text body.
#[derive(Debug)]
pub struct Response {
    pub status: Status,
    pub body: String,
}

/// A request: its method, target URL and text body.
#[derive(Debug)]
pub struct Request {
    pub method: Method,
    pub url: String,
    pub body: String,
}

} // verus!
