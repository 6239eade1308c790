//! Serving HTTP routes.
use vstd::prelude::*;
use crate::bal::networking_types::{Method, Response};

verus! {

/// Why a server could not be set up.
#[derive(Clone, Copy, Debug, PartialEq, Eq, Structural)]
pub enum Error {
    Register,
    Undefined,
    Start,
}

/// A route: requests with `method` on `uri` are answered by `handler`,
/// a function from the request body to the response.
pub struct Handler<F> {
    pub method: Method,
    pub uri: String,
    pub handler: F,
}

/// A board resource that can serve a set of routes.
pub trait ServerResource {
    fn create_server<F: Fn(String) -> Response + Send + 'static>(
        &mut self,
        handlers: Vec<Handler<F>>,
    ) -> Result<(), Error>;
}

/// A board that hands out servers by index.
pub trait HasServer {
    type Server;

    fn take_server(&mut self, id: usize) -> Option<Self::Server>;
}

} // verus!
