//! Wifi radios.
use vstd::prelude::*;

verus! {

/// A wifi operation failed.
#[derive(Clone, Copy, Debug, PartialEq, Eq, Structural)]
pub enum Error {
    Undefined,
}

impl Error {
    /// The error's message.
    pub fn message(&self) -> (r: String)
        ensures
            r@ == "Used method not implemented"@,
    {
        String::from_str("Used method not implemented")
    }
}

} // verus!
