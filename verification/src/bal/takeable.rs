//! Resources that can be taken out of a container by index.
use vstd::prelude::*;

verus! {

/// A container from which a resource can be taken, once, by its index.
pub trait Takeable {
    fn take<R>(&mut self, id: usize) -> Option<R>;
}

} // verus!
