//! What can go wrong when a message from the peer is decoded.
use vstd::prelude::*;

verus! {

/// A message from the peer that the library refuses.
#[derive(Clone, Copy, Debug, PartialEq, Eq, Structural)]
pub enum NbdError {
    /// An option did not start with `NBD_OPT_MAGIC`; holds the number found.
    BadOptionMagic(u64),
    /// The option number is not one the protocol defines; holds it.
    UnknownOption(u32),
    /// A request did not start with `NBD_REQUEST_MAGIC`; holds the number found.
    BadRequestMagic(u32),
    /// The request type is not one the protocol defines; holds it.
    UnknownRequestType(u16),
}

} // verus!
