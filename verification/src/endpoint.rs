//! Endpoints as plain values: an IPv4 address held as its 32-bit value and a
//! UDP port. The surrounding process converts between this form and its
//! socket addresses.

use vstd::prelude::*;

verus! {

/// A UDP endpoint: an IPv4 address (as its big-endian 32-bit value) and a port.
#[derive(Clone, Copy, PartialEq, Eq, Structural, Debug)]
pub struct Endpoint {
    pub ip: u32,
    pub port: u16,
}

} // verus!
