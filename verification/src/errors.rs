//! The error kinds a discovery role can fail with. All are fatal to the
//! running role except the hostname case, which the responder maps to a
//! lossy fallback before it ever becomes an error.

use vstd::prelude::*;

verus! {

/// A fatal failure of a discovery role.
#[derive(Clone, Copy, PartialEq, Eq, Structural, Debug)]
pub enum DiscoveryError {
    /// The needed local endpoint could not be acquired.
    Bind,
    /// The broadcast capability could not be enabled on the socket.
    SocketConfig,
    /// A transport send failed.
    Send,
    /// A transport receive failed for a reason other than a timeout.
    Receive,
    /// The operating environment could not supply a host name at all.
    HostnameResolution,
}

} // verus!
