//! The responder's logic: resolve the host identifier once, then answer each
//! inbound datagram independently — reply with the identifier if and only if
//! the whole payload is the exact probe, addressed back to the probe's own
//! sender, and stay silent on everything else.

use vstd::prelude::*;

use crate::endpoint::Endpoint;
use crate::errors::DiscoveryError;
use crate::protocol::bytes_equal;
use crate::protocol::probe_payload;
use crate::protocol::probe_seq;

verus! {

/// A reply the responder wants sent: the payload bytes and the endpoint
/// they must go to.
#[derive(Debug)]
pub struct OutboundReply {
    pub target: Endpoint,
    pub payload: Vec<u8>,
}

/// What a responder does with one inbound datagram: the exact probe earns a
/// reply carrying the identifier, addressed to the sender; anything else is
/// silently discarded.
pub open spec fn respond_spec(msg: Seq<u8>, sender: Endpoint, identifier: Seq<u8>) -> Option<
    (Endpoint, Seq<u8>),
> {
    if msg == probe_seq() {
        Some((sender, identifier))
    } else {
        None
    }
}

/// The endpoint-and-payload content of a decision, for stating contracts.
pub open spec fn reply_view(r: Option<OutboundReply>) -> Option<(Endpoint, Seq<u8>)> {
    match r {
        Some(rep) => Some((rep.target, rep.payload@)),
        None => None,
    }
}

/// Decides the responder's reaction to one inbound datagram. `msg` is the
/// datagram's whole payload, `sender` its source endpoint, and `identifier`
/// the host identifier resolved at startup.
pub fn responder_step(msg: &[u8], sender: Endpoint, identifier: &Vec<u8>) -> (r: Option<
    OutboundReply,
>)
    ensures
        reply_view(r) == respond_spec(msg@, sender, identifier@),
{
    let probe = probe_payload();
    if bytes_equal(msg, probe.as_slice()) {
        let reply = OutboundReply { target: sender, payload: identifier.clone() };
        proof {
            assert(reply.payload@ =~= identifier@);
        }
        Some(reply)
    } else {
        None
    }
}

/// Law: a responder never answers a payload other than the exact probe —
/// no prefix match, no partial match, no reply of any kind.
pub proof fn lemma_non_probe_ignored(msg: Seq<u8>, sender: Endpoint, identifier: Seq<u8>)
    requires
        msg != probe_seq(),
    ensures
        respond_spec(msg, sender, identifier) is None,
{
}

/// Law: the exact probe is answered with the resolved identifier, unchanged
/// — so non-empty whenever the identifier is — and addressed precisely to
/// the probe's own sender.
pub proof fn lemma_probe_answered(sender: Endpoint, identifier: Seq<u8>)
    requires
        identifier.len() > 0,
    ensures
        respond_spec(probe_seq(), sender, identifier) matches Some(rep) && rep.0 == sender
            && rep.1 == identifier && rep.1.len() > 0,
{
}

/// Relies on hostname::get: asks the operating environment for this host's
/// name; a name that is not valid text is rendered lossily rather than
/// rejected, so only a failed lookup yields `None`.
#[verifier::external_body]
fn os_host_name() -> (r: Option<Vec<u8>>) {
    match hostname::get() {
        Ok(name) => {
            let text = name.into_string().unwrap_or_else(|raw| raw.to_string_lossy().into_owned());
            Some(text.into_bytes())
        },
        Err(_) => None,
    }
}

/// Resolves this host's identifier, as the text bytes the responder will
/// send in replies. Fails only when the operating environment cannot supply
/// a name at all; an ill-encoded name degrades to its lossy rendering
/// instead of failing.
pub fn resolve_identifier() -> (r: Result<Vec<u8>, DiscoveryError>)
    ensures
        r is Err ==> r == Result::<Vec<u8>, DiscoveryError>::Err(
            DiscoveryError::HostnameResolution,
        ),
{
    match os_host_name() {
        Some(name) => Ok(name),
        None => Err(DiscoveryError::HostnameResolution),
    }
}

} // verus!
