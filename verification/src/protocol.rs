//! The wire protocol's fixed facts: the probe payload, the responder's
//! well-known port, and byte-level payload comparison.

use vstd::prelude::*;

verus! {

/// The well-known UDP port a responder listens on.
pub const RESPONDER_PORT: u16 = 34254;

/// Length of the probe payload in bytes.
pub const PROBE_LEN: usize = 4;

/// Capacity of the receive buffer both roles read datagrams into. This is a
/// hard boundary: a reply longer than this is silently truncated to the
/// buffer's length on the reading side.
pub const RECV_BUFFER_LEN: usize = 512;

/// The probe payload: the ASCII bytes of `PING`.
pub open spec fn probe_seq() -> Seq<u8> {
    seq![80u8, 73u8, 78u8, 71u8]
}

/// The probe payload as a concrete byte vector, for sending on the wire.
pub fn probe_payload() -> (p: Vec<u8>)
    ensures
        p@ == probe_seq(),
        p@.len() == PROBE_LEN,
{
    let mut p: Vec<u8> = Vec::new();
    p.push(80u8);
    p.push(73u8);
    p.push(78u8);
    p.push(71u8);
    proof {
        assert(p@ =~= probe_seq());
    }
    p
}

/// Whole-payload equality: a probe matches only if every byte and the
/// length agree, never by prefix.
pub fn bytes_equal(a: &[u8], b: &[u8]) -> (r: bool)
    ensures
        r == (a@ == b@),
{
    if a.len() != b.len() {
        proof {
            assert(a@.len() != b@.len());
        }
        return false;
    }
    let mut i: usize = 0;
    while i < a.len()
        invariant
            0 <= i <= a@.len(),
            a@.len() == b@.len(),
            forall|j: int| 0 <= j < i ==> a@[j] == b@[j],
        decreases a@.len() - i,
    {
        if a[i] != b[i] {
            return false;
        }
        i += 1;
    }
    proof {
        assert(a@ =~= b@);
    }
    true
}

} // verus!
