//! Signaling envelopes: the messages the relay routes between clients.

use vstd::prelude::*;

verus! {

/// Role carried by a negotiation description. An `Initiator` description
/// opens a negotiation; a `Responder` description answers one.
#[derive(Clone, Copy, PartialEq, Eq, Structural, Debug)]
pub enum Role {
    Initiator,
    Responder,
}

/// Payload of a signaling envelope: either a negotiation description
/// (role plus an opaque description blob) or a connectivity candidate
/// (opaque candidate string plus the sub-stream tag it belongs to).
#[derive(Clone, Debug)]
pub enum Payload {
    Description { role: Role, body: String },
    Candidate { candidate: String, mid: String },
}

/// A signaling envelope. Inbound to the relay, `destination` names the
/// final recipient; the relay rewrites it in transit, so outbound from
/// the relay it names the original sender.
#[derive(Clone, Debug)]
pub struct Envelope {
    pub destination: u128,
    pub payload: Payload,
}

} // verus!
