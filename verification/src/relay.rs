//! Relay router decisions: what to do with a client's connection attempt
//! and with each frame read from its connection.
//!
//! The connection loop itself (sockets, frame decoding, queue draining) is
//! unverified glue around this module: it turns every observation into a
//! [`FrameEvent`] and performs the [`RelayAction`] this module decides.
//! No action ever closes a connection; a connection ends only when its
//! peer closes it or a write fails, and the glue then calls
//! [`ClientRegistry::disconnect`].

use vstd::prelude::*;
use crate::envelope::Envelope;
use crate::identity::{parse_identity, uuid_of_str};
use crate::registry::ClientRegistry;

verus! {

/// One observation made by a connection's read loop, after decoding:
/// a non-binary frame, a binary frame that does not decode as an
/// envelope, or a decoded envelope.
pub enum FrameEvent {
    NotBinary,
    Malformed,
    Envelope(Envelope),
}

/// What the router does with a frame. Every variant keeps the sender's
/// connection open: malformed or unroutable traffic is dropped, and the
/// sender is never notified.
pub enum RelayAction {
    /// Enqueue `env` (destination rewritten to the sender) onto the
    /// connection named by `conn`, without blocking.
    Forward { conn: u64, env: Envelope },
    /// The addressed identity is not connected: drop, warn, tell nobody.
    DropUnknownDestination { destination: u128 },
    /// The frame did not decode as an envelope: drop, keep the connection.
    DropMalformed,
    /// Not a binary frame: skip it.
    DropNotBinary,
}

/// The routing rule. An envelope whose destination is registered is
/// forwarded to that registration with `destination` rewritten to the
/// sender's identity; anything else is dropped.
pub open spec fn route_spec(m: Map<u128, u64>, sender: u128, frame: FrameEvent) -> RelayAction {
    match frame {
        FrameEvent::NotBinary => RelayAction::DropNotBinary,
        FrameEvent::Malformed => RelayAction::DropMalformed,
        FrameEvent::Envelope(env) => if m.contains_key(env.destination) {
            RelayAction::Forward {
                conn: m[env.destination],
                env: Envelope { destination: sender, payload: env.payload },
            }
        } else {
            RelayAction::DropUnknownDestination { destination: env.destination }
        },
    }
}

/// Admit a client connection. The path segment must denote an identity;
/// an unparseable one is rejected before any registry mutation. On
/// success the identity is registered to `conn`, replacing any prior
/// registration (last writer wins).
pub fn connect_client(reg: &mut ClientRegistry, path_segment: &str, conn: u64) -> (r: Option<
    u128,
>)
    ensures
        r == uuid_of_str(path_segment@),
        r matches Some(id) ==> final(reg)@ == old(reg)@.insert(id, conn),
        r is None ==> final(reg)@ == old(reg)@,
{
    match parse_identity(path_segment) {
        Some(id) => {
            reg.register(id, conn);
            Some(id)
        },
        None => None,
    }
}

/// Decide what to do with one frame read from `sender`'s connection.
/// Routing never mutates the registry, and no decision closes the
/// sender's connection or touches any other client's registration.
pub fn route_frame(reg: &ClientRegistry, sender: u128, frame: FrameEvent) -> (r: RelayAction)
    ensures
        r == route_spec(reg@, sender, frame),
{
    match frame {
        FrameEvent::NotBinary => RelayAction::DropNotBinary,
        FrameEvent::Malformed => RelayAction::DropMalformed,
        FrameEvent::Envelope(env) => {
            match reg.lookup(env.destination) {
                Some(conn) => RelayAction::Forward {
                    conn,
                    env: Envelope { destination: sender, payload: env.payload },
                },
                None => RelayAction::DropUnknownDestination { destination: env.destination },
            }
        },
    }
}

} // verus!
