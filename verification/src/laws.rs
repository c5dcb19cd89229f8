//! Laws of the relay: proved statements relating the registry's and the
//! router's operations, over the spec-level semantics their contracts use
//! ([`crate::registry::disconnect_spec`], [`crate::relay::route_spec`]).

use vstd::prelude::*;
use crate::envelope::{Envelope, Payload};
use crate::registry::disconnect_spec;
use crate::relay::{route_spec, FrameEvent, RelayAction};
use crate::session::{advance, SessionPhase};

verus! {

/// Connecting an identity and then disconnecting that same connection
/// leaves no trace: the identity's entry is gone, and every other
/// registration stands exactly as before.
pub proof fn lemma_connect_then_disconnect(m: Map<u128, u64>, id: u128, conn: u64)
    ensures
        !disconnect_spec(m.insert(id, conn), id, conn).contains_key(id),
        disconnect_spec(m.insert(id, conn), id, conn) == m.remove(id),
{
    assert(disconnect_spec(m.insert(id, conn), id, conn) =~= m.remove(id));
}

/// An envelope from a connected sender to a connected destination is
/// forwarded to the destination's registered connection, with
/// `destination` rewritten to the sender's identity and the payload
/// untouched.
pub proof fn lemma_routing_rewrites_destination(m: Map<u128, u64>, a: u128, b: u128, p: Payload)
    requires
        m.contains_key(b),
    ensures
        route_spec(m, a, FrameEvent::Envelope(Envelope { destination: b, payload: p }))
            == (RelayAction::Forward {
            conn: m[b],
            env: Envelope { destination: a, payload: p },
        }),
{
}

/// An envelope addressed to an identity with no registration is dropped:
/// the router forwards it to nobody.
pub proof fn lemma_unroutable_envelope_dropped(m: Map<u128, u64>, a: u128, b: u128, p: Payload)
    requires
        !m.contains_key(b),
    ensures
        route_spec(m, a, FrameEvent::Envelope(Envelope { destination: b, payload: p }))
            == (RelayAction::DropUnknownDestination { destination: b }),
        !(route_spec(m, a, FrameEvent::Envelope(Envelope { destination: b, payload: p }))
            is Forward),
{
}

/// Reconnecting under an identity shadows the stale connection: after the
/// newer registration replaces the older one, the older connection's late
/// disconnect evicts nothing, and an envelope to that identity reaches
/// only the newer connection.
pub proof fn lemma_reconnect_shadows_stale(
    m: Map<u128, u64>,
    id: u128,
    stale: u64,
    fresh: u64,
    sender: u128,
    p: Payload,
)
    requires
        stale != fresh,
    ensures
        ({
            let reconnected = m.insert(id, fresh);
            &&& disconnect_spec(reconnected, id, stale) == reconnected
            &&& route_spec(
                reconnected,
                sender,
                FrameEvent::Envelope(Envelope { destination: id, payload: p }),
            ) == (RelayAction::Forward {
                conn: fresh,
                env: Envelope { destination: sender, payload: p },
            })
        }),
{
}

/// A malformed frame is dropped where it arrived: the router forwards
/// nothing, and — route decisions never touching the registry and never
/// closing a connection — every registration is left as it was.
pub proof fn lemma_malformed_frame_isolated(m: Map<u128, u64>, sender: u128)
    ensures
        route_spec(m, sender, FrameEvent::Malformed) == RelayAction::DropMalformed,
        !(route_spec(m, sender, FrameEvent::Malformed) is Forward),
{
}

/// A session's phase never regresses: once established, applying further
/// inbound payloads keeps it established.
pub proof fn lemma_phase_never_regresses(p: SessionPhase)
    ensures
        p is Established ==> advance(p) is Established,
{
}

} // verus!
