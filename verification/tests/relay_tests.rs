//! Relay router behaviour: registration, routing, rewriting, isolation.

use signal_relay::envelope::{Envelope, Payload, Role};
use signal_relay::registry::ClientRegistry;
use signal_relay::relay::{connect_client, route_frame, FrameEvent, RelayAction};

const A: u128 = 0x550e8400e29b41d4a716446655440000;
const B: u128 = 0x67e5504410b1426f9247bb680e5fe0c8;

fn envelope_to(dest: u128) -> Envelope {
    Envelope {
        destination: dest,
        payload: Payload::Candidate { candidate: "cand".to_string(), mid: "0".to_string() },
    }
}

#[test]
fn connect_then_disconnect_leaves_no_trace() {
    let mut reg = ClientRegistry::new();
    assert_eq!(reg.len(), 0);
    reg.register(A, 7);
    assert_eq!(reg.len(), 1);
    assert_eq!(reg.lookup(A), Some(7));
    let removed = reg.disconnect(A, 7);
    assert!(removed);
    assert_eq!(reg.len(), 0);
    assert_eq!(reg.lookup(A), None);
}

#[test]
fn destination_rewritten_to_sender() {
    let mut reg = ClientRegistry::new();
    reg.register(A, 1);
    reg.register(B, 2);
    match route_frame(&reg, A, FrameEvent::Envelope(envelope_to(B))) {
        RelayAction::Forward { conn, env } => {
            assert_eq!(conn, 2);
            assert_eq!(env.destination, A);
            match env.payload {
                Payload::Candidate { candidate, mid } => {
                    assert_eq!(candidate, "cand");
                    assert_eq!(mid, "0");
                },
                _ => panic!("payload kind changed in transit"),
            }
        },
        _ => panic!("expected the envelope to be forwarded"),
    }
}

#[test]
fn unknown_destination_dropped() {
    let mut reg = ClientRegistry::new();
    reg.register(A, 1);
    match route_frame(&reg, A, FrameEvent::Envelope(envelope_to(B))) {
        RelayAction::DropUnknownDestination { destination } => assert_eq!(destination, B),
        _ => panic!("an envelope to a disconnected identity must be dropped"),
    }
}

#[test]
fn reconnect_shadows_stale_connection() {
    let mut reg = ClientRegistry::new();
    reg.register(A, 1);
    // A reconnects while the old connection is still open
    reg.register(A, 2);
    assert_eq!(reg.lookup(A), Some(2));
    // routing now reaches only the newer connection
    reg.register(B, 3);
    match route_frame(&reg, B, FrameEvent::Envelope(envelope_to(A))) {
        RelayAction::Forward { conn, .. } => assert_eq!(conn, 2),
        _ => panic!("expected forward to the newer connection"),
    }
    // the older connection's later close must not evict the newer registration
    let removed = reg.disconnect(A, 1);
    assert!(!removed);
    assert_eq!(reg.lookup(A), Some(2));
    // the newer connection's own close does evict it
    assert!(reg.disconnect(A, 2));
    assert_eq!(reg.lookup(A), None);
}

#[test]
fn malformed_frame_keeps_connections() {
    let mut reg = ClientRegistry::new();
    reg.register(A, 1);
    reg.register(B, 2);
    match route_frame(&reg, A, FrameEvent::Malformed) {
        RelayAction::DropMalformed => {},
        _ => panic!("a malformed frame is dropped where it arrived"),
    }
    match route_frame(&reg, A, FrameEvent::NotBinary) {
        RelayAction::DropNotBinary => {},
        _ => panic!("a non-binary frame is skipped"),
    }
    // neither the sender's nor any other registration was touched
    assert_eq!(reg.lookup(A), Some(1));
    assert_eq!(reg.lookup(B), Some(2));
    assert_eq!(reg.len(), 2);
}

#[test]
fn connect_accepts_identity_path_segment() {
    let mut reg = ClientRegistry::new();
    let id = connect_client(&mut reg, "550e8400-e29b-41d4-a716-446655440000", 4);
    assert_eq!(id, Some(A));
    assert_eq!(reg.lookup(A), Some(4));
    // the simple (unhyphenated) form denotes the same identity
    let mut reg2 = ClientRegistry::new();
    let id2 = connect_client(&mut reg2, "550e8400e29b41d4a716446655440000", 5);
    assert_eq!(id2, Some(A));
}

#[test]
fn connect_rejects_before_registration() {
    let mut reg = ClientRegistry::new();
    reg.register(B, 9);
    let id = connect_client(&mut reg, "not-an-identity", 4);
    assert_eq!(id, None);
    // the reject happened before any registry mutation
    assert_eq!(reg.len(), 1);
    assert_eq!(reg.lookup(B), Some(9));
}
