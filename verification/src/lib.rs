//! Verified core of a peer-to-peer signaling relay.
//!
//! Two endpoints that cannot reach each other directly bootstrap a direct
//! transport session by exchanging small negotiation envelopes through a
//! relay. This crate holds the verified logic of that system: the relay's
//! client registry and routing rules, and the per-client session
//! orchestration state machine that drives an external transport engine.
//! The surrounding I/O (sockets, frames on the wire, the engine itself)
//! lives outside the library and consults these functions for every
//! decision.

pub mod envelope;
pub mod identity;
pub mod laws;
pub mod registry;
pub mod relay;
pub mod session;
pub mod sink;
