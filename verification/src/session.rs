//! Session orchestration: the per-client state machine that turns inbound
//! envelopes and transport-engine callbacks into engine calls, outbound
//! envelopes and sub-channel bookkeeping.
//!
//! A session between this client and one remote identity moves through
//! `Pending -> Negotiating -> Established`; tearing it down returns it to
//! absence. The orchestrator holds at most one session per remote identity
//! and never lets an open sub-channel regress to pending. The event loop
//! around it (awaiting frames, engine callbacks, readiness timeouts) is
//! unverified glue that feeds every event through these methods and carries
//! out what they decide.

use vstd::prelude::*;
use std::collections::HashMap;
use crate::envelope::{Envelope, Payload, Role};
use crate::identity::{identity_text, uuid_text};
use vstd::string::StringExecFns;

verus! {

broadcast use vstd::std_specs::hash::group_hash_axioms;

/// Where a session stands. `Pending`: created by a local request, its
/// offering description not yet answered. `Negotiating`: descriptions or
/// candidates have been exchanged. `Established`: its sub-channel is open.
#[derive(Clone, Copy, PartialEq, Eq, Structural, Debug)]
pub enum SessionPhase {
    Pending,
    Negotiating,
    Established,
}

/// One application data stream multiplexed over a session's transport.
/// `gated` says whether a one-shot readiness signal waits on it (true for
/// the offering role, false for a channel accepted from the remote);
/// `open` never regresses to false once set.
pub struct SubChannel {
    pub label: String,
    pub protocol: String,
    pub ordered: bool,
    pub gated: bool,
    pub open: bool,
}

/// Mathematical model of a [`SubChannel`].
pub struct ChannelModel {
    pub label: Seq<char>,
    pub protocol: Seq<char>,
    pub ordered: bool,
    pub gated: bool,
    pub open: bool,
}

impl View for SubChannel {
    type V = ChannelModel;

    closed spec fn view(&self) -> ChannelModel {
        ChannelModel {
            label: self.label@,
            protocol: self.protocol@,
            ordered: self.ordered,
            gated: self.gated,
            open: self.open,
        }
    }
}

/// One negotiated (or negotiating) transport toward a remote identity,
/// with at most one sub-channel.
pub struct Session {
    pub remote: u128,
    pub offering: bool,
    pub phase: SessionPhase,
    pub channel: Option<SubChannel>,
}

/// Mathematical model of a [`Session`].
pub struct SessionModel {
    pub remote: u128,
    pub offering: bool,
    pub phase: SessionPhase,
    pub channel: Option<ChannelModel>,
}

impl View for Session {
    type V = SessionModel;

    closed spec fn view(&self) -> SessionModel {
        SessionModel {
            remote: self.remote,
            offering: self.offering,
            phase: self.phase,
            channel: match self.channel {
                Some(c) => Some(c@),
                None => None,
            },
        }
    }
}

/// A call the orchestrator asks the transport engine to make.
pub enum EngineOp {
    ApplyDescription { remote: u128, role: Role, body: String },
    AddCandidate { remote: u128, candidate: String, mid: String },
}

/// The engine call that dispatches a payload to the session with `remote`.
pub open spec fn op_of(remote: u128, p: Payload) -> EngineOp {
    match p {
        Payload::Description { role, body } => EngineOp::ApplyDescription { remote, role, body },
        Payload::Candidate { candidate, mid } => EngineOp::AddCandidate { remote, candidate, mid },
    }
}

/// What to do with an inbound envelope.
pub enum InboundDecision {
    /// A session with this remote exists: make this engine call on its handle.
    Dispatch { op: EngineOp },
    /// No session exists and the payload opens one: create a responder-role
    /// transport toward `remote`, then make the engine call.
    CreateResponder { remote: u128, op: EngineOp },
    /// No session exists and the payload cannot open one: drop it with a
    /// warning; nobody is notified.
    DropUnknownRemote { remote: u128 },
}

/// What the sub-channel the local request offers looks like: the plan the
/// event loop hands to the transport engine.
pub struct OfferPlan {
    pub remote: u128,
    pub label: String,
    pub protocol: String,
    pub ordered: bool,
}

/// How applying an inbound payload moves a session's phase: a pending
/// session starts negotiating; an established one stays established.
pub open spec fn advance(p: SessionPhase) -> SessionPhase {
    match p {
        SessionPhase::Pending => SessionPhase::Negotiating,
        SessionPhase::Negotiating => SessionPhase::Negotiating,
        SessionPhase::Established => SessionPhase::Established,
    }
}

/// Whether reporting `remote`'s sub-channel open fires its one-shot
/// readiness signal: it does exactly when the session carries a gated
/// channel that was not open yet.
pub open spec fn gate_fires(m: Map<u128, SessionModel>, remote: u128) -> bool {
    &&& m.contains_key(remote)
    &&& m[remote].channel matches Some(c) && c.gated && !c.open
}

/// The greeting a client sends over a freshly usable sub-channel.
pub open spec fn greeting_text(id: u128) -> Seq<char> {
    "Hello from "@ + uuid_text(id)
}

/// Build the greeting payload for an identity.
pub fn greeting_for(id: u128) -> (r: String)
    ensures
        r@ == greeting_text(id),
{
    let mut s = String::from_str("Hello from ");
    let t = identity_text(id);
    s.append(t.as_str());
    s
}

/// Wrap a locally produced negotiation description in an envelope
/// addressed to the session's remote identity.
pub fn outbound_description(remote: u128, role: Role, body: String) -> (e: Envelope)
    ensures
        e.destination == remote,
        e.payload == (Payload::Description { role, body }),
{
    Envelope { destination: remote, payload: Payload::Description { role, body } }
}

/// Wrap a locally produced connectivity candidate in an envelope
/// addressed to the session's remote identity.
pub fn outbound_candidate(remote: u128, candidate: String, mid: String) -> (e: Envelope)
    ensures
        e.destination == remote,
        e.payload == (Payload::Candidate { candidate, mid }),
{
    Envelope { destination: remote, payload: Payload::Candidate { candidate, mid } }
}

/// The session registry and state machine of one client.
pub struct Orchestrator {
    local: u128,
    sessions: HashMap<u128, Session>,
}

impl View for Orchestrator {
    type V = Map<u128, SessionModel>;

    closed spec fn view(&self) -> Map<u128, SessionModel> {
        self.sessions@.map_values(|s: Session| s@)
    }
}

impl Orchestrator {
    /// This client's own identity; fixed at creation.
    pub closed spec fn local_id(&self) -> u128 {
        self.local
    }

    /// A fresh orchestrator for the client with identity `local`:
    /// no session exists yet.
    pub fn new(local: u128) -> (r: Self)
        ensures
            r.local_id() == local,
            r@ == Map::<u128, SessionModel>::empty(),
    {
        let r = Orchestrator { local, sessions: HashMap::new() };
        proof {
            assert(r@ =~= Map::<u128, SessionModel>::empty());
        }
        r
    }

    /// This client's own identity.
    pub fn local(&self) -> (r: u128)
        ensures
            r == self.local_id(),
    {
        self.local
    }

    /// An explicit local request to reach `remote`. Refused (no change)
    /// when the target is this client itself or a session with it already
    /// exists; otherwise a pending offering-role session is registered,
    /// with a gated, not yet open sub-channel, and the returned plan tells
    /// the event loop which transport and sub-channel to create.
    pub fn request_session(&mut self, remote: u128) -> (r: Option<OfferPlan>)
        ensures
            final(self).local_id() == old(self).local_id(),
            remote == old(self).local_id() || old(self)@.contains_key(remote) ==> r is None
                && final(self)@ == old(self)@,
            remote != old(self).local_id() && !old(self)@.contains_key(remote) ==> {
                &&& r matches Some(p) && p.remote == remote && p.label@ == "sender"@
                    && p.protocol@ == "prototest"@ && !p.ordered
                &&& final(self)@ == old(self)@.insert(
                    remote,
                    (SessionModel {
                        remote,
                        offering: true,
                        phase: SessionPhase::Pending,
                        channel: Some(
                            ChannelModel {
                                label: "sender"@,
                                protocol: "prototest"@,
                                ordered: false,
                                gated: true,
                                open: false,
                            },
                        ),
                    }),
                )
            },
    {
        if remote == self.local {
            return None;
        }
        if self.sessions.contains_key(&remote) {
            return None;
        }
        let sess = Session {
            remote,
            offering: true,
            phase: SessionPhase::Pending,
            channel: Some(
                SubChannel {
                    label: String::from_str("sender"),
                    protocol: String::from_str("prototest"),
                    ordered: false,
                    gated: true,
                    open: false,
                },
            ),
        };
        let ghost sess_model = sess@;
        self.sessions.insert(remote, sess);
        proof {
            assert(self@ =~= old(self)@.insert(remote, sess_model));
        }
        Some(
            OfferPlan {
                remote,
                label: String::from_str("sender"),
                protocol: String::from_str("prototest"),
                ordered: false,
            },
        )
    }

    /// Route one inbound envelope, already rewritten by the relay so that
    /// `destination` names the remote peer that sent it. A known remote has
    /// the payload dispatched to its session, which leaves `Pending` for
    /// `Negotiating` and never regresses; an unknown remote gets a
    /// responder-role session only for an initiator description, and
    /// anything else is dropped.
    pub fn handle_inbound(&mut self, env: Envelope) -> (r: InboundDecision)
        ensures
            final(self).local_id() == old(self).local_id(),
            old(self)@.contains_key(env.destination) ==> {
                &&& r == (InboundDecision::Dispatch { op: op_of(env.destination, env.payload) })
                &&& final(self)@ == old(self)@.insert(
                    env.destination,
                    (SessionModel {
                        phase: advance(old(self)@[env.destination].phase),
                        ..old(self)@[env.destination]
                    }),
                )
            },
            !old(self)@.contains_key(env.destination) ==> (env.payload
                matches Payload::Description { role: Role::Initiator, body } ==> {
                &&& r == (InboundDecision::CreateResponder {
                    remote: env.destination,
                    op: EngineOp::ApplyDescription {
                        remote: env.destination,
                        role: Role::Initiator,
                        body,
                    },
                })
                &&& final(self)@ == old(self)@.insert(
                    env.destination,
                    (SessionModel {
                        remote: env.destination,
                        offering: false,
                        phase: SessionPhase::Negotiating,
                        channel: None,
                    }),
                )
            }),
            !old(self)@.contains_key(env.destination) && !(env.payload
                matches Payload::Description { role: Role::Initiator, .. }) ==> {
                &&& r == (InboundDecision::DropUnknownRemote { remote: env.destination })
                &&& final(self)@ == old(self)@
            },
    {
        let Envelope { destination: remote, payload } = env;
        match self.sessions.remove(&remote) {
            Some(sess) => {
                let Session { remote: rem, offering, phase, channel } = sess;
                let new_phase = match phase {
                    SessionPhase::Pending => SessionPhase::Negotiating,
                    SessionPhase::Negotiating => SessionPhase::Negotiating,
                    SessionPhase::Established => SessionPhase::Established,
                };
                let sess2 = Session { remote: rem, offering, phase: new_phase, channel };
                let ghost sess2_model = sess2@;
                self.sessions.insert(remote, sess2);
                proof {
                    assert(self@ =~= old(self)@.insert(remote, sess2_model));
                }
                let op = match payload {
                    Payload::Description { role, body } => EngineOp::ApplyDescription {
                        remote,
                        role,
                        body,
                    },
                    Payload::Candidate { candidate, mid } => EngineOp::AddCandidate {
                        remote,
                        candidate,
                        mid,
                    },
                };
                InboundDecision::Dispatch { op }
            },
            None => {
                proof {
                    assert(self@ =~= old(self)@);
                }
                match payload {
                    Payload::Description { role: Role::Initiator, body } => {
                        let sess = Session {
                            remote,
                            offering: false,
                            phase: SessionPhase::Negotiating,
                            channel: None,
                        };
                        let ghost sess_model = sess@;
                        self.sessions.insert(remote, sess);
                        proof {
                            assert(self@ =~= old(self)@.insert(remote, sess_model));
                        }
                        InboundDecision::CreateResponder {
                            remote,
                            op: EngineOp::ApplyDescription {
                                remote,
                                role: Role::Initiator,
                                body,
                            },
                        }
                    },
                    _ => InboundDecision::DropUnknownRemote { remote },
                }
            },
        }
    }

    /// The transport engine handed over a sub-channel accepted from the
    /// remote. The session records it as open (no readiness gate: data may
    /// flow at once), becomes established, and greets the peer over it;
    /// a channel for an unknown remote is ignored.
    pub fn channel_accepted(
        &mut self,
        remote: u128,
        label: String,
        protocol: String,
        ordered: bool,
    ) -> (r: Option<String>)
        ensures
            final(self).local_id() == old(self).local_id(),
            !old(self)@.contains_key(remote) ==> r is None && final(self)@ == old(self)@,
            old(self)@.contains_key(remote) ==> {
                &&& r matches Some(g) && g@ == greeting_text(old(self).local_id())
                &&& final(self)@ == old(self)@.insert(
                    remote,
                    (SessionModel {
                        phase: SessionPhase::Established,
                        channel: Some(
                            ChannelModel {
                                label: label@,
                                protocol: protocol@,
                                ordered,
                                gated: false,
                                open: true,
                            },
                        ),
                        ..old(self)@[remote]
                    }),
                )
            },
    {
        match self.sessions.remove(&remote) {
            Some(sess) => {
                let Session { remote: rem, offering, phase: _, channel: _ } = sess;
                let sess2 = Session {
                    remote: rem,
                    offering,
                    phase: SessionPhase::Established,
                    channel: Some(SubChannel { label, protocol, ordered, gated: false, open: true }),
                };
                let ghost sess2_model = sess2@;
                self.sessions.insert(remote, sess2);
                proof {
                    assert(self@ =~= old(self)@.insert(remote, sess2_model));
                }
                Some(greeting_for(self.local))
            },
            None => {
                proof {
                    assert(self@ =~= old(self)@);
                }
                None
            },
        }
    }

    /// The transport engine reports the session's own sub-channel open.
    /// Openness is monotonic: the channel stays open and the session
    /// becomes (and stays) established. The result says whether a one-shot
    /// readiness signal fires now, releasing the suspended requester.
    pub fn channel_opened(&mut self, remote: u128) -> (released: bool)
        ensures
            final(self).local_id() == old(self).local_id(),
            released == gate_fires(old(self)@, remote),
            old(self)@.contains_key(remote) ==> (old(self)@[remote].channel matches Some(c)
                ==> final(self)@ == old(self)@.insert(
                    remote,
                    (SessionModel {
                        phase: SessionPhase::Established,
                        channel: Some((ChannelModel { open: true, ..c })),
                        ..old(self)@[remote]
                    }),
                )),
            !(old(self)@.contains_key(remote) && old(self)@[remote].channel is Some)
                ==> final(self)@ == old(self)@,
    {
        match self.sessions.remove(&remote) {
            Some(sess) => {
                let Session { remote: rem, offering, phase, channel } = sess;
                match channel {
                    Some(ch) => {
                        let released = ch.gated && !ch.open;
                        let ch2 = SubChannel { open: true, ..ch };
                        let sess2 = Session {
                            remote: rem,
                            offering,
                            phase: SessionPhase::Established,
                            channel: Some(ch2),
                        };
                        let ghost sess2_model = sess2@;
                        self.sessions.insert(remote, sess2);
                        proof {
                            assert(self@ =~= old(self)@.insert(remote, sess2_model));
                        }
                        released
                    },
                    None => {
                        let sess2 = Session { remote: rem, offering, phase, channel: None };
                        let ghost sess2_model = sess2@;
                        self.sessions.insert(remote, sess2);
                        proof {
                            assert(sess2_model == old(self)@[remote]);
                            assert(self@ =~= old(self)@);
                        }
                        false
                    },
                }
            },
            None => {
                proof {
                    assert(self@ =~= old(self)@);
                }
                false
            },
        }
    }

    /// The readiness wait for `remote`'s offered sub-channel timed out.
    /// A session that never became established is abandoned: torn down and
    /// evicted from the registry. An established session is left alone.
    pub fn abandon_unopened(&mut self, remote: u128) -> (torn: bool)
        ensures
            final(self).local_id() == old(self).local_id(),
            torn == (old(self)@.contains_key(remote) && !(old(self)@[remote].phase
                is Established)),
            torn ==> final(self)@ == old(self)@.remove(remote),
            !torn ==> final(self)@ == old(self)@,
    {
        match self.sessions.remove(&remote) {
            Some(sess) => {
                match sess.phase {
                    SessionPhase::Established => {
                        let ghost sess_model = sess@;
                        self.sessions.insert(remote, sess);
                        proof {
                            assert(sess_model == old(self)@[remote]);
                            assert(self@ =~= old(self)@);
                        }
                        false
                    },
                    _ => {
                        proof {
                            assert(self@ =~= old(self)@.remove(remote));
                        }
                        true
                    },
                }
            },
            None => {
                proof {
                    assert(self@ =~= old(self)@);
                }
                false
            },
        }
    }

    /// Explicitly close the session with `remote`, if any: its transport
    /// and sub-channel are torn down and the registry entry removed.
    pub fn close(&mut self, remote: u128) -> (had: bool)
        ensures
            final(self).local_id() == old(self).local_id(),
            had == old(self)@.contains_key(remote),
            final(self)@ == old(self)@.remove(remote),
    {
        match self.sessions.remove(&remote) {
            Some(_) => {
                proof {
                    assert(self@ =~= old(self)@.remove(remote));
                }
                true
            },
            None => {
                proof {
                    assert(self@ =~= old(self)@.remove(remote));
                }
                false
            },
        }
    }

    /// Tear every session down, as when this client's signaling
    /// connection ends.
    pub fn shutdown(&mut self)
        ensures
            final(self).local_id() == old(self).local_id(),
            final(self)@ == Map::<u128, SessionModel>::empty(),
    {
        self.sessions.clear();
        proof {
            assert(self@ =~= Map::<u128, SessionModel>::empty());
        }
    }

    /// Whether a session with `remote` is registered.
    pub fn has_session(&self, remote: u128) -> (r: bool)
        ensures
            r == self@.contains_key(remote),
    {
        proof {
            assert(self.sessions@.dom() =~= self@.dom());
        }
        self.sessions.contains_key(&remote)
    }

    /// The phase of the session with `remote`, if one is registered.
    pub fn phase_of(&self, remote: u128) -> (r: Option<SessionPhase>)
        ensures
            self@.contains_key(remote) ==> r == Some(self@[remote].phase),
            !self@.contains_key(remote) ==> r is None,
    {
        match self.sessions.get(&remote) {
            Some(s) => Some(s.phase),
            None => None,
        }
    }

    /// How many sessions are registered.
    pub fn session_count(&self) -> (r: usize)
        ensures
            r == self@.len(),
    {
        proof {
            assert(self.sessions@.dom() =~= self@.dom());
        }
        self.sessions.len()
    }
}

} // verus!
