//! Relay-side client registry: identity to outbound-connection token.

use vstd::prelude::*;
use std::collections::HashMap;

verus! {

broadcast use vstd::std_specs::hash::group_hash_axioms;

/// What disconnecting connection `conn` of identity `id` leaves behind:
/// the entry goes only when it still belongs to that connection, so a
/// stale connection's late close never evicts a newer registration.
pub open spec fn disconnect_spec(m: Map<u128, u64>, id: u128, conn: u64) -> Map<u128, u64> {
    if m.contains_key(id) && m[id] == conn {
        m.remove(id)
    } else {
        m
    }
}

/// The relay's registry of connected clients. Each identity maps to an
/// opaque token naming the outbound sink of its current connection; at
/// most one registration per identity, last writer wins.
pub struct ClientRegistry {
    table: HashMap<u128, u64>,
}

impl View for ClientRegistry {
    type V = Map<u128, u64>;

    closed spec fn view(&self) -> Map<u128, u64> {
        self.table@
    }
}

impl ClientRegistry {
    /// An empty registry: no client is connected.
    pub fn new() -> (r: Self)
        ensures
            r@ == Map::<u128, u64>::empty(),
    {
        ClientRegistry { table: HashMap::new() }
    }

    /// Register a connection under an identity, replacing any prior
    /// registration for the same identity (last writer wins).
    pub fn register(&mut self, id: u128, conn: u64)
        ensures
            final(self)@ == old(self)@.insert(id, conn),
    {
        self.table.insert(id, conn);
    }

    /// The connection token currently registered for an identity, if any.
    pub fn lookup(&self, id: u128) -> (r: Option<u64>)
        ensures
            r == if self@.contains_key(id) {
                Some(self@[id])
            } else {
                None::<u64>
            },
    {
        match self.table.get(&id) {
            Some(c) => Some(*c),
            None => None,
        }
    }

    /// Evict the registration of `id`, but only while it still belongs to
    /// connection `conn`: a reconnect under the same identity has already
    /// replaced the entry, and the stale connection's close must leave the
    /// newer registration in place.
    pub fn disconnect(&mut self, id: u128, conn: u64) -> (removed: bool)
        ensures
            final(self)@ == disconnect_spec(old(self)@, id, conn),
            removed == (old(self)@.contains_key(id) && old(self)@[id] == conn),
    {
        let owns_entry = match self.table.get(&id) {
            Some(c) => *c == conn,
            None => false,
        };
        if owns_entry {
            self.table.remove(&id);
            true
        } else {
            false
        }
    }

    /// How many clients are currently registered.
    pub fn len(&self) -> (r: usize)
        ensures
            r == self@.len(),
    {
        self.table.len()
    }
}

} // verus!
