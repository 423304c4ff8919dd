//! The shared registry mapping connection identifiers to display names.
//!
//! An entry exists exactly for the connections that have completed
//! onboarding; every stored name is non-empty. Different connections may
//! share a display name. The registry is a plain value here; the caller
//! that shares it between connections guards it with its own lock, held
//! only around these operations and never across an outbound send.

use vstd::prelude::*;
use std::collections::HashMap;

verus! {

broadcast use vstd::std_specs::hash::group_hash_axioms;

/// Mapping from connection identifier to display name.
pub struct NameRegistry {
    table: HashMap<u64, String>,
}

impl View for NameRegistry {
    type V = Map<u64, Seq<char>>;

    closed spec fn view(&self) -> Map<u64, Seq<char>> {
        self.table@.map_values(|v: String| v@)
    }
}

/// Every registered name is non-empty: a connection only ever becomes
/// `Named` with a non-blank name.
pub open spec fn names_nonempty(m: Map<u64, Seq<char>>) -> bool {
    forall|id: u64| #[trigger] m.contains_key(id) ==> m[id].len() > 0
}

impl NameRegistry {
    /// An empty registry.
    pub fn new() -> (r: Self)
        ensures
            r@ == Map::<u64, Seq<char>>::empty(),
            names_nonempty(r@),
    {
        let r = NameRegistry { table: HashMap::new() };
        proof {
            assert(r@ =~= Map::<u64, Seq<char>>::empty());
        }
        r
    }

    /// Records the display name of a connection that has just completed
    /// onboarding.
    pub fn register(&mut self, id: u64, name: String)
        requires
            name@.len() > 0,
            names_nonempty(old(self)@),
        ensures
            final(self)@ == old(self)@.insert(id, name@),
            names_nonempty(final(self)@),
    {
        let ghost before = self@;
        self.table.insert(id, name);
        proof {
            assert(self@ =~= before.insert(id, name@));
        }
    }

    /// Whether the connection has a registered name.
    pub fn contains(&self, id: u64) -> (r: bool)
        ensures
            r == self@.contains_key(id),
    {
        self.table.contains_key(&id)
    }

    /// The display name registered for the connection, if any.
    pub fn lookup(&self, id: u64) -> (r: Option<String>)
        ensures
            match r {
                Some(name) => self@.contains_key(id) && name@ == self@[id],
                None => !self@.contains_key(id),
            },
    {
        match self.table.get(&id) {
            Some(name) => Some(name.clone()),
            None => None,
        }
    }

    /// Drops the connection's entry, if any; called when the connection
    /// closes, so that the registry does not grow without bound.
    pub fn unregister(&mut self, id: u64)
        requires
            names_nonempty(old(self)@),
        ensures
            final(self)@ == old(self)@.remove(id),
            names_nonempty(final(self)@),
    {
        let ghost before = self@;
        self.table.remove(&id);
        proof {
            assert(self@ =~= before.remove(id));
        }
    }
}

} // verus!
