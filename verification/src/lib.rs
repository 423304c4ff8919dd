//! Room-scoped chat session coordination.
//!
//! Onboards anonymous connections into named participants, replays stored
//! history to newcomers, and shapes chat and binary events into deliveries
//! for the members of a single fixed room. The transport and the durable
//! message store are outside collaborators; this crate decides, for every
//! lifecycle event, which texts go to whom.

use vstd::prelude::*;

pub mod envelope;
pub mod history;
pub mod laws;
pub mod numfmt;
pub mod registry;
pub mod session;
pub mod text;

verus! {

/// The single room every connection joins.
pub open spec fn main_room() -> Seq<char> {
    "main"@
}

/// The room name handed to the transport when a connection opens.
pub fn room_name() -> (r: &'static str)
    ensures
        r@ == main_room(),
{
    "main"
}

} // verus!
