//! The remote entities, reduced to what the channel logic reads: the ids by
//! which the host finds the full entity again.

use vstd::prelude::*;

verus! {

/// A remote message.
#[derive(Clone, Copy, Debug, PartialEq, Eq)]
pub struct Message {
    pub id: u64,
    pub channel_id: u64,
    /// The guild that the message belongs to. The history endpoint of the
    /// remote service leaves it out even for messages of a guild channel.
    pub guild_id: Option<u64>,
}

/// An edit of a remote message.
#[derive(Clone, Copy, Debug, PartialEq, Eq)]
pub struct MessageUpdate {
    pub id: u64,
    pub channel_id: u64,
}

/// A member of a channel.
#[derive(Clone, Copy, Debug, PartialEq, Eq)]
pub struct Member {
    pub user_id: u64,
}

} // verus!
