//! The items whose contracts are believed rather than proved: calls into
//! `twilight` and into the parts of `std` that have no specification.

use twilight_cache_inmemory::InMemoryCache;
use vstd::prelude::*;

verus! {

/// The in-memory cache of `twilight`, carried through as an opaque value.
#[verifier::external_type_specification]
#[verifier::external_body]
pub struct ExInMemoryCache(InMemoryCache);

/// `String::push`: appends one character at the end.
#[verifier::external_body]
pub(crate) fn push_char(s: &mut String, c: char)
    ensures
        final(s)@ == old(s)@.push(c),
{
    s.push(c)
}

/// `InMemoryCache::channel`, reduced to the guild that the cached channel
/// belongs to. The outer `None` means that the cache holds no channel of
/// that id. The cache is filled from another place while the program runs,
/// so nothing is claimed about the answer. An id of `twilight` is never
/// zero: `Id::new` panics on it.
#[verifier::external_body]
pub(crate) fn cached_channel_guild(cache: &InMemoryCache, channel: u64) -> (r: Option<Option<u64>>)
    requires
        channel != 0,
{
    let id = twilight_model::id::Id::new(channel);
    cache.channel(id).map(|c| c.guild_id.map(|g| g.get()))
}

/// `twilight_validate::message::content`: a text is accepted as the content
/// of a message exactly when it has at most 2000 characters.
#[verifier::external_body]
pub(crate) fn content_is_valid(text: &str) -> (r: bool)
    ensures
        r == (text@.len() <= 2000),
{
    twilight_validate::message::content(text).is_ok()
}

/// `twilight_validate::request::get_channel_messages_limit`: a history
/// request may ask for 1 to 100 messages.
#[verifier::external_body]
pub(crate) fn history_limit_is_valid(limit: u16) -> (r: bool)
    ensures
        r == (1 <= limit <= 100),
{
    twilight_validate::request::get_channel_messages_limit(limit).is_ok()
}

} // verus!
