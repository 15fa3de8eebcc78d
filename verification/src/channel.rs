//! The channel: identity, the guarded state, the count of handles that
//! share it, and the operations that the application calls.

use crate::model::{Member, Message, MessageUpdate};
use crate::naming::{self_nick, self_nick_spec, texts};
use crate::outside::{cached_channel_guild, history_limit_is_valid};
use crate::state::{ChannelInner, StateView};
use crate::surface::{
    creation_result, guild_setup, issued, private_setup, BufferSetup, BufferSetupView,
    ChannelBufferVariants, CreationError, GuildChannelBuffer, HostOutcome, PrivateChannelBuffer,
    SurfaceOp, SurfaceOpView,
};
use twilight_cache_inmemory::InMemoryCache;
use vstd::prelude::*;

verus! {

/// Why a bulk load did not take place.
#[derive(Clone, Copy, Debug, PartialEq, Eq)]
pub enum FetchError {
    /// The configured number of messages is not one that the remote
    /// service accepts.
    InvalidLimit,
    /// The remote service did not deliver the messages.
    Transport,
    /// The cache does not know the channel.
    UnknownChannel,
    /// The members of the channel could not be resolved.
    MembersUnresolved,
}

impl FetchError {
    pub open spec fn message_spec(self) -> Seq<char> {
        match self {
            FetchError::InvalidLimit => "invalid number of messages to load"@,
            FetchError::Transport => "unable to load messages"@,
            FetchError::UnknownChannel => "unable to load members for nicklist"@,
            FetchError::MembersUnresolved => "unable to load members for nicklist"@,
        }
    }

    /// The text shown for this error.
    pub fn message(&self) -> (r: String)
        ensures
            r@ == self.message_spec(),
    {
        match self {
            FetchError::InvalidLimit => String::from_str("invalid number of messages to load"),
            FetchError::Transport => String::from_str("unable to load messages"),
            FetchError::UnknownChannel => String::from_str("unable to load members for nicklist"),
            FetchError::MembersUnresolved => String::from_str(
                "unable to load members for nicklist",
            ),
        }
    }
}

/// What the host has to ask of the remote service to load the history.
#[derive(Clone, Copy, Debug, PartialEq, Eq)]
pub struct HistoryRequest {
    pub channel_id: u64,
    /// How many of the most recent messages to fetch.
    pub limit: u16,
}

/// The message `m` as a message of the guild `guild_id`.
pub open spec fn with_guild(m: Message, guild_id: Option<u64>) -> Message {
    Message { guild_id, ..m }
}

/// The fetched messages with the guild of their channel filled in. `lookup`
/// is what the cache knows of the channel: nothing, or the guild that it
/// belongs to. Where the cache knows the channel, every message gets the
/// guild of the channel.
pub open spec fn backfill(msgs: Seq<Message>, lookup: Option<Option<u64>>) -> Seq<Message> {
    match lookup {
        Some(guild_id) => msgs.map_values(|m: Message| with_guild(m, guild_id)),
        None => msgs,
    }
}

/// The batch that a history load hands to the surface: the fetched
/// messages, which come newest first, with their guild filled in, oldest
/// first.
pub open spec fn history_batch(
    fetched: Seq<Message>,
    lookup: Option<Option<u64>>,
) -> Seq<Message> {
    backfill(fetched, lookup).reverse()
}

/// What a history load answers.
pub open spec fn history_result(
    before: ChannelView,
    lookup: Option<Option<u64>>,
    fetched: Option<Seq<Message>>,
) -> Result<Option<SurfaceOpView>, FetchError> {
    match fetched {
        None => Err(FetchError::Transport),
        Some(msgs) => Ok(
            before.state.forward(SurfaceOpView::AddBulkMessages(history_batch(msgs, lookup))),
        ),
    }
}

/// What a load of the members answers.
pub open spec fn users_result(
    before: ChannelView,
    lookup: Option<Option<u64>>,
    members: Option<Seq<Member>>,
) -> Result<Option<SurfaceOpView>, FetchError> {
    match (lookup, members) {
        (None, _) => Err(FetchError::UnknownChannel),
        (Some(_), None) => Err(FetchError::MembersUnresolved),
        (Some(_), Some(members)) => Ok(before.state.forward(SurfaceOpView::AddMembers(members))),
    }
}

pub open spec fn opt_seq<T>(v: Option<Vec<T>>) -> Option<Seq<T>> {
    match v {
        Some(v) => Some(v@),
        None => None,
    }
}

/// The answer of a bulk load, by its view.
pub open spec fn answered(
    r: Result<Option<SurfaceOp>, FetchError>,
) -> Result<Option<SurfaceOpView>, FetchError> {
    match r {
        Ok(op) => Ok(issued(op)),
        Err(e) => Err(e),
    }
}

/// Puts fetched messages, newest first, into the order in which a surface
/// takes them, and fills in the guild that the cache knows for the channel.
pub fn chronological(fetched: Vec<Message>, lookup: Option<Option<u64>>) -> (r: Vec<Message>)
    ensures
        r@ == history_batch(fetched@, lookup),
{
    let n = fetched.len();
    let mut out: Vec<Message> = Vec::new();
    let mut i: usize = n;
    while i > 0
        invariant
            n == fetched.len(),
            i <= n,
            out.len() == n - i,
            forall|j: int| 0 <= j < out.len() ==> out[j] == backfill(fetched@, lookup)[n - 1 - j],
        decreases i,
    {
        i -= 1;
        let m = fetched[i];
        let filled = match lookup {
            Some(guild_id) => Message { id: m.id, channel_id: m.channel_id, guild_id },
            None => m,
        };
        out.push(filled);
    }
    assert(out@ =~= history_batch(fetched@, lookup));
    out
}

/// A channel, as a mathematical value.
pub struct ChannelView {
    pub id: u64,
    /// The guild of the channel; none for a direct-message channel.
    pub guild_id: Option<u64>,
    /// How many messages a history load asks for.
    pub fetch_count: u64,
    /// How many handles share the channel.
    pub handles: nat,
    /// How many bulk loads hold the state while they wait.
    pub borrows: nat,
    pub state: StateView,
}

impl ChannelView {
    /// The channel as a factory leaves it: open, with one handle.
    pub open spec fn created(
        id: u64,
        guild_id: Option<u64>,
        fetch_count: u64,
        setup: BufferSetupView,
    ) -> ChannelView {
        ChannelView {
            id,
            guild_id,
            fetch_count,
            handles: 1,
            borrows: 0,
            state: StateView { guild: guild_id is Some, setup, attached: true, closed: false },
        }
    }

    /// A channel is sound when its state is, and when a channel that no
    /// handle shares any more is closed.
    pub open spec fn wf(self) -> bool {
        &&& self.state.wf()
        &&& self.handles == 0 ==> self.state.closed
    }

    pub open spec fn clone_handle(self) -> ChannelView {
        ChannelView { handles: self.handles + 1, ..self }
    }

    /// A handle goes away. With the last one the state ends.
    pub open spec fn drop_handle(self) -> (ChannelView, Option<SurfaceOpView>) {
        if self.handles == 0 {
            (self, None)
        } else if self.handles == 1 {
            let (state, op) = self.state.teardown();
            (ChannelView { handles: 0, state, ..self }, op)
        } else {
            (ChannelView { handles: (self.handles - 1) as nat, ..self }, None)
        }
    }

    /// The host has closed the buffer. The surface lets go of it in any
    /// case. The closed flag is set only when no bulk load holds the state;
    /// else that attempt is skipped.
    pub open spec fn set_closed(self) -> ChannelView {
        if self.borrows == 0 {
            ChannelView { state: self.state.set_closed(), ..self }
        } else {
            ChannelView { state: self.state.detach(), ..self }
        }
    }

    pub open spec fn begin_load(self) -> ChannelView {
        ChannelView { borrows: self.borrows + 1, ..self }
    }

    pub open spec fn end_load(self) -> ChannelView {
        if self.borrows == 0 {
            self
        } else {
            ChannelView { borrows: (self.borrows - 1) as nat, ..self }
        }
    }

    /// Whether a history load can be asked of the remote service.
    pub open spec fn limit_is_valid(self) -> bool {
        1 <= self.fetch_count <= 100
    }
}

/// One remote channel and its local surface. The application holds it
/// through any number of handles, which it counts in and out here.
#[derive(Debug, PartialEq, Eq)]
pub struct Channel {
    id: u64,
    guild_id: Option<u64>,
    inner: ChannelInner,
    fetch_count: u64,
    handles: usize,
    borrows: usize,
}

impl View for Channel {
    type V = ChannelView;

    closed spec fn view(&self) -> ChannelView {
        ChannelView {
            id: self.id,
            guild_id: self.guild_id,
            fetch_count: self.fetch_count,
            handles: self.handles as nat,
            borrows: self.borrows as nat,
            state: self.inner@,
        }
    }
}

impl Channel {
    /// The number of handles that share the channel, and of weak
    /// references to it, of which there are none.
    pub fn debug_counts(&self) -> (r: (usize, usize))
        ensures
            r.0 == self@.handles,
            r.1 == 0,
    {
        (self.handles, 0)
    }

    /// The channel `channel_name` of the guild `guild_name`, on which the
    /// local user is known as `user_nick`, once the host has answered the
    /// request to create its buffer.
    pub fn guild(
        channel_name: &str,
        channel_id: u64,
        guild_name: &str,
        guild_id: u64,
        user_nick: &str,
        fetch_count: u64,
        host: HostOutcome,
    ) -> (r: Result<Channel, CreationError>)
        ensures
            match r {
                Ok(channel) => {
                    &&& creation_result(host) is Ok
                    &&& channel@ == ChannelView::created(
                        channel_id,
                        Some(guild_id),
                        fetch_count,
                        guild_setup(
                            channel_name@,
                            self_nick_spec(user_nick@),
                            guild_name@,
                            channel_id,
                            guild_id,
                        ),
                    )
                    &&& channel@.wf()
                },
                Err(e) => creation_result(host) == Err::<(), CreationError>(e),
            },
    {
        let nick = self_nick(user_nick);
        let buffer = GuildChannelBuffer::new(
            channel_name,
            nick.as_str(),
            guild_name,
            channel_id,
            guild_id,
            host,
        )?;
        let inner = ChannelInner::new(ChannelBufferVariants::GuildChannel(buffer));
        Ok(
            Channel {
                id: channel_id,
                guild_id: Some(guild_id),
                inner,
                fetch_count,
                handles: 1,
                borrows: 0,
            },
        )
    }

    /// The direct-message channel with these recipients, once the host has
    /// answered the request to create its buffer.
    pub fn private(
        channel_id: u64,
        recipients: &Vec<String>,
        full_name: &str,
        user_name: &str,
        fetch_count: u64,
        host: HostOutcome,
    ) -> (r: Result<Channel, CreationError>)
        ensures
            match r {
                Ok(channel) => {
                    &&& creation_result(host) is Ok
                    &&& channel@ == ChannelView::created(
                        channel_id,
                        None,
                        fetch_count,
                        private_setup(channel_id, texts(recipients@), full_name@, user_name@),
                    )
                    &&& channel@.wf()
                },
                Err(e) => creation_result(host) == Err::<(), CreationError>(e),
            },
    {
        let buffer = PrivateChannelBuffer::new(channel_id, recipients, full_name, user_name, host)?;
        let inner = ChannelInner::new(ChannelBufferVariants::PrivateChannel(buffer));
        Ok(Channel { id: channel_id, guild_id: None, inner, fetch_count, handles: 1, borrows: 0 })
    }

    pub fn id(&self) -> (r: u64)
        ensures
            r == self@.id,
    {
        self.id
    }

    pub fn guild_id(&self) -> (r: Option<u64>)
        ensures
            r == self@.guild_id,
    {
        self.guild_id
    }

    pub fn is_closed(&self) -> (r: bool)
        ensures
            r == self@.state.closed,
    {
        self.inner.is_closed()
    }

    /// The number of bulk loads that hold the state.
    pub fn borrows(&self) -> (r: usize)
        ensures
            r == self@.borrows,
    {
        self.borrows
    }

    /// How the host buffer of the channel is named and configured.
    pub fn setup(&self) -> (r: &BufferSetup)
        ensures
            r@ == self@.state.setup,
    {
        self.inner.buffer().setup()
    }

    /// Counts a new handle in.
    pub fn clone_handle(&mut self)
        requires
            old(self)@.handles < usize::MAX,
        ensures
            final(self)@ == old(self)@.clone_handle(),
    {
        self.handles = self.handles + 1;
    }

    /// Counts a handle out. With the last one the state ends: the surface
    /// is closed if the channel was still open.
    pub fn drop_handle(&mut self) -> (r: Option<SurfaceOp>)
        ensures
            (final(self)@, issued(r)) == old(self)@.drop_handle(),
            old(self)@.wf() ==> final(self)@.wf(),
    {
        if self.handles == 0 {
            None
        } else if self.handles == 1 {
            self.handles = 0;
            self.inner.teardown()
        } else {
            self.handles = self.handles - 1;
            None
        }
    }

    /// What the cache knows of the channel: nothing, or the guild that it
    /// belongs to. No channel has the id zero.
    fn lookup(&self, cache: &InMemoryCache) -> (r: Option<Option<u64>>)
        ensures
            self@.id == 0 ==> r is None,
    {
        if self.id == 0 {
            None
        } else {
            cached_channel_guild(cache, self.id)
        }
    }

    /// Starts a history load: says what to fetch, and holds the state until
    /// the load is finished.
    pub fn begin_history(&mut self) -> (r: Result<HistoryRequest, FetchError>)
        requires
            old(self)@.borrows < usize::MAX,
        ensures
            match r {
                Ok(request) => {
                    &&& old(self)@.limit_is_valid()
                    &&& request.channel_id == old(self)@.id
                    &&& request.limit == old(self)@.fetch_count
                    &&& final(self)@ == old(self)@.begin_load()
                },
                Err(e) => {
                    &&& !old(self)@.limit_is_valid()
                    &&& e == FetchError::InvalidLimit
                    &&& final(self)@ == old(self)@
                },
            },
    {
        if self.fetch_count > 65535 {
            return Err(FetchError::InvalidLimit);
        }
        let limit = self.fetch_count as u16;
        if !history_limit_is_valid(limit) {
            return Err(FetchError::InvalidLimit);
        }
        self.borrows = self.borrows + 1;
        Ok(HistoryRequest { channel_id: self.id, limit })
    }

    /// Finishes a history load with what was fetched, newest first, or with
    /// nothing if the fetch failed, and with what the cache knows of the
    /// channel. Releases the state. A failed fetch applies nothing.
    pub fn apply_history(
        &mut self,
        lookup: Option<Option<u64>>,
        fetched: Option<Vec<Message>>,
    ) -> (r: Result<Option<SurfaceOp>, FetchError>)
        ensures
            final(self)@ == old(self)@.end_load(),
            answered(r) == history_result(old(self)@, lookup, opt_seq(fetched)),
    {
        if self.borrows > 0 {
            self.borrows = self.borrows - 1;
        }
        match fetched {
            None => Err(FetchError::Transport),
            Some(msgs) => {
                let batch = chronological(msgs, lookup);
                if self.inner.is_closed() {
                    Ok(None)
                } else {
                    Ok(self.inner.buffer().add_bulk_msgs(batch))
                }
            },
        }
    }

    /// Finishes a history load, looking the channel up in the cache. The
    /// answer is that of `apply_history` for what the cache said, whatever
    /// that was; for the id zero, which no channel has, the cache is not
    /// asked.
    pub fn load_history(
        &mut self,
        cache: &InMemoryCache,
        fetched: Option<Vec<Message>>,
    ) -> (r: Result<Option<SurfaceOp>, FetchError>)
        ensures
            final(self)@ == old(self)@.end_load(),
            exists|lookup: Option<Option<u64>>|
                answered(r) == history_result(old(self)@, lookup, opt_seq(fetched)),
            old(self)@.id == 0 ==> answered(r) == history_result(
                old(self)@,
                None,
                opt_seq(fetched),
            ),
            fetched is None <==> r == Err::<Option<SurfaceOp>, FetchError>(FetchError::Transport),
            fetched is Some <==> r is Ok,
    {
        let lookup = self.lookup(cache);
        self.apply_history(lookup, fetched)
    }

    /// Loads the members of the channel, given what the cache knows of the
    /// channel and the members as far as they could be resolved.
    pub fn apply_users(
        &self,
        lookup: Option<Option<u64>>,
        members: Option<Vec<Member>>,
    ) -> (r: Result<Option<SurfaceOp>, FetchError>)
        ensures
            answered(r) == users_result(self@, lookup, opt_seq(members)),
    {
        if lookup.is_none() {
            return Err(FetchError::UnknownChannel);
        }
        match members {
            None => Err(FetchError::MembersUnresolved),
            Some(members) => {
                if self.inner.is_closed() {
                    Ok(None)
                } else {
                    Ok(self.inner.buffer().add_members(members))
                }
            },
        }
    }

    /// Loads the members of the channel, looking the channel up in the
    /// cache. The answer is that of `apply_users` for what the cache said,
    /// whatever that was; for the id zero, which no channel has, the cache
    /// is not asked.
    pub fn load_users(
        &self,
        cache: &InMemoryCache,
        members: Option<Vec<Member>>,
    ) -> (r: Result<Option<SurfaceOp>, FetchError>)
        ensures
            exists|lookup: Option<Option<u64>>|
                answered(r) == users_result(self@, lookup, opt_seq(members)),
            self@.id == 0 ==> r == Err::<Option<SurfaceOp>, FetchError>(
                FetchError::UnknownChannel,
            ),
            members is None ==> r is Err,
            r is Err ==> r->Err_0 == FetchError::UnknownChannel || (members is None && r->Err_0
                == FetchError::MembersUnresolved),
    {
        let lookup = self.lookup(cache);
        self.apply_users(lookup, members)
    }

    pub fn add_message(&self, msg: Message, notify: bool) -> (r: Option<SurfaceOp>)
        ensures
            issued(r) == self@.state.forward(SurfaceOpView::AddMessage(msg, notify)),
    {
        if self.inner.is_closed() {
            None
        } else {
            self.inner.buffer().add_msg(msg, notify)
        }
    }

    pub fn remove_message(&self, msg_id: u64) -> (r: Option<SurfaceOp>)
        ensures
            issued(r) == self@.state.forward(SurfaceOpView::RemoveMessage(msg_id)),
    {
        if self.inner.is_closed() {
            None
        } else {
            self.inner.buffer().remove_msg(msg_id)
        }
    }

    pub fn update_message(&self, update: MessageUpdate) -> (r: Option<SurfaceOp>)
        ensures
            issued(r) == self@.state.forward(SurfaceOpView::UpdateMessage(update)),
    {
        if self.inner.is_closed() {
            None
        } else {
            self.inner.buffer().update_msg(update)
        }
    }

    pub fn redraw(&self, ignore_users: Vec<u64>) -> (r: Option<SurfaceOp>)
        ensures
            issued(r) == self@.state.forward(SurfaceOpView::Redraw(ignore_users@)),
    {
        if self.inner.is_closed() {
            None
        } else {
            self.inner.buffer().redraw_buffer(ignore_users)
        }
    }

    /// Records that the host has closed the buffer. The surface is not
    /// told to close: it lets go of the buffer. While a bulk load holds the
    /// state, the attempt to set the closed flag is skipped.
    pub fn set_closed(&mut self)
        ensures
            final(self)@ == old(self)@.set_closed(),
            old(self)@.wf() ==> final(self)@.wf(),
    {
        if self.borrows == 0 {
            self.inner.set_closed();
        } else {
            self.inner.detach();
        }
    }
}

} // verus!
