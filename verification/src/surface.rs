//! The local presentation of a channel: what its host buffer is called and
//! how it is set up, and what the host is told to draw on it.

use crate::model::{Member, Message, MessageUpdate};
use crate::naming::{
    channel_short_name, channel_short_name_spec, clean_name, clean_name_spec, decimal,
    decimal_spec, dm_buffer_id_spec, dm_short_name_spec, guild_buffer_id, guild_buffer_id_spec,
    join_spec, push_clean, self_nick, self_nick_spec, texts,
};
use vstd::prelude::*;

verus! {

/// What the host answered when it was asked to create a buffer.
#[derive(Clone, Copy, Debug, PartialEq, Eq)]
pub enum HostOutcome {
    /// The buffer exists and its handle resolves.
    Created,
    /// The host could not build the buffer.
    BuildFailed,
    /// The buffer was built, but its handle did not resolve.
    UpgradeFailed,
}

/// Why a surface could not be created.
#[derive(Clone, Copy, Debug, PartialEq, Eq)]
pub enum CreationError {
    BuildFailed,
    UpgradeFailed,
}

impl CreationError {
    pub open spec fn message_spec(self) -> Seq<char> {
        match self {
            CreationError::BuildFailed => "Unable to create channel buffer"@,
            CreationError::UpgradeFailed => "Unable to create guild buffer"@,
        }
    }

    /// The text shown for this error.
    pub fn message(&self) -> (r: String)
        ensures
            r@ == self.message_spec(),
    {
        match self {
            CreationError::BuildFailed => String::from_str("Unable to create channel buffer"),
            CreationError::UpgradeFailed => String::from_str("Unable to create guild buffer"),
        }
    }
}

/// The outcome of creating a surface, for a value that is only built when
/// the host created the buffer.
pub open spec fn creation_result(host: HostOutcome) -> Result<(), CreationError> {
    match host {
        HostOutcome::Created => Ok(()),
        HostOutcome::BuildFailed => Err(CreationError::BuildFailed),
        HostOutcome::UpgradeFailed => Err(CreationError::UpgradeFailed),
    }
}

/// How the host buffer of a surface is named and configured.
#[derive(Clone, Debug, PartialEq, Eq)]
pub struct BufferSetup {
    /// The identifier under which the host knows the buffer.
    pub identifier: String,
    pub short_name: String,
    pub full_name: Option<String>,
    pub title: Option<String>,
    /// Local variables of the buffer, as pairs of key and value, in the
    /// order in which they are set.
    pub localvars: Vec<(String, String)>,
    /// Whether the buffer shows a list of members.
    pub nicklist: bool,
}

pub struct BufferSetupView {
    pub identifier: Seq<char>,
    pub short_name: Seq<char>,
    pub full_name: Option<Seq<char>>,
    pub title: Option<Seq<char>>,
    pub localvars: Seq<(Seq<char>, Seq<char>)>,
    pub nicklist: bool,
}

pub open spec fn opt_text(s: Option<String>) -> Option<Seq<char>> {
    match s {
        Some(s) => Some(s@),
        None => None,
    }
}

impl View for BufferSetup {
    type V = BufferSetupView;

    open spec fn view(&self) -> BufferSetupView {
        BufferSetupView {
            identifier: self.identifier@,
            short_name: self.short_name@,
            full_name: opt_text(self.full_name),
            title: opt_text(self.title),
            localvars: self.localvars@.map_values(|p: (String, String)| (p.0@, p.1@)),
            nicklist: self.nicklist,
        }
    }
}

/// The setup of the buffer of a guild channel. `nick` is the nickname of the
/// local user as it is shown, `id` the channel and `guild_id` its guild.
pub open spec fn guild_setup(
    name: Seq<char>,
    nick: Seq<char>,
    guild_name: Seq<char>,
    id: u64,
    guild_id: u64,
) -> BufferSetupView {
    BufferSetupView {
        identifier: guild_buffer_id_spec(guild_name, name),
        short_name: channel_short_name_spec(name),
        full_name: None,
        title: None,
        localvars: seq![
            ("nick"@, nick),
            ("type"@, "channel"@),
            ("server"@, clean_name_spec(guild_name)),
            ("channel"@, clean_name_spec(name)),
            ("guild_id"@, decimal_spec(guild_id as nat)),
            ("channel_id"@, decimal_spec(id as nat)),
        ],
        nicklist: true,
    }
}

/// The setup of the buffer of a direct-message channel. The recipients are
/// taken in the order given; `user_name` is the name of the local user.
pub open spec fn private_setup(
    id: u64,
    recipients: Seq<Seq<char>>,
    full_name: Seq<char>,
    user_name: Seq<char>,
) -> BufferSetupView {
    BufferSetupView {
        identifier: dm_buffer_id_spec(recipients),
        short_name: dm_short_name_spec(recipients),
        full_name: Some(full_name),
        title: Some(full_name),
        localvars: seq![
            ("nick"@, self_nick_spec(user_name)),
            ("channel_id"@, decimal_spec(id as nat)),
        ],
        nicklist: false,
    }
}

/// What the host is told to do to a surface.
#[derive(Clone, Debug, PartialEq, Eq)]
pub enum SurfaceOp {
    /// Insert a batch of messages, oldest first.
    AddBulkMessages(Vec<Message>),
    /// Show one new message, with or without notifying the user.
    AddMessage(Message, bool),
    /// Remove the message of this id.
    RemoveMessage(u64),
    UpdateMessage(MessageUpdate),
    /// Draw the buffer again, leaving out the messages of these users.
    Redraw(Vec<u64>),
    /// Put these members on the list of the buffer.
    AddMembers(Vec<Member>),
    /// Close the host buffer.
    Close,
}

pub enum SurfaceOpView {
    AddBulkMessages(Seq<Message>),
    AddMessage(Message, bool),
    RemoveMessage(u64),
    UpdateMessage(MessageUpdate),
    Redraw(Seq<u64>),
    AddMembers(Seq<Member>),
    Close,
}

impl View for SurfaceOp {
    type V = SurfaceOpView;

    open spec fn view(&self) -> SurfaceOpView {
        match *self {
            SurfaceOp::AddBulkMessages(msgs) => SurfaceOpView::AddBulkMessages(msgs@),
            SurfaceOp::AddMessage(msg, notify) => SurfaceOpView::AddMessage(msg, notify),
            SurfaceOp::RemoveMessage(id) => SurfaceOpView::RemoveMessage(id),
            SurfaceOp::UpdateMessage(update) => SurfaceOpView::UpdateMessage(update),
            SurfaceOp::Redraw(ignored) => SurfaceOpView::Redraw(ignored@),
            SurfaceOp::AddMembers(members) => SurfaceOpView::AddMembers(members@),
            SurfaceOp::Close => SurfaceOpView::Close,
        }
    }
}

/// What an operation handed back, by its view.
pub open spec fn issued(r: Option<SurfaceOp>) -> Option<SurfaceOpView> {
    match r {
        Some(op) => Some(op@),
        None => None,
    }
}

/// An operation reaches the host only while the surface is attached to its
/// buffer; after that it is dropped.
pub open spec fn deliver(attached: bool, op: SurfaceOpView) -> Option<SurfaceOpView> {
    if attached {
        Some(op)
    } else {
        None
    }
}

/// The render target of a surface. It is attached to the host buffer from
/// the creation of the surface until the buffer is closed.
#[derive(Debug, PartialEq, Eq)]
pub struct MessageRender {
    attached: bool,
}

impl MessageRender {
    pub closed spec fn attached(&self) -> bool {
        self.attached
    }

    /// The render target of a buffer that the host has just created.
    pub fn new() -> (r: Self)
        ensures
            r.attached(),
    {
        MessageRender { attached: true }
    }

    pub fn is_attached(&self) -> (r: bool)
        ensures
            r == self.attached(),
    {
        self.attached
    }

    /// Gives the buffer up. Says whether it was attached until now.
    pub fn detach(&mut self) -> (r: bool)
        ensures
            r == old(self).attached(),
            !final(self).attached(),
    {
        let was = self.attached;
        self.attached = false;
        was
    }

    pub fn add_bulk_msgs(&self, msgs: Vec<Message>) -> (r: Option<SurfaceOp>)
        ensures
            issued(r) == deliver(self.attached(), SurfaceOpView::AddBulkMessages(msgs@)),
    {
        if self.attached {
            Some(SurfaceOp::AddBulkMessages(msgs))
        } else {
            None
        }
    }

    pub fn add_msg(&self, msg: Message, notify: bool) -> (r: Option<SurfaceOp>)
        ensures
            issued(r) == deliver(self.attached(), SurfaceOpView::AddMessage(msg, notify)),
    {
        if self.attached {
            Some(SurfaceOp::AddMessage(msg, notify))
        } else {
            None
        }
    }

    pub fn remove_msg(&self, id: u64) -> (r: Option<SurfaceOp>)
        ensures
            issued(r) == deliver(self.attached(), SurfaceOpView::RemoveMessage(id)),
    {
        if self.attached {
            Some(SurfaceOp::RemoveMessage(id))
        } else {
            None
        }
    }

    pub fn update_msg(&self, update: MessageUpdate) -> (r: Option<SurfaceOp>)
        ensures
            issued(r) == deliver(self.attached(), SurfaceOpView::UpdateMessage(update)),
    {
        if self.attached {
            Some(SurfaceOp::UpdateMessage(update))
        } else {
            None
        }
    }

    pub fn redraw_buffer(&self, ignore_users: Vec<u64>) -> (r: Option<SurfaceOp>)
        ensures
            issued(r) == deliver(self.attached(), SurfaceOpView::Redraw(ignore_users@)),
    {
        if self.attached {
            Some(SurfaceOp::Redraw(ignore_users))
        } else {
            None
        }
    }

    pub fn add_members(&self, members: Vec<Member>) -> (r: Option<SurfaceOp>)
        ensures
            issued(r) == deliver(self.attached(), SurfaceOpView::AddMembers(members@)),
    {
        if self.attached {
            Some(SurfaceOp::AddMembers(members))
        } else {
            None
        }
    }
}

/// The surface of a channel of a guild.
#[derive(Debug, PartialEq, Eq)]
pub struct GuildChannelBuffer {
    renderer: MessageRender,
    setup: BufferSetup,
}

impl GuildChannelBuffer {
    pub closed spec fn attached(&self) -> bool {
        self.renderer.attached()
    }

    pub closed spec fn setup_view(&self) -> BufferSetupView {
        self.setup@
    }

    /// The setup of the buffer of the channel `name` (id `id`) of the guild
    /// `guild_name` (id `guild_id`), on which the local user appears as
    /// `nick`.
    pub fn plan(
        name: &str,
        nick: &str,
        guild_name: &str,
        id: u64,
        guild_id: u64,
    ) -> (r: BufferSetup)
        ensures
            r@ == guild_setup(name@, nick@, guild_name@, id, guild_id),
    {
        let mut localvars: Vec<(String, String)> = Vec::new();
        localvars.push((String::from_str("nick"), String::from_str(nick)));
        localvars.push((String::from_str("type"), String::from_str("channel")));
        localvars.push((String::from_str("server"), clean_name(guild_name)));
        localvars.push((String::from_str("channel"), clean_name(name)));
        localvars.push((String::from_str("guild_id"), decimal(guild_id)));
        localvars.push((String::from_str("channel_id"), decimal(id)));
        let r = BufferSetup {
            identifier: guild_buffer_id(guild_name, name),
            short_name: channel_short_name(name),
            full_name: None,
            title: None,
            localvars,
            nicklist: true,
        };
        assert(r@.localvars =~= guild_setup(name@, nick@, guild_name@, id, guild_id).localvars);
        r
    }

    /// The surface of a guild channel, once the host has answered the
    /// request to create the buffer that `plan` describes.
    pub fn new(
        name: &str,
        nick: &str,
        guild_name: &str,
        id: u64,
        guild_id: u64,
        host: HostOutcome,
    ) -> (r: Result<Self, CreationError>)
        ensures
            match r {
                Ok(buffer) => {
                    &&& creation_result(host) is Ok
                    &&& buffer.attached()
                    &&& buffer.setup_view() == guild_setup(name@, nick@, guild_name@, id, guild_id)
                },
                Err(e) => creation_result(host) == Err::<(), CreationError>(e),
            },
    {
        match host {
            HostOutcome::BuildFailed => Err(CreationError::BuildFailed),
            HostOutcome::UpgradeFailed => Err(CreationError::UpgradeFailed),
            HostOutcome::Created => Ok(
                GuildChannelBuffer {
                    renderer: MessageRender::new(),
                    setup: Self::plan(name, nick, guild_name, id, guild_id),
                },
            ),
        }
    }

    pub fn setup(&self) -> (r: &BufferSetup)
        ensures
            r@ == self.setup_view(),
    {
        &self.setup
    }

    pub fn add_members(&self, members: Vec<Member>) -> (r: Option<SurfaceOp>)
        ensures
            issued(r) == deliver(self.attached(), SurfaceOpView::AddMembers(members@)),
    {
        self.renderer.add_members(members)
    }
}

/// The surface of a direct-message channel.
#[derive(Debug, PartialEq, Eq)]
pub struct PrivateChannelBuffer {
    renderer: MessageRender,
    setup: BufferSetup,
}

impl PrivateChannelBuffer {
    pub closed spec fn attached(&self) -> bool {
        self.renderer.attached()
    }

    pub closed spec fn setup_view(&self) -> BufferSetupView {
        self.setup@
    }

    /// The nickname of the local user on a direct-message buffer.
    pub fn nick(user_name: &str) -> (r: String)
        ensures
            r@ == self_nick_spec(user_name@),
    {
        self_nick(user_name)
    }

    /// The display name: the names of the recipients, in the order given.
    pub fn short_name(recipients: &Vec<String>) -> (r: String)
        ensures
            r@ == dm_short_name_spec(texts(recipients@)),
    {
        let mut out = String::from_str("DM with ");
        let ghost names = texts(recipients@);
        let mut i: usize = 0;
        while i < recipients.len()
            invariant
                i <= recipients.len(),
                names == texts(recipients@),
                out@ == "DM with "@ + join_spec(names.subrange(0, i as int), ", "@),
            decreases recipients.len() - i,
        {
            if i > 0 {
                out.append(", ");
            }
            out.append(recipients[i].as_str());
            proof {
                let done = names.subrange(0, i + 1);
                assert(done.drop_last() == names.subrange(0, i as int));
                assert(done.last() == recipients[i as int]@);
            }
            i += 1;
        }
        assert(names.subrange(0, names.len() as int) == names);
        out
    }

    /// The identifier: the cleaned names of the recipients, joined by dots.
    pub fn buffer_id(recipients: &Vec<String>) -> (r: String)
        ensures
            r@ == dm_buffer_id_spec(texts(recipients@)),
    {
        let mut out = String::from_str("discord.dm.");
        let ghost names = texts(recipients@).map_values(|n: Seq<char>| clean_name_spec(n));
        let mut i: usize = 0;
        while i < recipients.len()
            invariant
                i <= recipients.len(),
                names == texts(recipients@).map_values(|n: Seq<char>| clean_name_spec(n)),
                out@ == "discord.dm."@ + join_spec(names.subrange(0, i as int), "."@),
            decreases recipients.len() - i,
        {
            if i > 0 {
                out.append(".");
            }
            push_clean(&mut out, recipients[i].as_str());
            proof {
                let done = names.subrange(0, i + 1);
                assert(done.drop_last() == names.subrange(0, i as int));
                assert(done.last() == clean_name_spec(recipients[i as int]@));
            }
            i += 1;
        }
        assert(names.subrange(0, names.len() as int) == names);
        out
    }

    /// The setup of the buffer of the direct-message channel `id`.
    pub fn plan(
        id: u64,
        recipients: &Vec<String>,
        full_name: &str,
        user_name: &str,
    ) -> (r: BufferSetup)
        ensures
            r@ == private_setup(id, texts(recipients@), full_name@, user_name@),
    {
        let mut localvars: Vec<(String, String)> = Vec::new();
        localvars.push((String::from_str("nick"), Self::nick(user_name)));
        localvars.push((String::from_str("channel_id"), decimal(id)));
        let r = BufferSetup {
            identifier: Self::buffer_id(recipients),
            short_name: Self::short_name(recipients),
            full_name: Some(String::from_str(full_name)),
            title: Some(String::from_str(full_name)),
            localvars,
            nicklist: false,
        };
        let ghost expected = private_setup(id, texts(recipients@), full_name@, user_name@);
        assert(r@.localvars =~= expected.localvars);
        r
    }

    /// The surface of a direct-message channel, once the host has answered
    /// the request to create the buffer that `plan` describes.
    pub fn new(
        id: u64,
        recipients: &Vec<String>,
        full_name: &str,
        user_name: &str,
        host: HostOutcome,
    ) -> (r: Result<Self, CreationError>)
        ensures
            match r {
                Ok(buffer) => {
                    &&& creation_result(host) is Ok
                    &&& buffer.attached()
                    &&& buffer.setup_view() == private_setup(
                        id,
                        texts(recipients@),
                        full_name@,
                        user_name@,
                    )
                },
                Err(e) => creation_result(host) == Err::<(), CreationError>(e),
            },
    {
        match host {
            HostOutcome::BuildFailed => Err(CreationError::BuildFailed),
            HostOutcome::UpgradeFailed => Err(CreationError::UpgradeFailed),
            HostOutcome::Created => Ok(
                PrivateChannelBuffer {
                    renderer: MessageRender::new(),
                    setup: Self::plan(id, recipients, full_name, user_name),
                },
            ),
        }
    }

    pub fn setup(&self) -> (r: &BufferSetup)
        ensures
            r@ == self.setup_view(),
    {
        &self.setup
    }

    pub fn add_members(&self, members: Vec<Member>) -> (r: Option<SurfaceOp>)
        ensures
            issued(r) == deliver(self.attached(), SurfaceOpView::AddMembers(members@)),
    {
        self.renderer.add_members(members)
    }
}

/// The surface of a channel, of either kind.
#[derive(Debug, PartialEq, Eq)]
pub enum ChannelBufferVariants {
    GuildChannel(GuildChannelBuffer),
    PrivateChannel(PrivateChannelBuffer),
}

impl ChannelBufferVariants {
    /// Whether the surface still has its host buffer.
    pub open spec fn attached(&self) -> bool {
        match self {
            ChannelBufferVariants::GuildChannel(buffer) => buffer.attached(),
            ChannelBufferVariants::PrivateChannel(buffer) => buffer.attached(),
        }
    }

    /// Whether this is the surface of a guild channel.
    pub open spec fn is_guild(&self) -> bool {
        self is GuildChannel
    }

    pub open spec fn setup_view(&self) -> BufferSetupView {
        match self {
            ChannelBufferVariants::GuildChannel(buffer) => buffer.setup_view(),
            ChannelBufferVariants::PrivateChannel(buffer) => buffer.setup_view(),
        }
    }

    /// The render target of the surface.
    pub fn renderer(&self) -> (r: &MessageRender)
        ensures
            r.attached() == self.attached(),
    {
        match self {
            ChannelBufferVariants::GuildChannel(buffer) => &buffer.renderer,
            ChannelBufferVariants::PrivateChannel(buffer) => &buffer.renderer,
        }
    }

    pub fn setup(&self) -> (r: &BufferSetup)
        ensures
            r@ == self.setup_view(),
    {
        match self {
            ChannelBufferVariants::GuildChannel(buffer) => buffer.setup(),
            ChannelBufferVariants::PrivateChannel(buffer) => buffer.setup(),
        }
    }

    /// Lets go of the host buffer, which exists no more. Says whether the
    /// surface had it until now. Nothing else about the surface changes.
    pub fn detach(&mut self) -> (r: bool)
        ensures
            r == old(self).attached(),
            !final(self).attached(),
            final(self).setup_view() == old(self).setup_view(),
            final(self).is_guild() == old(self).is_guild(),
    {
        match self {
            ChannelBufferVariants::GuildChannel(buffer) => buffer.renderer.detach(),
            ChannelBufferVariants::PrivateChannel(buffer) => buffer.renderer.detach(),
        }
    }

    /// Closes the surface: the host is told to close the buffer if the
    /// surface still had it, and never again after that. Nothing else about
    /// the surface changes.
    pub fn close(&mut self) -> (r: Option<SurfaceOp>)
        ensures
            issued(r) == deliver(old(self).attached(), SurfaceOpView::Close),
            !final(self).attached(),
            final(self).setup_view() == old(self).setup_view(),
            final(self).is_guild() == old(self).is_guild(),
    {
        if self.detach() {
            Some(SurfaceOp::Close)
        } else {
            None
        }
    }

    pub fn add_bulk_msgs(&self, msgs: Vec<Message>) -> (r: Option<SurfaceOp>)
        ensures
            issued(r) == deliver(self.attached(), SurfaceOpView::AddBulkMessages(msgs@)),
    {
        self.renderer().add_bulk_msgs(msgs)
    }

    pub fn add_msg(&self, msg: Message, notify: bool) -> (r: Option<SurfaceOp>)
        ensures
            issued(r) == deliver(self.attached(), SurfaceOpView::AddMessage(msg, notify)),
    {
        self.renderer().add_msg(msg, notify)
    }

    pub fn remove_msg(&self, id: u64) -> (r: Option<SurfaceOp>)
        ensures
            issued(r) == deliver(self.attached(), SurfaceOpView::RemoveMessage(id)),
    {
        self.renderer().remove_msg(id)
    }

    pub fn update_msg(&self, update: MessageUpdate) -> (r: Option<SurfaceOp>)
        ensures
            issued(r) == deliver(self.attached(), SurfaceOpView::UpdateMessage(update)),
    {
        self.renderer().update_msg(update)
    }

    pub fn redraw_buffer(&self, ignore_users: Vec<u64>) -> (r: Option<SurfaceOp>)
        ensures
            issued(r) == deliver(self.attached(), SurfaceOpView::Redraw(ignore_users@)),
    {
        self.renderer().redraw_buffer(ignore_users)
    }

    pub fn add_members(&self, members: Vec<Member>) -> (r: Option<SurfaceOp>)
        ensures
            issued(r) == deliver(self.attached(), SurfaceOpView::AddMembers(members@)),
    {
        match self {
            ChannelBufferVariants::GuildChannel(buffer) => buffer.add_members(members),
            ChannelBufferVariants::PrivateChannel(buffer) => buffer.add_members(members),
        }
    }
}

} // verus!
