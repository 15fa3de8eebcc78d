use channel_bridge::model::{Member, Message, MessageUpdate};
use channel_bridge::surface::{
    BufferSetup, ChannelBufferVariants, CreationError, GuildChannelBuffer, HostOutcome,
    MessageRender, PrivateChannelBuffer, SurfaceOp,
};

fn names(list: &[&str]) -> Vec<String> {
    list.iter().map(|s| s.to_string()).collect()
}

fn pair(key: &str, value: &str) -> (String, String) {
    (key.to_string(), value.to_string())
}

fn guild_surface() -> ChannelBufferVariants {
    let buffer =
        GuildChannelBuffer::new("general", "@me", "Guild", 5, 9, HostOutcome::Created).unwrap();
    ChannelBufferVariants::GuildChannel(buffer)
}

fn private_surface() -> ChannelBufferVariants {
    let buffer = PrivateChannelBuffer::new(
        5,
        &names(&["bob"]),
        "DM with bob#0001",
        "me",
        HostOutcome::Created,
    )
    .unwrap();
    ChannelBufferVariants::PrivateChannel(buffer)
}

fn message(id: u64) -> Message {
    Message { id, channel_id: 5, guild_id: Some(9) }
}

#[test]
fn direct_message_names_for_bob_and_al_ice() {
    let recipients = names(&["bob", "al ice"]);
    assert_eq!(PrivateChannelBuffer::short_name(&recipients), "DM with bob, al ice");
    assert_eq!(PrivateChannelBuffer::buffer_id(&recipients), "discord.dm.bob.al_ice");
}

#[test]
fn direct_message_names_keep_the_order_given() {
    let recipients = names(&["Zoe", "adam", "Mia"]);
    assert_eq!(PrivateChannelBuffer::short_name(&recipients), "DM with Zoe, adam, Mia");
    assert_eq!(PrivateChannelBuffer::buffer_id(&recipients), "discord.dm.zoe.adam.mia");
}

#[test]
fn direct_message_names_of_one_and_of_no_recipient() {
    assert_eq!(PrivateChannelBuffer::short_name(&names(&["bob"])), "DM with bob");
    assert_eq!(PrivateChannelBuffer::buffer_id(&names(&["bob"])), "discord.dm.bob");
    assert_eq!(PrivateChannelBuffer::short_name(&names(&[])), "DM with ");
    assert_eq!(PrivateChannelBuffer::buffer_id(&names(&[])), "discord.dm.");
}

#[test]
fn direct_message_identifier_has_dots_only_between_names() {
    let recipients = names(&["a.b", "c"]);
    assert_eq!(PrivateChannelBuffer::buffer_id(&recipients), "discord.dm.a_b.c");
}

#[test]
fn private_nick_is_at_and_name() {
    assert_eq!(PrivateChannelBuffer::nick("carol"), "@carol");
}

#[test]
fn guild_plan_is_exact() {
    let plan = GuildChannelBuffer::plan("General Chat", "@Carol", "My Guild", 1234, 98765);
    let expected = BufferSetup {
        identifier: "discord.my_guild.general_chat".to_string(),
        short_name: "#General Chat".to_string(),
        full_name: None,
        title: None,
        localvars: vec![
            pair("nick", "@Carol"),
            pair("type", "channel"),
            pair("server", "my_guild"),
            pair("channel", "general_chat"),
            pair("guild_id", "98765"),
            pair("channel_id", "1234"),
        ],
        nicklist: true,
    };
    assert_eq!(plan, expected);
}

#[test]
fn private_plan_is_exact() {
    let plan = PrivateChannelBuffer::plan(77, &names(&["bob", "al ice"]), "bob, al ice", "carol");
    let expected = BufferSetup {
        identifier: "discord.dm.bob.al_ice".to_string(),
        short_name: "DM with bob, al ice".to_string(),
        full_name: Some("bob, al ice".to_string()),
        title: Some("bob, al ice".to_string()),
        localvars: vec![pair("nick", "@carol"), pair("channel_id", "77")],
        nicklist: false,
    };
    assert_eq!(plan, expected);
}

#[test]
fn created_guild_surface_holds_its_plan() {
    let buffer =
        GuildChannelBuffer::new("general", "@me", "Guild", 5, 9, HostOutcome::Created).unwrap();
    assert_eq!(*buffer.setup(), GuildChannelBuffer::plan("general", "@me", "Guild", 5, 9));
    let surface = ChannelBufferVariants::GuildChannel(buffer);
    assert!(surface.renderer().is_attached());
    assert_eq!(surface.setup().identifier, "discord.guild.general");
}

#[test]
fn created_private_surface_holds_its_plan() {
    let recipients = names(&["bob"]);
    let buffer =
        PrivateChannelBuffer::new(5, &recipients, "full", "me", HostOutcome::Created).unwrap();
    assert_eq!(*buffer.setup(), PrivateChannelBuffer::plan(5, &recipients, "full", "me"));
    let surface = ChannelBufferVariants::PrivateChannel(buffer);
    assert!(surface.renderer().is_attached());
    assert_eq!(surface.setup().short_name, "DM with bob");
}

#[test]
fn guild_surface_creation_fails_as_the_host_did() {
    let built = GuildChannelBuffer::new("general", "@me", "Guild", 5, 9, HostOutcome::BuildFailed);
    assert_eq!(built, Err(CreationError::BuildFailed));
    let upgraded =
        GuildChannelBuffer::new("general", "@me", "Guild", 5, 9, HostOutcome::UpgradeFailed);
    assert_eq!(upgraded, Err(CreationError::UpgradeFailed));
}

#[test]
fn private_surface_creation_fails_as_the_host_did() {
    let recipients = names(&["bob"]);
    let built = PrivateChannelBuffer::new(5, &recipients, "full", "me", HostOutcome::BuildFailed);
    assert_eq!(built, Err(CreationError::BuildFailed));
    let upgraded =
        PrivateChannelBuffer::new(5, &recipients, "full", "me", HostOutcome::UpgradeFailed);
    assert_eq!(upgraded, Err(CreationError::UpgradeFailed));
}

#[test]
fn creation_error_messages() {
    assert_eq!(CreationError::BuildFailed.message(), "Unable to create channel buffer");
    assert_eq!(CreationError::UpgradeFailed.message(), "Unable to create guild buffer");
}

#[test]
fn attached_surface_passes_every_operation_on() {
    for surface in [guild_surface(), private_surface()] {
        assert_eq!(
            surface.add_bulk_msgs(vec![message(1), message(2)]),
            Some(SurfaceOp::AddBulkMessages(vec![message(1), message(2)]))
        );
        assert_eq!(surface.add_msg(message(3), true), Some(SurfaceOp::AddMessage(message(3), true)));
        assert_eq!(
            surface.add_msg(message(3), false),
            Some(SurfaceOp::AddMessage(message(3), false))
        );
        assert_eq!(surface.remove_msg(3), Some(SurfaceOp::RemoveMessage(3)));
        let update = MessageUpdate { id: 3, channel_id: 5 };
        assert_eq!(surface.update_msg(update), Some(SurfaceOp::UpdateMessage(update)));
        assert_eq!(surface.redraw_buffer(vec![11, 12]), Some(SurfaceOp::Redraw(vec![11, 12])));
        let member = Member { user_id: 11 };
        assert_eq!(surface.add_members(vec![member]), Some(SurfaceOp::AddMembers(vec![member])));
    }
}

#[test]
fn surface_closes_once() {
    for mut surface in [guild_surface(), private_surface()] {
        let setup = surface.setup().clone();
        assert_eq!(surface.close(), Some(SurfaceOp::Close));
        assert!(!surface.renderer().is_attached());
        assert_eq!(surface.close(), None);
        assert_eq!(surface.close(), None);
        assert_eq!(*surface.setup(), setup);
    }
}

#[test]
fn detached_surface_has_nothing_to_close() {
    for mut surface in [guild_surface(), private_surface()] {
        let setup = surface.setup().clone();
        assert!(surface.detach());
        assert!(!surface.renderer().is_attached());
        assert!(!surface.detach());
        assert_eq!(surface.close(), None);
        assert_eq!(surface.add_msg(message(1), true), None);
        assert_eq!(*surface.setup(), setup);
    }
}

#[test]
fn closed_surface_drops_every_operation() {
    for mut surface in [guild_surface(), private_surface()] {
        surface.close();
        assert_eq!(surface.add_bulk_msgs(vec![message(1)]), None);
        assert_eq!(surface.add_msg(message(3), true), None);
        assert_eq!(surface.remove_msg(3), None);
        assert_eq!(surface.update_msg(MessageUpdate { id: 3, channel_id: 5 }), None);
        assert_eq!(surface.redraw_buffer(vec![]), None);
        assert_eq!(surface.add_members(vec![Member { user_id: 11 }]), None);
    }
}

#[test]
fn render_target_detaches_once() {
    let mut renderer = MessageRender::new();
    assert!(renderer.is_attached());
    assert_eq!(renderer.add_msg(message(1), false), Some(SurfaceOp::AddMessage(message(1), false)));
    assert!(renderer.detach());
    assert!(!renderer.is_attached());
    assert!(!renderer.detach());
    assert_eq!(renderer.add_msg(message(1), false), None);
    assert_eq!(renderer.add_bulk_msgs(vec![message(1)]), None);
    assert_eq!(renderer.remove_msg(1), None);
    assert_eq!(renderer.update_msg(MessageUpdate { id: 1, channel_id: 5 }), None);
    assert_eq!(renderer.redraw_buffer(vec![1]), None);
    assert_eq!(renderer.add_members(vec![]), None);
}

#[test]
fn surfaces_add_members_directly() {
    let member = Member { user_id: 11 };
    let guild =
        GuildChannelBuffer::new("general", "@me", "Guild", 5, 9, HostOutcome::Created).unwrap();
    assert_eq!(guild.add_members(vec![member]), Some(SurfaceOp::AddMembers(vec![member])));
    let private =
        PrivateChannelBuffer::new(5, &names(&["bob"]), "full", "me", HostOutcome::Created).unwrap();
    assert_eq!(private.add_members(vec![]), Some(SurfaceOp::AddMembers(vec![])));
}

#[test]
fn direct_message_identifiers_tell_recipients_apart() {
    assert_ne!(
        PrivateChannelBuffer::buffer_id(&names(&["a.b", "c"])),
        PrivateChannelBuffer::buffer_id(&names(&["a", "b.c"]))
    );
    assert_ne!(
        PrivateChannelBuffer::buffer_id(&names(&["ab"])),
        PrivateChannelBuffer::buffer_id(&names(&["a", "b"]))
    );
    assert_eq!(
        PrivateChannelBuffer::buffer_id(&names(&["Al Ice", "BOB"])),
        PrivateChannelBuffer::buffer_id(&names(&["al_ice", "bob"]))
    );
}
