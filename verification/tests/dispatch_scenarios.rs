use concord::commands::ReactionEmoji;
use concord::ids::Id;
use concord::json::{parse_json, JsonNumber, JsonValue};
use concord::notification::NotificationLevel;
use concord::parse_events::{
    parse_dispatch, parse_guild_emojis_update, parse_user_account_event,
    parse_user_guild_settings_entries, GatewayEvent,
};

fn thread_payload(id: u64, name: &str) -> String {
    format!(
        r#"{{"id":"{id}","guild_id":"1","parent_id":"2","type":11,"name":"{name}","message_count":12,"total_message_sent":14,"thread_metadata":{{"archived":false,"locked":false}}}}"#
    )
}

fn dispatch(t: &str, d: &str) -> Vec<GatewayEvent> {
    parse_user_account_event(&format!(r#"{{"t":"{t}","d":{d}}}"#))
}

fn json(text: &str) -> JsonValue {
    parse_json(text).expect("test payload is JSON")
}

#[test]
fn raw_thread_create_upserts_thread_channel() {
    let events = dispatch("THREAD_CREATE", &thread_payload(10, "release notes"));
    assert!(matches!(
        events.as_slice(),
        [GatewayEvent::ChannelUpsert(channel)]
            if channel.channel_id == Id::new(10)
                && channel.guild_id == Some(Id::new(1))
                && channel.parent_id == Some(Id::new(2))
                && channel.name == "release notes"
                && channel.kind == "GuildPublicThread"
                && channel.message_count == Some(12)
                && channel.total_message_sent == Some(14)
                && channel.thread_archived() == Some(false)
                && channel.thread_locked() == Some(false)
    ));
}

#[test]
fn raw_thread_update_upserts_thread_channel() {
    let events = dispatch("THREAD_UPDATE", &thread_payload(10, "renamed thread"));
    assert!(matches!(
        events.as_slice(),
        [GatewayEvent::ChannelUpsert(channel)]
            if channel.channel_id == Id::new(10)
                && channel.name == "renamed thread"
                && channel.kind == "GuildPublicThread"
    ));
}

#[test]
fn raw_thread_delete_removes_thread_channel() {
    let events = dispatch(
        "THREAD_DELETE",
        r#"{"id":"10","guild_id":"1","parent_id":"2","type":11}"#,
    );
    assert!(matches!(
        events.as_slice(),
        [GatewayEvent::ChannelDelete { guild_id, channel_id }]
            if *guild_id == Some(Id::new(1)) && *channel_id == Id::new(10)
    ));
}

#[test]
fn raw_thread_list_sync_upserts_all_threads() {
    let d = format!(
        r#"{{"guild_id":"1","channel_ids":["2"],"threads":[{},{}],"members":[]}}"#,
        thread_payload(10, "release notes"),
        thread_payload(11, "bug reports")
    );
    let events = dispatch("THREAD_LIST_SYNC", &d);
    assert_eq!(events.len(), 2);
    assert!(matches!(
        &events[0],
        GatewayEvent::ChannelUpsert(channel)
            if channel.channel_id == Id::new(10) && channel.name == "release notes"
    ));
    assert!(matches!(
        &events[1],
        GatewayEvent::ChannelUpsert(channel)
            if channel.channel_id == Id::new(11) && channel.name == "bug reports"
    ));
}

#[test]
fn raw_member_add_keeps_real_join_semantics() {
    let events = dispatch(
        "GUILD_MEMBER_ADD",
        r#"{"guild_id":"1","nick":"Alice Nick","user":{"id":"10","username":"alice"}}"#,
    );
    assert_eq!(events.len(), 1);
    assert!(matches!(
        &events[0],
        GatewayEvent::GuildMemberAdd { guild_id, member }
            if *guild_id == Id::new(1)
                && member.user_id == Id::new(10)
                && member.display_name == "Alice Nick"
    ));
}

#[test]
fn guild_emojis_update_parser_replaces_custom_emojis() {
    let event = parse_guild_emojis_update(&json(
        r#"{"guild_id":"1","emojis":[{"id":"60","name":"wave","animated":false,"available":true}]}"#,
    ))
    .expect("guild emojis update should parse");
    let GatewayEvent::GuildEmojisUpdate { guild_id, emojis } = event else {
        panic!("expected guild emojis update event");
    };
    assert_eq!(guild_id, Id::new(1));
    assert_eq!(emojis.len(), 1);
    assert_eq!(emojis[0].id, Id::new(60));
    assert_eq!(emojis[0].name, "wave");
    assert!(emojis[0].available);
}

#[test]
fn message_reaction_add_dispatch_parses_reaction_event() {
    let events = dispatch(
        "MESSAGE_REACTION_ADD",
        r#"{"guild_id":"1","channel_id":"10","message_id":"20","user_id":"30","emoji":{"name":"👍"}}"#,
    );
    assert_eq!(events.len(), 1);
    let GatewayEvent::MessageReactionAdd {
        guild_id,
        channel_id,
        message_id,
        user_id,
        emoji,
    } = &events[0]
    else {
        panic!("expected message reaction add event");
    };
    assert_eq!(*guild_id, Some(Id::new(1)));
    assert_eq!(*channel_id, Id::new(10));
    assert_eq!(*message_id, Id::new(20));
    assert_eq!(*user_id, Id::new(30));
    assert_eq!(emoji, &ReactionEmoji::Unicode("👍".to_owned()));
}

#[test]
fn message_reaction_remove_dispatch_parses_custom_reaction_event() {
    let events = dispatch(
        "MESSAGE_REACTION_REMOVE",
        r#"{"channel_id":"10","message_id":"20","user_id":"30","emoji":{"id":"40","name":"party","animated":true}}"#,
    );
    assert_eq!(events.len(), 1);
    let GatewayEvent::MessageReactionRemove {
        guild_id,
        channel_id,
        message_id,
        user_id,
        emoji,
    } = &events[0]
    else {
        panic!("expected message reaction remove event");
    };
    assert_eq!(*guild_id, None);
    assert_eq!(*channel_id, Id::new(10));
    assert_eq!(*message_id, Id::new(20));
    assert_eq!(*user_id, Id::new(30));
    assert_eq!(
        emoji,
        &ReactionEmoji::Custom {
            id: Id::new(40),
            name: Some("party".to_owned()),
            animated: true,
        }
    );
}

#[test]
fn message_reaction_remove_all_dispatch_parses_clear_event() {
    let events = dispatch(
        "MESSAGE_REACTION_REMOVE_ALL",
        r#"{"guild_id":"1","channel_id":"10","message_id":"20"}"#,
    );
    assert_eq!(events.len(), 1);
    let GatewayEvent::MessageReactionRemoveAll {
        guild_id,
        channel_id,
        message_id,
    } = &events[0]
    else {
        panic!("expected message reaction remove all event");
    };
    assert_eq!(*guild_id, Some(Id::new(1)));
    assert_eq!(*channel_id, Id::new(10));
    assert_eq!(*message_id, Id::new(20));
}

#[test]
fn message_reaction_remove_emoji_dispatch_parses_clear_emoji_event() {
    let events = dispatch(
        "MESSAGE_REACTION_REMOVE_EMOJI",
        r#"{"channel_id":"10","message_id":"20","emoji":{"name":"👍"}}"#,
    );
    assert_eq!(events.len(), 1);
    let GatewayEvent::MessageReactionRemoveEmoji {
        guild_id,
        channel_id,
        message_id,
        emoji,
    } = &events[0]
    else {
        panic!("expected message reaction remove emoji event");
    };
    assert_eq!(*guild_id, None);
    assert_eq!(*channel_id, Id::new(10));
    assert_eq!(*message_id, Id::new(20));
    assert_eq!(emoji, &ReactionEmoji::Unicode("👍".to_owned()));
}

#[test]
fn message_ack_carries_channel_message_and_mention_count() {
    let events = dispatch(
        "MESSAGE_ACK",
        r#"{"channel_id":"42","message_id":"99","mention_count":2}"#,
    );
    match events.as_slice() {
        [GatewayEvent::MessageAck {
            channel_id,
            message_id,
            mention_count,
        }] => {
            assert_eq!(*channel_id, Id::new(42));
            assert_eq!(*message_id, Id::new(99));
            assert_eq!(*mention_count, 2);
        }
        _ => panic!("expected one MessageAck"),
    }
}

#[test]
fn user_guild_settings_update_emits_single_update_event() {
    let events = dispatch(
        "USER_GUILD_SETTINGS_UPDATE",
        r#"{"guild_id":"10","message_notifications":2,"muted":true,"mute_config":{"end_time":"2099-01-01T00:00:00.000Z"},"channel_overrides":[]}"#,
    );
    match events.as_slice() {
        [GatewayEvent::UserGuildNotificationSettingsUpdate { settings }] => {
            assert_eq!(settings.guild_id, Some(Id::new(10)));
            assert_eq!(
                settings.message_notifications,
                Some(NotificationLevel::NoMessages)
            );
            assert!(settings.muted);
        }
        _ => panic!("expected one UserGuildNotificationSettingsUpdate"),
    }
}

#[test]
fn text_that_is_not_json_gives_no_event() {
    assert!(parse_user_account_event("not json").is_empty());
    assert!(parse_user_account_event(r#"{"d":{}}"#).is_empty());
    assert!(parse_user_account_event(r#"{"t":"MESSAGE_ACK"}"#).is_empty());
}

#[test]
fn unknown_dispatch_types_give_no_event() {
    assert!(dispatch("SOMETHING_NEW", r#"{"id":"1"}"#).is_empty());
}

#[test]
fn ack_mention_count_defaults_to_zero_and_keeps_low_bits() {
    let events = dispatch("MESSAGE_ACK", r#"{"channel_id":"1","message_id":"2"}"#);
    assert!(matches!(events.as_slice(), [GatewayEvent::MessageAck { mention_count: 0, .. }]));
    let events = dispatch(
        "MESSAGE_ACK",
        r#"{"channel_id":"1","message_id":"2","mention_count":4294967301}"#,
    );
    assert!(matches!(events.as_slice(), [GatewayEvent::MessageAck { mention_count: 5, .. }]));
}

#[test]
fn guild_role_events_need_guild_and_role() {
    let events = dispatch(
        "GUILD_ROLE_UPDATE",
        r#"{"guild_id":"1","role":{"id":"5","name":"mods","color":255,"position":2}}"#,
    );
    assert!(matches!(
        events.as_slice(),
        [GatewayEvent::GuildRoleUpsert { guild_id, role }]
            if *guild_id == Id::new(1) && role.id == Id::new(5) && role.name == "mods" && role.color == Some(255)
    ));
    assert!(dispatch("GUILD_ROLE_CREATE", r#"{"guild_id":"1"}"#).is_empty());
    let events = dispatch("GUILD_ROLE_DELETE", r#"{"guild_id":"1","role_id":"5"}"#);
    assert!(matches!(
        events.as_slice(),
        [GatewayEvent::GuildRoleDelete { guild_id, role_id }]
            if *guild_id == Id::new(1) && *role_id == Id::new(5)
    ));
}

#[test]
fn member_remove_reads_nested_user_id() {
    let events = dispatch("GUILD_MEMBER_REMOVE", r#"{"guild_id":"1","user":{"id":"7"}}"#);
    assert!(matches!(
        events.as_slice(),
        [GatewayEvent::GuildMemberRemove { guild_id, user_id }]
            if *guild_id == Id::new(1) && *user_id == Id::new(7)
    ));
    assert!(dispatch("GUILD_MEMBER_REMOVE", r#"{"guild_id":"1","user_id":"7"}"#).is_empty());
}

#[test]
fn user_update_reads_identity() {
    let events = dispatch(
        "USER_UPDATE",
        r#"{"id":"9","username":"neo","global_name":"Neo","bot":true}"#,
    );
    assert!(matches!(
        events.as_slice(),
        [GatewayEvent::UserIdentityUpdate { user_id, username, global_name, is_bot: true, .. }]
            if *user_id == Id::new(9) && username == "neo" && global_name.as_deref() == Some("Neo")
    ));
}

#[test]
fn channel_pins_update_keeps_timestamp() {
    let events = dispatch(
        "CHANNEL_PINS_UPDATE",
        r#"{"channel_id":"3","last_pin_timestamp":"2024-01-01T00:00:00Z"}"#,
    );
    assert!(matches!(
        events.as_slice(),
        [GatewayEvent::ChannelPinsUpdate { guild_id: None, channel_id, last_pin_timestamp }]
            if *channel_id == Id::new(3) && last_pin_timestamp.as_deref() == Some("2024-01-01T00:00:00Z")
    ));
}

#[test]
fn thread_members_update_lists_added_and_removed_users() {
    let events = dispatch(
        "THREAD_MEMBERS_UPDATE",
        r#"{"id":"10","guild_id":"1","member_count":3,"added_members":[{"user_id":"5"},{"nope":1}],"removed_member_ids":["6","x"]}"#,
    );
    match events.as_slice() {
        [GatewayEvent::ThreadMembersUpdateDispatch { update }] => {
            assert_eq!(update.channel_id, Id::new(10));
            assert_eq!(update.guild_id, Some(Id::new(1)));
            assert_eq!(update.member_count, Some(3));
            assert_eq!(update.added_user_ids, vec![Id::new(5)]);
            assert_eq!(update.removed_user_ids, vec![Id::new(6)]);
        }
        _ => panic!("expected one thread members update"),
    }
}

#[test]
fn notification_overrides_read_from_a_list_or_an_object() {
    let events = dispatch(
        "USER_GUILD_SETTINGS_UPDATE",
        r#"{"guild_id":"@me","channel_overrides":{"77":{"muted":true,"message_notifications":1},"0":{"muted":true},"x":{}}}"#,
    );
    match events.as_slice() {
        [GatewayEvent::UserGuildNotificationSettingsUpdate { settings }] => {
            assert_eq!(settings.guild_id, None);
            assert_eq!(settings.channel_overrides.len(), 1);
            assert_eq!(settings.channel_overrides[0].channel_id, Id::new(77));
            assert!(settings.channel_overrides[0].muted);
            assert_eq!(
                settings.channel_overrides[0].message_notifications,
                Some(NotificationLevel::OnlyMentions)
            );
        }
        _ => panic!("expected one settings update"),
    }
    let events = dispatch(
        "USER_GUILD_SETTINGS_UPDATE",
        r#"{"guild_id":"5","channel_overrides":[{"channel_id":"8","mute_config":{"end_time":""}},{"muted":true}]}"#,
    );
    match events.as_slice() {
        [GatewayEvent::UserGuildNotificationSettingsUpdate { settings }] => {
            assert_eq!(settings.channel_overrides.len(), 1);
            assert_eq!(settings.channel_overrides[0].channel_id, Id::new(8));
            assert_eq!(settings.channel_overrides[0].mute_end_time, None);
        }
        _ => panic!("expected one settings update"),
    }
    assert!(dispatch("USER_GUILD_SETTINGS_UPDATE", r#"{"guild_id":"abc"}"#).is_empty());
}

#[test]
fn settings_entries_accept_bare_or_wrapped_lists() {
    let wrapped = json(r#"{"entries":[{"guild_id":"1"},{"guild_id":"bad"}]}"#);
    let settings = parse_user_guild_settings_entries(Some(&wrapped)).expect("one entry reads");
    assert_eq!(settings.len(), 1);
    assert_eq!(settings[0].guild_id, Some(Id::new(1)));
    let bare = json(r#"[{"guild_id":null}]"#);
    let settings = parse_user_guild_settings_entries(Some(&bare)).expect("one entry reads");
    assert_eq!(settings[0].guild_id, None);
    let none = json(r#"[{"guild_id":"bad"}]"#);
    assert!(parse_user_guild_settings_entries(Some(&none)).is_none());
    assert!(parse_user_guild_settings_entries(None).is_none());
}

#[test]
fn parse_dispatch_reads_message_delete() {
    let data = json(r#"{"id":"20","channel_id":"10","guild_id":"1"}"#);
    let events = parse_dispatch("MESSAGE_DELETE", &data);
    assert!(matches!(
        events.as_slice(),
        [GatewayEvent::MessageDelete { guild_id, channel_id, message_id }]
            if *guild_id == Some(Id::new(1)) && *channel_id == Id::new(10) && *message_id == Id::new(20)
    ));
}

#[test]
fn user_settings_update_reads_settings_and_keeps_unknown_values_out() {
    let events = dispatch(
        "USER_SETTINGS_UPDATE",
        r#"{"user_settings":{"developer_mode":true,"afk_timeout":600,"locale":"de","status":"idle","timezone_offset":-60,"soundboard_volume":42.5,"custom_status":null,"friend_source_flags":{"all":false,"mutual_guilds":true},"restricted_guilds":["5","x"],"guild_folders":[{"id":1,"name":"Games","guild_ids":["7","8"]},{"guild_ids":[]}]}}"#,
    );
    match events.as_slice() {
        [GatewayEvent::UserSettingsUpdate { settings }] => {
            assert_eq!(settings.developer_mode, Some(true));
            assert_eq!(settings.afk_timeout, Some(600));
            assert_eq!(settings.locale.as_deref(), Some("de"));
            assert_eq!(settings.status.as_deref(), Some("idle"));
            assert_eq!(settings.timezone_offset, Some(-60));
            assert!(matches!(
                &settings.soundboard_volume,
                Some(JsonNumber::NonInteger(t)) if t == "42.5"
            ));
            assert!(matches!(settings.custom_status, Some(None)));
            let flags = settings.friend_source_flags.as_ref().expect("flags read");
            assert_eq!(flags.all, Some(false));
            assert_eq!(flags.mutual_friends, None);
            assert_eq!(flags.mutual_guilds, Some(true));
            assert_eq!(settings.restricted_guilds, Some(vec![Id::new(5)]));
            let folders = settings.guild_folders.as_ref().expect("folders read");
            assert_eq!(folders.len(), 1);
            assert_eq!(folders[0].name.as_deref(), Some("Games"));
            assert_eq!(settings.theme, None);
            assert_eq!(settings.activity_restricted_guild_ids, None);
        }
        _ => panic!("expected one settings update"),
    }
    let events = dispatch(
        "USER_SETTINGS_UPDATE",
        r#"{"custom_status":{"text":"away","emoji_name":"🌙"},"soundboard_volume":80}"#,
    );
    match events.as_slice() {
        [GatewayEvent::UserSettingsUpdate { settings }] => {
            let status = settings
                .custom_status
                .as_ref()
                .and_then(|s| s.as_ref())
                .expect("custom status set");
            assert_eq!(status.text.as_deref(), Some("away"));
            assert_eq!(status.emoji_name.as_deref(), Some("🌙"));
            assert!(matches!(settings.soundboard_volume, Some(JsonNumber::Unsigned(80))));
        }
        _ => panic!("expected one settings update"),
    }
    assert!(dispatch("USER_SETTINGS_UPDATE", "[]").is_empty());
}
