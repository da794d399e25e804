use concord::fingerprint::{ClientFingerprint, CLIENT_BROWSER, CLIENT_BROWSER_VERSION, CLIENT_BUILD_NUMBER};
use concord::gateway::{GatewayCommand, SessionState, SubscriptionDeduper, USER_ACCOUNT_CAPABILITIES};
use concord::gateway_payload::{
    build_identify_payload, build_resume_payload, command_payload, direct_message_subscribe_payload,
    guild_channel_subscribe_payload, presence_update_payload, request_guild_members_by_ids_payload,
    request_guild_members_payload, voice_state_update_payload,
};
use concord::ids::{ChannelMarker, EmojiMarker, GuildMarker, Id, UserMarker};
use concord::json::{JsonNumber, JsonValue};
use concord::presence::{
    ActivityAssets, ActivityButton, ActivityEmoji, ActivityInfo, ActivityKind, ActivityParty, ActivityTimestamps,
    PresenceStatus,
};

fn to_serde(v: &JsonValue) -> serde_json::Value {
    match v {
        JsonValue::Null => serde_json::Value::Null,
        JsonValue::Bool(b) => serde_json::Value::Bool(*b),
        JsonValue::Number(JsonNumber::Unsigned(n)) => serde_json::Value::from(*n),
        JsonValue::Number(JsonNumber::Negative(n)) => serde_json::Value::from(*n),
        JsonValue::Number(JsonNumber::NonInteger(_)) => serde_json::Value::Null,
        JsonValue::Str(s) => serde_json::Value::String(s.clone()),
        JsonValue::Array(items) => serde_json::Value::Array(items.iter().map(to_serde).collect()),
        JsonValue::Object(members) => {
            let mut map = serde_json::Map::new();
            for (k, v) in members {
                map.insert(k.clone(), to_serde(v));
            }
            serde_json::Value::Object(map)
        }
    }
}

fn expected(text: &str) -> serde_json::Value {
    serde_json::from_str(text).expect("expected payload is JSON")
}

fn activity(kind: ActivityKind, name: &str) -> ActivityInfo {
    ActivityInfo {
        name: name.to_owned(),
        kind,
        details: None,
        state: None,
        url: None,
        emoji: None,
        application_id: None,
        timestamps: None,
        assets: None,
        party: None,
        buttons: Vec::new(),
    }
}

#[test]
fn identify_payload_carries_user_account_capabilities() {
    let fingerprint = ClientFingerprint::new(CLIENT_BUILD_NUMBER, "Linux", "6.1".to_owned(), "x86_64");
    let payload = to_serde(&build_identify_payload("dummy-token", &fingerprint));
    assert_eq!(payload["op"].as_u64(), Some(2));
    assert_eq!(payload["d"]["capabilities"].as_u64(), Some(USER_ACCOUNT_CAPABILITIES));
    assert_eq!(payload["d"]["properties"]["os"].as_str(), Some(fingerprint.os.as_str()));
    assert_eq!(payload["d"]["properties"]["browser"].as_str(), Some(CLIENT_BROWSER));
    assert_eq!(
        payload["d"]["properties"]["browser_user_agent"].as_str(),
        Some(fingerprint.user_agent.as_str())
    );
    assert_eq!(payload["d"]["properties"]["browser_version"].as_str(), Some(CLIENT_BROWSER_VERSION));
    assert_eq!(payload["d"]["properties"]["os_version"].as_str(), Some(fingerprint.os_version.as_str()));
    assert_eq!(payload["d"]["properties"]["client_build_number"].as_u64(), Some(CLIENT_BUILD_NUMBER));
    assert_eq!(
        payload["d"]["properties"]["system_locale"].as_str(),
        Some(fingerprint.system_locale.as_str())
    );
    assert_eq!(payload["d"]["compress"].as_bool(), Some(false));
    assert_eq!(payload["d"]["presence"]["status"].as_str(), Some("online"));
    assert_eq!(payload["d"]["client_state"]["user_settings_version"].as_i64(), Some(-1));
}

#[test]
fn presence_update_payload_maps_statuses_for_gateway() {
    let online_payload = to_serde(&presence_update_payload(PresenceStatus::Online, &Vec::new()));
    assert_eq!(online_payload["op"].as_u64(), Some(3));
    assert_eq!(online_payload["d"]["status"].as_str(), Some("online"));
    assert_eq!(online_payload["d"]["since"].as_u64(), Some(0));
    assert_eq!(online_payload["d"]["activities"], expected("[]"));
    assert_eq!(online_payload["d"]["afk"].as_bool(), Some(false));

    let idle_payload = to_serde(&presence_update_payload(PresenceStatus::Idle, &Vec::new()));
    assert_eq!(idle_payload["d"]["status"].as_str(), Some("idle"));

    let dnd_payload = to_serde(&presence_update_payload(PresenceStatus::DoNotDisturb, &Vec::new()));
    assert_eq!(dnd_payload["d"]["status"].as_str(), Some("dnd"));

    let offline_payload = to_serde(&presence_update_payload(PresenceStatus::Offline, &Vec::new()));
    assert_eq!(offline_payload["d"]["status"].as_str(), Some("invisible"));
}

#[test]
fn presence_update_payload_carries_custom_status_emoji() {
    let mut custom = activity(ActivityKind::Custom, "");
    custom.emoji = Some(ActivityEmoji {
        name: "wave".to_owned(),
        id: Some(Id::<EmojiMarker>::new(50)),
        animated: true,
    });
    let payload = to_serde(&presence_update_payload(PresenceStatus::Online, &vec![custom]));
    let emoji = &payload["d"]["activities"][0]["emoji"];
    assert_eq!(emoji["name"].as_str(), Some("wave"));
    assert_eq!(emoji["id"].as_str(), Some("50"));
    assert_eq!(emoji["animated"].as_bool(), Some(true));
}

#[test]
fn presence_update_payload_includes_manual_activity() {
    let payload = to_serde(&presence_update_payload(
        PresenceStatus::Online,
        &vec![activity(ActivityKind::Playing, "Concord")],
    ));
    assert_eq!(payload["d"]["activities"][0]["name"].as_str(), Some("Concord"));
    assert_eq!(payload["d"]["activities"][0]["type"].as_u64(), Some(0));
    assert!(payload["d"]["activities"][0].get("details").is_none());
}

#[test]
fn presence_update_payload_serializes_rich_activity_fields() {
    let mut rich = activity(ActivityKind::Playing, "Concord");
    rich.timestamps = Some(ActivityTimestamps { start: Some(1_700_000_000_000), end: None });
    rich.assets = Some(ActivityAssets {
        large_image: Some("cover".to_owned()),
        large_text: Some("On the main menu".to_owned()),
        small_image: None,
        small_text: None,
    });
    rich.party = Some(ActivityParty { id: Some("party-1".to_owned()), size: Some((2, 5)) });
    rich.buttons = vec![ActivityButton {
        label: "Join".to_owned(),
        url: "https://example.com/join".to_owned(),
    }];
    let payload = to_serde(&presence_update_payload(PresenceStatus::Online, &vec![rich]));
    let entry = &payload["d"]["activities"][0];

    assert_eq!(entry["timestamps"]["start"].as_i64(), Some(1_700_000_000_000));
    assert!(entry["timestamps"].get("end").is_none());
    assert_eq!(entry["assets"]["large_image"].as_str(), Some("cover"));
    assert_eq!(entry["assets"]["large_text"].as_str(), Some("On the main menu"));
    assert!(entry["assets"].get("small_image").is_none());
    assert_eq!(entry["party"]["id"].as_str(), Some("party-1"));
    assert_eq!(entry["party"]["size"], expected("[2, 5]"));
    assert_eq!(entry["buttons"], expected(r#"["Join"]"#));
    assert_eq!(entry["metadata"]["button_urls"], expected(r#"["https://example.com/join"]"#));
}

#[test]
fn resume_payload_uses_saved_session_id_and_seq() {
    let mut session = SessionState::default();
    session.session_id = Some("sess-123".to_owned());
    session.last_sequence = Some(42);
    let payload = to_serde(&build_resume_payload("dummy-token", &session));
    assert_eq!(payload["op"].as_u64(), Some(6));
    assert_eq!(payload["d"]["session_id"].as_str(), Some("sess-123"));
    assert_eq!(payload["d"]["seq"].as_u64(), Some(42));

    let fresh = to_serde(&build_resume_payload("dummy-token", &SessionState::default()));
    assert_eq!(fresh["d"]["session_id"].as_str(), Some(""));
    assert_eq!(fresh["d"]["seq"].as_u64(), Some(0));
}

#[test]
fn request_guild_members_payload_supports_full_load_and_search_shapes() {
    let search_payload = to_serde(&request_guild_members_payload(
        Id::<GuildMarker>::new(10),
        "alic",
        10,
        false,
        Some("mention-ac-10-alic"),
    ));
    assert_eq!(
        search_payload,
        expected(
            r#"{
                "op": 8,
                "d": {
                    "guild_id": "10",
                    "query": "alic",
                    "limit": 10,
                    "presences": false,
                    "nonce": "mention-ac-10-alic"
                }
            }"#
        )
    );

    let full_load_payload = to_serde(&request_guild_members_payload(Id::<GuildMarker>::new(10), "", 0, true, None));
    assert_eq!(full_load_payload["op"].as_u64(), Some(8));
    assert_eq!(full_load_payload["d"]["guild_id"].as_str(), Some("10"));
    assert_eq!(full_load_payload["d"]["query"].as_str(), Some(""));
    assert_eq!(full_load_payload["d"]["limit"].as_u64(), Some(0));
    assert_eq!(full_load_payload["d"]["presences"].as_bool(), Some(true));
    assert!(full_load_payload["d"].get("nonce").is_none());
}

#[test]
fn request_guild_members_by_ids_payload_matches_web_shape() {
    let payload = to_serde(&request_guild_members_by_ids_payload(
        Id::<GuildMarker>::new(10),
        &vec![Id::<UserMarker>::new(20), Id::<UserMarker>::new(30)],
        false,
    ));
    assert_eq!(
        payload,
        expected(r#"{ "op": 8, "d": { "guild_id": "10", "user_ids": ["20", "30"], "presences": false } }"#)
    );
}

#[test]
fn request_guild_members_by_ids_payload_sends_at_most_a_hundred_ids() {
    let ids: Vec<Id<UserMarker>> = (1..=150).map(Id::new).collect();
    let payload = to_serde(&request_guild_members_by_ids_payload(Id::<GuildMarker>::new(10), &ids, true));
    let sent = payload["d"]["user_ids"].as_array().expect("user ids are a list");
    assert_eq!(sent.len(), 100);
    assert_eq!(sent[99].as_str(), Some("100"));
}

#[test]
fn direct_message_subscribe_payload_matches_expected_shape() {
    let payload = to_serde(&direct_message_subscribe_payload(Id::<ChannelMarker>::new(20)));
    assert_eq!(payload, expected(r#"{ "op": 13, "d": { "channel_id": "20" } }"#));
}

#[test]
fn guild_channel_subscribe_payload_matches_shape_and_member_ranges() {
    for (ranges, expected_ranges) in [
        (vec![(0, 99)], expected("[[0, 99]]")),
        (vec![(0, 99), (100, 199), (200, 299)], expected("[[0, 99], [100, 199], [200, 299]]")),
    ] {
        let payload = to_serde(&guild_channel_subscribe_payload(
            Id::<GuildMarker>::new(10),
            Id::<ChannelMarker>::new(20),
            &ranges,
        ));

        assert_eq!(payload["op"].as_u64(), Some(37));
        assert_eq!(payload["d"]["subscriptions"]["10"]["typing"], expected("true"));
        assert_eq!(payload["d"]["subscriptions"]["10"]["activities"], expected("true"));
        assert_eq!(payload["d"]["subscriptions"]["10"]["threads"], expected("true"));
        assert_eq!(payload["d"]["subscriptions"]["10"]["channels"]["20"], expected_ranges);
        if ranges == vec![(0, 99)] {
            assert_eq!(
                payload,
                expected(
                    r#"{
                        "op": 37,
                        "d": {
                            "subscriptions": {
                                "10": {
                                    "typing": true,
                                    "activities": true,
                                    "threads": true,
                                    "channels": { "20": [[0, 99]] }
                                }
                            }
                        }
                    }"#
                )
            );
        }
    }
}

#[test]
fn voice_state_update_payload_joins_and_leaves_voice_channel() {
    let join_payload = to_serde(&voice_state_update_payload(
        Some(Id::<GuildMarker>::new(10)),
        Some(Id::<ChannelMarker>::new(20)),
        true,
        false,
    ));
    assert_eq!(join_payload["op"].as_u64(), Some(4));
    assert_eq!(join_payload["d"]["guild_id"].as_str(), Some("10"));
    assert_eq!(join_payload["d"]["channel_id"].as_str(), Some("20"));
    assert_eq!(join_payload["d"]["self_mute"].as_bool(), Some(true));
    assert_eq!(join_payload["d"]["self_deaf"].as_bool(), Some(false));

    let leave_payload = to_serde(&voice_state_update_payload(Some(Id::<GuildMarker>::new(10)), None, true, false));
    assert!(leave_payload["d"]["channel_id"].is_null());

    let dm_call = to_serde(&voice_state_update_payload(None, Some(Id::<ChannelMarker>::new(30)), false, false));
    assert!(dm_call["d"]["guild_id"].is_null());
}

#[test]
fn repeated_subscription_command_sends_no_second_frame() {
    let mut deduper = SubscriptionDeduper::default();
    let command = GatewayCommand::SubscribeGuildChannel {
        guild_id: Id::new(10),
        channel_id: Id::new(20),
    };
    let first = command_payload(&mut deduper, command.clone()).expect("first subscription is sent");
    assert_eq!(to_serde(&first)["d"]["subscriptions"]["10"]["channels"]["20"], expected("[[0, 99]]"));
    assert!(command_payload(&mut deduper, command).is_none());
    assert!(command_payload(&mut deduper, GatewayCommand::Shutdown).is_none());
    let presence = command_payload(
        &mut deduper,
        GatewayCommand::UpdatePresence { status: PresenceStatus::Idle, activities: Vec::new() },
    )
    .expect("presence updates are always sent");
    assert_eq!(to_serde(&presence)["op"].as_u64(), Some(3));
}
