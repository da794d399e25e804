use std::collections::BTreeSet;
use std::path::PathBuf;

use concord::commands::{MessageAttachmentUpload, MessageSearchAuthorType, MessageSearchHas, ProfileAvatarUpload};
use concord::fingerprint::{ClientFingerprint, CLIENT_BUILD_NUMBER};
use concord::fingerprint::{generate_launch_signature, locale_from_system, random_uuid_string};
use concord::gateway::{
    connection_step, first_heartbeat_delay, first_heartbeat_jitter_bound, gateway_frame_from_json, heartbeat_payload,
    hello_heartbeat_announcement, ConnectionEvent, ConnectionOutcome, FrameOutcome, LoopStep,
};
use concord::ids::ChannelMarker;
use concord::json::{encode_json, JsonNumber};
use concord::http_headers::super_properties;
use concord::ids::Id;
use concord::json::{parse_json, JsonValue};
use concord::message_info::{AttachmentInfo, EmbedInfo, MessageKind};
use concord::message_state::MessageState;
use concord::state::{CustomEmojiInfo, DiscordState};

fn json(text: &str) -> JsonValue {
    parse_json(text).expect("valid JSON")
}

#[test]
fn ready_frame_fields_are_read() {
    let frame = gateway_frame_from_json(&json(
        r#"{"op":0,"s":42,"t":"READY","d":{"session_id":"abc","resume_gateway_url":"wss://resume.example"}}"#,
    ));
    assert_eq!(frame.op, 0);
    assert_eq!(frame.sequence, Some(42));
    assert_eq!(frame.dispatch_type, "READY");
    assert!(frame.has_data);
    assert_eq!(frame.ready_session_id.as_deref(), Some("abc"));
    assert_eq!(frame.ready_resume_url.as_deref(), Some("wss://resume.example"));
    assert!(!frame.resumable);
}

#[test]
fn invalid_session_frame_reads_its_resumable_flag() {
    let frame = gateway_frame_from_json(&json(r#"{"op":9,"d":true}"#));
    assert_eq!(frame.op, 9);
    assert!(frame.resumable);
    assert!(frame.has_data);
    let frame = gateway_frame_from_json(&json(r#"{"op":9,"d":null}"#));
    assert!(!frame.resumable);
}

#[test]
fn frame_without_op_or_type_reads_as_zero_and_empty() {
    let frame = gateway_frame_from_json(&json(r#"{"s":"x"}"#));
    assert_eq!(frame.op, 0);
    assert_eq!(frame.sequence, None);
    assert_eq!(frame.dispatch_type, "");
    assert!(!frame.has_data);
    assert_eq!(frame.ready_session_id, None);
}

#[test]
fn hello_announces_the_heartbeat_interval() {
    assert_eq!(
        hello_heartbeat_announcement(&json(r#"{"op":10,"d":{"heartbeat_interval":41250}}"#)),
        Ok(Some(41250))
    );
    assert_eq!(hello_heartbeat_announcement(&json(r#"{"op":10,"d":{}}"#)), Ok(None));
    assert_eq!(hello_heartbeat_announcement(&json(r#"{"op":11}"#)), Err(11));
    assert_eq!(hello_heartbeat_announcement(&json(r#"{"t":"READY"}"#)), Err(0));
}

#[test]
fn avatar_upload_is_named_after_the_path() {
    let upload = ProfileAvatarUpload::from_path(PathBuf::from("/tmp/me.png"));
    assert_eq!(upload.filename, "me.png");
    assert_eq!(upload.size_bytes, 0);
    let bare = ProfileAvatarUpload::from_path(PathBuf::from("/"));
    assert_eq!(bare.filename, "avatar");
}

#[test]
fn existing_file_upload_is_named_after_the_path() {
    let upload = MessageAttachmentUpload::from_existing_path(PathBuf::from("/home/neo/notes.txt"), 7);
    assert_eq!(upload.filename, "notes.txt");
    assert_eq!(upload.size_bytes, 7);
    assert_eq!(MessageAttachmentUpload::from_existing_path(PathBuf::from("/"), 0).filename, "attachment");
}

#[test]
fn search_filters_read_back_from_their_query_words() {
    let all = [
        MessageSearchHas::Link,
        MessageSearchHas::Embed,
        MessageSearchHas::File,
        MessageSearchHas::Video,
        MessageSearchHas::Image,
        MessageSearchHas::Sound,
        MessageSearchHas::Sticker,
    ];
    for h in all {
        assert_eq!(MessageSearchHas::from_input(h.as_query_value()), Some(h));
    }
    for t in [MessageSearchAuthorType::User, MessageSearchAuthorType::Bot, MessageSearchAuthorType::Webhook] {
        assert_eq!(MessageSearchAuthorType::from_input(t.as_query_value()), Some(t));
    }
    assert_eq!(MessageSearchHas::from_input(" :Images "), Some(MessageSearchHas::Image));
    assert_eq!(MessageSearchHas::from_input("attachments"), Some(MessageSearchHas::File));
    assert_eq!(MessageSearchHas::from_input("audio"), Some(MessageSearchHas::Sound));
    assert_eq!(MessageSearchHas::from_input("gif"), None);
}

#[test]
fn super_properties_name_each_member_once() {
    let mut f = ClientFingerprint::new(CLIENT_BUILD_NUMBER, "Linux", "6.1.0".to_owned(), "x86_64");
    f.system_locale = "en-US".to_owned();
    f.timezone = "Europe/Berlin".to_owned();
    let JsonValue::Object(members) = super_properties(&f) else {
        panic!("properties are an object");
    };
    let names: BTreeSet<&str> = members.iter().map(|(k, _)| k.as_str()).collect();
    assert_eq!(names.len(), members.len());
}

fn image(filename: &str) -> AttachmentInfo {
    AttachmentInfo {
        id: Id::new(1),
        filename: filename.to_owned(),
        url: format!("https://cdn.discordapp.com/{filename}"),
        proxy_url: format!("https://media.discordapp.net/{filename}"),
        content_type: Some("image/png".to_owned()),
        size: 10,
        width: Some(64),
        height: Some(32),
        description: None,
    }
}

fn thumbnail_embed() -> EmbedInfo {
    EmbedInfo {
        color: Some(0x00ff00),
        provider_name: None,
        author_name: None,
        title: None,
        description: None,
        timestamp: None,
        fields: Vec::new(),
        footer_text: None,
        url: None,
        thumbnail_url: Some("https://example.com/t.png".to_owned()),
        thumbnail_proxy_url: Some("https://media.discordapp.net/t.png".to_owned()),
        thumbnail_width: Some(16),
        thumbnail_height: Some(9),
        image_url: None,
        image_proxy_url: None,
        image_width: None,
        image_height: None,
        video_url: None,
    }
}

fn message_with_media() -> MessageState {
    MessageState {
        id: Id::new(5),
        guild_id: None,
        channel_id: Id::new(2),
        author_id: Id::new(7),
        author: "neo".to_owned(),
        author_avatar_url: None,
        author_is_bot: false,
        message_kind: MessageKind::regular(),
        interaction: None,
        reference: None,
        reply: None,
        poll: None,
        pinned: false,
        reactions: Vec::new(),
        content: None,
        sticker_names: Vec::new(),
        mentions: Vec::new(),
        mention_everyone: false,
        mention_roles: Vec::new(),
        flags: 0,
        attachments: vec![image("cat.png")],
        embeds: vec![thumbnail_embed()],
        forwarded_snapshots: Vec::new(),
        edited_timestamp: None,
    }
}

#[test]
fn inline_previews_list_attachments_then_embeds_in_full() {
    let message = message_with_media();
    let previews = message.inline_previews();
    assert_eq!(previews.len(), 2);
    let first = previews[0];
    assert_eq!(first.url, "https://cdn.discordapp.com/cat.png");
    assert_eq!(first.proxy_url, Some("https://media.discordapp.net/cat.png"));
    assert_eq!(first.filename, "cat.png");
    assert_eq!((first.width, first.height), (Some(64), Some(32)));
    assert_eq!(first.accent_color, None);
    assert!(!first.proxy_preview_only);
    let second = previews[1];
    assert_eq!(second.url, "https://example.com/t.png");
    assert_eq!(second.proxy_url, Some("https://media.discordapp.net/t.png"));
    assert_eq!(second.filename, "embed-thumbnail");
    assert_eq!((second.width, second.height), (Some(16), Some(9)));
    assert_eq!(second.accent_color, Some(0x00ff00));
    assert_eq!(message.first_inline_preview(), Some(first));
}

fn emoji(id: u64, name: &str) -> CustomEmojiInfo {
    CustomEmojiInfo { id: Id::new(id), name: name.to_owned(), animated: false, available: true }
}

#[test]
fn custom_emojis_come_guild_by_guild() {
    let mut state = DiscordState::new(50, 3);
    state.custom_emojis.insert(20, vec![emoji(3, "c")]);
    state.custom_emojis.insert(10, vec![emoji(1, "a"), emoji(2, "b")]);
    let names: Vec<&str> = state.custom_emojis().iter().map(|e| e.name.as_str()).collect();
    assert_eq!(names, vec!["a", "b", "c"]);
}

#[test]
fn read_loop_decisions() {
    assert_eq!(connection_step(ConnectionEvent::ShutdownRequested), LoopStep::CloseAndStop);
    assert_eq!(connection_step(ConnectionEvent::CommandSent), LoopStep::KeepReading);
    assert_eq!(connection_step(ConnectionEvent::CommandSendFailed), LoopStep::Finish(ConnectionOutcome::Resume));
    assert_eq!(connection_step(ConnectionEvent::CommandChannelClosed), LoopStep::Finish(ConnectionOutcome::Stop));
    assert_eq!(connection_step(ConnectionEvent::FrameHandled(FrameOutcome::Continue)), LoopStep::KeepReading);
    assert_eq!(
        connection_step(ConnectionEvent::FrameHandled(FrameOutcome::Reidentify)),
        LoopStep::Finish(ConnectionOutcome::Reidentify)
    );
    assert_eq!(connection_step(ConnectionEvent::FrameIgnored), LoopStep::KeepReading);
    assert_eq!(connection_step(ConnectionEvent::Closed(Some(4004))), LoopStep::Finish(ConnectionOutcome::Fatal));
    assert_eq!(connection_step(ConnectionEvent::Closed(None)), LoopStep::Finish(ConnectionOutcome::Resume));
    assert_eq!(connection_step(ConnectionEvent::StreamEnded), LoopStep::Finish(ConnectionOutcome::Resume));
    assert_eq!(connection_step(ConnectionEvent::HeartbeatFailed), LoopStep::Finish(ConnectionOutcome::Resume));
}

#[test]
fn first_heartbeat_waits_at_most_two_seconds() {
    assert_eq!(first_heartbeat_jitter_bound(41250), 2000);
    assert_eq!(first_heartbeat_jitter_bound(1500), 1500);
    for _ in 0..20 {
        assert!(first_heartbeat_delay(41250) <= 2000);
        assert!(first_heartbeat_delay(10) <= 10);
    }
}

#[test]
fn heartbeat_carries_the_last_sequence() {
    let JsonValue::Object(members) = heartbeat_payload(Some(42)) else {
        panic!("heartbeat is an object");
    };
    assert_eq!(members.len(), 2);
    assert!(members.iter().any(|(k, v)| k == "op" && matches!(v, JsonValue::Number(JsonNumber::Unsigned(1)))));
    assert!(members.iter().any(|(k, v)| k == "d" && matches!(v, JsonValue::Number(JsonNumber::Unsigned(42)))));
    let text = String::from_utf8(encode_json(&heartbeat_payload(None))).unwrap();
    assert_eq!(text, r#"{"d":null,"op":1}"#);
}

#[test]
fn locale_follows_what_the_system_reports() {
    assert_eq!(locale_from_system(Some("de_DE.UTF-8".to_owned())), "de-DE");
    assert_eq!(locale_from_system(Some("C".to_owned())), "en-US");
    assert_eq!(locale_from_system(None), "en-US");
}

#[test]
fn fingerprint_from_system_values_keeps_them() {
    let f = ClientFingerprint::from_system_values(
        CLIENT_BUILD_NUMBER,
        "Linux",
        "6.1.0".to_owned(),
        "x86_64",
        Some("fr_FR".to_owned()),
        None,
        "sig".to_owned(),
        "launch".to_owned(),
        "beat".to_owned(),
    );
    assert_eq!(f.system_locale, "fr-FR");
    assert_eq!(f.timezone, "UTC");
    assert_eq!(f.launch_signature, "sig");
    assert_eq!(f.client_launch_id, "launch");
    assert_eq!(f.client_heartbeat_session_id, "beat");
}

#[test]
fn random_uuids_are_version_four() {
    for text in [random_uuid_string(), generate_launch_signature()] {
        assert_eq!(text.len(), 36);
        let bytes = text.as_bytes();
        assert_eq!(bytes[14], b'4');
        assert!(matches!(bytes[19], b'8' | b'9' | b'a' | b'b'));
    }
}

#[test]
fn ids_compare_as_their_numbers() {
    let a: Id<ChannelMarker> = Id::new(5);
    let b: Id<ChannelMarker> = Id::new(40);
    assert!(a < b);
    assert!(b > a);
    assert_eq!(a.partial_cmp(&a), Some(std::cmp::Ordering::Equal));
}
