use concord::credentials::validate_token_header;
use concord::ids::Id;
use concord::json::{JsonNumber, JsonValue};
use concord::message_info::{MentionInfo, MessageKind, PollAnswerInfo, PollInfo, ReplyInfo};
use concord::parse_channel::parse_channel_info;
use concord::message_info::AttachmentUpdate;
use concord::message_info::MessageInfo;
use concord::parse_events::{
    parse_guild_update_event, parse_message_create, parse_message_update_event, parse_user_account_event, GatewayEvent,
};
use concord::parse_guild::{parse_custom_emoji, parse_guild_folder, parse_member_info, parse_role_info, GuildUpdateInfo};
use concord::parse_message::{parse_embed, parse_message_info, MessageUpdateDispatchInfo};

fn convert(v: &serde_json::Value) -> JsonValue {
    match v {
        serde_json::Value::Null => JsonValue::Null,
        serde_json::Value::Bool(b) => JsonValue::Bool(*b),
        serde_json::Value::Number(n) => {
            if let Some(u) = n.as_u64() {
                JsonValue::Number(JsonNumber::Unsigned(u))
            } else if let Some(i) = n.as_i64() {
                JsonValue::Number(JsonNumber::Negative(i))
            } else {
                JsonValue::Number(JsonNumber::NonInteger(n.to_string()))
            }
        }
        serde_json::Value::String(s) => JsonValue::Str(s.clone()),
        serde_json::Value::Array(items) => JsonValue::Array(items.iter().map(convert).collect()),
        serde_json::Value::Object(members) => JsonValue::Object(
            members
                .iter()
                .map(|(k, v)| (k.clone(), convert(v)))
                .collect(),
        ),
    }
}

fn doc(text: &str) -> JsonValue {
    convert(&serde_json::from_str::<serde_json::Value>(text).expect("test payload is JSON"))
}

/// The message of a MESSAGE_CREATE event, as `parse_message_create` gives it.
fn created_message(data: &JsonValue) -> Option<MessageInfo> {
    match parse_message_create(data)? {
        GatewayEvent::MessageCreate { message } => Some(message),
        _ => panic!("expected message create event"),
    }
}

/// The update of a MESSAGE_UPDATE event, as `parse_message_update_event` gives it.
fn updated_message(data: &JsonValue) -> Option<MessageUpdateDispatchInfo> {
    match parse_message_update_event(data)? {
        GatewayEvent::MessageUpdateDispatch { update } => Some(update),
        _ => panic!("expected message update event"),
    }
}

/// The update of a GUILD_UPDATE event, as `parse_guild_update_event` gives it.
fn updated_guild(data: &JsonValue) -> Option<GuildUpdateInfo> {
    match parse_guild_update_event(data)? {
        GatewayEvent::GuildUpdate(update) => Some(update),
        _ => panic!("expected guild update event"),
    }
}

fn mention_info(user_id: u64, display_name: &str) -> MentionInfo {
    MentionInfo {
        user_id: Id::new(user_id),
        guild_nick: None,
        display_name: display_name.to_owned(),
    }
}

fn mention_info_with_nick(user_id: u64, nick: &str) -> MentionInfo {
    MentionInfo {
        user_id: Id::new(user_id),
        guild_nick: Some(nick.to_owned()),
        display_name: nick.to_owned(),
    }
}

#[test]
fn validates_token_header_values() {
    validate_token_header("raw-user-token").expect("raw user token must be accepted");
    validate_token_header("invalid\nuser-token")
        .expect_err("newlines are not valid authorization header values");
}

#[test]
fn token_header_accepts_tabs_and_non_ascii_but_not_delete() {
    assert!(validate_token_header("a\tb").is_ok());
    assert!(validate_token_header("t\u{f6}ken").is_ok());
    assert!(validate_token_header("bad\u{7f}").is_err());
    assert!(validate_token_header("").is_ok());
}

#[test]
fn channel_parser_keeps_last_message_id() {
    let channel = parse_channel_info(
        &doc(r#"{
            "id": "10",
            "type": 1,
            "last_message_id": "99",
            "recipients": [{ "username": "neo" }]
        }"#),
        None,
    )
    .expect("dm channel should parse");

    assert_eq!(channel.last_message_id.map(|id| id.get()), Some(99));
}

#[test]
fn thread_channel_parser_keeps_counts_and_status() {
    let channel = parse_channel_info(
        &doc(r#"{
            "id": "10",
            "guild_id": "1",
            "parent_id": "2",
            "type": 11,
            "name": "release notes",
            "message_count": 12,
            "total_message_sent": 14,
            "thread_metadata": { "archived": true, "locked": false }
        }"#),
        None,
    )
    .expect("thread channel should parse");

    assert_eq!(channel.kind, "GuildPublicThread");
    assert_eq!(channel.message_count, Some(12));
    assert_eq!(channel.total_message_sent, Some(14));
    assert_eq!(channel.thread_archived(), Some(true));
    assert_eq!(channel.thread_locked(), Some(false));
}

#[test]
fn channel_parser_names_private_channels_from_recipients() {
    let channel = parse_channel_info(
        &doc(r#"{
            "id": "10",
            "type": 3,
            "name": "",
            "recipients": [
                { "id": "20", "username": "alice", "global_name": "Alice" },
                { "id": "30", "username": "helper-bot", "bot": true, "status": "idle" },
                { "username": "no-id" }
            ]
        }"#),
        Some(Id::new(7)),
    )
    .expect("group dm should parse");

    assert_eq!(channel.kind, "group-dm");
    assert_eq!(channel.name, "Alice, helper-bot, no-id");
    assert_eq!(channel.guild_id, Some(Id::new(7)));
    let recipients = channel.recipients.expect("group dm keeps recipients");
    assert_eq!(recipients.len(), 2);
    assert_eq!(recipients[0].display_name, "Alice");
    assert_eq!(recipients[1].display_name, "helper-bot");
    assert!(recipients[1].is_bot);
    assert_eq!(
        recipients[0].avatar_url.as_deref(),
        Some("https://cdn.discordapp.com/embed/avatars/0.png")
    );
}

#[test]
fn channel_parser_falls_back_to_generated_names_and_labels() {
    let dm = parse_channel_info(&doc(r#"{ "id": "12", "type": 1 }"#), None).expect("dm parses");
    assert_eq!(dm.name, "dm-12");
    assert!(dm.recipients.is_none());

    let text = parse_channel_info(&doc(r#"{ "id": "13", "type": 0, "position": -3 }"#), None)
        .expect("text channel parses");
    assert_eq!(text.name, "channel-13");
    assert_eq!(text.position, Some(-3));

    let unknown = parse_channel_info(&doc(r#"{ "id": "14", "type": 99 }"#), None).expect("parses");
    assert_eq!(unknown.kind, "type-99");
    let untyped = parse_channel_info(&doc(r#"{ "id": "15" }"#), None).expect("parses");
    assert_eq!(untyped.kind, "channel");

    assert!(parse_channel_info(&doc(r#"{ "type": 0 }"#), None).is_none());
    assert!(parse_channel_info(&doc(r#"{ "id": "0" }"#), None).is_none());
}

#[test]
fn channel_parser_reads_permission_overwrites() {
    let channel = parse_channel_info(
        &doc(r#"{
            "id": "10",
            "type": 0,
            "permission_overwrites": [
                { "id": "1", "type": 0, "allow": "1024", "deny": "0" },
                { "id": 2, "type": 1, "deny": 2048 },
                { "id": "3", "type": 7, "allow": "1" }
            ]
        }"#),
        None,
    )
    .expect("channel parses");
    assert_eq!(channel.permission_overwrites.len(), 2);
    assert_eq!(channel.permission_overwrites[0].allow, 1024);
    assert_eq!(channel.permission_overwrites[1].id, 2);
    assert_eq!(channel.permission_overwrites[1].allow, 0);
    assert_eq!(channel.permission_overwrites[1].deny, 2048);
}

#[test]
fn message_info_parser_keeps_author_role_ids_from_member_payload() {
    let message = parse_message_info(&doc(r#"{
        "id": "20",
        "channel_id": "10",
        "guild_id": "1",
        "author": { "id": "30", "username": "neo" },
        "member": { "roles": ["90", "91"] },
        "content": "hello",
        "attachments": []
    }"#))
    .expect("message should parse");

    assert_eq!(message.author_role_ids, vec![Id::new(90), Id::new(91)]);
}

#[test]
fn message_create_parser_keeps_image_attachments() {
    let message = created_message(&doc(r#"{
        "id": "20",
        "channel_id": "10",
        "author": { "id": "30", "username": "neo" },
        "content": "",
        "attachments": [{
            "id": "40",
            "filename": "cat.png",
            "url": "https://cdn.discordapp.com/cat.png",
            "proxy_url": "https://media.discordapp.net/cat.png",
            "content_type": "image/png",
            "size": 2048,
            "width": 640,
            "height": 480,
            "description": "cat"
        }]
    }"#))
    .expect("message create should parse");

    let attachments = message.attachments;
    assert_eq!(attachments.len(), 1);
    assert_eq!(attachments[0].filename, "cat.png");
    assert_eq!(attachments[0].content_type.as_deref(), Some("image/png"));
    assert_eq!(attachments[0].width, Some(640));
    assert_eq!(attachments[0].height, Some(480));
}

#[test]
fn message_create_parser_keeps_regular_embeds() {
    let message = created_message(&doc(r#"{
        "id": "20",
        "channel_id": "10",
        "author": { "id": "30", "username": "neo" },
        "content": "https://www.youtube.com/watch?v=dQw4w9WgXcQ",
        "embeds": [{
            "type": "video",
            "color": 16711680,
            "provider": { "name": "YouTube" },
            "title": "Example Video",
            "description": "A video description",
            "timestamp": "2026-05-13T15:22:03+00:00",
            "url": "https://www.youtube.com/watch?v=dQw4w9WgXcQ",
            "thumbnail": {
                "url": "https://i.ytimg.com/vi/dQw4w9WgXcQ/hqdefault.jpg",
                "proxy_url": "https://images-ext-1.discordapp.net/external/thumb/hash/https/i.ytimg.com/vi/dQw4w9WgXcQ/hqdefault.jpg",
                "width": 480,
                "height": 360
            },
            "image": {
                "url": "https://i.ytimg.com/vi/dQw4w9WgXcQ/maxresdefault.jpg",
                "proxy_url": "https://images-ext-2.discordapp.net/external/image/hash/https/i.ytimg.com/vi/dQw4w9WgXcQ/maxresdefault.jpg",
                "width": 1280,
                "height": 720
            },
            "video": { "url": "https://www.youtube.com/embed/dQw4w9WgXcQ" }
        }]
    }"#))
    .expect("message create should parse");

    let embeds = message.embeds;
    assert_eq!(embeds.len(), 1);
    assert_eq!(embeds[0].color, Some(16711680));
    assert_eq!(embeds[0].provider_name.as_deref(), Some("YouTube"));
    assert_eq!(embeds[0].title.as_deref(), Some("Example Video"));
    assert_eq!(embeds[0].timestamp.as_deref(), Some("2026-05-13T15:22:03+00:00"));
    assert_eq!(
        embeds[0].thumbnail_url.as_deref(),
        Some("https://i.ytimg.com/vi/dQw4w9WgXcQ/hqdefault.jpg")
    );
    assert_eq!(
        embeds[0].thumbnail_proxy_url.as_deref(),
        Some("https://images-ext-1.discordapp.net/external/thumb/hash/https/i.ytimg.com/vi/dQw4w9WgXcQ/hqdefault.jpg")
    );
    assert_eq!(embeds[0].thumbnail_width, Some(480));
    assert_eq!(embeds[0].thumbnail_height, Some(360));
    assert_eq!(
        embeds[0].image_url.as_deref(),
        Some("https://i.ytimg.com/vi/dQw4w9WgXcQ/maxresdefault.jpg")
    );
    assert_eq!(
        embeds[0].image_proxy_url.as_deref(),
        Some("https://images-ext-2.discordapp.net/external/image/hash/https/i.ytimg.com/vi/dQw4w9WgXcQ/maxresdefault.jpg")
    );
    assert_eq!(embeds[0].image_width, Some(1280));
    assert_eq!(embeds[0].image_height, Some(720));
    assert_eq!(embeds[0].video_url.as_deref(), Some("https://www.youtube.com/embed/dQw4w9WgXcQ"));
}

#[test]
fn message_create_parser_keeps_timestamp_only_embeds() {
    let message = created_message(&doc(r#"{
        "id": "20",
        "channel_id": "10",
        "author": { "id": "30", "username": "neo" },
        "content": "",
        "embeds": [{ "timestamp": "2026-05-13T15:22:03+00:00" }]
    }"#))
    .expect("message create should parse");

    assert_eq!(message.embeds.len(), 1);
    assert_eq!(message.embeds[0].timestamp.as_deref(), Some("2026-05-13T15:22:03+00:00"));
}

#[test]
fn embed_parser_drops_empty_and_poll_result_embeds() {
    assert!(parse_embed(&doc(r#"{ "type": "rich", "color": 5 }"#)).is_none());
    assert!(parse_embed(&doc(r#"{ "type": "poll_result", "title": "x" }"#)).is_none());
    let fields = parse_embed(&doc(
        r#"{ "fields": [{ "name": "a", "value": "b" }, { "name": "c" }], "color": 4294967296 }"#,
    ))
    .expect("an embed with a field shows");
    assert_eq!(fields.fields.len(), 1);
    assert_eq!(fields.fields[0].value, "b");
    assert_eq!(fields.color, None);
}

#[test]
fn message_create_parser_keeps_message_type() {
    let message = created_message(&doc(r#"{
        "id": "20",
        "channel_id": "10",
        "author": { "id": "30", "username": "mee6", "bot": true },
        "type": 20,
        "content": "",
        "attachments": [],
        "interaction": {
            "name": "anime search",
            "user": { "id": "40", "global_name": "Casey", "username": "casey" }
        },
        "interaction_metadata": {
            "user": { "id": "40", "global_name": "Casey", "username": "casey" }
        }
    }"#))
    .expect("message create should parse");

    assert_eq!(message.message_kind, MessageKind::new(20));
    assert!(message.author_is_bot);
    let interaction = message.interaction.expect("interaction metadata should parse");
    assert_eq!(interaction.user_id, Some(Id::new(40)));
    assert_eq!(interaction.user, "Casey");
    assert_eq!(interaction.command_name.as_deref(), Some("anime search"));
}

#[test]
fn message_create_parser_prefers_member_nick_for_author() {
    let message = created_message(&doc(r#"{
        "id": "20",
        "channel_id": "10",
        "guild_id": "1",
        "author": { "id": "30", "global_name": "global", "username": "neo" },
        "member": { "nick": "server alias" },
        "content": "hello",
        "attachments": []
    }"#))
    .expect("message create should parse");

    assert_eq!(message.author, "server alias");
}

#[test]
fn message_create_parser_builds_author_avatar_url() {
    let message = created_message(&doc(r#"{
        "id": "20",
        "channel_id": "10",
        "author": { "id": "30", "username": "neo", "avatar": "a_avatarhash" },
        "content": "hello",
        "attachments": []
    }"#))
    .expect("message create should parse");

    assert_eq!(
        message.author_avatar_url.as_deref(),
        Some("https://cdn.discordapp.com/avatars/30/a_avatarhash.gif")
    );
}

#[test]
fn message_create_parser_falls_back_to_global_name_without_member() {
    let message = created_message(&doc(r#"{
        "id": "20",
        "channel_id": "10",
        "author": { "id": "30", "global_name": "global alias", "username": "neo" },
        "content": "hello",
        "attachments": []
    }"#))
    .expect("message create should parse");

    assert_eq!(message.guild_id, None);
    assert_eq!(message.author, "global alias");
}

#[test]
fn message_create_parser_keeps_mention_display_names() {
    let message = created_message(&doc(r#"{
        "id": "20",
        "channel_id": "10",
        "author": { "id": "30", "username": "neo" },
        "content": "hello <@40> <@41> <@42>",
        "mentions": [
            {
                "id": "40",
                "username": "alpha",
                "global_name": "Alpha Global",
                "member": { "nick": "Alpha Nick" }
            },
            { "id": "41", "username": "beta", "global_name": "Beta Global" },
            { "id": "42", "username": "gamma" }
        ],
        "attachments": []
    }"#))
    .expect("message create should parse");

    assert_eq!(
        message.mentions,
        vec![
            mention_info_with_nick(40, "Alpha Nick"),
            mention_info(41, "Beta Global"),
            mention_info(42, "gamma"),
        ]
    );
}

#[test]
fn message_create_parser_does_not_store_empty_mention_nick() {
    let message = created_message(&doc(r#"{
        "id": "20",
        "channel_id": "10",
        "author": { "id": "30", "username": "neo" },
        "content": "hello <@40>",
        "mentions": [{ "id": "40", "username": "alpha", "member": { "nick": "" } }],
        "attachments": []
    }"#))
    .expect("message create should parse");

    assert_eq!(message.mentions, vec![mention_info(40, "alpha")]);
}

#[test]
fn message_create_parser_keeps_reply_preview() {
    let message = created_message(&doc(r#"{
        "id": "20",
        "channel_id": "10",
        "author": { "id": "30", "username": "neo" },
        "type": 19,
        "content": "reply",
        "attachments": [],
        "referenced_message": {
            "id": "19",
            "channel_id": "10",
            "author": { "id": "31", "global_name": "Alex", "username": "alex" },
            "content": "잘되는군",
            "attachments": []
        }
    }"#))
    .expect("message create should parse");

    assert_eq!(
        message.reply,
        Some(ReplyInfo {
            author_id: Some(Id::new(31)),
            author: "Alex".to_owned(),
            content: Some("잘되는군".to_owned()),
            sticker_names: Vec::new(),
            mentions: Vec::new(),
        })
    );
}

#[test]
fn message_create_parser_keeps_reply_mentions() {
    let message = created_message(&doc(r#"{
        "id": "20",
        "channel_id": "10",
        "author": { "id": "30", "username": "neo" },
        "type": 19,
        "content": "reply",
        "attachments": [],
        "referenced_message": {
            "id": "19",
            "channel_id": "10",
            "author": { "id": "31", "username": "alex" },
            "content": "hello <@40>",
            "mentions": [{ "id": "40", "username": "alice" }],
            "attachments": []
        }
    }"#))
    .expect("message create should parse");

    assert_eq!(
        message.reply.and_then(|reply| reply.mentions.into_iter().next()),
        Some(mention_info(40, "alice"))
    );
}

#[test]
fn message_create_parser_keeps_poll_payload() {
    let message = created_message(&doc(r#"{
        "id": "20",
        "channel_id": "10",
        "author": { "id": "30", "username": "neo" },
        "type": 0,
        "content": "",
        "attachments": [],
        "poll": {
            "question": { "text": "오늘 뭐 먹지?" },
            "answers": [
                { "answer_id": 1, "poll_media": { "text": "김치찌개" } },
                { "answer_id": 2, "poll_media": { "text": "라멘" } }
            ],
            "results": {
                "is_finalized": false,
                "answer_counts": [
                    { "id": 1, "count": 2, "me_voted": true },
                    { "id": 2, "count": 1, "me_voted": false }
                ]
            },
            "allow_multiselect": true
        }
    }"#))
    .expect("message create should parse");

    assert_eq!(
        message.poll,
        Some(PollInfo {
            question: "오늘 뭐 먹지?".to_owned(),
            answers: vec![
                PollAnswerInfo {
                    answer_id: 1,
                    text: "김치찌개".to_owned(),
                    vote_count: Some(2),
                    me_voted: true,
                },
                PollAnswerInfo {
                    answer_id: 2,
                    text: "라멘".to_owned(),
                    vote_count: Some(1),
                    me_voted: false,
                },
            ],
            allow_multiselect: true,
            results_finalized: Some(false),
            total_votes: Some(3),
        })
    );
}

#[test]
fn message_create_parser_keeps_poll_result_embed() {
    let message = created_message(&doc(r#"{
        "id": "20",
        "channel_id": "10",
        "author": { "id": "30", "username": "neo" },
        "type": 46,
        "content": "",
        "attachments": [],
        "embeds": [{
            "type": "poll_result",
            "fields": [
                { "name": "poll_question_text", "value": "오늘 뭐 먹지?" },
                { "name": "victor_answer_id", "value": "1" },
                { "name": "victor_answer_text", "value": "김치찌개" },
                { "name": "victor_answer_votes", "value": "5" },
                { "name": "total_votes", "value": "7" }
            ]
        }]
    }"#))
    .expect("poll result message should parse");

    let poll = message.poll.expect("poll result should map to poll info");
    assert_eq!(poll.total_votes, Some(7));
    assert_eq!(poll.question, "오늘 뭐 먹지?");
    assert_eq!(poll.answers.len(), 1);
    assert_eq!(poll.answers[0].vote_count, Some(5));
    assert_eq!(poll.results_finalized, Some(true));
    assert!(message.embeds.is_empty());
}

#[test]
fn message_create_parser_uses_proxy_url_when_url_is_missing() {
    let message = created_message(&doc(r#"{
        "id": "20",
        "channel_id": "10",
        "author": { "id": "30", "username": "neo" },
        "content": "",
        "attachments": [{
            "id": "40",
            "filename": "cat.png",
            "proxy_url": "https://media.discordapp.net/cat.png",
            "content_type": "image/png"
        }]
    }"#))
    .expect("message create should parse");

    assert_eq!(message.attachments.len(), 1);
    assert_eq!(message.attachments[0].url, "https://media.discordapp.net/cat.png");
    assert_eq!(message.attachments[0].proxy_url, "https://media.discordapp.net/cat.png");
    assert_eq!(message.attachments[0].size, 0);
}

#[test]
fn message_create_parser_keeps_video_attachment_metadata() {
    let message = created_message(&doc(r#"{
        "id": "20",
        "channel_id": "10",
        "author": { "id": "30", "username": "neo" },
        "content": "",
        "attachments": [{
            "id": "40",
            "filename": "clip.mp4",
            "url": "https://cdn.discordapp.com/clip.mp4",
            "proxy_url": "https://media.discordapp.net/clip.mp4",
            "content_type": "video/mp4",
            "size": 78364758,
            "width": 1920,
            "height": 1080,
            "description": "clip"
        }]
    }"#))
    .expect("message create should parse");

    let attachments = message.attachments;
    assert_eq!(attachments.len(), 1);
    assert_eq!(attachments[0].filename, "clip.mp4");
    assert_eq!(attachments[0].content_type.as_deref(), Some("video/mp4"));
    assert_eq!(attachments[0].size, 78_364_758);
    assert_eq!(attachments[0].width, Some(1920));
    assert_eq!(attachments[0].height, Some(1080));
}

#[test]
fn message_create_parser_preserves_content_and_sticker_names() {
    let cases = [
        ("", r#"[{ "id": "11", "name": "Wave", "format_type": 1 }]"#, vec!["Wave"]),
        (
            "hello",
            r#"[{ "id": "11", "name": "Wave", "format_type": 1 }, { "id": "12", "name": "Heart", "format_type": 1 }]"#,
            vec!["Wave", "Heart"],
        ),
    ];

    for (raw_content, sticker_items, expected_stickers) in cases {
        let payload = format!(
            r#"{{ "id": "20", "channel_id": "10", "author": {{ "id": "30", "username": "neo" }}, "content": "{raw_content}", "sticker_items": {sticker_items} }}"#
        );
        let message = created_message(&doc(&payload)).expect("message create should parse");
        assert_eq!(message.content.as_deref(), Some(raw_content));
        assert_eq!(
            message.sticker_names,
            expected_stickers.into_iter().map(str::to_owned).collect::<Vec<_>>()
        );
    }
}

#[test]
fn message_create_parser_keeps_forwarded_snapshot_fields() {
    let message = created_message(&doc(r#"{
        "id": "20",
        "channel_id": "10",
        "author": { "id": "30", "username": "neo" },
        "content": "",
        "attachments": [],
        "message_reference": { "channel_id": "11" },
        "message_snapshots": [{
            "message": {
                "content": "hello <@40>",
                "timestamp": "2026-04-30T12:34:56.000000+00:00",
                "mentions": [{ "id": "40", "username": "alice" }],
                "attachments": [{
                    "id": "41",
                    "filename": "cat.png",
                    "url": "https://cdn.discordapp.com/cat.png",
                    "proxy_url": "https://media.discordapp.net/cat.png",
                    "content_type": "image/png",
                    "size": 2048,
                    "width": 640,
                    "height": 480
                }],
                "sticker_items": [{ "id": "42", "name": "Wave", "format_type": 1 }]
            }
        }, {
            "message": { "content": "" }
        }]
    }"#))
    .expect("message create should parse");

    let snapshots = message.forwarded_snapshots;
    assert_eq!(snapshots.len(), 2);
    assert_eq!(snapshots[0].content.as_deref(), Some("hello <@40>"));
    assert_eq!(snapshots[0].source_channel_id, Some(Id::new(11)));
    assert_eq!(snapshots[0].timestamp.as_deref(), Some("2026-04-30T12:34:56.000000+00:00"));
    assert_eq!(snapshots[0].mentions, vec![mention_info(40, "alice")]);
    assert_eq!(snapshots[0].sticker_names, vec!["Wave".to_owned()]);
    assert_eq!(snapshots[0].attachments.len(), 1);
    assert_eq!(snapshots[0].attachments[0].filename, "cat.png");
    assert_eq!(snapshots[1].content.as_deref(), Some(""));
}

#[test]
fn message_parser_requires_ids_and_author() {
    assert!(parse_message_info(&doc(r#"{ "id": "20", "author": { "id": "30" } }"#)).is_none());
    assert!(parse_message_info(&doc(r#"{ "id": "20", "channel_id": "10" }"#)).is_none());
    assert!(parse_message_info(&doc(r#"{ "id": "20", "channel_id": "10", "author": {} }"#)).is_none());
    let bare = parse_message_info(&doc(r#"{ "id": 20, "channel_id": "10", "author": { "id": "30" } }"#))
        .expect("numeric ids are accepted");
    assert_eq!(bare.author, "unknown");
    assert_eq!(bare.flags, 0);
    assert_eq!(
        bare.author_avatar_url.as_deref(),
        Some("https://cdn.discordapp.com/embed/avatars/0.png")
    );
}

#[test]
fn message_parser_reads_reactions() {
    let message = parse_message_info(&doc(r#"{
        "id": "20",
        "channel_id": "10",
        "author": { "id": "30", "username": "neo", "discriminator": "0007" },
        "reactions": [
            { "emoji": { "name": "👍" }, "count": 3, "me": true },
            { "emoji": { "id": "77", "name": "party", "animated": true }, "count": 1 },
            { "emoji": { "name": "" }, "count": 9 }
        ]
    }"#))
    .expect("message parses");
    assert_eq!(message.reactions.len(), 2);
    assert_eq!(message.reactions[0].count, 3);
    assert!(message.reactions[0].me);
    assert!(!message.reactions[1].me);
    assert_eq!(
        message.author_avatar_url.as_deref(),
        Some("https://cdn.discordapp.com/embed/avatars/2.png")
    );
}

#[test]
fn message_update_parser_distinguishes_absent_and_empty_attachments() {
    let cases = [
        (r#"{ "id": "20", "channel_id": "10", "content": "edited" }"#, false),
        (r#"{ "id": "20", "channel_id": "10", "content": "edited", "attachments": [] }"#, true),
    ];

    for (payload, clears_attachments) in cases {
        let update = updated_message(&doc(payload)).expect("message update should parse");
        let attachments = update.fields.attachments;
        if clears_attachments {
            assert!(matches!(attachments, AttachmentUpdate::Replace(values) if values.is_empty()));
        } else {
            assert!(matches!(attachments, AttachmentUpdate::Unchanged));
        }
    }
}

#[test]
fn message_update_parser_keeps_mentions_when_present() {
    let update = updated_message(&doc(r#"{
        "id": "20",
        "channel_id": "10",
        "content": "edited <@40>",
        "mentions": [{ "id": "40", "username": "alice" }]
    }"#))
    .expect("message update should parse");

    assert_eq!(update.fields.mentions, Some(vec![mention_info(40, "alice")]));
    assert!(update.fields.embeds.is_none());
    assert_eq!(update.fields.content.as_deref(), Some("edited <@40>"));
}

#[test]
fn message_update_parser_keeps_poll_results() {
    let update = updated_message(&doc(r#"{
        "id": "20",
        "channel_id": "10",
        "poll": {
            "question": { "text": "오늘 뭐 먹지?" },
            "answers": [
                { "answer_id": 1, "poll_media": { "text": "김치찌개" } },
                { "answer_id": 2, "poll_media": { "text": "라멘" } }
            ],
            "results": {
                "is_finalized": true,
                "answer_counts": [
                    { "id": 1, "count": 5, "me_voted": true },
                    { "id": 2, "count": 3, "me_voted": false }
                ]
            }
        }
    }"#))
    .expect("message update should parse");

    let poll = update.fields.poll.expect("poll payload should be kept");
    assert_eq!(poll.results_finalized, Some(true));
    assert_eq!(poll.answers[0].vote_count, Some(5));
    assert!(poll.answers[0].me_voted);
    assert_eq!(poll.total_votes, Some(8));
}

#[test]
fn message_delete_bulk_dispatch_parses_deleted_message_ids() {
    let events = parse_user_account_event(
        r#"{ "t": "MESSAGE_DELETE_BULK", "d": { "guild_id": "1", "channel_id": "10", "ids": ["20", "30"] } }"#,
    );

    assert_eq!(events.len(), 1);
    let GatewayEvent::MessageDeleteBulk { guild_id, channel_id, message_ids } = &events[0] else {
        panic!("expected message delete bulk event");
    };
    assert_eq!(*guild_id, Some(Id::new(1)));
    assert_eq!(*channel_id, Id::new(10));
    assert_eq!(message_ids, &vec![Id::new(20), Id::new(30)]);
}

#[test]
fn message_delete_bulk_dispatch_ignores_empty_deleted_message_ids() {
    let events = parse_user_account_event(r#"{ "t": "MESSAGE_DELETE_BULK", "d": { "channel_id": "10", "ids": [] } }"#);

    assert!(events.is_empty());
}

#[test]
fn parse_guild_update_reads_name_from_lazy_properties_object() {
    let update = updated_guild(&doc(r#"{
        "id": "100",
        "properties": { "name": "Renamed Lazy", "owner_id": "9" }
    }"#))
    .expect("guild_update payload should map");
    assert_eq!(update.guild_id, Id::new(100));
    assert_eq!(update.name, "Renamed Lazy");
    assert_eq!(update.owner_id, Some(Id::new(9)));
}

#[test]
fn guild_update_parser_keeps_custom_emojis_when_present() {
    let update = updated_guild(&doc(r#"{
        "id": "1",
        "name": "guild renamed",
        "emojis": [{ "id": "70", "name": "dance", "animated": true, "available": true }]
    }"#))
    .expect("guild update should parse");
    assert_eq!(update.guild_id, Id::new(1));
    assert_eq!(update.name, "guild renamed");
    assert!(update.roles.is_none());
    let emojis = update.emojis.expect("emoji field should be preserved when present");
    assert_eq!(emojis.len(), 1);
    assert_eq!(emojis[0].id, Id::new(70));
    assert_eq!(emojis[0].name, "dance");
    assert!(emojis[0].animated);
}

#[test]
fn guild_update_parser_distinguishes_missing_custom_emojis() {
    let update = updated_guild(&doc(r#"{ "id": "1", "name": "guild renamed" }"#))
        .expect("guild update should parse");
    assert!(update.roles.is_none());
    assert!(update.emojis.is_none());
    assert!(update.boost_tier.is_none());
    let unnamed = updated_guild(&doc(r#"{ "id": "2" }"#)).expect("parses");
    assert_eq!(unnamed.name, "unknown");
}

#[test]
fn role_parser_keeps_colors_positions_and_string_permissions() {
    let admin = parse_role_info(&doc(
        r#"{ "id": "90", "name": "Admin", "color": 16755200, "position": 10, "hoist": true }"#,
    ))
    .expect("role parses");
    assert_eq!(admin.id, Id::new(90));
    assert_eq!(admin.name, "Admin");
    assert_eq!(admin.color, Some(16755200));
    assert_eq!(admin.position, 10);
    assert!(admin.hoist);
    let everyone = parse_role_info(&doc(
        r#"{ "id": "1", "name": "@everyone", "permissions": "1024", "position": 0, "hoist": false, "color": 0 }"#,
    ))
    .expect("role parses");
    assert_eq!(everyone.permissions, 0x400);
    assert_eq!(everyone.color, None);
    let themed = parse_role_info(&doc(
        r#"{ "id": "2", "name": "Mod", "color": 5, "colors": { "primary_color": 7 } }"#,
    ))
    .expect("role parses");
    assert_eq!(themed.color, Some(7));
    assert!(parse_role_info(&doc(r#"{ "id": "3", "name": "" }"#)).is_none());
}

#[test]
fn member_parser_accepts_member_user_id_without_nested_user() {
    let member = parse_member_info(&doc(r#"{ "user_id": "10", "roles": [20] }"#), Some(Id::new(1)))
        .expect("member parses");
    assert_eq!(member.user_id, Id::new(10));
    assert_eq!(member.role_ids, vec![Id::new(20)]);
    assert_eq!(member.display_name, "unknown");
    assert!(member.avatar_url.is_none());

    let nested = parse_member_info(
        &doc(r#"{ "nick": "Nick", "avatar": "abc", "user": { "id": "11", "username": "neo", "bot": true } }"#),
        Some(Id::new(1)),
    )
    .expect("member parses");
    assert_eq!(nested.display_name, "Nick");
    assert!(nested.is_bot);
    assert_eq!(
        nested.avatar_url.as_deref(),
        Some("https://cdn.discordapp.com/guilds/1/users/11/avatars/abc.png")
    );
}

#[test]
fn custom_emoji_and_folder_parsers_apply_defaults() {
    let sleep = parse_custom_emoji(&doc(r#"{ "id": "51", "name": "sleep", "available": false }"#)).expect("parses");
    assert!(!sleep.available);
    assert!(!sleep.animated);
    let party = parse_custom_emoji(&doc(r#"{ "id": "50", "name": "party", "animated": true }"#)).expect("parses");
    assert!(party.available);
    assert!(party.animated);

    let folder = parse_guild_folder(&doc(r#"{ "id": 5, "name": "", "color": 255, "guild_ids": ["1", "x", "2"] }"#))
        .expect("folder parses");
    assert_eq!(folder.id, Some(5));
    assert!(folder.name.is_none());
    assert_eq!(folder.color, Some(255));
    assert_eq!(folder.guild_ids, vec![Id::new(1), Id::new(2)]);
    assert!(parse_guild_folder(&doc(r#"{ "guild_ids": [] }"#)).is_none());
}
