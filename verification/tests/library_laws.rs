use std::path::PathBuf;

use concord::asset_cache::ExternalAssetCache;
use concord::avatar::{avatar_hash_extension, default_avatar_url};
use concord::presence::{apply_registered_images, external_activity_images, ActivityAssets, ActivityInfo, ActivityKind};
use concord::channel::{ChannelInfo, ChannelRecipientInfo};
use concord::client_rules::{
    guild_members_by_ids_request, guild_members_request, member_search_request, normalize_member_search_query,
    voice_state_request_is_duplicate, CurrentVoiceConnectionState, MEMBER_SEARCH_MAX_LIMIT,
    MEMBER_SEARCH_MAX_QUERY_CHARS,
};
use concord::commands::{AppCommand, MessageAttachmentUpload, ReactionEmoji};
use concord::config_options::{CredentialStoreMode, ImagePreviewQualityPreset};
use concord::credentials::{LoginAction, LoginFailure, LoginFlow, TokenCheck, TokenSaveLocation};
use concord::dispatch::{command_route, CommandRoute};
use concord::fingerprint::{encode_super_properties, generate_launch_signature, random_uuid_string, timezone_or_utc};
use concord::gateway::{reconnect_delay, websocket_close_message, GatewayCommand, SessionState, RECONNECT_MAX_DELAY_MS};
use concord::ids::{Id, MessageMarker};
use concord::member_state::{role_map, selected_role_ids_color, RoleInfo};
use concord::message_info::{MessageKind, PollAnswerInfo, PollInfo, ReactionInfo};
use concord::message_state::MessageState;
use concord::reactions::{apply_reaction_op, update_poll_vote, ReactionOp};
use concord::state::DiscordState;
use concord::voice::{MicrophoneSensitivityDb, VoiceScope, VoiceVolumePercent};

fn message(channel: u64, id: u64) -> MessageState {
    MessageState {
        id: Id::new(id),
        guild_id: None,
        channel_id: Id::new(channel),
        author_id: Id::new(7),
        author: "neo".to_owned(),
        author_avatar_url: None,
        author_is_bot: false,
        message_kind: MessageKind::regular(),
        interaction: None,
        reference: None,
        reply: None,
        poll: None,
        pinned: false,
        reactions: Vec::new(),
        content: Some(format!("message {id}")),
        sticker_names: Vec::new(),
        mentions: Vec::new(),
        mention_everyone: false,
        mention_roles: Vec::new(),
        flags: 0,
        attachments: Vec::new(),
        embeds: Vec::new(),
        forwarded_snapshots: Vec::new(),
        edited_timestamp: None,
    }
}

fn channel(id: u64) -> ChannelInfo {
    ChannelInfo {
        guild_id: Some(Id::new(1)),
        channel_id: Id::new(id),
        parent_id: None,
        owner_id: None,
        position: None,
        last_message_id: None,
        name: "general".to_owned(),
        kind: "text".to_owned(),
        message_count: None,
        member_count: None,
        total_message_sent: None,
        thread_metadata: None,
        flags: None,
        recipients: None,
        permission_overwrites: Vec::new(),
    }
}

#[test]
fn env_token_refused_by_discord_ends_login() {
    let mut flow = LoginFlow::new();
    let action = flow.start(Some("env-token".to_owned()));
    assert!(matches!(&action, LoginAction::CheckEnvToken(t) if t == "env-token"));
    let action = flow.env_token_checked("env-token".to_owned(), TokenCheck::Rejected);
    assert!(matches!(action, LoginAction::Fail(LoginFailure::TokenRejected)));
}

#[test]
fn env_token_with_newline_is_refused_before_any_check() {
    let mut flow = LoginFlow::new();
    let action = flow.start(Some("bad\ntoken".to_owned()));
    assert!(matches!(action, LoginAction::Fail(LoginFailure::InvalidTokenHeader)));
}

#[test]
fn unverified_env_token_is_kept_with_a_warning() {
    let mut flow = LoginFlow::new();
    let _ = flow.start(Some("env-token".to_owned()));
    let action = flow.env_token_checked("env-token".to_owned(), TokenCheck::Unverified("timeout".to_owned()));
    match action {
        LoginAction::Finish(resolved) => {
            assert_eq!(resolved.token, "env-token");
            assert_eq!(
                resolved.warnings,
                vec!["CONCORD_TOKEN could not be verified: timeout; continuing with it for this session".to_owned()]
            );
        }
        other => panic!("expected finish, got {other:?}"),
    }
}

#[test]
fn rejected_saved_token_is_deleted_and_the_notice_shown_once() {
    let mut flow = LoginFlow::new();
    assert!(matches!(flow.start(None), LoginAction::LoadConfig));
    let action = flow.config_loaded(Ok(CredentialStoreMode::Keychain));
    assert!(matches!(action, LoginAction::LoadSavedToken(CredentialStoreMode::Keychain)));
    let action = flow.saved_token_loaded(Ok(Some("saved".to_owned())));
    assert!(matches!(&action, LoginAction::CheckSavedToken(t) if t == "saved"));
    let action = flow.saved_token_checked("saved".to_owned(), TokenCheck::Rejected);
    assert!(matches!(action, LoginAction::DeleteSavedToken(CredentialStoreMode::Keychain)));
    let action = flow.saved_token_deleted(Err("locked".to_owned()));
    match action {
        LoginAction::Prompt(Some(notice)) => {
            assert_eq!(notice, "Saved Discord token was rejected; enter a new token.")
        }
        other => panic!("expected a prompt with the notice, got {other:?}"),
    }
    assert!(flow.notice.is_none());
    let action = flow.token_entered("fresh".to_owned());
    assert!(matches!(&action, LoginAction::CheckEnteredToken(t) if t == "fresh"));
    let action = flow.entered_token_checked("fresh".to_owned(), TokenCheck::Rejected);
    assert!(matches!(action, LoginAction::Prompt(Some(_))));
    let action = flow.entered_token_checked("fresh".to_owned(), TokenCheck::Accepted);
    assert!(matches!(action, LoginAction::SaveToken(_, CredentialStoreMode::Keychain)));
    match flow.token_saved("fresh".to_owned(), Ok(TokenSaveLocation::PlaintextFile)) {
        LoginAction::Finish(resolved) => {
            assert_eq!(resolved.token, "fresh");
            assert_eq!(
                resolved.warnings,
                vec!["rejected saved token could not be deleted: locked".to_owned()]
            );
        }
        other => panic!("expected finish, got {other:?}"),
    }
}

#[test]
fn plaintext_fallback_is_reported_only_for_automatic_storage() {
    let mut flow = LoginFlow::new();
    let _ = flow.config_loaded(Err("bad toml".to_owned()));
    assert_eq!(flow.store, CredentialStoreMode::Auto);
    match flow.saved_token_loaded(Ok(None)) {
        LoginAction::Prompt(Some(notice)) => {
            assert_eq!(notice, "Credential storage is unavailable; token may not be saved.")
        }
        other => panic!("expected a prompt, got {other:?}"),
    }
    match flow.token_saved("t".to_owned(), Ok(TokenSaveLocation::PlaintextFile)) {
        LoginAction::Finish(resolved) => assert_eq!(resolved.warnings.len(), 2),
        other => panic!("expected finish, got {other:?}"),
    }
}

#[test]
fn commands_route_to_their_handler_family() {
    assert_eq!(
        command_route(&AppCommand::SetSelectedGuild { guild_id: None }),
        CommandRoute::Gateway
    );
    assert_eq!(
        command_route(&AppCommand::LoadMessageHistory { channel_id: Id::new(2), before: None }),
        CommandRoute::History
    );
    assert_eq!(command_route(&AppCommand::SignOut), CommandRoute::Session);
    assert_eq!(
        command_route(&AppCommand::OpenUrl { url: "https://example.com".to_owned() }),
        CommandRoute::Media
    );
    assert_eq!(
        command_route(&AppCommand::DeleteMessage { channel_id: Id::new(1), message_id: Id::new(2) }),
        CommandRoute::Message
    );
    assert_eq!(
        command_route(&AppCommand::UpdateVoiceCapturePermission {
            scope: VoiceScope::Guild(Id::new(1)),
            channel_id: Id::new(2),
            allow_microphone_transmit: true,
            microphone_sensitivity: MicrophoneSensitivityDb::default(),
            microphone_volume: VoiceVolumePercent::default(),
            voice_output_volume: VoiceVolumePercent::default(),
        }),
        CommandRoute::Voice
    );
}

#[test]
fn typing_users_are_fresh_notices_newest_first() {
    let mut state = DiscordState::new(50, 4);
    let channel_id = Id::new(10);
    state.record_typing_start(channel_id, Id::new(3), Some("old".to_owned()), 1_000);
    state.record_typing_start(channel_id, Id::new(2), None, 15_000);
    state.record_typing_start(channel_id, Id::new(1), Some("tie".to_owned()), 15_000);
    state.record_typing_start(channel_id, Id::new(4), Some("newest".to_owned()), 16_000);
    let typing = state.typing_users(channel_id, 20_000);
    let ids: Vec<u64> = typing.iter().map(|t| t.user_id.get()).collect();
    assert_eq!(ids, vec![4, 1, 2]);
    assert_eq!(typing[0].display_name.as_deref(), Some("newest"));
    assert!(state.typing_users(Id::new(11), 20_000).is_empty());
    state.record_typing_start(channel_id, Id::new(3), Some("again".to_owned()), 19_000);
    assert_eq!(state.typing_users(channel_id, 20_000)[0].user_id, Id::new(3));
}

#[test]
fn default_avatars_follow_discriminator_or_snowflake() {
    assert_eq!(default_avatar_url(Id::new(30), 7), "https://cdn.discordapp.com/embed/avatars/2.png");
    assert_eq!(
        default_avatar_url(Id::new(80351110224678912), 0),
        format!("https://cdn.discordapp.com/embed/avatars/{}.png", (80351110224678912u64 >> 22) % 6)
    );
    assert_eq!(avatar_hash_extension("a_123"), "gif");
    assert_eq!(avatar_hash_extension("123"), "png");
}

#[test]
fn adding_then_removing_own_reaction_restores_the_list() {
    let before = vec![ReactionInfo { emoji: ReactionEmoji::Unicode("👍".to_owned()), count: 2, me: false }];
    let emoji = ReactionEmoji::Unicode("🎉".to_owned());
    let added = apply_reaction_op(&before, &ReactionOp::AddOwn(emoji.clone()));
    assert_eq!(added.len(), 2);
    assert!(added[1].me);
    let removed = apply_reaction_op(&added, &ReactionOp::RemoveOwn(emoji));
    assert_eq!(removed, before);
}

#[test]
fn revoting_the_same_answers_changes_nothing() {
    let poll = PollInfo {
        question: "lunch?".to_owned(),
        answers: vec![
            PollAnswerInfo { answer_id: 1, text: "soup".to_owned(), vote_count: Some(1), me_voted: false },
            PollAnswerInfo { answer_id: 2, text: "noodles".to_owned(), vote_count: Some(0), me_voted: false },
        ],
        allow_multiselect: false,
        results_finalized: Some(false),
        total_votes: Some(1),
    };
    let once = update_poll_vote(poll, &[2]);
    assert_eq!(once.answers[1].vote_count, Some(1));
    assert!(once.answers[1].me_voted);
    let twice = update_poll_vote(once.clone(), &[2]);
    assert_eq!(twice, once);
}

#[test]
fn cache_keeps_at_most_the_configured_messages_per_channel() {
    let mut state = DiscordState::new(2, 4);
    for id in [100, 101, 102] {
        state.upsert_message(message(10, id));
    }
    let cached: Vec<Id<MessageMarker>> = state.messages_for_channel(Id::new(10)).iter().map(|m| m.id).collect();
    assert_eq!(cached, vec![Id::new(101), Id::new(102)]);
}

#[test]
fn last_message_id_never_moves_backwards() {
    let mut state = DiscordState::new(50, 4);
    state.upsert_channel(channel(10));
    state.record_channel_message_id(Id::new(10), Id::new(500));
    state.record_channel_message_id(Id::new(10), Id::new(400));
    assert_eq!(state.channel(Id::new(10)).and_then(|c| c.last_message_id), Some(Id::new(500)));
}

#[test]
fn member_color_comes_from_the_highest_colored_role() {
    let roles = role_map(&vec![
        RoleInfo { id: Id::new(1), name: "low".to_owned(), color: Some(0x111111), position: 1, hoist: false, permissions: 0 },
        RoleInfo { id: Id::new(2), name: "plain".to_owned(), color: None, position: 9, hoist: false, permissions: 0 },
        RoleInfo { id: Id::new(3), name: "high".to_owned(), color: Some(0x333333), position: 5, hoist: false, permissions: 0 },
    ]);
    assert_eq!(selected_role_ids_color(&vec![Id::new(1), Id::new(2), Id::new(3)], &roles), Some(0x333333));
    assert_eq!(selected_role_ids_color(&vec![Id::new(2)], &roles), None);
}

#[test]
fn repeating_the_requested_voice_state_is_a_duplicate() {
    let requested = CurrentVoiceConnectionState {
        scope: VoiceScope::Guild(Id::new(1)),
        channel_id: Id::new(2),
        self_mute: true,
        self_deaf: false,
        allow_microphone_transmit: true,
        microphone_sensitivity: MicrophoneSensitivityDb::default(),
        microphone_volume: VoiceVolumePercent::default(),
        voice_output_volume: VoiceVolumePercent::default(),
    };
    assert!(voice_state_request_is_duplicate(
        Some(requested.clone()),
        VoiceScope::Guild(Id::new(1)),
        Some(Id::new(2)),
        true,
        false
    ));
    assert!(!voice_state_request_is_duplicate(
        Some(requested),
        VoiceScope::Guild(Id::new(1)),
        Some(Id::new(2)),
        false,
        false
    ));
    assert!(voice_state_request_is_duplicate(None, VoiceScope::Guild(Id::new(1)), None, false, false));
}

#[test]
fn reconnect_delay_stays_within_the_backoff_bound() {
    let mut session = SessionState::default();
    for _ in 0..20 {
        let step = reconnect_delay(&mut session, 8_000);
        assert_eq!(step.jitter_bound_ms, 8_000);
        assert!(step.delay_ms <= 8_000);
        assert_eq!(step.next_backoff_ms, 16_000);
    }
    let capped = reconnect_delay(&mut session, RECONNECT_MAX_DELAY_MS);
    assert_eq!(capped.next_backoff_ms, RECONNECT_MAX_DELAY_MS);
    session.established = true;
    let healthy = reconnect_delay(&mut session, RECONNECT_MAX_DELAY_MS);
    assert_eq!(healthy.jitter_bound_ms, 500);
    assert!(healthy.delay_ms <= 500);
    assert_eq!(healthy.next_backoff_ms, 1_000);
    assert!(!session.established);
}

#[test]
fn image_quality_presets_cycle_through_all_four() {
    let start = ImagePreviewQualityPreset::Efficient;
    let mut p = start;
    let mut seen = Vec::new();
    for _ in 0..4 {
        seen.push(p.label());
        p = p.next();
    }
    assert_eq!(p, start);
    assert_eq!(seen, vec!["efficient", "balanced", "high", "original"]);
}

#[test]
fn launch_identifiers_are_fresh_uuids() {
    let a = generate_launch_signature();
    let b = random_uuid_string();
    let c = random_uuid_string();
    for id in [&a, &b, &c] {
        assert_eq!(id.len(), 36);
        assert_eq!(id.matches('-').count(), 4);
    }
    assert_ne!(b, c);
}

#[test]
fn super_properties_are_base64_encoded() {
    assert_eq!(encode_super_properties(b"{}"), "e30=");
    assert_eq!(encode_super_properties(b"{\"os\":\"Linux\"}"), "eyJvcyI6IkxpbnV4In0=");
}

#[test]
fn member_search_query_is_trimmed_and_lowercased() {
    assert_eq!(normalize_member_search_query("  ALICE  ").as_deref(), Some("alice"));
    assert_eq!(normalize_member_search_query(" a "), None);
}

#[test]
fn missing_time_zone_falls_back_to_utc() {
    assert_eq!(timezone_or_utc(None), "UTC");
    assert_eq!(timezone_or_utc(Some("Europe/Paris".to_owned())), "Europe/Paris");
}

#[test]
fn existing_file_upload_takes_the_path_file_name() {
    let upload = MessageAttachmentUpload::from_existing_path(PathBuf::from("/tmp/report.pdf"), 42);
    assert_eq!(upload.filename, "report.pdf");
    assert_eq!(upload.size_bytes, 42);
    let bare = MessageAttachmentUpload::from_existing_path(PathBuf::from("/"), 0);
    assert_eq!(bare.filename, "attachment");
}

#[test]
fn guild_member_search_validates_query_and_caps_limit() {

    assert!(member_search_request(Id::new(1), " a ", 10).is_none());

    let long_query = "İ".repeat(MEMBER_SEARCH_MAX_QUERY_CHARS + 10);
    let command = member_search_request(Id::new(1), &long_query, 99)
        .expect("search command should be built");
    let GatewayCommand::RequestGuildMembers {
        guild_id,
        query,
        limit,
        presences,
        nonce,
    } = command
    else {
        panic!("expected guild member search command");
    };
    assert_eq!(guild_id, Id::new(1));
    assert_eq!(query.chars().count(), MEMBER_SEARCH_MAX_QUERY_CHARS);
    assert_eq!(limit, MEMBER_SEARCH_MAX_LIMIT);
    assert!(presences);
    let nonce = nonce.expect("member search should include nonce");
    assert!(nonce.starts_with("mention-ac-1-"));
    assert!(!nonce.contains(&query));
    assert_eq!(nonce.len(), "mention-ac-1-".len() + 16);
}

#[test]
fn guild_member_request_by_ids_queues_gateway_command() {

    assert!(guild_members_by_ids_request(Id::new(1), Vec::new()).is_none());

    let command = guild_members_by_ids_request(Id::new(1), vec![Id::new(20), Id::new(30)])
        .expect("member request should be built");
    let GatewayCommand::RequestGuildMembersByIds {
        guild_id,
        user_ids,
        presences,
    } = command
    else {
        panic!("expected guild member id request command");
    };
    assert_eq!(guild_id, Id::new(1));
    assert_eq!(user_ids, vec![Id::new(20), Id::new(30)]);
    assert!(!presences);
}

#[test]
fn member_search_nonce_is_stable_for_one_query() {

    let nonce = |q: &str| match member_search_request(Id::new(7), q, 5) {
        Some(GatewayCommand::RequestGuildMembers { nonce, .. }) => nonce,
        _ => None,
    };
    assert_eq!(nonce("Alice"), nonce("  alice "));
    assert!(matches!(
        guild_members_request(Id::new(7)),
        GatewayCommand::RequestGuildMembers { limit: 0, presences: true, nonce: None, .. }
    ));
}

#[test]
fn profile_refresh_renames_dm_that_followed_its_recipients() {
    let mut state = DiscordState::new(50, 4);
    let mut dm = channel(40);
    dm.guild_id = None;
    dm.kind = "group-dm".to_owned();
    dm.name = "old name, bob".to_owned();
    dm.recipients = Some(vec![
        ChannelRecipientInfo {
            user_id: Id::new(7),
            display_name: "old name".to_owned(),
            username: Some("alice".to_owned()),
            is_bot: false,
            avatar_url: Some("https://cdn/old.png".to_owned()),
            status: None,
        },
        ChannelRecipientInfo {
            user_id: Id::new(8),
            display_name: "bob".to_owned(),
            username: None,
            is_bot: false,
            avatar_url: None,
            status: None,
        },
    ]);
    state.upsert_channel(dm);
    state.upsert_channel(channel(41));
    state.refresh_dm_channel_info_from_profile(Id::new(7), "Alice", None, None);
    let dm = state.channel(Id::new(40)).expect("dm is cached");
    assert_eq!(dm.name, "Alice, bob");
    assert_eq!(dm.recipients[0].display_name, "Alice");
    assert_eq!(dm.recipients[0].username.as_deref(), Some("alice"));
    assert_eq!(dm.recipients[0].avatar_url.as_deref(), Some("https://cdn/old.png"));
    assert_eq!(dm.recipients[1].display_name, "bob");
    assert_eq!(state.channel(Id::new(41)).expect("guild channel").name, "general");

    state.refresh_dm_channel_info_from_profile(Id::new(8), "Bobby", Some("bobby"), Some("https://cdn/b.png"));
    let dm = state.channel(Id::new(40)).expect("dm is cached");
    assert_eq!(dm.name, "Alice, Bobby");
    assert_eq!(dm.recipients[1].username.as_deref(), Some("bobby"));
    assert_eq!(dm.recipients[1].avatar_url.as_deref(), Some("https://cdn/b.png"));
}

#[test]
fn registered_asset_paths_read_back() {
    let mut cache = ExternalAssetCache::new();
    assert!(cache.get("app", "https://img/a.png").is_none());
    cache.insert("app", "https://img/a.png", "external/abc".to_owned());
    cache.insert("app", "https://img/b.png", "external/def".to_owned());
    cache.insert("other", "https://img/a.png", "external/xyz".to_owned());
    assert_eq!(cache.get("app", "https://img/a.png").map(String::as_str), Some("external/abc"));
    cache.insert("app", "https://img/a.png", "external/new".to_owned());
    assert_eq!(cache.get("app", "https://img/a.png").map(String::as_str), Some("external/new"));
    assert_eq!(cache.get("app", "https://img/b.png").map(String::as_str), Some("external/def"));
    assert_eq!(cache.get("other", "https://img/a.png").map(String::as_str), Some("external/xyz"));
}

#[test]
fn external_activity_images_are_registered_as_media_proxy_refs() {
    let mut activity = ActivityInfo {
        name: "game".to_owned(),
        kind: ActivityKind::Playing,
        details: None,
        state: None,
        url: None,
        emoji: None,
        application_id: Some("123".to_owned()),
        timestamps: None,
        assets: Some(ActivityAssets {
            large_image: Some("https://img/large.png".to_owned()),
            large_text: Some("big".to_owned()),
            small_image: Some("asset-key".to_owned()),
            small_text: None,
        }),
        party: None,
        buttons: Vec::new(),
    };
    let (large, small) = external_activity_images(&activity);
    assert_eq!(large.as_deref(), Some("https://img/large.png"));
    assert_eq!(small, None);
    apply_registered_images(&mut activity, Some("external/1".to_owned()), None);
    let assets = activity.assets.as_ref().expect("assets stay");
    assert_eq!(assets.large_image.as_deref(), Some("mp:external/1"));
    assert_eq!(assets.small_image.as_deref(), Some("asset-key"));
    assert_eq!(assets.large_text.as_deref(), Some("big"));
    activity.application_id = None;
    assert_eq!(external_activity_images(&activity), (None, None));
}

#[test]
fn websocket_close_message_quotes_the_reason() {
    assert_eq!(
        websocket_close_message("gateway closed", Some((4004, "Authentication \"failed\""))),
        "gateway closed: code=4004 reason=\"Authentication \\\"failed\\\"\""
    );
    assert_eq!(websocket_close_message("gateway closed", None), "gateway closed");
}
