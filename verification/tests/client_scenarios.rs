use concord::capabilities::{effective_attachment_limit_bytes, GuildBoostTier, PremiumTier};
use concord::commands::{runs_inline, AppCommand};
use concord::gateway::{close_code_outcome, ConnectionOutcome, GatewayCommand, HeartbeatAckState, SubscriptionDeduper};
use concord::ids::{ChannelMarker, GuildMarker, Id};
use concord::message_info::{poll_result_info_from_fields, AttachmentInfo, AttachmentMediaType};
use concord::voice::{MicrophoneSensitivityDb, VoiceScope, VoiceVolumePercent};

#[test]
fn only_order_sensitive_control_commands_run_inline() {
    assert!(runs_inline(&AppCommand::SetSelectedGuild {
        guild_id: Some(Id::new(1)),
    }));
    assert!(runs_inline(&AppCommand::SetSelectedMessageChannel {
        channel_id: Some(Id::new(2)),
    }));
    assert!(runs_inline(&AppCommand::UpdateVoiceCapturePermission {
        scope: VoiceScope::Guild(Id::new(1)),
        channel_id: Id::new(2),
        allow_microphone_transmit: true,
        microphone_sensitivity: MicrophoneSensitivityDb::default(),
        microphone_volume: VoiceVolumePercent::default(),
        voice_output_volume: VoiceVolumePercent::default(),
    }));

    assert!(!runs_inline(&AppCommand::LoadMessageHistory {
        channel_id: Id::new(2),
        before: None,
    }));
    assert!(!runs_inline(&AppCommand::LoadAttachmentPreview {
        url: "https://cdn.discordapp.com/avatar.png".to_owned(),
    }));
}

#[test]
fn premium_type_maps_to_tier_and_upload_limit() {
    let cases = [
        (0, PremiumTier::NoNitro, 10 * 1024 * 1024, false),
        (1, PremiumTier::NitroClassic, 50 * 1024 * 1024, true),
        (2, PremiumTier::Nitro, 500 * 1024 * 1024, true),
        (3, PremiumTier::NitroBasic, 50 * 1024 * 1024, true),
        (99, PremiumTier::NoNitro, 10 * 1024 * 1024, false),
    ];
    for (raw, tier, limit, has_nitro) in cases {
        let parsed = PremiumTier::from_premium_type(raw);
        assert_eq!(parsed, tier, "premium_type {raw}");
        assert_eq!(parsed.attachment_limit_bytes(), limit, "limit for {raw}");
        assert_eq!(parsed.has_nitro(), has_nitro, "has_nitro for {raw}");
    }
}

#[test]
fn guild_boost_tier_maps_to_upload_limit() {
    assert_eq!(
        GuildBoostTier::from_premium_tier(0).attachment_limit_bytes(),
        10 * 1024 * 1024
    );
    assert_eq!(
        GuildBoostTier::from_premium_tier(1).attachment_limit_bytes(),
        10 * 1024 * 1024
    );
    assert_eq!(
        GuildBoostTier::from_premium_tier(2).attachment_limit_bytes(),
        50 * 1024 * 1024
    );
    assert_eq!(
        GuildBoostTier::from_premium_tier(3).attachment_limit_bytes(),
        100 * 1024 * 1024
    );
}

#[test]
fn effective_limit_takes_the_more_generous_tier() {
    assert_eq!(
        effective_attachment_limit_bytes(PremiumTier::NoNitro, Some(GuildBoostTier::Tier3)),
        100 * 1024 * 1024
    );
    assert_eq!(
        effective_attachment_limit_bytes(PremiumTier::Nitro, Some(GuildBoostTier::Unboosted)),
        500 * 1024 * 1024
    );
    assert_eq!(
        effective_attachment_limit_bytes(PremiumTier::NitroBasic, None),
        50 * 1024 * 1024
    );
}

fn attachment_info(filename: &str, content_type: Option<&str>) -> AttachmentInfo {
    AttachmentInfo {
        id: Id::new(1),
        filename: filename.to_owned(),
        url: format!("https://cdn.discordapp.com/{filename}"),
        proxy_url: format!("https://media.discordapp.net/{filename}"),
        content_type: content_type.map(str::to_owned),
        size: 1024,
        width: Some(640),
        height: Some(480),
        description: None,
    }
}

#[test]
fn attachment_media_classification_controls_inline_preview() {
    let video = attachment_info("clip.mp4", Some("video/mp4"));
    assert!(video.media_type() == Some(AttachmentMediaType::Video));
    assert_eq!(video.inline_preview_url(), None);
    assert_eq!(
        video
            .inline_preview_info()
            .map(|info| (info.url, info.proxy_url, info.proxy_preview_only)),
        Some((
            "https://media.discordapp.net/clip.mp4",
            Some("https://media.discordapp.net/clip.mp4"),
            true,
        ))
    );

    let image = attachment_info("cat.png", Some("image/png"));
    assert!(image.media_type() == Some(AttachmentMediaType::Image));
    assert_eq!(
        image.inline_preview_url(),
        Some("https://cdn.discordapp.com/cat.png")
    );
    assert_eq!(
        image.inline_preview_info().and_then(|info| info.proxy_url),
        Some("https://media.discordapp.net/cat.png")
    );

    assert!(attachment_info("CAT.PNG", None).media_type() == Some(AttachmentMediaType::Image));
    assert!(attachment_info("CLIP.MP4", None).media_type() == Some(AttachmentMediaType::Video));
    assert!(attachment_info("MUSIC.MP3", None).media_type() == Some(AttachmentMediaType::Audio));
}

#[test]
fn poll_result_embed_fields_map_to_poll_summary() {
    let poll = poll_result_info_from_fields(&[
        ("poll_question_text", "오늘 뭐 먹지?"),
        ("victor_answer_id", "1"),
        ("victor_answer_text", "김치찌개"),
        ("victor_answer_votes", "5"),
        ("total_votes", "7"),
    ])
    .expect("poll result fields should map");

    assert_eq!(poll.question, "오늘 뭐 먹지?");
    assert_eq!(poll.total_votes, Some(7));
    assert_eq!(poll.results_finalized, Some(true));
    assert_eq!(poll.answers[0].text, "김치찌개");
    assert_eq!(poll.answers[0].vote_count, Some(5));
}

#[test]
fn fatal_gateway_close_codes_do_not_retry_identify() {
    for code in [4004, 4010, 4011, 4012, 4013, 4014] {
        assert_eq!(close_code_outcome(code), ConnectionOutcome::Fatal, "{code}");
    }
    assert_eq!(close_code_outcome(4007), ConnectionOutcome::Reidentify);
    assert_eq!(close_code_outcome(4009), ConnectionOutcome::Reidentify);
    assert_eq!(close_code_outcome(4000), ConnectionOutcome::Resume);
}

#[test]
fn heartbeat_ack_state_detects_missing_ack_before_next_heartbeat() {
    let mut state = HeartbeatAckState::default();

    assert!(state.mark_heartbeat_sent());
    assert!(!state.mark_heartbeat_sent());
    state.mark_ack_received();
    assert!(state.mark_heartbeat_sent());
}

#[test]
fn subscription_deduper_skips_exact_duplicate_channel_subscriptions() {
    let guild_id = Id::<GuildMarker>::new(10);
    let channel_id = Id::<ChannelMarker>::new(20);
    let other_channel_id = Id::<ChannelMarker>::new(30);
    let mut deduper = SubscriptionDeduper::default();

    assert!(deduper.should_send(&GatewayCommand::SubscribeDirectMessage { channel_id }));
    assert!(!deduper.should_send(&GatewayCommand::SubscribeDirectMessage { channel_id }));
    assert!(deduper.should_send(&GatewayCommand::SubscribeDirectMessage {
        channel_id: other_channel_id,
    }));

    assert!(deduper.should_send(&GatewayCommand::SubscribeGuildChannel {
        guild_id,
        channel_id,
    }));
    assert!(!deduper.should_send(&GatewayCommand::SubscribeGuildChannel {
        guild_id,
        channel_id,
    }));

    assert!(deduper.should_send(&GatewayCommand::UpdateMemberListSubscription {
        guild_id,
        channel_id,
        ranges: vec![(0, 99), (100, 199)],
    }));
    assert!(!deduper.should_send(&GatewayCommand::UpdateMemberListSubscription {
        guild_id,
        channel_id,
        ranges: vec![(0, 99), (100, 199)],
    }));
    assert!(deduper.should_send(&GatewayCommand::UpdateMemberListSubscription {
        guild_id,
        channel_id,
        ranges: vec![(0, 99)],
    }));
    assert!(!deduper.should_send(&GatewayCommand::UpdateMemberListSubscription {
        guild_id,
        channel_id,
        ranges: vec![(0, 99)],
    }));
    assert!(deduper.should_send(&GatewayCommand::RequestGuildMembersByIds {
        guild_id,
        user_ids: vec![Id::new(40)],
        presences: false,
    }));
}
