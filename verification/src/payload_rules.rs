//! Small rules of the gateway payload readers: presence status names,
//! which settings fields are known, and which embeds have anything to show.
use vstd::prelude::*;

use crate::message_info::EmbedInfo;
use crate::presence::PresenceStatus;
use crate::text::str_eq;

verus! {

/// A gateway status name: `online`, `idle`, `dnd`, `offline` or
/// `invisible` (both offline); anything else is unknown.
pub open spec fn parse_status_spec(value: Seq<char>) -> PresenceStatus {
    if value == "online"@ {
        PresenceStatus::Online
    } else if value == "idle"@ {
        PresenceStatus::Idle
    } else if value == "dnd"@ {
        PresenceStatus::DoNotDisturb
    } else if value == "offline"@ || value == "invisible"@ {
        PresenceStatus::Offline
    } else {
        PresenceStatus::Unknown
    }
}

pub fn parse_status(value: &str) -> (r: PresenceStatus)
    ensures
        r == parse_status_spec(value@),
{
    if str_eq(value, "online") {
        PresenceStatus::Online
    } else if str_eq(value, "idle") {
        PresenceStatus::Idle
    } else if str_eq(value, "dnd") {
        PresenceStatus::DoNotDisturb
    } else if str_eq(value, "offline") || str_eq(value, "invisible") {
        PresenceStatus::Offline
    } else {
        PresenceStatus::Unknown
    }
}

/// The user-settings fields the client reads; any other field is kept
/// aside as an unknown extra.
pub open spec fn is_known_user_setting_field_spec(field: Seq<char>) -> bool {
    field == "activity_restricted_guild_ids"@
        || field == "activity_joining_restricted_guild_ids"@
        || field == "afk_timeout"@
        || field == "allow_accessibility_detection"@
        || field == "allow_activity_party_privacy_friends"@
        || field == "allow_activity_party_privacy_voice_channel"@
        || field == "animate_emoji"@
        || field == "animate_stickers"@
        || field == "contact_sync_enabled"@
        || field == "convert_emoticons"@
        || field == "custom_status"@
        || field == "default_guilds_restricted"@
        || field == "detect_platform_accounts"@
        || field == "developer_mode"@
        || field == "disable_games_tab"@
        || field == "enable_tts_command"@
        || field == "explicit_content_filter"@
        || field == "friend_discovery_flags"@
        || field == "friend_source_flags"@
        || field == "gif_auto_play"@
        || field == "guild_folders"@
        || field == "inline_attachment_media"@
        || field == "inline_embed_media"@
        || field == "locale"@
        || field == "message_display_compact"@
        || field == "native_phone_integration_enabled"@
        || field == "passwordless"@
        || field == "render_embeds"@
        || field == "render_reactions"@
        || field == "restricted_guilds"@
        || field == "show_current_game"@
        || field == "slayer_sdk_receive_dms_in_game"@
        || field == "soundboard_volume"@
        || field == "status"@
        || field == "stream_notifications_enabled"@
        || field == "theme"@
        || field == "timezone_offset"@
        || field == "view_nsfw_commands"@
        || field == "view_nsfw_guilds"@
}

pub fn is_known_user_setting_field(field: &str) -> (r: bool)
    ensures
        r == is_known_user_setting_field_spec(field@),
{
    str_eq(field, "activity_restricted_guild_ids")
        || str_eq(field, "activity_joining_restricted_guild_ids")
        || str_eq(field, "afk_timeout")
        || str_eq(field, "allow_accessibility_detection")
        || str_eq(field, "allow_activity_party_privacy_friends")
        || str_eq(field, "allow_activity_party_privacy_voice_channel")
        || str_eq(field, "animate_emoji")
        || str_eq(field, "animate_stickers")
        || str_eq(field, "contact_sync_enabled")
        || str_eq(field, "convert_emoticons")
        || str_eq(field, "custom_status")
        || str_eq(field, "default_guilds_restricted")
        || str_eq(field, "detect_platform_accounts")
        || str_eq(field, "developer_mode")
        || str_eq(field, "disable_games_tab")
        || str_eq(field, "enable_tts_command")
        || str_eq(field, "explicit_content_filter")
        || str_eq(field, "friend_discovery_flags")
        || str_eq(field, "friend_source_flags")
        || str_eq(field, "gif_auto_play")
        || str_eq(field, "guild_folders")
        || str_eq(field, "inline_attachment_media")
        || str_eq(field, "inline_embed_media")
        || str_eq(field, "locale")
        || str_eq(field, "message_display_compact")
        || str_eq(field, "native_phone_integration_enabled")
        || str_eq(field, "passwordless")
        || str_eq(field, "render_embeds")
        || str_eq(field, "render_reactions")
        || str_eq(field, "restricted_guilds")
        || str_eq(field, "show_current_game")
        || str_eq(field, "slayer_sdk_receive_dms_in_game")
        || str_eq(field, "soundboard_volume")
        || str_eq(field, "status")
        || str_eq(field, "stream_notifications_enabled")
        || str_eq(field, "theme")
        || str_eq(field, "timezone_offset")
        || str_eq(field, "view_nsfw_commands")
        || str_eq(field, "view_nsfw_guilds")
}

/// The per-guild notification-settings fields the client reads.
pub open spec fn is_known_user_guild_settings_field_spec(field: Seq<char>) -> bool {
    field == "guild_id"@
        || field == "message_notifications"@
        || field == "muted"@
        || field == "mute_config"@
        || field == "suppress_everyone"@
        || field == "suppress_roles"@
        || field == "channel_overrides"@
}

pub fn is_known_user_guild_settings_field(field: &str) -> (r: bool)
    ensures
        r == is_known_user_guild_settings_field_spec(field@),
{
    str_eq(field, "guild_id")
        || str_eq(field, "message_notifications")
        || str_eq(field, "muted")
        || str_eq(field, "mute_config")
        || str_eq(field, "suppress_everyone")
        || str_eq(field, "suppress_roles")
        || str_eq(field, "channel_overrides")
}

/// An embed shows something when it has any text, link or media part.
pub open spec fn embed_renderable_spec(e: EmbedInfo) -> bool {
    e.provider_name is Some || e.author_name is Some || e.title is Some || e.description is Some || e.timestamp is Some
        || e.fields@.len() > 0 || e.footer_text is Some || e.url is Some || e.thumbnail_url is Some || e.image_url is Some
        || e.video_url is Some
}

pub fn embed_has_renderable_content(embed: &EmbedInfo) -> (r: bool)
    ensures
        r == embed_renderable_spec(*embed),
{
    embed.provider_name.is_some() || embed.author_name.is_some() || embed.title.is_some() || embed.description.is_some()
        || embed.timestamp.is_some() || embed.fields.len() > 0 || embed.footer_text.is_some() || embed.url.is_some()
        || embed.thumbnail_url.is_some() || embed.image_url.is_some() || embed.video_url.is_some()
}

/// A name for logs: the name, or `<missing>`.
pub fn log_optional_name(value: Option<&str>) -> (r: &str)
    ensures
        match value {
            Some(v) => r == v,
            None => r@ == "<missing>"@,
        },
{
    match value {
        Some(v) => v,
        None => {
            proof {
                reveal_strlit("<missing>");
            }
            "<missing>"
        },
    }
}

} // verus!
