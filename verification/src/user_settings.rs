//! The user's account settings, as a USER_SETTINGS_UPDATE dispatch sends
//! them: every setting is optional, since an update carries only what
//! changed.
use vstd::prelude::*;

use crate::ids::{EmojiMarker, GuildMarker, Id};
use crate::json::{
    field_bool, field_i64, field_str, field_u64, get_bool, get_i64, get_str, get_string, get_u64, jget, JsonNumber,
    JsonValue,
};
use crate::message_info::opt_string_view;
use crate::parse_common::{array_items, field_id, get_id, id_items, id_views, kept_items, opt_id_view, parse_id_array};
use crate::parse_guild::{guild_folder_keep, guild_folder_read_from, parse_guild_folders};
use crate::state::GuildFolder;

verus! {

/// The custom status line a user set.
pub struct UserCustomStatusInfo {
    pub text: Option<String>,
    pub emoji_id: Option<Id<EmojiMarker>>,
    pub emoji_name: Option<String>,
    pub expires_at: Option<String>,
}

/// Who may send the user friend requests.
pub struct UserFriendSourceFlagsInfo {
    pub all: Option<bool>,
    pub mutual_friends: Option<bool>,
    pub mutual_guilds: Option<bool>,
}

/// The user's settings; each is `None` when the payload leaves it out. The
/// soundboard volume is kept as the number the payload gives.
pub struct UserSettingsInfo {
    pub activity_restricted_guild_ids: Option<Vec<Id<GuildMarker>>>,
    pub activity_joining_restricted_guild_ids: Option<Vec<Id<GuildMarker>>>,
    pub afk_timeout: Option<u64>,
    pub allow_accessibility_detection: Option<bool>,
    pub allow_activity_party_privacy_friends: Option<bool>,
    pub allow_activity_party_privacy_voice_channel: Option<bool>,
    pub animate_emoji: Option<bool>,
    pub animate_stickers: Option<u64>,
    pub contact_sync_enabled: Option<bool>,
    pub convert_emoticons: Option<bool>,
    pub custom_status: Option<Option<UserCustomStatusInfo>>,
    pub default_guilds_restricted: Option<bool>,
    pub detect_platform_accounts: Option<bool>,
    pub developer_mode: Option<bool>,
    pub disable_games_tab: Option<bool>,
    pub enable_tts_command: Option<bool>,
    pub explicit_content_filter: Option<u64>,
    pub friend_discovery_flags: Option<u64>,
    pub friend_source_flags: Option<UserFriendSourceFlagsInfo>,
    pub gif_auto_play: Option<bool>,
    pub guild_folders: Option<Vec<GuildFolder>>,
    pub inline_attachment_media: Option<bool>,
    pub inline_embed_media: Option<bool>,
    pub locale: Option<String>,
    pub message_display_compact: Option<bool>,
    pub native_phone_integration_enabled: Option<bool>,
    pub passwordless: Option<bool>,
    pub render_embeds: Option<bool>,
    pub render_reactions: Option<bool>,
    pub restricted_guilds: Option<Vec<Id<GuildMarker>>>,
    pub show_current_game: Option<bool>,
    pub slayer_sdk_receive_dms_in_game: Option<u64>,
    pub soundboard_volume: Option<JsonNumber>,
    pub status: Option<String>,
    pub stream_notifications_enabled: Option<bool>,
    pub theme: Option<String>,
    pub timezone_offset: Option<i64>,
    pub view_nsfw_commands: Option<bool>,
    pub view_nsfw_guilds: Option<bool>,
}

/// A list of guild ids under `key`: nothing unless the value is a list;
/// what is not a snowflake in it is skipped.
pub open spec fn id_list_read_from(r: Option<Vec<Id<GuildMarker>>>, v: JsonValue, key: Seq<char>) -> bool {
    match jget(v, key) {
        Some(JsonValue::Array(_)) => r matches Some(l) && id_views(l@) == id_items(jget(v, key)),
        _ => r is None,
    }
}

fn parse_id_list(settings: &JsonValue, field: &str) -> (r: Option<Vec<Id<GuildMarker>>>)
    ensures
        id_list_read_from(r, *settings, field@),
{
    match settings.get(field) {
        Some(x) => match x.as_array() {
            Some(_) => Some(parse_id_array::<GuildMarker>(Some(x))),
            None => None,
        },
        None => None,
    }
}

pub open spec fn custom_status_fields_read_from(c: UserCustomStatusInfo, x: JsonValue) -> bool {
    &&& opt_string_view(c.text) == field_str(x, "text"@)
    &&& opt_id_view(c.emoji_id) == field_id(x, "emoji_id"@)
    &&& opt_string_view(c.emoji_name) == field_str(x, "emoji_name"@)
    &&& opt_string_view(c.expires_at) == field_str(x, "expires_at"@)
}

/// The custom status: absent, cleared (`null`), or set.
pub open spec fn custom_status_read_from(r: Option<Option<UserCustomStatusInfo>>, v: JsonValue) -> bool {
    match jget(v, "custom_status"@) {
        None => r is None,
        Some(JsonValue::Null) => r == Some(None::<UserCustomStatusInfo>),
        Some(x) => r matches Some(Some(c)) && custom_status_fields_read_from(c, x),
    }
}

fn parse_nullable_custom_status(value: Option<&JsonValue>) -> (r: Option<Option<UserCustomStatusInfo>>)
    ensures
        match value {
            None => r is None,
            Some(JsonValue::Null) => r == Some(None::<UserCustomStatusInfo>),
            Some(x) => r matches Some(Some(c)) && custom_status_fields_read_from(c, *x),
        },
{
    match value {
        None => None,
        Some(x) => {
            if x.is_null() {
                Some(None)
            } else {
                Some(
                    Some(
                        UserCustomStatusInfo {
                            text: get_string(x, "text"),
                            emoji_id: get_id::<EmojiMarker>(x, "emoji_id"),
                            emoji_name: get_string(x, "emoji_name"),
                            expires_at: get_string(x, "expires_at"),
                        },
                    ),
                )
            }
        },
    }
}

/// The friend request settings: read only from an object.
pub open spec fn friend_source_flags_read_from(r: Option<UserFriendSourceFlagsInfo>, v: JsonValue) -> bool {
    match jget(v, "friend_source_flags"@) {
        Some(JsonValue::Object(_)) => r matches Some(f) && {
            let x = jget(v, "friend_source_flags"@).unwrap();
            &&& f.all == field_bool(x, "all"@)
            &&& f.mutual_friends == field_bool(x, "mutual_friends"@)
            &&& f.mutual_guilds == field_bool(x, "mutual_guilds"@)
        },
        _ => r is None,
    }
}

fn parse_friend_source_flags(value: &JsonValue) -> (r: Option<UserFriendSourceFlagsInfo>)
    ensures
        match *value {
            JsonValue::Object(_) => r matches Some(f) && f.all == field_bool(*value, "all"@) && f.mutual_friends
                == field_bool(*value, "mutual_friends"@) && f.mutual_guilds == field_bool(*value, "mutual_guilds"@),
            _ => r is None,
        },
{
    match value {
        JsonValue::Object(_) => Some(
            UserFriendSourceFlagsInfo {
                all: get_bool(value, "all"),
                mutual_friends: get_bool(value, "mutual_friends"),
                mutual_guilds: get_bool(value, "mutual_guilds"),
            },
        ),
        _ => None,
    }
}

/// The guild folders: only from a list; folders without guilds dropped.
pub open spec fn guild_folders_read_from(r: Option<Vec<GuildFolder>>, v: JsonValue) -> bool {
    match jget(v, "guild_folders"@) {
        Some(JsonValue::Array(_)) => r matches Some(list) && {
            let kept = kept_items(array_items(jget(v, "guild_folders"@)), |x: JsonValue| guild_folder_keep(x));
            &&& list@.len() == kept.len()
            &&& forall|i: int| 0 <= i < list@.len() ==> guild_folder_read_from(#[trigger] list@[i], kept[i])
        },
        _ => r is None,
    }
}

fn clone_number(n: &JsonNumber) -> (r: JsonNumber)
    ensures
        r == *n,
{
    match n {
        JsonNumber::Unsigned(u) => JsonNumber::Unsigned(*u),
        JsonNumber::Negative(i) => JsonNumber::Negative(*i),
        JsonNumber::NonInteger(t) => JsonNumber::NonInteger(t.clone()),
    }
}

/// `u` holds what the settings payload `v` says.
pub open spec fn user_settings_read_from(u: UserSettingsInfo, v: JsonValue) -> bool {
    &&& id_list_read_from(u.activity_restricted_guild_ids, v, "activity_restricted_guild_ids"@)
    &&& id_list_read_from(u.activity_joining_restricted_guild_ids, v, "activity_joining_restricted_guild_ids"@)
    &&& u.afk_timeout == field_u64(v, "afk_timeout"@)
    &&& u.allow_accessibility_detection == field_bool(v, "allow_accessibility_detection"@)
    &&& u.allow_activity_party_privacy_friends == field_bool(v, "allow_activity_party_privacy_friends"@)
    &&& u.allow_activity_party_privacy_voice_channel == field_bool(v, "allow_activity_party_privacy_voice_channel"@)
    &&& u.animate_emoji == field_bool(v, "animate_emoji"@)
    &&& u.animate_stickers == field_u64(v, "animate_stickers"@)
    &&& u.contact_sync_enabled == field_bool(v, "contact_sync_enabled"@)
    &&& u.convert_emoticons == field_bool(v, "convert_emoticons"@)
    &&& custom_status_read_from(u.custom_status, v)
    &&& u.default_guilds_restricted == field_bool(v, "default_guilds_restricted"@)
    &&& u.detect_platform_accounts == field_bool(v, "detect_platform_accounts"@)
    &&& u.developer_mode == field_bool(v, "developer_mode"@)
    &&& u.disable_games_tab == field_bool(v, "disable_games_tab"@)
    &&& u.enable_tts_command == field_bool(v, "enable_tts_command"@)
    &&& u.explicit_content_filter == field_u64(v, "explicit_content_filter"@)
    &&& u.friend_discovery_flags == field_u64(v, "friend_discovery_flags"@)
    &&& friend_source_flags_read_from(u.friend_source_flags, v)
    &&& u.gif_auto_play == field_bool(v, "gif_auto_play"@)
    &&& guild_folders_read_from(u.guild_folders, v)
    &&& u.inline_attachment_media == field_bool(v, "inline_attachment_media"@)
    &&& u.inline_embed_media == field_bool(v, "inline_embed_media"@)
    &&& opt_string_view(u.locale) == field_str(v, "locale"@)
    &&& u.message_display_compact == field_bool(v, "message_display_compact"@)
    &&& u.native_phone_integration_enabled == field_bool(v, "native_phone_integration_enabled"@)
    &&& u.passwordless == field_bool(v, "passwordless"@)
    &&& u.render_embeds == field_bool(v, "render_embeds"@)
    &&& u.render_reactions == field_bool(v, "render_reactions"@)
    &&& id_list_read_from(u.restricted_guilds, v, "restricted_guilds"@)
    &&& u.show_current_game == field_bool(v, "show_current_game"@)
    &&& u.slayer_sdk_receive_dms_in_game == field_u64(v, "slayer_sdk_receive_dms_in_game"@)
    &&& u.soundboard_volume == match jget(v, "soundboard_volume"@) {
        Some(JsonValue::Number(n)) => Some(n),
        _ => None,
    }
    &&& opt_string_view(u.status) == field_str(v, "status"@)
    &&& u.stream_notifications_enabled == field_bool(v, "stream_notifications_enabled"@)
    &&& opt_string_view(u.theme) == field_str(v, "theme"@)
    &&& u.timezone_offset == field_i64(v, "timezone_offset"@)
    &&& u.view_nsfw_commands == field_bool(v, "view_nsfw_commands"@)
    &&& u.view_nsfw_guilds == field_bool(v, "view_nsfw_guilds"@)
}

/// Reads the user's settings; the payload must be an object.
#[verifier::rlimit(40)]
pub fn parse_user_settings_info(settings: &JsonValue) -> (r: Option<UserSettingsInfo>)
    ensures
        r is Some <==> settings is Object,
        r matches Some(u) ==> user_settings_read_from(u, *settings),
{
    match settings {
        JsonValue::Object(_) => {},
        _ => {
            return None;
        },
    }
    Some(UserSettingsInfo {
        activity_restricted_guild_ids: parse_id_list(settings, "activity_restricted_guild_ids"),
        activity_joining_restricted_guild_ids: parse_id_list(settings, "activity_joining_restricted_guild_ids"),
        afk_timeout: get_u64(settings, "afk_timeout"),
        allow_accessibility_detection: get_bool(settings, "allow_accessibility_detection"),
        allow_activity_party_privacy_friends: get_bool(settings, "allow_activity_party_privacy_friends"),
        allow_activity_party_privacy_voice_channel: get_bool(settings, "allow_activity_party_privacy_voice_channel"),
        animate_emoji: get_bool(settings, "animate_emoji"),
        animate_stickers: get_u64(settings, "animate_stickers"),
        contact_sync_enabled: get_bool(settings, "contact_sync_enabled"),
        convert_emoticons: get_bool(settings, "convert_emoticons"),
        custom_status: parse_nullable_custom_status(settings.get("custom_status")),
        default_guilds_restricted: get_bool(settings, "default_guilds_restricted"),
        detect_platform_accounts: get_bool(settings, "detect_platform_accounts"),
        developer_mode: get_bool(settings, "developer_mode"),
        disable_games_tab: get_bool(settings, "disable_games_tab"),
        enable_tts_command: get_bool(settings, "enable_tts_command"),
        explicit_content_filter: get_u64(settings, "explicit_content_filter"),
        friend_discovery_flags: get_u64(settings, "friend_discovery_flags"),
        friend_source_flags: match settings.get("friend_source_flags") {
            Some(x) => parse_friend_source_flags(x),
            None => None,
        },
        gif_auto_play: get_bool(settings, "gif_auto_play"),
        guild_folders: parse_guild_folders(settings),
        inline_attachment_media: get_bool(settings, "inline_attachment_media"),
        inline_embed_media: get_bool(settings, "inline_embed_media"),
        locale: get_string(settings, "locale"),
        message_display_compact: get_bool(settings, "message_display_compact"),
        native_phone_integration_enabled: get_bool(settings, "native_phone_integration_enabled"),
        passwordless: get_bool(settings, "passwordless"),
        render_embeds: get_bool(settings, "render_embeds"),
        render_reactions: get_bool(settings, "render_reactions"),
        restricted_guilds: parse_id_list(settings, "restricted_guilds"),
        show_current_game: get_bool(settings, "show_current_game"),
        slayer_sdk_receive_dms_in_game: get_u64(settings, "slayer_sdk_receive_dms_in_game"),
        soundboard_volume: match settings.get("soundboard_volume") {
            Some(JsonValue::Number(n)) => Some(clone_number(n)),
            _ => None,
        },
        status: get_string(settings, "status"),
        stream_notifications_enabled: get_bool(settings, "stream_notifications_enabled"),
        theme: get_string(settings, "theme"),
        timezone_offset: get_i64(settings, "timezone_offset"),
        view_nsfw_commands: get_bool(settings, "view_nsfw_commands"),
        view_nsfw_guilds: get_bool(settings, "view_nsfw_guilds"),
    })
}

/// The settings of a USER_SETTINGS_UPDATE: those under `user_settings`, or
/// the payload itself.
pub open spec fn settings_payload(data: JsonValue) -> JsonValue {
    match jget(data, "user_settings"@) {
        Some(s) => s,
        None => data,
    }
}

/// Reads a USER_SETTINGS_UPDATE payload.
pub fn parse_user_settings_update(data: &JsonValue) -> (r: Option<UserSettingsInfo>)
    ensures
        r is Some <==> settings_payload(*data) is Object,
        r matches Some(u) ==> user_settings_read_from(u, settings_payload(*data)),
{
    let settings = match data.get("user_settings") {
        Some(s) => s,
        None => data,
    };
    parse_user_settings_info(settings)
}

} // verus!
