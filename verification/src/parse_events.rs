//! Reading gateway dispatches into the events that the client state applies:
//! one parser per dispatch type, and the dispatcher that picks the parser by
//! the dispatch's `t` and reads its `d`.
use vstd::prelude::*;

use crate::commands::ReactionEmoji;
use crate::channel::ChannelInfo;
use crate::ids::{ChannelMarker, GuildMarker, Id, MessageMarker, RoleMarker, UserMarker};
use crate::json::{
    deref_opt, field_bool, field_str, field_u64, get_bool, get_str, get_u64, jarray, jget, json_of, jstr, parse_json,
    JsonValue,
};
use crate::notification::{
    notification_level_spec, ChannelNotificationOverrideInfo, GuildNotificationSettingsInfo, NotificationLevel,
};
use crate::text::{parse_u64, parse_unsigned_spec, str_eq};
use crate::member_state::{MemberInfo, RoleInfo};
use crate::message_info::opt_string_view;
use crate::parse_common::{field_id, get_id, opt_id_view, parse_id_spec};
use crate::parse_guild::{
    custom_emoji_keep, custom_emoji_read_from, member_read_from, member_user_id, parse_custom_emojis,
    parse_member_info, parse_role_info, role_keep, role_read_from,
};
use crate::parse_message::{parse_reaction_emoji, reaction_emoji_keep, reaction_emoji_read_from};
use crate::parse_common::{array_items, kept_items, lemma_filter_map_step, parse_list, seq_filter_map};
use crate::state::CustomEmojiInfo;
use crate::user_settings::{parse_user_settings_update, settings_payload, user_settings_read_from, UserSettingsInfo};
use crate::message_info::{AttachmentUpdate, MessageInfo};
use crate::events::MessageUpdateEventFields;
use crate::parse_channel::{channel_read_from, parse_channel_info};
use crate::parse_common::{id_items, id_views, parse_id_array};
use crate::parse_guild::{guild_update_read_from, parse_guild_update, GuildUpdateInfo};
use crate::parse_message::{
    delete_bulk_keep, message_keep, message_read_from, message_update_keep, message_update_read_from,
    parse_message_delete_bulk, parse_message_info, parse_message_update, MessageUpdateDispatchInfo,
};
use crate::avatar::{user_avatar_url, user_avatar_url_spec};

verus! {

/// What one gateway dispatch tells the client.
pub enum GatewayEvent {
    UserIdentityUpdate {
        user_id: Id<UserMarker>,
        username: String,
        global_name: Option<String>,
        avatar_url: Option<String>,
        is_bot: bool,
    },
    GuildEmojisUpdate { guild_id: Id<GuildMarker>, emojis: Vec<CustomEmojiInfo> },
    GuildRoleUpsert { guild_id: Id<GuildMarker>, role: RoleInfo },
    GuildRoleDelete { guild_id: Id<GuildMarker>, role_id: Id<RoleMarker> },
    GuildDelete { guild_id: Id<GuildMarker> },
    ChannelDelete { guild_id: Option<Id<GuildMarker>>, channel_id: Id<ChannelMarker> },
    MessageDelete { guild_id: Option<Id<GuildMarker>>, channel_id: Id<ChannelMarker>, message_id: Id<MessageMarker> },
    MessageAck { channel_id: Id<ChannelMarker>, message_id: Id<MessageMarker>, mention_count: u32 },
    ChannelPinsUpdate {
        guild_id: Option<Id<GuildMarker>>,
        channel_id: Id<ChannelMarker>,
        last_pin_timestamp: Option<String>,
    },
    MessageReactionAdd {
        guild_id: Option<Id<GuildMarker>>,
        channel_id: Id<ChannelMarker>,
        message_id: Id<MessageMarker>,
        user_id: Id<UserMarker>,
        emoji: ReactionEmoji,
    },
    MessageReactionRemove {
        guild_id: Option<Id<GuildMarker>>,
        channel_id: Id<ChannelMarker>,
        message_id: Id<MessageMarker>,
        user_id: Id<UserMarker>,
        emoji: ReactionEmoji,
    },
    MessageReactionRemoveAll {
        guild_id: Option<Id<GuildMarker>>,
        channel_id: Id<ChannelMarker>,
        message_id: Id<MessageMarker>,
    },
    MessageReactionRemoveEmoji {
        guild_id: Option<Id<GuildMarker>>,
        channel_id: Id<ChannelMarker>,
        message_id: Id<MessageMarker>,
        emoji: ReactionEmoji,
    },
    GuildMemberAdd { guild_id: Id<GuildMarker>, member: MemberInfo },
    GuildMemberUpsert { guild_id: Id<GuildMarker>, member: MemberInfo },
    GuildMemberRemove { guild_id: Id<GuildMarker>, user_id: Id<UserMarker> },
    UserGuildNotificationSettingsUpdate { settings: GuildNotificationSettingsInfo },
    UserSettingsUpdate { settings: UserSettingsInfo },
    GuildUpdate(GuildUpdateInfo),
    ChannelUpsert(ChannelInfo),
    ThreadMembersUpdateDispatch { update: ThreadMembersUpdateInfo },
    MessageCreate { message: MessageInfo },
    MessageUpdateDispatch { update: MessageUpdateDispatchInfo },
    MessageDeleteBulk {
        guild_id: Option<Id<GuildMarker>>,
        channel_id: Id<ChannelMarker>,
        message_ids: Vec<Id<MessageMarker>>,
    },
}

/// One member that a THREAD_MEMBERS_UPDATE adds.
pub struct ThreadMemberUpdateInfo {
    pub user_id: Id<UserMarker>,
}

/// Who joined and who left one thread.
pub struct ThreadMembersUpdateInfo {
    pub guild_id: Option<Id<GuildMarker>>,
    pub channel_id: Id<ChannelMarker>,
    pub member_count: Option<u64>,
    pub added_members: Vec<ThreadMemberUpdateInfo>,
    pub added_user_ids: Vec<Id<UserMarker>>,
    pub removed_user_ids: Vec<Id<UserMarker>>,
}

// ---------------------------------------------------------------------------
// Users and members.

/// A USER_UPDATE needs the user's id and username.
pub open spec fn user_update_keep(data: JsonValue) -> bool {
    field_id(data, "id"@) is Some && field_str(data, "username"@) is Some
}

pub open spec fn user_update_read_from(e: GatewayEvent, data: JsonValue) -> bool {
    e matches GatewayEvent::UserIdentityUpdate { user_id, username, global_name, avatar_url, is_bot } && {
        &&& field_id(data, "id"@) == Some(user_id@)
        &&& field_str(data, "username"@) == Some(username@)
        &&& opt_string_view(global_name) == field_str(data, "global_name"@)
        &&& opt_string_view(avatar_url) == Some(user_avatar_url_spec(user_id@, data))
        &&& is_bot == (field_bool(data, "bot"@) == Some(true))
    }
}

pub fn parse_user_update(data: &JsonValue) -> (r: Option<GatewayEvent>)
    ensures
        r is Some <==> user_update_keep(*data),
        r matches Some(e) ==> user_update_read_from(e, *data),
{
    let user_id = match get_id::<UserMarker>(data, "id") {
        Some(id) => id,
        None => {
            return None;
        },
    };
    let username = match get_str(data, "username") {
        Some(u) => u.to_owned(),
        None => {
            return None;
        },
    };
    let global_name = match get_str(data, "global_name") {
        Some(g) => Some(g.to_owned()),
        None => None,
    };
    let is_bot = match get_bool(data, "bot") {
        Some(b) => b,
        None => false,
    };
    Some(
        GatewayEvent::UserIdentityUpdate {
            user_id,
            username,
            global_name,
            avatar_url: user_avatar_url(user_id, data),
            is_bot,
        },
    )
}

/// A member add or update needs the guild id and a member.
pub open spec fn member_event_keep(data: JsonValue) -> bool {
    field_id(data, "guild_id"@) is Some && member_user_id(data) is Some
}

pub open spec fn member_event_read_from(guild_id: Id<GuildMarker>, member: MemberInfo, data: JsonValue) -> bool {
    field_id(data, "guild_id"@) == Some(guild_id@) && member_read_from(member, data, Some(guild_id@))
}

pub open spec fn member_add_keep(data: JsonValue) -> bool {
    member_event_keep(data)
}

pub open spec fn member_add_read_from(e: GatewayEvent, data: JsonValue) -> bool {
    e matches GatewayEvent::GuildMemberAdd { guild_id, member } && member_event_read_from(
            guild_id,
            member,
            data,
        )
}

/// GUILD_MEMBER_ADD: a member who joined.
pub fn parse_member_add(data: &JsonValue) -> (r: Option<GatewayEvent>)
    ensures
        r is Some <==> member_add_keep(*data),
        r matches Some(e) ==> member_add_read_from(e, *data),
{
    let guild_id = match get_id::<GuildMarker>(data, "guild_id") {
        Some(id) => id,
        None => {
            return None;
        },
    };
    match parse_member_info(data, Some(guild_id)) {
        Some(member) => Some(GatewayEvent::GuildMemberAdd { guild_id, member }),
        None => None,
    }
}

pub open spec fn member_upsert_keep(data: JsonValue) -> bool {
    member_event_keep(data)
}

pub open spec fn member_upsert_read_from(e: GatewayEvent, data: JsonValue) -> bool {
    e matches GatewayEvent::GuildMemberUpsert { guild_id, member }
            && member_event_read_from(guild_id, member, data)
}

/// GUILD_MEMBER_UPDATE: a member's current data.
pub fn parse_member_upsert(data: &JsonValue) -> (r: Option<GatewayEvent>)
    ensures
        r is Some <==> member_upsert_keep(*data),
        r matches Some(e) ==> member_upsert_read_from(e, *data),
{
    let guild_id = match get_id::<GuildMarker>(data, "guild_id") {
        Some(id) => id,
        None => {
            return None;
        },
    };
    match parse_member_info(data, Some(guild_id)) {
        Some(member) => Some(GatewayEvent::GuildMemberUpsert { guild_id, member }),
        None => None,
    }
}

/// The member removal's user id, under `user.id`.
pub open spec fn removed_user_id(data: JsonValue) -> Option<u64> {
    match jget(data, "user"@) {
        Some(u) => field_id(u, "id"@),
        None => None,
    }
}

pub open spec fn member_remove_keep(data: JsonValue) -> bool {
    (field_id(data, "guild_id"@) is Some && removed_user_id(data) is Some)
}

pub open spec fn member_remove_read_from(e: GatewayEvent, data: JsonValue) -> bool {
    e matches GatewayEvent::GuildMemberRemove { guild_id, user_id }
            && field_id(data, "guild_id"@) == Some(guild_id@) && removed_user_id(data) == Some(user_id@)
}

/// GUILD_MEMBER_REMOVE: needs the guild id and the user's id.
pub fn parse_member_remove(data: &JsonValue) -> (r: Option<GatewayEvent>)
    ensures
        r is Some <==> member_remove_keep(*data),
        r matches Some(e) ==> member_remove_read_from(e, *data),
{
    let guild_id = match get_id::<GuildMarker>(data, "guild_id") {
        Some(id) => id,
        None => {
            return None;
        },
    };
    let user = match data.get("user") {
        Some(u) => u,
        None => {
            return None;
        },
    };
    match get_id::<UserMarker>(user, "id") {
        Some(user_id) => Some(GatewayEvent::GuildMemberRemove { guild_id, user_id }),
        None => None,
    }
}

// ---------------------------------------------------------------------------
// Guilds.

pub open spec fn guild_emojis_update_keep(data: JsonValue) -> bool {
    field_id(data, "guild_id"@) is Some
}

pub open spec fn guild_emojis_update_read_from(e: GatewayEvent, data: JsonValue) -> bool {
    e matches GatewayEvent::GuildEmojisUpdate { guild_id, emojis } && {
            let kept = kept_items(array_items(jget(data, "emojis"@)), |x: JsonValue| custom_emoji_keep(x));
            &&& field_id(data, "guild_id"@) == Some(guild_id@)
            &&& emojis@.len() == kept.len()
            &&& forall|i: int| 0 <= i < emojis@.len() ==> custom_emoji_read_from(#[trigger] emojis@[i], kept[i])
        }
}

/// GUILD_EMOJIS_UPDATE: the guild's whole list of custom emojis.
pub fn parse_guild_emojis_update(data: &JsonValue) -> (r: Option<GatewayEvent>)
    ensures
        r is Some <==> guild_emojis_update_keep(*data),
        r matches Some(e) ==> guild_emojis_update_read_from(e, *data),
{
    let guild_id = match get_id::<GuildMarker>(data, "guild_id") {
        Some(id) => id,
        None => {
            return None;
        },
    };
    let emojis = parse_custom_emojis(data.get("emojis"));
    Some(GatewayEvent::GuildEmojisUpdate { guild_id, emojis })
}

/// The `role` of a role dispatch, when it reads as one.
pub open spec fn payload_role_keep(data: JsonValue) -> bool {
    jget(data, "role"@) matches Some(x) && role_keep(x)
}

pub open spec fn payload_role_read_from(role: RoleInfo, data: JsonValue) -> bool {
    jget(data, "role"@) matches Some(x) && role_read_from(role, x)
}

pub open spec fn guild_role_upsert_keep(data: JsonValue) -> bool {
    (field_id(data, "guild_id"@) is Some && payload_role_keep(data))
}

pub open spec fn guild_role_upsert_read_from(e: GatewayEvent, data: JsonValue) -> bool {
    e matches GatewayEvent::GuildRoleUpsert { guild_id, role }
            && field_id(data, "guild_id"@) == Some(guild_id@) && payload_role_read_from(role, data)
}

/// GUILD_ROLE_CREATE or GUILD_ROLE_UPDATE: needs the guild id and a role.
pub fn parse_guild_role_upsert(data: &JsonValue) -> (r: Option<GatewayEvent>)
    ensures
        r is Some <==> guild_role_upsert_keep(*data),
        r matches Some(e) ==> guild_role_upsert_read_from(e, *data),
{
    let guild_id = match get_id::<GuildMarker>(data, "guild_id") {
        Some(id) => id,
        None => {
            return None;
        },
    };
    let raw = match data.get("role") {
        Some(x) => x,
        None => {
            return None;
        },
    };
    match parse_role_info(raw) {
        Some(role) => Some(GatewayEvent::GuildRoleUpsert { guild_id, role }),
        None => None,
    }
}

pub open spec fn guild_role_delete_keep(data: JsonValue) -> bool {
    (field_id(data, "guild_id"@) is Some && field_id(data, "role_id"@) is Some)
}

pub open spec fn guild_role_delete_read_from(e: GatewayEvent, data: JsonValue) -> bool {
    e matches GatewayEvent::GuildRoleDelete { guild_id, role_id }
            && field_id(data, "guild_id"@) == Some(guild_id@) && field_id(data, "role_id"@) == Some(role_id@)
}

/// GUILD_ROLE_DELETE: needs the guild and the role ids.
pub fn parse_guild_role_delete(data: &JsonValue) -> (r: Option<GatewayEvent>)
    ensures
        r is Some <==> guild_role_delete_keep(*data),
        r matches Some(e) ==> guild_role_delete_read_from(e, *data),
{
    let guild_id = match get_id::<GuildMarker>(data, "guild_id") {
        Some(id) => id,
        None => {
            return None;
        },
    };
    match get_id::<RoleMarker>(data, "role_id") {
        Some(role_id) => Some(GatewayEvent::GuildRoleDelete { guild_id, role_id }),
        None => None,
    }
}

pub open spec fn guild_delete_keep(data: JsonValue) -> bool {
    field_id(data, "id"@) is Some
}

pub open spec fn guild_delete_read_from(e: GatewayEvent, data: JsonValue) -> bool {
    e matches GatewayEvent::GuildDelete { guild_id } && field_id(data, "id"@) == Some(
            guild_id@,
        )
}

/// GUILD_DELETE: needs the guild id.
pub fn parse_guild_delete(data: &JsonValue) -> (r: Option<GatewayEvent>)
    ensures
        r is Some <==> guild_delete_keep(*data),
        r matches Some(e) ==> guild_delete_read_from(e, *data),
{
    match get_id::<GuildMarker>(data, "id") {
        Some(guild_id) => Some(GatewayEvent::GuildDelete { guild_id }),
        None => None,
    }
}

// ---------------------------------------------------------------------------
// Channels and messages.

pub open spec fn channel_delete_keep(data: JsonValue) -> bool {
    field_id(data, "id"@) is Some
}

pub open spec fn channel_delete_read_from(e: GatewayEvent, data: JsonValue) -> bool {
    e matches GatewayEvent::ChannelDelete { guild_id, channel_id }
            && field_id(data, "id"@) == Some(channel_id@) && opt_id_view(guild_id) == field_id(
            data,
            "guild_id"@,
        )
}

/// CHANNEL_DELETE or THREAD_DELETE: needs the channel id.
pub fn parse_channel_delete(data: &JsonValue) -> (r: Option<GatewayEvent>)
    ensures
        r is Some <==> channel_delete_keep(*data),
        r matches Some(e) ==> channel_delete_read_from(e, *data),
{
    let channel_id = match get_id::<ChannelMarker>(data, "id") {
        Some(id) => id,
        None => {
            return None;
        },
    };
    let guild_id = get_id::<GuildMarker>(data, "guild_id");
    Some(GatewayEvent::ChannelDelete { guild_id, channel_id })
}

pub open spec fn message_delete_keep(data: JsonValue) -> bool {
    (field_id(data, "channel_id"@) is Some && field_id(data, "id"@) is Some)
}

pub open spec fn message_delete_read_from(e: GatewayEvent, data: JsonValue) -> bool {
    e matches GatewayEvent::MessageDelete { guild_id, channel_id, message_id }
            && field_id(data, "channel_id"@) == Some(channel_id@) && field_id(data, "id"@) == Some(message_id@)
            && opt_id_view(guild_id) == field_id(data, "guild_id"@)
}

/// MESSAGE_DELETE: needs the channel and the message ids.
pub fn parse_message_delete(data: &JsonValue) -> (r: Option<GatewayEvent>)
    ensures
        r is Some <==> message_delete_keep(*data),
        r matches Some(e) ==> message_delete_read_from(e, *data),
{
    let channel_id = match get_id::<ChannelMarker>(data, "channel_id") {
        Some(id) => id,
        None => {
            return None;
        },
    };
    let message_id = match get_id::<MessageMarker>(data, "id") {
        Some(id) => id,
        None => {
            return None;
        },
    };
    let guild_id = get_id::<GuildMarker>(data, "guild_id");
    Some(GatewayEvent::MessageDelete { guild_id, channel_id, message_id })
}

/// The mention count of an acknowledgement: zero when absent, cut to its
/// low 32 bits.
pub open spec fn ack_mention_count(data: JsonValue) -> u32 {
    match field_u64(data, "mention_count"@) {
        Some(n) => n as u32,
        None => 0,
    }
}

pub open spec fn message_ack_keep(data: JsonValue) -> bool {
    (field_id(data, "channel_id"@) is Some && field_id(data, "message_id"@) is Some)
}

pub open spec fn message_ack_read_from(e: GatewayEvent, data: JsonValue) -> bool {
    e matches GatewayEvent::MessageAck { channel_id, message_id, mention_count }
            && field_id(data, "channel_id"@) == Some(channel_id@) && field_id(data, "message_id"@) == Some(
            message_id@,
        ) && mention_count == ack_mention_count(data)
}

/// MESSAGE_ACK: needs the channel and the message ids.
pub fn parse_message_ack(data: &JsonValue) -> (r: Option<GatewayEvent>)
    ensures
        r is Some <==> message_ack_keep(*data),
        r matches Some(e) ==> message_ack_read_from(e, *data),
{
    let channel_id = match get_id::<ChannelMarker>(data, "channel_id") {
        Some(id) => id,
        None => {
            return None;
        },
    };
    let message_id = match get_id::<MessageMarker>(data, "message_id") {
        Some(id) => id,
        None => {
            return None;
        },
    };
    let count: u64 = match get_u64(data, "mention_count") {
        Some(n) => n,
        None => 0,
    };
    let mention_count = count as u32;
    Some(GatewayEvent::MessageAck { channel_id, message_id, mention_count })
}

pub open spec fn channel_pins_update_keep(data: JsonValue) -> bool {
    field_id(data, "channel_id"@) is Some
}

pub open spec fn channel_pins_update_read_from(e: GatewayEvent, data: JsonValue) -> bool {
    e matches GatewayEvent::ChannelPinsUpdate { guild_id, channel_id, last_pin_timestamp }
            && field_id(data, "channel_id"@) == Some(channel_id@) && opt_id_view(guild_id) == field_id(
            data,
            "guild_id"@,
        ) && opt_string_view(last_pin_timestamp) == field_str(data, "last_pin_timestamp"@)
}

/// CHANNEL_PINS_UPDATE: needs the channel id.
pub fn parse_channel_pins_update(data: &JsonValue) -> (r: Option<GatewayEvent>)
    ensures
        r is Some <==> channel_pins_update_keep(*data),
        r matches Some(e) ==> channel_pins_update_read_from(e, *data),
{
    let guild_id = get_id::<GuildMarker>(data, "guild_id");
    let channel_id = match get_id::<ChannelMarker>(data, "channel_id") {
        Some(id) => id,
        None => {
            return None;
        },
    };
    let last_pin_timestamp = match get_str(data, "last_pin_timestamp") {
        Some(t) => Some(t.to_owned()),
        None => None,
    };
    Some(GatewayEvent::ChannelPinsUpdate { guild_id, channel_id, last_pin_timestamp })
}

/// The emoji of a reaction dispatch, when it reads as one.
pub open spec fn dispatch_emoji_keep(data: JsonValue) -> bool {
    jget(data, "emoji"@) matches Some(x) && reaction_emoji_keep(x)
}

pub open spec fn dispatch_emoji_read_from(emoji: ReactionEmoji, data: JsonValue) -> bool {
    jget(data, "emoji"@) matches Some(x) && reaction_emoji_read_from(emoji, x)
}

/// The ids a reaction dispatch needs: channel, message and user.
pub open spec fn reaction_ids_keep(data: JsonValue) -> bool {
    &&& field_id(data, "channel_id"@) is Some
    &&& field_id(data, "message_id"@) is Some
    &&& field_id(data, "user_id"@) is Some
}

pub open spec fn message_reaction_add_keep(data: JsonValue) -> bool {
    (reaction_ids_keep(data) && dispatch_emoji_keep(data))
}

pub open spec fn message_reaction_add_read_from(e: GatewayEvent, data: JsonValue) -> bool {
    e matches GatewayEvent::MessageReactionAdd {
            guild_id,
            channel_id,
            message_id,
            user_id,
            emoji,
        } && {
            &&& opt_id_view(guild_id) == field_id(data, "guild_id"@)
            &&& field_id(data, "channel_id"@) == Some(channel_id@)
            &&& field_id(data, "message_id"@) == Some(message_id@)
            &&& field_id(data, "user_id"@) == Some(user_id@)
            &&& dispatch_emoji_read_from(emoji, data)
        }
}

/// MESSAGE_REACTION_ADD: one user's reaction.
pub fn parse_message_reaction_add(data: &JsonValue) -> (r: Option<GatewayEvent>)
    ensures
        r is Some <==> message_reaction_add_keep(*data),
        r matches Some(e) ==> message_reaction_add_read_from(e, *data),
{
    let guild_id = get_id::<GuildMarker>(data, "guild_id");
    let channel_id = match get_id::<ChannelMarker>(data, "channel_id") {
        Some(id) => id,
        None => {
            return None;
        },
    };
    let message_id = match get_id::<MessageMarker>(data, "message_id") {
        Some(id) => id,
        None => {
            return None;
        },
    };
    let user_id = match get_id::<UserMarker>(data, "user_id") {
        Some(id) => id,
        None => {
            return None;
        },
    };
    let raw = match data.get("emoji") {
        Some(x) => x,
        None => {
            return None;
        },
    };
    match parse_reaction_emoji(raw) {
        Some(emoji) => Some(GatewayEvent::MessageReactionAdd { guild_id, channel_id, message_id, user_id, emoji }),
        None => None,
    }
}

pub open spec fn message_reaction_remove_keep(data: JsonValue) -> bool {
    (reaction_ids_keep(data) && dispatch_emoji_keep(data))
}

pub open spec fn message_reaction_remove_read_from(e: GatewayEvent, data: JsonValue) -> bool {
    e matches GatewayEvent::MessageReactionRemove {
            guild_id,
            channel_id,
            message_id,
            user_id,
            emoji,
        } && {
            &&& opt_id_view(guild_id) == field_id(data, "guild_id"@)
            &&& field_id(data, "channel_id"@) == Some(channel_id@)
            &&& field_id(data, "message_id"@) == Some(message_id@)
            &&& field_id(data, "user_id"@) == Some(user_id@)
            &&& dispatch_emoji_read_from(emoji, data)
        }
}

/// MESSAGE_REACTION_REMOVE: one user's reaction taken back.
pub fn parse_message_reaction_remove(data: &JsonValue) -> (r: Option<GatewayEvent>)
    ensures
        r is Some <==> message_reaction_remove_keep(*data),
        r matches Some(e) ==> message_reaction_remove_read_from(e, *data),
{
    let guild_id = get_id::<GuildMarker>(data, "guild_id");
    let channel_id = match get_id::<ChannelMarker>(data, "channel_id") {
        Some(id) => id,
        None => {
            return None;
        },
    };
    let message_id = match get_id::<MessageMarker>(data, "message_id") {
        Some(id) => id,
        None => {
            return None;
        },
    };
    let user_id = match get_id::<UserMarker>(data, "user_id") {
        Some(id) => id,
        None => {
            return None;
        },
    };
    let raw = match data.get("emoji") {
        Some(x) => x,
        None => {
            return None;
        },
    };
    match parse_reaction_emoji(raw) {
        Some(emoji) => Some(GatewayEvent::MessageReactionRemove { guild_id, channel_id, message_id, user_id, emoji }),
        None => None,
    }
}

pub open spec fn message_reaction_remove_all_keep(data: JsonValue) -> bool {
    (field_id(data, "channel_id"@) is Some && field_id(data, "message_id"@) is Some)
}

pub open spec fn message_reaction_remove_all_read_from(e: GatewayEvent, data: JsonValue) -> bool {
    e matches GatewayEvent::MessageReactionRemoveAll { guild_id, channel_id, message_id }
            && opt_id_view(guild_id) == field_id(data, "guild_id"@) && field_id(data, "channel_id"@) == Some(
            channel_id@,
        ) && field_id(data, "message_id"@) == Some(message_id@)
}

/// MESSAGE_REACTION_REMOVE_ALL: every reaction on a message cleared.
pub fn parse_message_reaction_remove_all(data: &JsonValue) -> (r: Option<GatewayEvent>)
    ensures
        r is Some <==> message_reaction_remove_all_keep(*data),
        r matches Some(e) ==> message_reaction_remove_all_read_from(e, *data),
{
    let guild_id = get_id::<GuildMarker>(data, "guild_id");
    let channel_id = match get_id::<ChannelMarker>(data, "channel_id") {
        Some(id) => id,
        None => {
            return None;
        },
    };
    let message_id = match get_id::<MessageMarker>(data, "message_id") {
        Some(id) => id,
        None => {
            return None;
        },
    };
    Some(GatewayEvent::MessageReactionRemoveAll { guild_id, channel_id, message_id })
}

pub open spec fn message_reaction_remove_emoji_keep(data: JsonValue) -> bool {
    (field_id(data, "channel_id"@) is Some && field_id(data, "message_id"@) is Some
            && dispatch_emoji_keep(data))
}

pub open spec fn message_reaction_remove_emoji_read_from(e: GatewayEvent, data: JsonValue) -> bool {
    e matches GatewayEvent::MessageReactionRemoveEmoji {
            guild_id,
            channel_id,
            message_id,
            emoji,
        } && {
            &&& opt_id_view(guild_id) == field_id(data, "guild_id"@)
            &&& field_id(data, "channel_id"@) == Some(channel_id@)
            &&& field_id(data, "message_id"@) == Some(message_id@)
            &&& dispatch_emoji_read_from(emoji, data)
        }
}

/// MESSAGE_REACTION_REMOVE_EMOJI: every reaction with one emoji cleared.
pub fn parse_message_reaction_remove_emoji(data: &JsonValue) -> (r: Option<GatewayEvent>)
    ensures
        r is Some <==> message_reaction_remove_emoji_keep(*data),
        r matches Some(e) ==> message_reaction_remove_emoji_read_from(e, *data),
{
    let guild_id = get_id::<GuildMarker>(data, "guild_id");
    let channel_id = match get_id::<ChannelMarker>(data, "channel_id") {
        Some(id) => id,
        None => {
            return None;
        },
    };
    let message_id = match get_id::<MessageMarker>(data, "message_id") {
        Some(id) => id,
        None => {
            return None;
        },
    };
    let raw = match data.get("emoji") {
        Some(x) => x,
        None => {
            return None;
        },
    };
    match parse_reaction_emoji(raw) {
        Some(emoji) => Some(GatewayEvent::MessageReactionRemoveEmoji { guild_id, channel_id, message_id, emoji }),
        None => None,
    }
}

// ---------------------------------------------------------------------------
// Notification settings.

/// The guild of a settings entry: none for the direct-message settings
/// (`null`, `"@me"` or no field); a value that is not a snowflake makes the
/// entry unreadable.
pub open spec fn settings_guild_id(v: JsonValue) -> Option<Option<u64>> {
    match jget(v, "guild_id"@) {
        None => Some(None),
        Some(JsonValue::Null) => Some(None),
        Some(x) => if jstr(x) == Some("@me"@) {
            Some(None)
        } else {
            match parse_id_spec(x) {
                Some(g) => Some(Some(g)),
                None => None,
            }
        },
    }
}

/// A notification level code under `key`; unknown codes count as none.
pub open spec fn level_field(v: JsonValue, key: Seq<char>) -> Option<NotificationLevel> {
    match field_u64(v, key) {
        Some(n) => notification_level_spec(n),
        None => None,
    }
}

/// When a mute ends: `mute_config.end_time`, unless empty.
pub open spec fn mute_end_time_spec(v: JsonValue) -> Option<Seq<char>> {
    match jget(v, "mute_config"@) {
        Some(c) => match field_str(c, "end_time"@) {
            Some(t) => if t.len() > 0 {
                Some(t)
            } else {
                None
            },
            None => None,
        },
        None => None,
    }
}

/// `o` holds the level, mute flag and mute end of the override payload `v`.
pub open spec fn override_fields_read_from(o: ChannelNotificationOverrideInfo, v: JsonValue) -> bool {
    &&& o.message_notifications == level_field(v, "message_notifications"@)
    &&& o.muted == (field_bool(v, "muted"@) == Some(true))
    &&& opt_string_view(o.mute_end_time) == mute_end_time_spec(v)
}

/// A channel override keyed by its channel id, as an object member's key.
pub open spec fn key_channel_id(key: Seq<char>) -> Option<u64> {
    match parse_unsigned_spec(key, u64::MAX as nat) {
        Some(n) => if n != 0 {
            Some(n as u64)
        } else {
            None
        },
        None => None,
    }
}

pub open spec fn listed_override_keep(x: JsonValue) -> bool {
    field_id(x, "channel_id"@) is Some
}

pub open spec fn listed_override_read_from(o: ChannelNotificationOverrideInfo, x: JsonValue) -> bool {
    field_id(x, "channel_id"@) == Some(o.channel_id@) && override_fields_read_from(o, x)
}

pub open spec fn keyed_override_pick(m: (String, JsonValue)) -> Option<(String, JsonValue)> {
    if key_channel_id(m.0@) is Some {
        Some(m)
    } else {
        None
    }
}

pub open spec fn keyed_override_read_from(o: ChannelNotificationOverrideInfo, m: (String, JsonValue)) -> bool {
    key_channel_id(m.0@) == Some(o.channel_id@) && override_fields_read_from(o, m.1)
}

/// The overrides of a settings entry that read: from a list, those with a
/// channel id; from an object keyed by channel id, those whose key is one.
pub open spec fn overrides_read_from(r: Seq<ChannelNotificationOverrideInfo>, v: JsonValue) -> bool {
    match jget(v, "channel_overrides"@) {
        Some(JsonValue::Array(items)) => {
            let kept = kept_items(items@, |x: JsonValue| listed_override_keep(x));
            &&& r.len() == kept.len()
            &&& forall|i: int| 0 <= i < r.len() ==> listed_override_read_from(#[trigger] r[i], kept[i])
        },
        Some(JsonValue::Object(members)) => {
            let kept = seq_filter_map(members@, |m: (String, JsonValue)| keyed_override_pick(m));
            &&& r.len() == kept.len()
            &&& forall|i: int| 0 <= i < r.len() ==> keyed_override_read_from(#[trigger] r[i], kept[i])
        },
        _ => r.len() == 0,
    }
}

/// `s` holds what the settings entry `v` says.
pub open spec fn notification_settings_read_from(s: GuildNotificationSettingsInfo, v: JsonValue) -> bool {
    &&& settings_guild_id(v) == Some(opt_id_view(s.guild_id))
    &&& s.message_notifications == level_field(v, "message_notifications"@)
    &&& s.muted == (field_bool(v, "muted"@) == Some(true))
    &&& opt_string_view(s.mute_end_time) == mute_end_time_spec(v)
    &&& s.suppress_everyone == (field_bool(v, "suppress_everyone"@) == Some(true))
    &&& s.suppress_roles == (field_bool(v, "suppress_roles"@) == Some(true))
    &&& overrides_read_from(s.channel_overrides@, v)
}

fn level_of(v: &JsonValue, key: &str) -> (r: Option<NotificationLevel>)
    ensures
        r == level_field(*v, key@),
{
    match get_u64(v, key) {
        Some(n) => NotificationLevel::from_code(n),
        None => None,
    }
}

fn mute_end_time(v: &JsonValue) -> (r: Option<String>)
    ensures
        opt_string_view(r) == mute_end_time_spec(*v),
{
    match v.get("mute_config") {
        Some(c) => match get_str(c, "end_time") {
            Some(t) => if t.unicode_len() > 0 {
                Some(t.to_owned())
            } else {
                None
            },
            None => None,
        },
        None => None,
    }
}

fn flag(v: &JsonValue, key: &str) -> (r: bool)
    ensures
        r == (field_bool(*v, key@) == Some(true)),
{
    match get_bool(v, key) {
        Some(b) => b,
        None => false,
    }
}

/// One override of a list, which names its channel.
fn parse_channel_notification_override(v: &JsonValue) -> (r: Option<ChannelNotificationOverrideInfo>)
    ensures
        r is Some <==> field_id(*v, "channel_id"@) is Some,
        r matches Some(o) ==> field_id(*v, "channel_id"@) == Some(o.channel_id@) && override_fields_read_from(o, *v),
{
    match get_id::<ChannelMarker>(v, "channel_id") {
        Some(channel_id) => Some(
            ChannelNotificationOverrideInfo {
                channel_id,
                message_notifications: level_of(v, "message_notifications"),
                muted: flag(v, "muted"),
                mute_end_time: mute_end_time(v),
            },
        ),
        None => None,
    }
}

/// One override of an object, keyed by its channel id.
fn parse_channel_notification_override_with_key(channel_id: &str, v: &JsonValue) -> (r: Option<
    ChannelNotificationOverrideInfo,
>)
    ensures
        r is Some <==> key_channel_id(channel_id@) is Some,
        r matches Some(o) ==> key_channel_id(channel_id@) == Some(o.channel_id@) && override_fields_read_from(o, *v),
{
    let id = match parse_u64(channel_id) {
        Some(n) => match Id::<ChannelMarker>::new_checked(n) {
            Some(id) => id,
            None => {
                return None;
            },
        },
        None => {
            return None;
        },
    };
    Some(
        ChannelNotificationOverrideInfo {
            channel_id: id,
            message_notifications: level_of(v, "message_notifications"),
            muted: flag(v, "muted"),
            mute_end_time: mute_end_time(v),
        },
    )
}

/// The channel overrides of a settings entry, as a list or as an object
/// keyed by channel id.
fn parse_channel_notification_overrides(v: &JsonValue) -> (r: Vec<ChannelNotificationOverrideInfo>)
    ensures
        overrides_read_from(r@, *v),
{
    match v.get("channel_overrides") {
        Some(JsonValue::Array(items)) => {
            let r = parse_list(
                v.get("channel_overrides"),
                parse_channel_notification_override,
                Ghost(|x: JsonValue| listed_override_keep(x)),
                Ghost(|o: ChannelNotificationOverrideInfo, x: JsonValue| listed_override_read_from(o, x)),
            );
            r
        },
        Some(JsonValue::Object(members)) => {
            let ghost f = |m: (String, JsonValue)| keyed_override_pick(m);
            let mut out: Vec<ChannelNotificationOverrideInfo> = Vec::new();
            let n = members.len();
            let mut i: usize = 0;
            proof {
                assert(members@.subrange(0, 0) =~= Seq::<(String, JsonValue)>::empty());
            }
            while i < n
                invariant
                    n == members@.len(),
                    i <= n,
                    f == (|m: (String, JsonValue)| keyed_override_pick(m)),
                    out@.len() == seq_filter_map(members@.subrange(0, i as int), f).len(),
                    forall|k: int|
                        0 <= k < out@.len() ==> keyed_override_read_from(
                            #[trigger] out@[k],
                            seq_filter_map(members@.subrange(0, i as int), f)[k],
                        ),
                decreases n - i,
            {
                proof {
                    lemma_filter_map_step(members@, i as int, f);
                }
                match parse_channel_notification_override_with_key(members[i].0.as_str(), &members[i].1) {
                    Some(o) => {
                        out.push(o);
                    },
                    None => {},
                }
                i = i + 1;
            }
            proof {
                assert(members@.subrange(0, n as int) =~= members@);
            }
            out
        },
        _ => Vec::new(),
    }
}

/// A settings entry that reads: its guild field is absent, `null`, `"@me"`
/// or a snowflake.
pub open spec fn notification_settings_keep(v: JsonValue) -> bool {
    settings_guild_id(v) is Some
}

/// Reads one entry of the user's per-guild notification settings.
pub fn parse_user_guild_notification_settings(v: &JsonValue) -> (r: Option<GuildNotificationSettingsInfo>)
    ensures
        r is Some <==> notification_settings_keep(*v),
        r matches Some(s) ==> notification_settings_read_from(s, *v),
{
    let guild_id = match v.get("guild_id") {
        None => None,
        Some(x) => {
            if x.is_null() {
                None
            } else {
                let is_me = match x.as_str() {
                    Some(t) => crate::text::str_eq(t, "@me"),
                    None => false,
                };
                proof {
                    reveal_strlit("@me");
                }
                if is_me {
                    None
                } else {
                    match crate::parse_common::parse_id::<GuildMarker>(x) {
                        Some(g) => Some(g),
                        None => {
                            return None;
                        },
                    }
                }
            }
        },
    };
    Some(
        GuildNotificationSettingsInfo {
            guild_id,
            message_notifications: level_of(v, "message_notifications"),
            muted: flag(v, "muted"),
            mute_end_time: mute_end_time(v),
            suppress_everyone: flag(v, "suppress_everyone"),
            suppress_roles: flag(v, "suppress_roles"),
            channel_overrides: parse_channel_notification_overrides(v),
        },
    )
}

/// The settings entries of a list, or of the list under `entries`.
pub open spec fn settings_entries(v: Option<JsonValue>) -> Option<Seq<JsonValue>> {
    match v {
        Some(node) => {
            let list = match jget(node, "entries"@) {
                Some(e) => e,
                None => node,
            };
            jarray(list)
        },
        None => None,
    }
}

/// Reads a list of notification settings entries (bare or under
/// `entries`), keeping those that read; nothing when no entry does.
pub fn parse_user_guild_settings_entries(v: Option<&JsonValue>) -> (r: Option<Vec<GuildNotificationSettingsInfo>>)
    ensures
        match settings_entries(deref_opt(v)) {
            Some(items) => {
                let kept = kept_items(items, |x: JsonValue| notification_settings_keep(x));
                if kept.len() == 0 {
                    r is None
                } else {
                    r matches Some(list) && list@.len() == kept.len() && forall|i: int|
                        0 <= i < list@.len() ==> notification_settings_read_from(#[trigger] list@[i], kept[i])
                }
            },
            None => r is None,
        },
{
    let node = match v {
        Some(node) => node,
        None => {
            return None;
        },
    };
    let list = match node.get("entries") {
        Some(e) => e,
        None => node,
    };
    if list.as_array().is_none() {
        return None;
    }
    let settings = parse_list(
        Some(list),
        parse_user_guild_notification_settings,
        Ghost(|x: JsonValue| notification_settings_keep(x)),
        Ghost(|s: GuildNotificationSettingsInfo, x: JsonValue| notification_settings_read_from(s, x)),
    );
    if settings.len() == 0 {
        None
    } else {
        Some(settings)
    }
}

/// USER_GUILD_SETTINGS_UPDATE: one entry of the notification settings.
pub open spec fn user_guild_settings_update_read_from(e: GatewayEvent, data: JsonValue) -> bool {
    e matches GatewayEvent::UserGuildNotificationSettingsUpdate { settings } && notification_settings_read_from(settings, data)
}

pub fn parse_user_guild_settings_update(data: &JsonValue) -> (r: Option<GatewayEvent>)
    ensures
        r is Some <==> notification_settings_keep(*data),
        r matches Some(e) ==> user_guild_settings_update_read_from(e, *data),
{
    match parse_user_guild_notification_settings(data) {
        Some(settings) => Some(GatewayEvent::UserGuildNotificationSettingsUpdate { settings }),
        None => None,
    }
}

// ---------------------------------------------------------------------------
// Threads.

pub open spec fn thread_member_keep(x: JsonValue) -> bool {
    field_id(x, "user_id"@) is Some
}

pub open spec fn thread_member_read_from(m: ThreadMemberUpdateInfo, x: JsonValue) -> bool {
    field_id(x, "user_id"@) == Some(m.user_id@)
}

fn parse_thread_member_update_info(v: &JsonValue) -> (r: Option<ThreadMemberUpdateInfo>)
    ensures
        r is Some <==> thread_member_keep(*v),
        r matches Some(m) ==> thread_member_read_from(m, *v),
{
    match get_id::<UserMarker>(v, "user_id") {
        Some(user_id) => Some(ThreadMemberUpdateInfo { user_id }),
        None => None,
    }
}

/// `u` holds what the THREAD_MEMBERS_UPDATE payload `data` says.
pub open spec fn thread_members_update_read_from(u: ThreadMembersUpdateInfo, data: JsonValue) -> bool {
    let added = kept_items(array_items(jget(data, "added_members"@)), |x: JsonValue| thread_member_keep(x));
    &&& field_id(data, "id"@) == Some(u.channel_id@)
    &&& opt_id_view(u.guild_id) == field_id(data, "guild_id"@)
    &&& u.member_count == field_u64(data, "member_count"@)
    &&& u.added_members@.len() == added.len()
    &&& forall|i: int|
        0 <= i < u.added_members@.len() ==> thread_member_read_from(#[trigger] u.added_members@[i], added[i])
    &&& u.added_user_ids@.len() == u.added_members@.len()
    &&& forall|i: int| 0 <= i < u.added_user_ids@.len() ==> #[trigger] u.added_user_ids@[i] == u.added_members@[i].user_id
    &&& id_views(u.removed_user_ids@) == id_items(jget(data, "removed_member_ids"@))
}

pub open spec fn thread_members_update_read_from_event(e: GatewayEvent, data: JsonValue) -> bool {
    e matches GatewayEvent::ThreadMembersUpdateDispatch { update } && thread_members_update_read_from(update, data)
}

/// THREAD_MEMBERS_UPDATE: needs the thread's id.
pub fn parse_thread_members_update(data: &JsonValue) -> (r: Option<GatewayEvent>)
    ensures
        r is Some <==> field_id(*data, "id"@) is Some,
        r matches Some(e) ==> thread_members_update_read_from_event(e, *data),
{
    let channel_id = match get_id::<ChannelMarker>(data, "id") {
        Some(id) => id,
        None => {
            return None;
        },
    };
    let added_members = parse_list(
        data.get("added_members"),
        parse_thread_member_update_info,
        Ghost(|x: JsonValue| thread_member_keep(x)),
        Ghost(|m: ThreadMemberUpdateInfo, x: JsonValue| thread_member_read_from(m, x)),
    );
    let mut added_user_ids: Vec<Id<UserMarker>> = Vec::new();
    let n = added_members.len();
    let mut i: usize = 0;
    while i < n
        invariant
            n == added_members@.len(),
            i <= n,
            added_user_ids@.len() == i,
            forall|j: int| 0 <= j < i ==> #[trigger] added_user_ids@[j] == added_members@[j].user_id,
        decreases n - i,
    {
        added_user_ids.push(added_members[i].user_id);
        i = i + 1;
    }
    let update = ThreadMembersUpdateInfo {
        guild_id: get_id::<GuildMarker>(data, "guild_id"),
        channel_id,
        member_count: get_u64(data, "member_count"),
        added_members,
        added_user_ids,
        removed_user_ids: parse_id_array::<UserMarker>(data.get("removed_member_ids")),
    };
    Some(GatewayEvent::ThreadMembersUpdateDispatch { update })
}

pub open spec fn thread_keep(x: JsonValue) -> bool {
    field_id(x, "id"@) is Some
}

/// The threads of a THREAD_LIST_SYNC that read, each taking the payload's
/// guild when it names none.
pub open spec fn thread_list_read_from(r: Seq<ChannelInfo>, data: JsonValue) -> bool {
    let kept = kept_items(array_items(jget(data, "threads"@)), |x: JsonValue| thread_keep(x));
    &&& r.len() == kept.len()
    &&& forall|i: int| 0 <= i < r.len() ==> channel_read_from(#[trigger] r[i], kept[i], field_id(data, "guild_id"@))
}

/// THREAD_LIST_SYNC: the threads of the synced channels.
pub fn parse_thread_list_sync(data: &JsonValue) -> (r: Vec<ChannelInfo>)
    ensures
        thread_list_read_from(r@, *data),
{
    let guild_id = get_id::<GuildMarker>(data, "guild_id");
    let ghost g = opt_id_view(guild_id);
    let read = |t: &JsonValue| -> (c: Option<ChannelInfo>)
        ensures
            c is Some <==> thread_keep(*t),
            c matches Some(ch) ==> channel_read_from(ch, *t, g),
        { parse_channel_info(t, guild_id) };
    parse_list(
        data.get("threads"),
        read,
        Ghost(|x: JsonValue| thread_keep(x)),
        Ghost(|c: ChannelInfo, x: JsonValue| channel_read_from(c, x, g)),
    )
}

// ---------------------------------------------------------------------------
// Wrapping the payload parsers of other modules.

pub open spec fn guild_update_event_read_from(e: GatewayEvent, data: JsonValue) -> bool {
    e matches GatewayEvent::GuildUpdate(u) && guild_update_read_from(u, data)
}

/// GUILD_UPDATE.
pub fn parse_guild_update_event(data: &JsonValue) -> (r: Option<GatewayEvent>)
    ensures
        r is Some <==> field_id(*data, "id"@) is Some,
        r matches Some(e) ==> guild_update_event_read_from(e, *data),
{
    match parse_guild_update(data) {
        Some(u) => Some(GatewayEvent::GuildUpdate(u)),
        None => None,
    }
}

pub open spec fn channel_upsert_read_from(e: GatewayEvent, data: JsonValue) -> bool {
    e matches GatewayEvent::ChannelUpsert(c) && channel_read_from(c, data, None)
}

/// CHANNEL_CREATE, CHANNEL_UPDATE, THREAD_CREATE or THREAD_UPDATE.
pub fn parse_channel_upsert(data: &JsonValue) -> (r: Option<GatewayEvent>)
    ensures
        r is Some <==> field_id(*data, "id"@) is Some,
        r matches Some(e) ==> channel_upsert_read_from(e, *data),
{
    match parse_channel_info(data, None) {
        Some(c) => Some(GatewayEvent::ChannelUpsert(c)),
        None => None,
    }
}

pub open spec fn message_create_read_from(e: GatewayEvent, data: JsonValue) -> bool {
    e matches GatewayEvent::MessageCreate { message } && message_read_from(message, data)
}

/// MESSAGE_CREATE.
pub fn parse_message_create(data: &JsonValue) -> (r: Option<GatewayEvent>)
    ensures
        r is Some <==> message_keep(*data),
        r matches Some(e) ==> message_create_read_from(e, *data),
{
    match parse_message_info(data) {
        Some(message) => Some(GatewayEvent::MessageCreate { message }),
        None => None,
    }
}

pub open spec fn message_update_event_read_from(e: GatewayEvent, data: JsonValue) -> bool {
    e matches GatewayEvent::MessageUpdateDispatch { update } && message_update_read_from(update, data)
}

/// MESSAGE_UPDATE.
pub fn parse_message_update_event(data: &JsonValue) -> (r: Option<GatewayEvent>)
    ensures
        r is Some <==> message_update_keep(*data),
        r matches Some(e) ==> message_update_event_read_from(e, *data),
{
    match parse_message_update(data) {
        Some(update) => Some(GatewayEvent::MessageUpdateDispatch { update }),
        None => None,
    }
}

pub open spec fn delete_bulk_event_read_from(e: GatewayEvent, data: JsonValue) -> bool {
    e matches GatewayEvent::MessageDeleteBulk { guild_id, channel_id, message_ids } && {
        &&& opt_id_view(guild_id) == field_id(data, "guild_id"@)
        &&& field_id(data, "channel_id"@) == Some(channel_id@)
        &&& id_views(message_ids@) == id_items(jget(data, "ids"@))
    }
}

/// MESSAGE_DELETE_BULK.
pub fn parse_message_delete_bulk_event(data: &JsonValue) -> (r: Option<GatewayEvent>)
    ensures
        r is Some <==> delete_bulk_keep(*data),
        r matches Some(e) ==> delete_bulk_event_read_from(e, *data),
{
    match parse_message_delete_bulk(data) {
        Some((guild_id, channel_id, message_ids)) => Some(
            GatewayEvent::MessageDeleteBulk { guild_id, channel_id, message_ids },
        ),
        None => None,
    }
}

pub open spec fn user_settings_update_read_from(e: GatewayEvent, data: JsonValue) -> bool {
    e matches GatewayEvent::UserSettingsUpdate { settings } && user_settings_read_from(settings, settings_payload(data))
}

/// USER_SETTINGS_UPDATE.
pub fn parse_user_settings_update_event(data: &JsonValue) -> (r: Option<GatewayEvent>)
    ensures
        r is Some <==> settings_payload(*data) is Object,
        r matches Some(e) ==> user_settings_update_read_from(e, *data),
{
    match parse_user_settings_update(data) {
        Some(settings) => Some(GatewayEvent::UserSettingsUpdate { settings }),
        None => None,
    }
}

/// The event that announces a message the client itself sent.
pub fn message_create_event(message: MessageInfo) -> (r: GatewayEvent)
    ensures
        r == (GatewayEvent::MessageCreate { message }),
{
    GatewayEvent::MessageCreate { message }
}

/// The update that replays a whole message the client itself edited: every
/// field the update may carry is set from the message, the attachment list
/// replaced.
pub fn message_update_event(message: MessageInfo) -> (r: GatewayEvent)
    ensures
        r matches GatewayEvent::MessageUpdateDispatch { update } && {
            &&& update.guild_id == message.guild_id
            &&& update.channel_id == message.channel_id
            &&& update.message_id == message.message_id
            &&& update.fields.poll == message.poll
            &&& update.fields.content == message.content
            &&& update.fields.sticker_names == Some(message.sticker_names)
            &&& update.fields.mentions == Some(message.mentions)
            &&& update.fields.mention_everyone == Some(message.mention_everyone)
            &&& update.fields.mention_roles == Some(message.mention_roles)
            &&& update.fields.flags == Some(message.flags)
            &&& update.fields.attachments == AttachmentUpdate::Replace(message.attachments)
            &&& update.fields.embeds == Some(message.embeds)
            &&& update.fields.edited_timestamp == message.edited_timestamp
        },
{
    GatewayEvent::MessageUpdateDispatch {
        update: MessageUpdateDispatchInfo {
            guild_id: message.guild_id,
            channel_id: message.channel_id,
            message_id: message.message_id,
            fields: MessageUpdateEventFields {
                poll: message.poll,
                content: message.content,
                sticker_names: Some(message.sticker_names),
                mentions: Some(message.mentions),
                mention_everyone: Some(message.mention_everyone),
                mention_roles: Some(message.mention_roles),
                flags: Some(message.flags),
                attachments: AttachmentUpdate::Replace(message.attachments),
                embeds: Some(message.embeds),
                edited_timestamp: message.edited_timestamp,
            },
        },
    }
}

// ---------------------------------------------------------------------------
// The dispatcher.

/// No event, or one standing in `read` to the payload when `keep` holds.
pub open spec fn at_most_one(r: Seq<GatewayEvent>, keep: bool, read: spec_fn(GatewayEvent) -> bool) -> bool {
    if keep {
        r.len() == 1 && read(r[0])
    } else {
        r.len() == 0
    }
}

/// One channel upsert per thread of a THREAD_LIST_SYNC that reads.
pub open spec fn thread_upserts_read_from(r: Seq<GatewayEvent>, data: JsonValue) -> bool {
    let kept = kept_items(array_items(jget(data, "threads"@)), |x: JsonValue| thread_keep(x));
    &&& r.len() == kept.len()
    &&& forall|i: int|
        0 <= i < r.len() ==> (#[trigger] r[i] matches GatewayEvent::ChannelUpsert(c) && channel_read_from(
            c,
            kept[i],
            field_id(data, "guild_id"@),
        ))
}

/// The events of a dispatch of type `t` with payload `d`. Dispatch types
/// that this library does not read give no event.
pub open spec fn dispatch_read_from(t: Seq<char>, d: JsonValue, r: Seq<GatewayEvent>) -> bool {
    if t == "USER_UPDATE"@ {
        at_most_one(r, user_update_keep(d), |e: GatewayEvent| user_update_read_from(e, d))
    } else if t == "GUILD_UPDATE"@ {
        at_most_one(r, field_id(d, "id"@) is Some, |e: GatewayEvent| guild_update_event_read_from(e, d))
    } else if t == "GUILD_EMOJIS_UPDATE"@ {
        at_most_one(r, guild_emojis_update_keep(d), |e: GatewayEvent| guild_emojis_update_read_from(e, d))
    } else if t == "GUILD_ROLE_CREATE"@ || t == "GUILD_ROLE_UPDATE"@ {
        at_most_one(r, guild_role_upsert_keep(d), |e: GatewayEvent| guild_role_upsert_read_from(e, d))
    } else if t == "GUILD_ROLE_DELETE"@ {
        at_most_one(r, guild_role_delete_keep(d), |e: GatewayEvent| guild_role_delete_read_from(e, d))
    } else if t == "GUILD_DELETE"@ {
        at_most_one(r, guild_delete_keep(d), |e: GatewayEvent| guild_delete_read_from(e, d))
    } else if t == "CHANNEL_CREATE"@ || t == "CHANNEL_UPDATE"@ || t == "THREAD_CREATE"@ || t == "THREAD_UPDATE"@ {
        at_most_one(r, field_id(d, "id"@) is Some, |e: GatewayEvent| channel_upsert_read_from(e, d))
    } else if t == "CHANNEL_DELETE"@ || t == "THREAD_DELETE"@ {
        at_most_one(r, channel_delete_keep(d), |e: GatewayEvent| channel_delete_read_from(e, d))
    } else if t == "THREAD_LIST_SYNC"@ {
        thread_upserts_read_from(r, d)
    } else if t == "THREAD_MEMBERS_UPDATE"@ {
        at_most_one(r, field_id(d, "id"@) is Some, |e: GatewayEvent| thread_members_update_read_from_event(e, d))
    } else if t == "MESSAGE_CREATE"@ {
        at_most_one(r, message_keep(d), |e: GatewayEvent| message_create_read_from(e, d))
    } else if t == "MESSAGE_UPDATE"@ {
        at_most_one(r, message_update_keep(d), |e: GatewayEvent| message_update_event_read_from(e, d))
    } else if t == "MESSAGE_DELETE"@ {
        at_most_one(r, message_delete_keep(d), |e: GatewayEvent| message_delete_read_from(e, d))
    } else if t == "MESSAGE_DELETE_BULK"@ {
        at_most_one(r, delete_bulk_keep(d), |e: GatewayEvent| delete_bulk_event_read_from(e, d))
    } else if t == "MESSAGE_REACTION_ADD"@ {
        at_most_one(r, message_reaction_add_keep(d), |e: GatewayEvent| message_reaction_add_read_from(e, d))
    } else if t == "MESSAGE_REACTION_REMOVE"@ {
        at_most_one(r, message_reaction_remove_keep(d), |e: GatewayEvent| message_reaction_remove_read_from(e, d))
    } else if t == "MESSAGE_REACTION_REMOVE_ALL"@ {
        at_most_one(
            r,
            message_reaction_remove_all_keep(d),
            |e: GatewayEvent| message_reaction_remove_all_read_from(e, d),
        )
    } else if t == "MESSAGE_REACTION_REMOVE_EMOJI"@ {
        at_most_one(
            r,
            message_reaction_remove_emoji_keep(d),
            |e: GatewayEvent| message_reaction_remove_emoji_read_from(e, d),
        )
    } else if t == "CHANNEL_PINS_UPDATE"@ {
        at_most_one(r, channel_pins_update_keep(d), |e: GatewayEvent| channel_pins_update_read_from(e, d))
    } else if t == "MESSAGE_ACK"@ {
        at_most_one(r, message_ack_keep(d), |e: GatewayEvent| message_ack_read_from(e, d))
    } else if t == "USER_GUILD_SETTINGS_UPDATE"@ {
        at_most_one(r, notification_settings_keep(d), |e: GatewayEvent| user_guild_settings_update_read_from(e, d))
    } else if t == "USER_SETTINGS_UPDATE"@ {
        at_most_one(r, settings_payload(d) is Object, |e: GatewayEvent| user_settings_update_read_from(e, d))
    } else if t == "GUILD_MEMBER_ADD"@ {
        at_most_one(r, member_add_keep(d), |e: GatewayEvent| member_add_read_from(e, d))
    } else if t == "GUILD_MEMBER_UPDATE"@ {
        at_most_one(r, member_upsert_keep(d), |e: GatewayEvent| member_upsert_read_from(e, d))
    } else if t == "GUILD_MEMBER_REMOVE"@ {
        at_most_one(r, member_remove_keep(d), |e: GatewayEvent| member_remove_read_from(e, d))
    } else {
        r.len() == 0
    }
}

fn one_or_none(e: Option<GatewayEvent>) -> (r: Vec<GatewayEvent>)
    ensures
        match e {
            Some(x) => r@ == seq![x],
            None => r@.len() == 0,
        },
{
    let mut out: Vec<GatewayEvent> = Vec::new();
    match e {
        Some(x) => {
            out.push(x);
            proof {
                assert(out@ =~= seq![x]);
            }
        },
        None => {},
    }
    out
}

/// The events that a dispatch of type `event_type` with payload `data`
/// carries.
pub fn parse_dispatch(event_type: &str, data: &JsonValue) -> (r: Vec<GatewayEvent>)
    ensures
        dispatch_read_from(event_type@, *data, r@),
{
    let t = event_type;
    if str_eq(t, "USER_UPDATE") {
        one_or_none(parse_user_update(data))
    } else if str_eq(t, "GUILD_UPDATE") {
        one_or_none(parse_guild_update_event(data))
    } else if str_eq(t, "GUILD_EMOJIS_UPDATE") {
        one_or_none(parse_guild_emojis_update(data))
    } else if str_eq(t, "GUILD_ROLE_CREATE") || str_eq(t, "GUILD_ROLE_UPDATE") {
        one_or_none(parse_guild_role_upsert(data))
    } else if str_eq(t, "GUILD_ROLE_DELETE") {
        one_or_none(parse_guild_role_delete(data))
    } else if str_eq(t, "GUILD_DELETE") {
        one_or_none(parse_guild_delete(data))
    } else if str_eq(t, "CHANNEL_CREATE") || str_eq(t, "CHANNEL_UPDATE") || str_eq(t, "THREAD_CREATE") || str_eq(
        t,
        "THREAD_UPDATE",
    ) {
        one_or_none(parse_channel_upsert(data))
    } else if str_eq(t, "CHANNEL_DELETE") || str_eq(t, "THREAD_DELETE") {
        one_or_none(parse_channel_delete(data))
    } else if str_eq(t, "THREAD_LIST_SYNC") {
        let mut threads = parse_thread_list_sync(data);
        let ghost kept = kept_items(array_items(jget(*data, "threads"@)), |x: JsonValue| thread_keep(x));
        let ghost g = field_id(*data, "guild_id"@);
        let mut out: Vec<GatewayEvent> = Vec::new();
        let ghost all = threads@;
        let n = threads.len();
        let mut i: usize = 0;
        while i < n
            invariant
                n == all.len(),
                all.len() == kept.len(),
                forall|j: int| 0 <= j < all.len() ==> channel_read_from(#[trigger] all[j], kept[j], g),
                i <= n,
                threads@ == all.subrange(i as int, n as int),
                out@.len() == i,
                forall|j: int| 0 <= j < i ==> (#[trigger] out@[j] matches GatewayEvent::ChannelUpsert(c) && c == all[j]),
            decreases n - i,
        {
            let c = threads.remove(0);
            out.push(GatewayEvent::ChannelUpsert(c));
            i = i + 1;
            proof {
                assert(threads@ =~= all.subrange(i as int, n as int));
            }
        }
        out
    } else if str_eq(t, "THREAD_MEMBERS_UPDATE") {
        one_or_none(parse_thread_members_update(data))
    } else if str_eq(t, "MESSAGE_CREATE") {
        one_or_none(parse_message_create(data))
    } else if str_eq(t, "MESSAGE_UPDATE") {
        one_or_none(parse_message_update_event(data))
    } else if str_eq(t, "MESSAGE_DELETE") {
        one_or_none(parse_message_delete(data))
    } else if str_eq(t, "MESSAGE_DELETE_BULK") {
        one_or_none(parse_message_delete_bulk_event(data))
    } else if str_eq(t, "MESSAGE_REACTION_ADD") {
        one_or_none(parse_message_reaction_add(data))
    } else if str_eq(t, "MESSAGE_REACTION_REMOVE") {
        one_or_none(parse_message_reaction_remove(data))
    } else if str_eq(t, "MESSAGE_REACTION_REMOVE_ALL") {
        one_or_none(parse_message_reaction_remove_all(data))
    } else if str_eq(t, "MESSAGE_REACTION_REMOVE_EMOJI") {
        one_or_none(parse_message_reaction_remove_emoji(data))
    } else if str_eq(t, "CHANNEL_PINS_UPDATE") {
        one_or_none(parse_channel_pins_update(data))
    } else if str_eq(t, "MESSAGE_ACK") {
        one_or_none(parse_message_ack(data))
    } else if str_eq(t, "USER_GUILD_SETTINGS_UPDATE") {
        one_or_none(parse_user_guild_settings_update(data))
    } else if str_eq(t, "USER_SETTINGS_UPDATE") {
        one_or_none(parse_user_settings_update_event(data))
    } else if str_eq(t, "GUILD_MEMBER_ADD") {
        one_or_none(parse_member_add(data))
    } else if str_eq(t, "GUILD_MEMBER_UPDATE") {
        one_or_none(parse_member_upsert(data))
    } else if str_eq(t, "GUILD_MEMBER_REMOVE") {
        one_or_none(parse_member_remove(data))
    } else {
        Vec::new()
    }
}

/// The events of a raw gateway dispatch text: its `t` names the dispatch
/// type and its `d` holds the payload.
pub open spec fn account_event_read_from(raw: Seq<char>, r: Seq<GatewayEvent>) -> bool {
    match json_of(raw) {
        Some(v) => match (field_str(v, "t"@), jget(v, "d"@)) {
            (Some(t), Some(d)) => dispatch_read_from(t, d, r),
            _ => r.len() == 0,
        },
        None => r.len() == 0,
    }
}

/// Reads a raw gateway dispatch into the events it carries: none when the
/// text is not JSON, names no type or carries no payload.
pub fn parse_user_account_event(raw: &str) -> (r: Vec<GatewayEvent>)
    ensures
        account_event_read_from(raw@, r@),
{
    let value = match parse_json(raw) {
        Some(v) => v,
        None => {
            return Vec::new();
        },
    };
    let event_type = match get_str(&value, "t") {
        Some(t) => t,
        None => {
            return Vec::new();
        },
    };
    match value.get("d") {
        Some(data) => parse_dispatch(event_type, data),
        None => Vec::new(),
    }
}

} // verus!
