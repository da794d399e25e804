//! Reading guild payloads: roles, members, custom emojis and the user's
//! guild folders.
use vstd::prelude::*;

use crate::avatar::{member_avatar_url, member_avatar_url_spec};
use crate::capabilities::{boost_tier_spec, GuildBoostTier};
use crate::ids::{EmojiMarker, GuildMarker, Id, RoleMarker, UserMarker};
use crate::json::{
    deref_opt, field_bool, field_i64, field_str, field_u64, get_bool, get_i64, get_str, get_u64, jget, JsonValue,
};
use crate::member_state::{MemberInfo, RoleInfo};
use crate::message_info::{opt_str_view, opt_string_view};
use crate::parse_channel::{display_name_from_parts_or_unknown, display_name_or_unknown_spec};
use crate::parse_common::{
    array_items, field_id, id_items, id_views, kept_items, opt_id_view, parse_id, parse_id_array, parse_id_spec,
    parse_list,
};
use crate::state::{CustomEmojiInfo, GuildFolder};
use crate::text::{parse_u64, parse_unsigned_spec};

verus! {

/// A role's color: the primary of its `colors` when given, else `color`;
/// zero (no color) and values past 32 bits count as none.
pub open spec fn role_color_spec(v: JsonValue) -> Option<u32> {
    let raw = match jget(v, "colors"@) {
        Some(c) if field_u64(c, "primary_color"@) is Some => field_u64(c, "primary_color"@),
        _ => field_u64(v, "color"@),
    };
    match raw {
        Some(n) => if n <= u32::MAX && n != 0 {
            Some(n as u32)
        } else {
            None
        },
        None => None,
    }
}

/// A permission bitfield: a decimal string or a number, zero when absent.
pub open spec fn permissions_spec(v: JsonValue) -> u64 {
    match jget(v, "permissions"@) {
        Some(JsonValue::Str(s)) => match parse_unsigned_spec(s@, u64::MAX as nat) {
            Some(n) => n as u64,
            None => 0,
        },
        Some(x) => match crate::json::ju64(x) {
            Some(n) => n,
            None => 0,
        },
        None => 0,
    }
}

/// A role needs an id and a non-empty name.
pub open spec fn role_keep(v: JsonValue) -> bool {
    field_id(v, "id"@) is Some && (field_str(v, "name"@) matches Some(n) && n.len() > 0)
}

pub open spec fn role_read_from(r: RoleInfo, v: JsonValue) -> bool {
    &&& field_id(v, "id"@) == Some(r.id@)
    &&& field_str(v, "name"@) == Some(r.name@)
    &&& r.color == role_color_spec(v)
    &&& r.position == match field_i64(v, "position"@) {
        Some(p) => p,
        None => 0,
    }
    &&& r.hoist == (field_bool(v, "hoist"@) == Some(true))
    &&& r.permissions == permissions_spec(v)
}

pub fn parse_role_info(v: &JsonValue) -> (r: Option<RoleInfo>)
    ensures
        r is Some <==> role_keep(*v),
        match r {
            Some(role) => role_read_from(role, *v),
            None => true,
        },
{
    let id = match crate::parse_common::get_id::<RoleMarker>(v, "id") {
        Some(id) => id,
        None => {
            return None;
        },
    };
    let name = match get_str(v, "name") {
        Some(n) => if n.unicode_len() > 0 {
            n.to_owned()
        } else {
            return None;
        },
        None => {
            return None;
        },
    };
    let primary = match v.get("colors") {
        Some(c) => get_u64(c, "primary_color"),
        None => None,
    };
    let raw = match primary {
        Some(n) => Some(n),
        None => get_u64(v, "color"),
    };
    let color = match raw {
        Some(n) => if n <= 4_294_967_295u64 && n != 0 {
            Some(n as u32)
        } else {
            None
        },
        None => None,
    };
    let position = match get_i64(v, "position") {
        Some(p) => p,
        None => 0,
    };
    let hoist = match get_bool(v, "hoist") {
        Some(b) => b,
        None => false,
    };
    let permissions = match v.get("permissions") {
        Some(JsonValue::Str(s)) => match parse_u64(s.as_str()) {
            Some(n) => n,
            None => 0,
        },
        Some(x) => match x.as_u64() {
            Some(n) => n,
            None => 0,
        },
        None => 0,
    };
    Some(RoleInfo { id, name, color, position, hoist, permissions })
}

/// The user of a member payload, and where its id is read from: the nested
/// user, else `user_id`, else `id`.
pub open spec fn member_user(v: JsonValue) -> Option<JsonValue> {
    jget(v, "user"@)
}

pub open spec fn member_user_id(v: JsonValue) -> Option<u64> {
    let raw = match member_user(v) {
        Some(u) if jget(u, "id"@) is Some => jget(u, "id"@),
        _ => if jget(v, "user_id"@) is Some {
            jget(v, "user_id"@)
        } else {
            jget(v, "id"@)
        },
    };
    match raw {
        Some(x) => parse_id_spec(x),
        None => None,
    }
}

pub open spec fn user_field_str(v: JsonValue, key: Seq<char>) -> Option<Seq<char>> {
    match member_user(v) {
        Some(u) => field_str(u, key),
        None => None,
    }
}

/// `m` holds what the member payload `v` of guild `guild_id` says.
pub open spec fn member_read_from(m: MemberInfo, v: JsonValue, guild_id: Option<u64>) -> bool {
    &&& member_user_id(v) == Some(m.user_id@)
    &&& m.display_name@ == display_name_or_unknown_spec(
        field_str(v, "nick"@),
        user_field_str(v, "global_name"@),
        user_field_str(v, "username"@),
    )
    &&& opt_string_view(m.username) == user_field_str(v, "username"@)
    &&& m.is_bot == (match member_user(v) {
        Some(u) => field_bool(u, "bot"@) == Some(true),
        None => false,
    })
    &&& opt_string_view(m.avatar_url) == member_avatar_url_spec(guild_id, m.user_id@, Some(v), member_user(v))
    &&& id_views(m.role_ids@) == id_items(jget(v, "roles"@))
}

/// Reads a member payload; it needs a user id.
pub fn parse_member_info(v: &JsonValue, guild_id: Option<Id<GuildMarker>>) -> (r: Option<MemberInfo>)
    ensures
        r is Some <==> member_user_id(*v) is Some,
        match r {
            Some(m) => member_read_from(m, *v, opt_id_view(guild_id)),
            None => true,
        },
{
    let user = v.get("user");
    let nested_id = match user {
        Some(u) => u.get("id"),
        None => None,
    };
    let raw = match nested_id {
        Some(x) => Some(x),
        None => match v.get("user_id") {
            Some(x) => Some(x),
            None => v.get("id"),
        },
    };
    let user_id = match raw {
        Some(x) => match parse_id::<UserMarker>(x) {
            Some(id) => id,
            None => {
                return None;
            },
        },
        None => {
            return None;
        },
    };
    let (global_name, username, is_bot) = match user {
        Some(u) => (
            get_str(u, "global_name"),
            get_str(u, "username"),
            match get_bool(u, "bot") {
                Some(b) => b,
                None => false,
            },
        ),
        None => (None, None, false),
    };
    let display_name = display_name_from_parts_or_unknown(get_str(v, "nick"), global_name, username);
    let username_owned = match username {
        Some(u) => Some(u.to_owned()),
        None => None,
    };
    Some(
        MemberInfo {
            user_id,
            display_name,
            username: username_owned,
            is_bot,
            avatar_url: member_avatar_url(guild_id, user_id, Some(v), user),
            role_ids: parse_id_array::<RoleMarker>(v.get("roles")),
        },
    )
}

/// A custom emoji needs an id and a non-empty name; it is available unless
/// the payload says otherwise.
pub open spec fn custom_emoji_keep(v: JsonValue) -> bool {
    field_id(v, "id"@) is Some && (field_str(v, "name"@) matches Some(n) && n.len() > 0)
}

pub open spec fn custom_emoji_read_from(e: CustomEmojiInfo, v: JsonValue) -> bool {
    &&& field_id(v, "id"@) == Some(e.id@)
    &&& field_str(v, "name"@) == Some(e.name@)
    &&& e.animated == (field_bool(v, "animated"@) == Some(true))
    &&& e.available == (field_bool(v, "available"@) != Some(false))
}

pub fn parse_custom_emoji(v: &JsonValue) -> (r: Option<CustomEmojiInfo>)
    ensures
        r is Some <==> custom_emoji_keep(*v),
        match r {
            Some(e) => custom_emoji_read_from(e, *v),
            None => true,
        },
{
    let id = match crate::parse_common::get_id::<EmojiMarker>(v, "id") {
        Some(id) => id,
        None => {
            return None;
        },
    };
    let name = match get_str(v, "name") {
        Some(n) => if n.unicode_len() > 0 {
            n.to_owned()
        } else {
            return None;
        },
        None => {
            return None;
        },
    };
    let animated = match get_bool(v, "animated") {
        Some(b) => b,
        None => false,
    };
    let available = match get_bool(v, "available") {
        Some(b) => b,
        None => true,
    };
    Some(CustomEmojiInfo { id, name, animated, available })
}

/// The custom emojis of a list that parse, in order.
pub fn parse_custom_emojis(v: Option<&JsonValue>) -> (r: Vec<CustomEmojiInfo>)
    ensures
        r@.len() == kept_items(array_items(deref_opt(v)), |x: JsonValue| custom_emoji_keep(x)).len(),
        forall|i: int| 0 <= i < r@.len() ==> custom_emoji_read_from(
            #[trigger] r@[i],
            kept_items(array_items(deref_opt(v)), |x: JsonValue| custom_emoji_keep(x))[i],
        ),
{
    parse_list(
        v,
        parse_custom_emoji,
        Ghost(|x: JsonValue| custom_emoji_keep(x)),
        Ghost(|e: CustomEmojiInfo, x: JsonValue| custom_emoji_read_from(e, x)),
    )
}

/// A guild folder needs a list with at least one guild id; its name counts
/// only when not empty.
pub open spec fn guild_folder_keep(v: JsonValue) -> bool {
    jget(v, "guild_ids"@) matches Some(JsonValue::Array(_)) && id_items(jget(v, "guild_ids"@)).len() > 0
}

pub open spec fn guild_folder_read_from(f: GuildFolder, v: JsonValue) -> bool {
    &&& id_views(f.guild_ids@) == id_items(jget(v, "guild_ids"@))
    &&& f.id == field_u64(v, "id"@)
    &&& opt_string_view(f.name) == match field_str(v, "name"@) {
        Some(n) => if n.len() > 0 {
            Some(n)
        } else {
            None
        },
        None => None,
    }
    &&& f.color == match field_u64(v, "color"@) {
        Some(c) => if c <= u32::MAX {
            Some(c as u32)
        } else {
            None
        },
        None => None,
    }
}

pub fn parse_guild_folder(v: &JsonValue) -> (r: Option<GuildFolder>)
    ensures
        r is Some <==> guild_folder_keep(*v),
        match r {
            Some(f) => guild_folder_read_from(f, *v),
            None => true,
        },
{
    let list = match v.get("guild_ids") {
        Some(x) => match x.as_array() {
            Some(_) => x,
            None => {
                return None;
            },
        },
        None => {
            return None;
        },
    };
    let guild_ids = parse_id_array::<GuildMarker>(Some(list));
    if guild_ids.len() == 0 {
        return None;
    }
    let name = match get_str(v, "name") {
        Some(n) => if n.unicode_len() > 0 {
            Some(n.to_owned())
        } else {
            None
        },
        None => None,
    };
    let color = match get_u64(v, "color") {
        Some(c) => if c <= 4_294_967_295u64 {
            Some(c as u32)
        } else {
            None
        },
        None => None,
    };
    Some(GuildFolder { id: get_u64(v, "id"), name, color, guild_ids })
}

/// The user's guild folders from a settings payload: nothing without a
/// folder list; folders without guilds are dropped.
pub fn parse_guild_folders(settings: &JsonValue) -> (r: Option<Vec<GuildFolder>>)
    ensures
        r is Some <==> jget(*settings, "guild_folders"@) matches Some(JsonValue::Array(_)),
        match r {
            Some(list) => {
                let kept = kept_items(array_items(jget(*settings, "guild_folders"@)), |x: JsonValue| guild_folder_keep(x));
                &&& list@.len() == kept.len()
                &&& forall|i: int| 0 <= i < list@.len() ==> guild_folder_read_from(#[trigger] list@[i], kept[i])
            },
            None => true,
        },
{
    match settings.get("guild_folders") {
        Some(x) => match x.as_array() {
            Some(_) => Some(
                parse_list(
                    Some(x),
                    parse_guild_folder,
                    Ghost(|y: JsonValue| guild_folder_keep(y)),
                    Ghost(|f: GuildFolder, y: JsonValue| guild_folder_read_from(f, y)),
                ),
            ),
            None => None,
        },
        None => None,
    }
}

/// A guild field that may sit at the root or, with lazy guild payloads,
/// under `properties`.
pub open spec fn guild_field_spec(v: JsonValue, key: Seq<char>) -> Option<JsonValue> {
    match jget(v, key) {
        Some(x) => Some(x),
        None => match jget(v, "properties"@) {
            Some(p) => jget(p, key),
            None => None,
        },
    }
}

fn guild_field<'a>(v: &'a JsonValue, key: &str) -> (r: Option<&'a JsonValue>)
    ensures
        deref_opt(r) == guild_field_spec(*v, key@),
{
    match v.get(key) {
        Some(x) => Some(x),
        None => match v.get("properties") {
            Some(p) => p.get(key),
            None => None,
        },
    }
}

/// What a GUILD_UPDATE says; a list or boost setting is `None` when the
/// payload leaves it out, so that an unrelated update keeps the stored one.
pub struct GuildUpdateInfo {
    pub guild_id: Id<GuildMarker>,
    pub name: String,
    pub owner_id: Option<Id<UserMarker>>,
    pub boost_tier: Option<GuildBoostTier>,
    pub boost_count: Option<u32>,
    pub roles: Option<Vec<RoleInfo>>,
    pub emojis: Option<Vec<CustomEmojiInfo>>,
}

pub open spec fn guild_name_spec(v: JsonValue) -> Seq<char> {
    match guild_field_spec(v, "name"@) {
        Some(JsonValue::Str(s)) => s@,
        _ => "unknown"@,
    }
}

pub open spec fn boost_count_spec(v: JsonValue) -> Option<u32> {
    match guild_field_spec(v, "premium_subscription_count"@) {
        Some(JsonValue::Number(crate::json::JsonNumber::Unsigned(n))) => if n <= u32::MAX {
            Some(n as u32)
        } else {
            None
        },
        _ => None,
    }
}

pub open spec fn guild_update_read_from(u: GuildUpdateInfo, v: JsonValue) -> bool {
    &&& field_id(v, "id"@) == Some(u.guild_id@)
    &&& u.name@ == guild_name_spec(v)
    &&& opt_id_view(u.owner_id) == match guild_field_spec(v, "owner_id"@) {
        Some(x) => parse_id_spec(x),
        None => None,
    }
    &&& u.boost_tier == match guild_field_spec(v, "premium_tier"@) {
        Some(JsonValue::Number(crate::json::JsonNumber::Unsigned(n))) => Some(boost_tier_spec(n)),
        _ => None,
    }
    &&& u.boost_count == boost_count_spec(v)
    &&& match jget(v, "roles"@) {
        Some(JsonValue::Array(_)) => u.roles matches Some(list) && {
            let kept = kept_items(array_items(jget(v, "roles"@)), |x: JsonValue| role_keep(x));
            &&& list@.len() == kept.len()
            &&& forall|i: int| 0 <= i < list@.len() ==> role_read_from(#[trigger] list@[i], kept[i])
        },
        _ => u.roles is None,
    }
    &&& match jget(v, "emojis"@) {
        Some(JsonValue::Array(_)) => u.emojis matches Some(list) && {
            let kept = kept_items(array_items(jget(v, "emojis"@)), |x: JsonValue| custom_emoji_keep(x));
            &&& list@.len() == kept.len()
            &&& forall|i: int| 0 <= i < list@.len() ==> custom_emoji_read_from(#[trigger] list@[i], kept[i])
        },
        _ => u.emojis is None,
    }
}

/// Reads a GUILD_UPDATE payload; it needs the guild id.
pub fn parse_guild_update(v: &JsonValue) -> (r: Option<GuildUpdateInfo>)
    ensures
        r is Some <==> field_id(*v, "id"@) is Some,
        match r {
            Some(u) => guild_update_read_from(u, *v),
            None => true,
        },
{
    let guild_id = match crate::parse_common::get_id::<GuildMarker>(v, "id") {
        Some(id) => id,
        None => {
            return None;
        },
    };
    let name = match guild_field(v, "name") {
        Some(JsonValue::Str(s)) => s.clone(),
        _ => "unknown".to_owned(),
    };
    let owner_id = match guild_field(v, "owner_id") {
        Some(x) => parse_id::<UserMarker>(x),
        None => None,
    };
    let boost_tier = match guild_field(v, "premium_tier") {
        Some(JsonValue::Number(crate::json::JsonNumber::Unsigned(n))) => Some(GuildBoostTier::from_premium_tier(*n)),
        _ => None,
    };
    let boost_count = match guild_field(v, "premium_subscription_count") {
        Some(JsonValue::Number(crate::json::JsonNumber::Unsigned(n))) => if *n <= 4_294_967_295u64 {
            Some(*n as u32)
        } else {
            None
        },
        _ => None,
    };
    let roles = match v.get("roles") {
        Some(x) => match x.as_array() {
            Some(_) => Some(
                parse_list(
                    Some(x),
                    parse_role_info,
                    Ghost(|y: JsonValue| role_keep(y)),
                    Ghost(|r: RoleInfo, y: JsonValue| role_read_from(r, y)),
                ),
            ),
            None => None,
        },
        None => None,
    };
    let emojis = match v.get("emojis") {
        Some(x) => match x.as_array() {
            Some(_) => Some(parse_custom_emojis(Some(x))),
            None => None,
        },
        None => None,
    };
    Some(GuildUpdateInfo { guild_id, name, owner_id, boost_tier, boost_count, roles, emojis })
}

} // verus!
