//! Reading channel payloads: the channel itself, its thread state, its
//! permission overwrites and, for private channels, its recipients.
use vstd::prelude::*;

use crate::avatar::{user_avatar_url, user_avatar_url_spec};
use crate::channel::{
    join_names, join_strings, string_views, ChannelInfo, ChannelRecipientInfo, PermissionOverwriteInfo,
    PermissionOverwriteKind, ThreadMetadataInfo,
};
use crate::ids::{ChannelMarker, GuildMarker, Id, MessageMarker, UserMarker};
use crate::json::{
    deref_opt, field_bool, field_i64, field_str, field_u64, get_bool, get_i64, get_str, get_string, get_u64, jget, jstr, ju64,
    JsonNumber, JsonValue,
};
use crate::message_info::{opt_str_view, opt_string_view};
use crate::parse_common::{
    array_items, field_id, get_id, lemma_filter_map_step, opt_id_view, parse_id, parse_id_spec, seq_filter_map,
};
use crate::payload_rules::{parse_status, parse_status_spec};
use crate::presence::PresenceStatus;
use crate::text::{decimal, parse_u64, parse_unsigned_spec, push_decimal, str_eq};

verus! {

/// The first of a nickname, a global name and a username that is present
/// and not empty.
pub open spec fn display_name_spec(
    nick: Option<Seq<char>>,
    global_name: Option<Seq<char>>,
    username: Option<Seq<char>>,
) -> Option<Seq<char>> {
    if nick matches Some(n) && n.len() > 0 {
        nick
    } else if global_name matches Some(g) && g.len() > 0 {
        global_name
    } else if username matches Some(u) && u.len() > 0 {
        username
    } else {
        None
    }
}

fn non_empty(s: Option<&str>) -> (r: bool)
    ensures
        r == (s matches Some(x) && x@.len() > 0),
{
    match s {
        Some(x) => x.unicode_len() > 0,
        None => false,
    }
}

/// The name to show for a user.
pub fn display_name_from_parts<'a>(nick: Option<&'a str>, global_name: Option<&'a str>, username: Option<&'a str>) -> (r:
    Option<&'a str>)
    ensures
        opt_str_view(r) == display_name_spec(opt_str_view(nick), opt_str_view(global_name), opt_str_view(username)),
{
    if non_empty(nick) {
        nick
    } else if non_empty(global_name) {
        global_name
    } else if non_empty(username) {
        username
    } else {
        None
    }
}

/// The name to show for a user, `unknown` when the payload has none.
pub open spec fn display_name_or_unknown_spec(
    nick: Option<Seq<char>>,
    global_name: Option<Seq<char>>,
    username: Option<Seq<char>>,
) -> Seq<char> {
    match display_name_spec(nick, global_name, username) {
        Some(n) => n,
        None => "unknown"@,
    }
}

pub fn display_name_from_parts_or_unknown(
    nick: Option<&str>,
    global_name: Option<&str>,
    username: Option<&str>,
) -> (r: String)
    ensures
        r@ == display_name_or_unknown_spec(opt_str_view(nick), opt_str_view(global_name), opt_str_view(username)),
{
    match display_name_from_parts(nick, global_name, username) {
        Some(n) => n.to_owned(),
        None => "unknown".to_owned(),
    }
}

/// The label of a Discord channel type number.
pub open spec fn channel_kind_spec(t: Option<u64>) -> Seq<char> {
    match t {
        Some(0) => "text"@,
        Some(1) => "dm"@,
        Some(2) => "voice"@,
        Some(3) => "group-dm"@,
        Some(4) => "category"@,
        Some(5) => "announcement"@,
        Some(10) => "GuildNewsThread"@,
        Some(11) => "GuildPublicThread"@,
        Some(12) => "GuildPrivateThread"@,
        Some(13) => "stage"@,
        Some(15) => "forum"@,
        Some(16) => "media"@,
        Some(n) => "type-"@ + decimal(n as nat),
        None => "channel"@,
    }
}

fn channel_kind(t: Option<u64>) -> (r: String)
    ensures
        r@ == channel_kind_spec(t),
{
    match t {
        Some(0) => "text".to_owned(),
        Some(1) => "dm".to_owned(),
        Some(2) => "voice".to_owned(),
        Some(3) => "group-dm".to_owned(),
        Some(4) => "category".to_owned(),
        Some(5) => "announcement".to_owned(),
        Some(10) => "GuildNewsThread".to_owned(),
        Some(11) => "GuildPublicThread".to_owned(),
        Some(12) => "GuildPrivateThread".to_owned(),
        Some(13) => "stage".to_owned(),
        Some(15) => "forum".to_owned(),
        Some(16) => "media".to_owned(),
        Some(n) => {
            let mut out = "type-".to_owned();
            push_decimal(&mut out, n);
            out
        },
        None => "channel".to_owned(),
    }
}

pub open spec fn is_private_kind(kind: Seq<char>) -> bool {
    kind == "dm"@ || kind == "group-dm"@
}

/// A recipient of a private channel; it needs an id.
pub open spec fn recipient_read_from(r: ChannelRecipientInfo, v: JsonValue) -> bool {
    &&& field_id(v, "id"@) == Some(r.user_id@)
    &&& r.display_name@ == display_name_or_unknown_spec(None, field_str(v, "global_name"@), field_str(v, "username"@))
    &&& opt_string_view(r.username) == field_str(v, "username"@)
    &&& r.is_bot == (field_bool(v, "bot"@) == Some(true))
    &&& r.avatar_url matches Some(u) && u@ == user_avatar_url_spec(r.user_id@, v)
    &&& r.status == match field_str(v, "status"@) {
        Some(s) => Some(parse_status_spec(s)),
        None => None,
    }
}

pub fn parse_channel_recipient_info(v: &JsonValue) -> (r: Option<ChannelRecipientInfo>)
    ensures
        r is Some <==> field_id(*v, "id"@) is Some,
        match r {
            Some(info) => recipient_read_from(info, *v),
            None => true,
        },
{
    let user_id = match get_id::<UserMarker>(v, "id") {
        Some(id) => id,
        None => {
            return None;
        },
    };
    let global_name = get_str(v, "global_name");
    let username = get_str(v, "username");
    let display_name = display_name_from_parts_or_unknown(None, global_name, username);
    let is_bot = match get_bool(v, "bot") {
        Some(b) => b,
        None => false,
    };
    let status = match get_str(v, "status") {
        Some(s) => Some(parse_status(s)),
        None => None,
    };
    let username_owned = match username {
        Some(u) => Some(u.to_owned()),
        None => None,
    };
    Some(
        ChannelRecipientInfo {
            user_id,
            display_name,
            username: username_owned,
            is_bot,
            avatar_url: user_avatar_url(user_id, v),
            status,
        },
    )
}

/// The label a recipient contributes to a private channel's name.
pub open spec fn recipient_label_part(v: JsonValue) -> Option<Seq<char>> {
    display_name_spec(None, field_str(v, "global_name"@), field_str(v, "username"@))
}

pub open spec fn recipient_label_parts(v: JsonValue) -> Seq<Seq<char>> {
    seq_filter_map(array_items(jget(v, "recipients"@)), |x: JsonValue| recipient_label_part(x))
}

/// The recipients' names joined by commas; nothing when the payload has no
/// recipient list or no recipient with a name.
pub open spec fn recipient_label_spec(v: JsonValue) -> Option<Seq<char>> {
    match jget(v, "recipients"@) {
        Some(JsonValue::Array(_)) => if recipient_label_parts(v).len() > 0 {
            Some(join_names(recipient_label_parts(v)))
        } else {
            None
        },
        _ => None,
    }
}

fn recipient_label(v: &JsonValue) -> (r: Option<String>)
    ensures
        opt_string_view(r) == recipient_label_spec(*v),
{
    let items = match v.get("recipients") {
        Some(x) => match x.as_array() {
            Some(items) => items,
            None => {
                return None;
            },
        },
        None => {
            return None;
        },
    };
    let ghost f = |x: JsonValue| recipient_label_part(x);
    let mut names: Vec<String> = Vec::new();
    let n = items.len();
    let mut i: usize = 0;
    proof {
        assert(items@.subrange(0, 0) =~= Seq::<JsonValue>::empty());
        assert(string_views(names@) =~= Seq::<Seq<char>>::empty());
    }
    while i < n
        invariant
            n == items@.len(),
            i <= n,
            f == (|x: JsonValue| recipient_label_part(x)),
            string_views(names@) == seq_filter_map(items@.subrange(0, i as int), f),
        decreases n - i,
    {
        proof {
            lemma_filter_map_step(items@, i as int, f);
        }
        let item = &items[i];
        let global_name = get_str(item, "global_name");
        let global_name = if non_empty(global_name) {
            global_name
        } else {
            None
        };
        let ghost before = names@;
        match display_name_from_parts(None, global_name, get_str(item, "username")) {
            Some(name) => {
                names.push(name.to_owned());
                proof {
                    assert(string_views(names@) =~= string_views(before).push(name@));
                }
            },
            None => {},
        }
        i = i + 1;
    }
    proof {
        assert(items@.subrange(0, n as int) =~= items@);
    }
    if names.len() == 0 {
        None
    } else {
        Some(join_strings(&names))
    }
}

pub open spec fn recipient_items(v: JsonValue) -> Seq<JsonValue> {
    seq_filter_map(
        array_items(jget(v, "recipients"@)),
        |x: JsonValue|
            if field_id(x, "id"@) is Some {
                Some(x)
            } else {
                None
            },
    )
}

/// Reads a private channel's recipient list, skipping entries without an
/// id; nothing when the payload has no list.
fn parse_recipients(v: &JsonValue) -> (r: Option<Vec<ChannelRecipientInfo>>)
    ensures
        r is Some <==> jget(*v, "recipients"@) matches Some(JsonValue::Array(_)),
        match r {
            Some(list) => list@.len() == recipient_items(*v).len() && forall|i: int|
                0 <= i < list@.len() ==> recipient_read_from(#[trigger] list@[i], recipient_items(*v)[i]),
            None => true,
        },
{
    let items = match v.get("recipients") {
        Some(x) => match x.as_array() {
            Some(items) => items,
            None => {
                return None;
            },
        },
        None => {
            return None;
        },
    };
    let ghost f = |x: JsonValue|
        if field_id(x, "id"@) is Some {
            Some(x)
        } else {
            None
        };
    let mut out: Vec<ChannelRecipientInfo> = Vec::new();
    let n = items.len();
    let mut i: usize = 0;
    proof {
        assert(items@.subrange(0, 0) =~= Seq::<JsonValue>::empty());
    }
    while i < n
        invariant
            n == items@.len(),
            i <= n,
            f == (|x: JsonValue|
                if field_id(x, "id"@) is Some {
                    Some(x)
                } else {
                    None
                }),
            out@.len() == seq_filter_map(items@.subrange(0, i as int), f).len(),
            forall|k: int| 0 <= k < out@.len() ==> recipient_read_from(
                #[trigger] out@[k],
                seq_filter_map(items@.subrange(0, i as int), f)[k],
            ),
        decreases n - i,
    {
        proof {
            lemma_filter_map_step(items@, i as int, f);
        }
        match parse_channel_recipient_info(&items[i]) {
            Some(info) => {
                out.push(info);
            },
            None => {},
        }
        i = i + 1;
    }
    proof {
        assert(items@.subrange(0, n as int) =~= items@);
    }
    Some(out)
}

/// A thread's archive and lock state; both flags must be present.
pub open spec fn thread_metadata_read_from(t: ThreadMetadataInfo, v: JsonValue) -> bool {
    &&& field_bool(v, "archived"@) == Some(t.archived)
    &&& t.auto_archive_duration == field_u64(v, "auto_archive_duration"@)
    &&& opt_string_view(t.archive_timestamp) == field_str(v, "archive_timestamp"@)
    &&& field_bool(v, "locked"@) == Some(t.locked)
    &&& t.invitable == field_bool(v, "invitable"@)
    &&& opt_string_view(t.create_timestamp) == field_str(v, "create_timestamp"@)
}

fn parse_thread_metadata(v: &JsonValue) -> (r: Option<ThreadMetadataInfo>)
    ensures
        r is Some <==> field_bool(*v, "archived"@) is Some && field_bool(*v, "locked"@) is Some,
        match r {
            Some(t) => thread_metadata_read_from(t, *v),
            None => true,
        },
{
    let archived = match get_bool(v, "archived") {
        Some(b) => b,
        None => {
            return None;
        },
    };
    let locked = match get_bool(v, "locked") {
        Some(b) => b,
        None => {
            return None;
        },
    };
    Some(
        ThreadMetadataInfo {
            archived,
            auto_archive_duration: get_u64(v, "auto_archive_duration"),
            archive_timestamp: get_string(v, "archive_timestamp"),
            locked,
            invitable: get_bool(v, "invitable"),
            create_timestamp: get_string(v, "create_timestamp"),
        },
    )
}

/// A bitfield or target id: a decimal string, or a number; zero is allowed.
pub open spec fn raw_u64_spec(v: Option<JsonValue>) -> Option<u64> {
    match v {
        Some(JsonValue::Str(s)) => match parse_unsigned_spec(s@, u64::MAX as nat) {
            Some(n) => Some(n as u64),
            None => None,
        },
        Some(JsonValue::Number(JsonNumber::Unsigned(n))) => Some(n),
        _ => None,
    }
}

fn raw_u64(v: Option<&JsonValue>) -> (r: Option<u64>)
    ensures
        r == raw_u64_spec(deref_opt(v)),
{
    match v {
        Some(JsonValue::Str(s)) => parse_u64(s.as_str()),
        Some(JsonValue::Number(JsonNumber::Unsigned(n))) => Some(*n),
        _ => None,
    }
}

/// A permission overwrite needs a target id and a known target type; a
/// missing bitfield counts as zero.
pub open spec fn overwrite_spec(v: JsonValue) -> Option<PermissionOverwriteInfo> {
    match (raw_u64_spec(jget(v, "id"@)), field_u64(v, "type"@)) {
        (Some(id), Some(t)) => if t == 0 || t == 1 {
            Some(
                PermissionOverwriteInfo {
                    id,
                    kind: if t == 0 {
                        PermissionOverwriteKind::Role
                    } else {
                        PermissionOverwriteKind::Member
                    },
                    allow: match raw_u64_spec(jget(v, "allow"@)) {
                        Some(b) => b,
                        None => 0,
                    },
                    deny: match raw_u64_spec(jget(v, "deny"@)) {
                        Some(b) => b,
                        None => 0,
                    },
                },
            )
        } else {
            None
        },
        _ => None,
    }
}

fn parse_permission_overwrite(v: &JsonValue) -> (r: Option<PermissionOverwriteInfo>)
    ensures
        r == overwrite_spec(*v),
{
    let id = match raw_u64(v.get("id")) {
        Some(id) => id,
        None => {
            return None;
        },
    };
    let kind = match get_u64(v, "type") {
        Some(0) => PermissionOverwriteKind::Role,
        Some(1) => PermissionOverwriteKind::Member,
        _ => {
            return None;
        },
    };
    let allow = match raw_u64(v.get("allow")) {
        Some(b) => b,
        None => 0,
    };
    let deny = match raw_u64(v.get("deny")) {
        Some(b) => b,
        None => 0,
    };
    Some(PermissionOverwriteInfo { id, kind, allow, deny })
}

pub open spec fn overwrites_spec(v: JsonValue) -> Seq<PermissionOverwriteInfo> {
    seq_filter_map(array_items(jget(v, "permission_overwrites"@)), |x: JsonValue| overwrite_spec(x))
}

fn parse_permission_overwrites(v: &JsonValue) -> (r: Vec<PermissionOverwriteInfo>)
    ensures
        r@ == overwrites_spec(*v),
{
    let mut out: Vec<PermissionOverwriteInfo> = Vec::new();
    let items = match v.get("permission_overwrites") {
        Some(x) => match x.as_array() {
            Some(items) => items,
            None => {
                proof {
                    assert(out@ =~= Seq::<PermissionOverwriteInfo>::empty());
                }
                return out;
            },
        },
        None => {
            proof {
                assert(out@ =~= Seq::<PermissionOverwriteInfo>::empty());
            }
            return out;
        },
    };
    let ghost f = |x: JsonValue| overwrite_spec(x);
    let n = items.len();
    let mut i: usize = 0;
    proof {
        assert(items@.subrange(0, 0) =~= Seq::<JsonValue>::empty());
    }
    while i < n
        invariant
            n == items@.len(),
            i <= n,
            f == (|x: JsonValue| overwrite_spec(x)),
            out@ == seq_filter_map(items@.subrange(0, i as int), f),
        decreases n - i,
    {
        proof {
            lemma_filter_map_step(items@, i as int, f);
        }
        match parse_permission_overwrite(&items[i]) {
            Some(o) => {
                out.push(o);
            },
            None => {},
        }
        i = i + 1;
    }
    proof {
        assert(items@.subrange(0, n as int) =~= items@);
    }
    out
}

/// A non-empty `name` string.
pub open spec fn explicit_name_spec(v: JsonValue) -> Option<Seq<char>> {
    match field_str(v, "name"@) {
        Some(n) => if n.len() > 0 {
            Some(n)
        } else {
            None
        },
        None => None,
    }
}

/// A channel's name: its own, else for a private channel its recipients'
/// names or `dm-<id>`, else `channel-<id>`.
pub open spec fn channel_name_spec(v: JsonValue, channel_id: u64, kind: Seq<char>) -> Seq<char> {
    match explicit_name_spec(v) {
        Some(n) => n,
        None => if is_private_kind(kind) {
            match recipient_label_spec(v) {
                Some(l) => l,
                None => "dm-"@ + decimal(channel_id as nat),
            }
        } else {
            "channel-"@ + decimal(channel_id as nat)
        },
    }
}

pub open spec fn position_spec(v: JsonValue) -> Option<i32> {
    match field_i64(v, "position"@) {
        Some(p) => if i32::MIN <= p <= i32::MAX {
            Some(p as i32)
        } else {
            None
        },
        None => None,
    }
}

/// `c` holds what the channel payload `v` says; `default_guild` stands in
/// for a missing guild id.
pub open spec fn channel_read_from(c: ChannelInfo, v: JsonValue, default_guild: Option<u64>) -> bool {
    &&& field_id(v, "id"@) == Some(c.channel_id@)
    &&& opt_id_view(c.guild_id) == match field_id(v, "guild_id"@) {
        Some(g) => Some(g),
        None => default_guild,
    }
    &&& opt_id_view(c.parent_id) == field_id(v, "parent_id"@)
    &&& opt_id_view(c.owner_id) == field_id(v, "owner_id"@)
    &&& c.position == position_spec(v)
    &&& opt_id_view(c.last_message_id) == field_id(v, "last_message_id"@)
    &&& c.kind@ == channel_kind_spec(field_u64(v, "type"@))
    &&& c.name@ == channel_name_spec(v, c.channel_id@, c.kind@)
    &&& c.message_count == field_u64(v, "message_count"@)
    &&& c.member_count == field_u64(v, "member_count"@)
    &&& c.total_message_sent == field_u64(v, "total_message_sent"@)
    &&& match jget(v, "thread_metadata"@) {
        Some(t) => match c.thread_metadata {
            Some(m) => thread_metadata_read_from(m, t),
            None => !(field_bool(t, "archived"@) is Some && field_bool(t, "locked"@) is Some),
        },
        None => c.thread_metadata is None,
    }
    &&& c.flags == field_u64(v, "flags"@)
    &&& if is_private_kind(c.kind@) && jget(v, "recipients"@) matches Some(JsonValue::Array(_)) {
        c.recipients matches Some(list) && list@.len() == recipient_items(v).len() && forall|i: int|
            0 <= i < list@.len() ==> recipient_read_from(#[trigger] list@[i], recipient_items(v)[i])
    } else {
        c.recipients is None
    }
    &&& c.permission_overwrites@ == overwrites_spec(v)
}

/// Reads a channel payload; it needs an id.
pub fn parse_channel_info(v: &JsonValue, default_guild: Option<Id<GuildMarker>>) -> (r: Option<ChannelInfo>)
    ensures
        r is Some <==> field_id(*v, "id"@) is Some,
        match r {
            Some(c) => channel_read_from(c, *v, opt_id_view(default_guild)),
            None => true,
        },
{
    let channel_id = match get_id::<ChannelMarker>(v, "id") {
        Some(id) => id,
        None => {
            return None;
        },
    };
    let guild_id = match get_id::<GuildMarker>(v, "guild_id") {
        Some(g) => Some(g),
        None => default_guild,
    };
    let position = match get_i64(v, "position") {
        Some(p) => if -2147483648i64 <= p && p <= 2147483647i64 {
            Some(p as i32)
        } else {
            None
        },
        None => None,
    };
    let kind = channel_kind(get_u64(v, "type"));
    let private = str_eq(kind.as_str(), "dm") || str_eq(kind.as_str(), "group-dm");
    proof {
        reveal_strlit("dm");
        reveal_strlit("group-dm");
    }
    let explicit = match get_str(v, "name") {
        Some(n) => if n.unicode_len() > 0 {
            Some(n.to_owned())
        } else {
            None
        },
        None => None,
    };
    let name = match explicit {
        Some(n) => n,
        None => if private {
            match recipient_label(v) {
                Some(l) => l,
                None => {
                    let mut out = "dm-".to_owned();
                    push_decimal(&mut out, channel_id.get());
                    out
                },
            }
        } else {
            let mut out = "channel-".to_owned();
            push_decimal(&mut out, channel_id.get());
            out
        },
    };
    let recipients = if private {
        parse_recipients(v)
    } else {
        None
    };
    let thread_metadata = match v.get("thread_metadata") {
        Some(t) => parse_thread_metadata(t),
        None => None,
    };
    Some(
        ChannelInfo {
            guild_id,
            channel_id,
            parent_id: get_id::<ChannelMarker>(v, "parent_id"),
            owner_id: get_id::<UserMarker>(v, "owner_id"),
            position,
            last_message_id: get_id::<MessageMarker>(v, "last_message_id"),
            name,
            kind,
            message_count: get_u64(v, "message_count"),
            member_count: get_u64(v, "member_count"),
            total_message_sent: get_u64(v, "total_message_sent"),
            thread_metadata,
            flags: get_u64(v, "flags"),
            recipients,
            permission_overwrites: parse_permission_overwrites(v),
        },
    )
}

} // verus!
