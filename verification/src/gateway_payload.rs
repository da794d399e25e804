//! The JSON frames the client sends on the gateway: identify and resume,
//! member requests, channel subscriptions, voice state and presence
//! updates, and which frame (if any) a gateway command becomes.
use vstd::prelude::*;

use crate::fingerprint::{ClientFingerprint, CLIENT_BROWSER, CLIENT_BROWSER_VERSION};
use crate::gateway::{should_send_effect, GatewayCommand, SessionState, SubscriptionDeduper, USER_ACCOUNT_CAPABILITIES};
use crate::ids::{ChannelMarker, GuildMarker, Id, UserMarker};
use crate::json::{
    distinct_keys, empty_object, field_bool, field_str, field_u64, has_keys, insert_member, jarray, jbool, jget, json_bool,
    json_string, json_u64, jstr, ju64, JsonNumber, JsonValue,
};
use crate::presence::{activity_code_spec, gateway_status_spec, ActivityInfo, PresenceStatus};
use crate::text::{decimal, push_decimal};

verus! {

/// A snowflake as the gateway writes it: in decimal.
fn id_json(n: u64) -> (r: JsonValue)
    ensures
        jstr(r) == Some(decimal(n as nat)),
{
    let mut s = String::new();
    push_decimal(&mut s, n);
    JsonValue::Str(s)
}

/// A gateway frame: exactly an opcode and a payload.
pub open spec fn is_frame(v: JsonValue, op: u64) -> bool {
    has_keys(v, set!["op"@, "d"@]) && field_u64(v, "op"@) == Some(op)
}

/// The payload of a frame.
pub open spec fn frame_data(v: JsonValue) -> JsonValue {
    jget(v, "d"@).unwrap()
}

fn frame(op: u64, d: JsonValue) -> (r: JsonValue)
    ensures
        is_frame(r, op),
        jget(r, "d"@) == Some(d),
{
    proof {
        reveal_strlit("d");
        assert("d"@ =~= seq!['d']);
        reveal_strlit("op");
        assert("op"@ =~= seq!['o', 'p']);
    }
    let e = empty_object();
    let r = insert_member(e, "op", json_u64(op));
    let r2 = insert_member(r, "d", d);
    r2
}

pub open spec fn request_guild_members_payload_ok(r: JsonValue, guild_id: u64, query: Seq<char>, limit: u16, presences: bool, nonce: Option<Seq<char>>) -> bool {
    &&& (is_frame(r, 8))
    &&& (has_keys(
            frame_data(r),
            if nonce is Some {
                set!["guild_id"@, "query"@, "limit"@, "presences"@, "nonce"@]
            } else {
                set!["guild_id"@, "query"@, "limit"@, "presences"@]
            },
        ))
    &&& (field_str(frame_data(r), "guild_id"@) == Some(decimal(guild_id as nat)))
    &&& (field_str(frame_data(r), "query"@) == Some(query))
    &&& (field_u64(frame_data(r), "limit"@) == Some(limit as u64))
    &&& (field_bool(frame_data(r), "presences"@) == Some(presences))
    &&& (nonce matches Some(n) ==> field_str(frame_data(r), "nonce"@) == Some(n))
}

/// Asks for a guild's members: those whose name starts with `query` (all
/// when it is empty), at most `limit` (no limit when zero).
pub fn request_guild_members_payload(
    guild_id: Id<GuildMarker>,
    query: &str,
    limit: u16,
    presences: bool,
    nonce: Option<&str>,
) -> (r: JsonValue)
    ensures
        request_guild_members_payload_ok(r, guild_id@, query@, limit, presences, match nonce { Some(n) => Some(n@), None => None }),
{
    proof {
        reveal_strlit("guild_id");
        assert("guild_id"@ =~= seq!['g', 'u', 'i', 'l', 'd', '_', 'i', 'd']);
        reveal_strlit("limit");
        assert("limit"@ =~= seq!['l', 'i', 'm', 'i', 't']);
        reveal_strlit("nonce");
        assert("nonce"@ =~= seq!['n', 'o', 'n', 'c', 'e']);
        reveal_strlit("presences");
        assert("presences"@ =~= seq!['p', 'r', 'e', 's', 'e', 'n', 'c', 'e', 's']);
        reveal_strlit("query");
        assert("query"@ =~= seq!['q', 'u', 'e', 'r', 'y']);
    }
    let d = insert_member(empty_object(), "guild_id", id_json(guild_id.get()));
    let d = insert_member(d, "query", json_string(query));
    let d = insert_member(d, "limit", json_u64(limit as u64));
    let d = insert_member(d, "presences", json_bool(presences));
    let d = match nonce {
        Some(n) => insert_member(d, "nonce", json_string(n)),
        None => d,
    };
    frame(8, d)
}

pub open spec fn request_guild_members_by_ids_payload_ok(r: JsonValue, guild_id: u64, user_ids: Seq<Id<UserMarker>>, presences: bool) -> bool {
    &&& (is_frame(r, 8))
    &&& (has_keys(frame_data(r), set!["guild_id"@, "user_ids"@, "presences"@]))
    &&& (field_str(frame_data(r), "guild_id"@) == Some(decimal(guild_id as nat)))
    &&& (field_bool(frame_data(r), "presences"@) == Some(presences))
    &&& (jget(frame_data(r), "user_ids"@) matches Some(JsonValue::Array(items)) && items@.len() == (if user_ids.len()
            <= 100 {
            user_ids.len()
        } else {
            100
        }) && forall|i: int| 0 <= i < items@.len() ==> jstr(#[trigger] items@[i]) == Some(
            decimal(user_ids[i]@ as nat),
        ))
}

/// Asks for at most the first hundred of the given members.
pub fn request_guild_members_by_ids_payload(
    guild_id: Id<GuildMarker>,
    user_ids: &Vec<Id<UserMarker>>,
    presences: bool,
) -> (r: JsonValue)
    ensures
        request_guild_members_by_ids_payload_ok(r, guild_id@, user_ids@, presences),
{
    proof {
        reveal_strlit("guild_id");
        assert("guild_id"@ =~= seq!['g', 'u', 'i', 'l', 'd', '_', 'i', 'd']);
        reveal_strlit("presences");
        assert("presences"@ =~= seq!['p', 'r', 'e', 's', 'e', 'n', 'c', 'e', 's']);
        reveal_strlit("user_ids");
        assert("user_ids"@ =~= seq!['u', 's', 'e', 'r', '_', 'i', 'd', 's']);
    }
    let n = if user_ids.len() <= 100 {
        user_ids.len()
    } else {
        100
    };
    let mut items: Vec<JsonValue> = Vec::new();
    let mut i: usize = 0;
    while i < n
        invariant
            n <= user_ids@.len(),
            i <= n,
            items@.len() == i,
            forall|j: int| 0 <= j < i ==> jstr(#[trigger] items@[j]) == Some(decimal(user_ids@[j]@ as nat)),
        decreases n - i,
    {
        items.push(id_json(user_ids[i].get()));
        i = i + 1;
    }
    let d = insert_member(empty_object(), "guild_id", id_json(guild_id.get()));
    let d = insert_member(d, "user_ids", JsonValue::Array(items));
    let d = insert_member(d, "presences", json_bool(presences));
    frame(8, d)
}

pub open spec fn direct_message_subscribe_payload_ok(r: JsonValue, channel_id: u64) -> bool {
    &&& (is_frame(r, 13))
    &&& (has_keys(frame_data(r), set!["channel_id"@]))
    &&& (field_str(frame_data(r), "channel_id"@) == Some(decimal(channel_id as nat)))
}

/// Subscribes to a direct-message channel.
pub fn direct_message_subscribe_payload(channel_id: Id<ChannelMarker>) -> (r: JsonValue)
    ensures
        direct_message_subscribe_payload_ok(r, channel_id@),
{
    proof {
        reveal_strlit("channel_id");
        assert("channel_id"@ =~= seq!['c', 'h', 'a', 'n', 'n', 'e', 'l', '_', 'i', 'd']);
    }
    let d = insert_member(empty_object(), "channel_id", id_json(channel_id.get()));
    frame(13, d)
}

/// A member-list range as the gateway writes it: `[start, end]`.
pub open spec fn is_range(v: JsonValue, range: (u32, u32)) -> bool {
    jarray(v) matches Some(pair) && pair.len() == 2 && ju64(pair[0]) == Some(range.0 as u64) && ju64(pair[1])
        == Some(range.1 as u64)
}

/// The member `key` of the member `outer`.
pub open spec fn at(v: JsonValue, outer: Seq<char>, key: Seq<char>) -> JsonValue {
    jget(jget(v, outer).unwrap(), key).unwrap()
}

pub open spec fn guild_channel_subscribe_payload_ok(r: JsonValue, guild_id: u64, channel_id: u64, ranges: Seq<(u32, u32)>) -> bool {
    &&& (is_frame(r, 37))
    &&& (({
            let g = decimal(guild_id as nat);
            let c = decimal(channel_id as nat);
            let subs = jget(frame_data(r), "subscriptions"@).unwrap();
            let entry = jget(subs, g).unwrap();
            &&& has_keys(frame_data(r), set!["subscriptions"@])
            &&& has_keys(subs, set![g])
            &&& has_keys(entry, set!["typing"@, "activities"@, "threads"@, "channels"@])
            &&& field_bool(entry, "typing"@) == Some(true)
            &&& field_bool(entry, "activities"@) == Some(true)
            &&& field_bool(entry, "threads"@) == Some(true)
            &&& has_keys(jget(entry, "channels"@).unwrap(), set![c])
            &&& at(entry, "channels"@, c) matches JsonValue::Array(items) && items@.len() == ranges.len() && forall|
                i: int,
            | 0 <= i < items@.len() ==> is_range(#[trigger] items@[i], ranges[i])
        }))
}

/// Subscribes to a guild channel's typing, activities, threads and the
/// given ranges of its member list.
pub fn guild_channel_subscribe_payload(
    guild_id: Id<GuildMarker>,
    channel_id: Id<ChannelMarker>,
    ranges: &Vec<(u32, u32)>,
) -> (r: JsonValue)
    ensures
        guild_channel_subscribe_payload_ok(r, guild_id@, channel_id@, ranges@),
{
    proof {
        reveal_strlit("activities");
        assert("activities"@ =~= seq!['a', 'c', 't', 'i', 'v', 'i', 't', 'i', 'e', 's']);
        reveal_strlit("channels");
        assert("channels"@ =~= seq!['c', 'h', 'a', 'n', 'n', 'e', 'l', 's']);
        reveal_strlit("subscriptions");
        assert("subscriptions"@ =~= seq!['s', 'u', 'b', 's', 'c', 'r', 'i', 'p', 't', 'i', 'o', 'n', 's']);
        reveal_strlit("threads");
        assert("threads"@ =~= seq!['t', 'h', 'r', 'e', 'a', 'd', 's']);
        reveal_strlit("typing");
        assert("typing"@ =~= seq!['t', 'y', 'p', 'i', 'n', 'g']);
    }
    let mut items: Vec<JsonValue> = Vec::new();
    let n = ranges.len();
    let mut i: usize = 0;
    while i < n
        invariant
            n == ranges@.len(),
            i <= n,
            items@.len() == i,
            forall|j: int| 0 <= j < i ==> is_range(#[trigger] items@[j], ranges@[j]),
        decreases n - i,
    {
        let (start, end) = ranges[i];
        let mut pair: Vec<JsonValue> = Vec::new();
        pair.push(json_u64(start as u64));
        pair.push(json_u64(end as u64));
        let item = JsonValue::Array(pair);
        proof {
            assert(is_range(item, ranges@[i as int]));
        }
        items.push(item);
        i = i + 1;
    }
    let mut g = String::new();
    push_decimal(&mut g, guild_id.get());
    let mut c = String::new();
    push_decimal(&mut c, channel_id.get());
    let channels = insert_member(empty_object(), c.as_str(), JsonValue::Array(items));
    let entry = insert_member(empty_object(), "typing", json_bool(true));
    let entry = insert_member(entry, "activities", json_bool(true));
    let entry = insert_member(entry, "threads", json_bool(true));
    let entry = insert_member(entry, "channels", channels);
    let subs = insert_member(empty_object(), g.as_str(), entry);
    let d = insert_member(empty_object(), "subscriptions", subs);
    frame(37, d)
}

/// An optional snowflake: its decimal text, or null.
pub open spec fn is_opt_id(v: JsonValue, id: Option<u64>) -> bool {
    match id {
        Some(n) => jstr(v) == Some(decimal(n as nat)),
        None => v is Null,
    }
}

pub open spec fn voice_state_update_payload_ok(r: JsonValue, guild_id: Option<u64>, channel_id: Option<u64>, self_mute: bool, self_deaf: bool) -> bool {
    &&& (is_frame(r, 4))
    &&& (has_keys(frame_data(r), set!["guild_id"@, "channel_id"@, "self_mute"@, "self_deaf"@]))
    &&& is_opt_id(jget(frame_data(r), "guild_id"@).unwrap(), guild_id)
    &&& is_opt_id(jget(frame_data(r), "channel_id"@).unwrap(), channel_id)
    &&& (field_bool(frame_data(r), "self_mute"@) == Some(self_mute))
    &&& (field_bool(frame_data(r), "self_deaf"@) == Some(self_deaf))
}

/// Joins, moves between or (with no channel) leaves voice channels; no guild
/// means a direct-message call.
pub fn voice_state_update_payload(
    guild_id: Option<Id<GuildMarker>>,
    channel_id: Option<Id<ChannelMarker>>,
    self_mute: bool,
    self_deaf: bool,
) -> (r: JsonValue)
    ensures
        voice_state_update_payload_ok(r, match guild_id { Some(g) => Some(g@), None => None }, match channel_id { Some(c) => Some(c@), None => None }, self_mute, self_deaf),
{
    proof {
        reveal_strlit("channel_id");
        assert("channel_id"@ =~= seq!['c', 'h', 'a', 'n', 'n', 'e', 'l', '_', 'i', 'd']);
        reveal_strlit("guild_id");
        assert("guild_id"@ =~= seq!['g', 'u', 'i', 'l', 'd', '_', 'i', 'd']);
        reveal_strlit("self_deaf");
        assert("self_deaf"@ =~= seq!['s', 'e', 'l', 'f', '_', 'd', 'e', 'a', 'f']);
        reveal_strlit("self_mute");
        assert("self_mute"@ =~= seq!['s', 'e', 'l', 'f', '_', 'm', 'u', 't', 'e']);
    }
    let g = match guild_id {
        Some(g) => id_json(g.get()),
        None => JsonValue::Null,
    };
    let c = match channel_id {
        Some(c) => id_json(c.get()),
        None => JsonValue::Null,
    };
    let d = insert_member(empty_object(), "guild_id", g);
    let d = insert_member(d, "channel_id", c);
    let d = insert_member(d, "self_mute", json_bool(self_mute));
    let d = insert_member(d, "self_deaf", json_bool(self_deaf));
    frame(4, d)
}

/// Resumes a session: the token, the session id (empty when unknown) and the
/// last sequence number seen (zero when none).
pub fn build_resume_payload(token: &str, session: &SessionState) -> (r: JsonValue)
    ensures
        is_frame(r, 6),
        has_keys(frame_data(r), set!["token"@, "session_id"@, "seq"@]),
        field_str(frame_data(r), "token"@) == Some(token@),
        field_str(frame_data(r), "session_id"@) == Some(
            match session.session_id {
                Some(s) => s@,
                None => Seq::<char>::empty(),
            },
        ),
        field_u64(frame_data(r), "seq"@) == Some(
            match session.last_sequence {
                Some(n) => n,
                None => 0,
            },
        ),
{
    proof {
        reveal_strlit("seq");
        assert("seq"@ =~= seq!['s', 'e', 'q']);
        reveal_strlit("session_id");
        assert("session_id"@ =~= seq!['s', 'e', 's', 's', 'i', 'o', 'n', '_', 'i', 'd']);
        reveal_strlit("token");
        assert("token"@ =~= seq!['t', 'o', 'k', 'e', 'n']);
    }
    let session_id = match &session.session_id {
        Some(s) => json_string(s.as_str()),
        None => JsonValue::Str(String::new()),
    };
    let seq = match session.last_sequence {
        Some(n) => n,
        None => 0,
    };
    let d = insert_member(empty_object(), "token", json_string(token));
    let d = insert_member(d, "session_id", session_id);
    let d = insert_member(d, "seq", json_u64(seq));
    frame(6, d)
}

/// The member `key` holds the string when there is one, and is absent
/// otherwise.
pub open spec fn opt_str_member(v: JsonValue, key: Seq<char>, s: Option<String>) -> bool {
    match s {
        Some(x) => field_str(v, key) == Some(x@),
        None => jget(v, key) is None,
    }
}

pub open spec fn opt_u64_member(v: JsonValue, key: Seq<char>, n: Option<u64>) -> bool {
    match n {
        Some(x) => field_u64(v, key) == Some(x),
        None => jget(v, key) is None,
    }
}

pub open spec fn with_key_if(keys: Set<Seq<char>>, key: Seq<char>, present: bool) -> Set<Seq<char>> {
    if present {
        keys.insert(key)
    } else {
        keys
    }
}

/// Each item is a string, the one at the same place in `texts`.
pub open spec fn is_string_array(v: JsonValue, texts: Seq<Seq<char>>) -> bool {
    v matches JsonValue::Array(items) && items@.len() == texts.len() && forall|i: int|
        0 <= i < items@.len() ==> jstr(#[trigger] items@[i]) == Some(texts[i])
}

pub open spec fn button_labels(a: ActivityInfo) -> Seq<Seq<char>> {
    a.buttons@.map_values(|b: crate::presence::ActivityButton| b.label@)
}

pub open spec fn button_urls(a: ActivityInfo) -> Seq<Seq<char>> {
    a.buttons@.map_values(|b: crate::presence::ActivityButton| b.url@)
}

/// The members an activity's payload has.
pub open spec fn activity_keys(a: ActivityInfo) -> Set<Seq<char>> {
    let k = set!["name"@, "type"@];
    let k = with_key_if(k, "details"@, a.details is Some);
    let k = with_key_if(k, "state"@, a.state is Some);
    let k = with_key_if(k, "url"@, a.url is Some);
    let k = with_key_if(k, "emoji"@, a.emoji is Some);
    let k = with_key_if(k, "application_id"@, a.application_id is Some);
    let k = with_key_if(k, "timestamps"@, a.timestamps is Some);
    let k = with_key_if(k, "assets"@, a.assets is Some);
    let k = with_key_if(k, "party"@, a.party is Some);
    let k = with_key_if(k, "buttons"@, a.buttons@.len() > 0);
    with_key_if(k, "metadata"@, a.buttons@.len() > 0)
}

/// `v` is the gateway form of the activity `a`: its name and type code, each
/// optional text when present, a custom status emoji (name, id when custom,
/// `animated` only when animated), its timestamps, image assets and party,
/// and its buttons as parallel lists of labels and URLs.
pub open spec fn activity_payload_ok(v: JsonValue, a: ActivityInfo) -> bool {
    &&& has_keys(v, activity_keys(a))
    &&& field_str(v, "name"@) == Some(a.name@)
    &&& field_u64(v, "type"@) == Some(activity_code_spec(a.kind))
    &&& opt_str_member(v, "details"@, a.details)
    &&& opt_str_member(v, "state"@, a.state)
    &&& opt_str_member(v, "url"@, a.url)
    &&& opt_str_member(v, "application_id"@, a.application_id)
    &&& (a.emoji matches Some(e) ==> emoji_node_ok(jget(v, "emoji"@).unwrap(), e))
    &&& (a.timestamps matches Some(t) ==> timestamps_node_ok(jget(v, "timestamps"@).unwrap(), t))
    &&& (a.assets matches Some(x) ==> assets_node_ok(jget(v, "assets"@).unwrap(), x))
    &&& (a.party matches Some(p) ==> party_node_ok(jget(v, "party"@).unwrap(), p))
    &&& (a.buttons@.len() > 0 ==> {
        &&& is_string_array(jget(v, "buttons"@).unwrap(), button_labels(a))
        &&& has_keys(jget(v, "metadata"@).unwrap(), set!["button_urls"@])
        &&& is_string_array(at(v, "metadata"@, "button_urls"@), button_urls(a))
    })
}

fn opt_insert_str(obj: JsonValue, key: &str, s: &Option<String>) -> (r: JsonValue)
    requires
        obj is Object,
    ensures
        r is Object,
        distinct_keys(obj) ==> distinct_keys(r),
        forall|k: Seq<char>| k != key@ ==> #[trigger] jget(r, k) == jget(obj, k),
        match s {
            Some(x) => field_str(r, key@) == Some(x@),
            None => jget(r, key@) == jget(obj, key@),
        },
{
    match s {
        Some(x) => insert_member(obj, key, json_string(x.as_str())),
        None => obj,
    }
}

fn strings_json(texts: Vec<&str>) -> (r: JsonValue)
    ensures
        is_string_array(r, texts@.map_values(|t: &str| t@)),
{
    let mut items: Vec<JsonValue> = Vec::new();
    let n = texts.len();
    let mut i: usize = 0;
    while i < n
        invariant
            n == texts@.len(),
            i <= n,
            items@.len() == i,
            forall|j: int| 0 <= j < i ==> jstr(#[trigger] items@[j]) == Some(texts@[j]@),
        decreases n - i,
    {
        items.push(json_string(texts[i]));
        i = i + 1;
    }
    JsonValue::Array(items)
}

pub open spec fn emoji_node_ok(node: JsonValue, e: crate::presence::ActivityEmoji) -> bool {
    &&& has_keys(node, with_key_if(with_key_if(set!["name"@], "id"@, e.id is Some), "animated"@, e.animated))
    &&& field_str(node, "name"@) == Some(e.name@)
    &&& (e.id matches Some(id) ==> field_str(node, "id"@) == Some(decimal(id@ as nat)))
    &&& (e.animated ==> field_bool(node, "animated"@) == Some(true))
}

fn emoji_node(e: &crate::presence::ActivityEmoji) -> (r: JsonValue)
    ensures
        emoji_node_ok(r, *e),
{
    proof {
        reveal_strlit("name");
        assert("name"@ =~= seq!['n', 'a', 'm', 'e']);
        reveal_strlit("id");
        assert("id"@ =~= seq!['i', 'd']);
        reveal_strlit("animated");
        assert("animated"@ =~= seq!['a', 'n', 'i', 'm', 'a', 't', 'e', 'd']);
    }
    let node = insert_member(empty_object(), "name", json_string(e.name.as_str()));
    let node = match e.id {
        Some(id) => insert_member(node, "id", id_json(id.get())),
        None => node,
    };
    if e.animated {
        insert_member(node, "animated", json_bool(true))
    } else {
        node
    }
}

pub open spec fn timestamps_node_ok(node: JsonValue, t: crate::presence::ActivityTimestamps) -> bool {
    &&& has_keys(node, with_key_if(with_key_if(Set::empty(), "start"@, t.start is Some), "end"@, t.end is Some))
    &&& opt_u64_member(node, "start"@, t.start)
    &&& opt_u64_member(node, "end"@, t.end)
}

fn timestamps_node(t: &crate::presence::ActivityTimestamps) -> (r: JsonValue)
    ensures
        timestamps_node_ok(r, *t),
{
    proof {
        reveal_strlit("start");
        assert("start"@ =~= seq!['s', 't', 'a', 'r', 't']);
        reveal_strlit("end");
        assert("end"@ =~= seq!['e', 'n', 'd']);
    }
    let node = empty_object();
    let node = match t.start {
        Some(n) => insert_member(node, "start", json_u64(n)),
        None => node,
    };
    match t.end {
        Some(n) => insert_member(node, "end", json_u64(n)),
        None => node,
    }
}

pub open spec fn assets_node_ok(node: JsonValue, x: crate::presence::ActivityAssets) -> bool {
    &&& node is Object
    &&& distinct_keys(node)
    &&& opt_str_member(node, "large_image"@, x.large_image)
    &&& opt_str_member(node, "large_text"@, x.large_text)
    &&& opt_str_member(node, "small_image"@, x.small_image)
    &&& opt_str_member(node, "small_text"@, x.small_text)
    &&& forall|k: Seq<char>| #[trigger] jget(node, k) is Some ==> k == "large_image"@ || k == "large_text"@ || k
        == "small_image"@ || k == "small_text"@
}

fn assets_node(x: &crate::presence::ActivityAssets) -> (r: JsonValue)
    ensures
        assets_node_ok(r, *x),
{
    proof {
        reveal_strlit("large_image");
        assert("large_image"@ =~= seq!['l', 'a', 'r', 'g', 'e', '_', 'i', 'm', 'a', 'g', 'e']);
        reveal_strlit("large_text");
        assert("large_text"@ =~= seq!['l', 'a', 'r', 'g', 'e', '_', 't', 'e', 'x', 't']);
        reveal_strlit("small_image");
        assert("small_image"@ =~= seq!['s', 'm', 'a', 'l', 'l', '_', 'i', 'm', 'a', 'g', 'e']);
        reveal_strlit("small_text");
        assert("small_text"@ =~= seq!['s', 'm', 'a', 'l', 'l', '_', 't', 'e', 'x', 't']);
    }
    let e = empty_object();
    let node = opt_insert_str(e, "large_image", &x.large_image);
    let node = opt_insert_str(node, "large_text", &x.large_text);
    let node = opt_insert_str(node, "small_image", &x.small_image);
    opt_insert_str(node, "small_text", &x.small_text)
}

pub open spec fn party_node_ok(node: JsonValue, p: crate::presence::ActivityParty) -> bool {
    &&& has_keys(node, with_key_if(with_key_if(Set::empty(), "id"@, p.id is Some), "size"@, p.size is Some))
    &&& opt_str_member(node, "id"@, p.id)
    &&& (p.size matches Some((current, max)) ==> jget(node, "size"@) matches Some(JsonValue::Array(pair))
        && pair@.len() == 2 && ju64(pair@[0]) == Some(current) && ju64(pair@[1]) == Some(max))
}

fn party_node(p: &crate::presence::ActivityParty) -> (r: JsonValue)
    ensures
        party_node_ok(r, *p),
{
    proof {
        reveal_strlit("id");
        assert("id"@ =~= seq!['i', 'd']);
        reveal_strlit("size");
        assert("size"@ =~= seq!['s', 'i', 'z', 'e']);
    }
    let node = opt_insert_str(empty_object(), "id", &p.id);
    match p.size {
        Some((current, max)) => {
            let mut pair: Vec<JsonValue> = Vec::new();
            pair.push(json_u64(current));
            pair.push(json_u64(max));
            insert_member(node, "size", JsonValue::Array(pair))
        },
        None => node,
    }
}

/// The buttons as two parallel lists: labels, and the URLs under
/// `metadata.button_urls`.
fn buttons_json(a: &ActivityInfo) -> (r: (JsonValue, JsonValue))
    ensures
        is_string_array(r.0, button_labels(*a)),
        has_keys(r.1, set!["button_urls"@]),
        is_string_array(jget(r.1, "button_urls"@).unwrap(), button_urls(*a)),
{
    let mut labels: Vec<&str> = Vec::new();
    let mut urls: Vec<&str> = Vec::new();
    let n = a.buttons.len();
    let mut i: usize = 0;
    while i < n
        invariant
            n == a.buttons@.len(),
            i <= n,
            labels@.len() == i,
            urls@.len() == i,
            forall|j: int| 0 <= j < i ==> (#[trigger] labels@[j])@ == a.buttons@[j].label@,
            forall|j: int| 0 <= j < i ==> (#[trigger] urls@[j])@ == a.buttons@[j].url@,
        decreases n - i,
    {
        labels.push(a.buttons[i].label.as_str());
        urls.push(a.buttons[i].url.as_str());
        i = i + 1;
    }
    proof {
        assert(labels@.map_values(|t: &str| t@) =~= button_labels(*a));
        assert(urls@.map_values(|t: &str| t@) =~= button_urls(*a));
    }
    let metadata = insert_member(empty_object(), "button_urls", strings_json(urls));
    (strings_json(labels), metadata)
}

/// The gateway form of one activity.
#[verifier::rlimit(40)]
pub fn activity_gateway_payload(a: &ActivityInfo) -> (r: JsonValue)
    ensures
        activity_payload_ok(r, *a),
{
    proof {
        reveal_strlit("name");
        assert("name"@ =~= seq!['n', 'a', 'm', 'e']);
        reveal_strlit("type");
        assert("type"@ =~= seq!['t', 'y', 'p', 'e']);
        reveal_strlit("details");
        assert("details"@ =~= seq!['d', 'e', 't', 'a', 'i', 'l', 's']);
        reveal_strlit("state");
        assert("state"@ =~= seq!['s', 't', 'a', 't', 'e']);
        reveal_strlit("url");
        assert("url"@ =~= seq!['u', 'r', 'l']);
        reveal_strlit("emoji");
        assert("emoji"@ =~= seq!['e', 'm', 'o', 'j', 'i']);
        reveal_strlit("application_id");
        assert("application_id"@ =~= seq!['a', 'p', 'p', 'l', 'i', 'c', 'a', 't', 'i', 'o', 'n', '_', 'i', 'd']);
        reveal_strlit("timestamps");
        assert("timestamps"@ =~= seq!['t', 'i', 'm', 'e', 's', 't', 'a', 'm', 'p', 's']);
        reveal_strlit("assets");
        assert("assets"@ =~= seq!['a', 's', 's', 'e', 't', 's']);
        reveal_strlit("party");
        assert("party"@ =~= seq!['p', 'a', 'r', 't', 'y']);
        reveal_strlit("buttons");
        assert("buttons"@ =~= seq!['b', 'u', 't', 't', 'o', 'n', 's']);
        reveal_strlit("metadata");
        assert("metadata"@ =~= seq!['m', 'e', 't', 'a', 'd', 'a', 't', 'a']);
    }
    let v = insert_member(empty_object(), "name", json_string(a.name.as_str()));
    let v = insert_member(v, "type", json_u64(a.kind.gateway_code()));
    let v = opt_insert_str(v, "details", &a.details);
    let v = opt_insert_str(v, "state", &a.state);
    let v = opt_insert_str(v, "url", &a.url);
    let v = match &a.emoji {
        Some(e) => insert_member(v, "emoji", emoji_node(e)),
        None => v,
    };
    let v = opt_insert_str(v, "application_id", &a.application_id);
    let v = match &a.timestamps {
        Some(t) => insert_member(v, "timestamps", timestamps_node(t)),
        None => v,
    };
    let v = match &a.assets {
        Some(x) => insert_member(v, "assets", assets_node(x)),
        None => v,
    };
    let v = match &a.party {
        Some(p) => insert_member(v, "party", party_node(p)),
        None => v,
    };
    if a.buttons.len() > 0 {
        let (labels, metadata) = buttons_json(a);
        let v = insert_member(v, "buttons", labels);
        insert_member(v, "metadata", metadata)
    } else {
        v
    }
}

pub open spec fn presence_update_payload_ok(r: JsonValue, status: PresenceStatus, activities: Seq<ActivityInfo>) -> bool {
    &&& (is_frame(r, 3))
    &&& (has_keys(frame_data(r), set!["since"@, "activities"@, "status"@, "afk"@]))
    &&& (field_u64(frame_data(r), "since"@) == Some(0u64))
    &&& (field_str(frame_data(r), "status"@) == Some(gateway_status_spec(status)@))
    &&& (field_bool(frame_data(r), "afk"@) == Some(false))
    &&& (jget(frame_data(r), "activities"@) matches Some(JsonValue::Array(items)) && items@.len() == activities.len()
            && forall|i: int| 0 <= i < items@.len() ==> activity_payload_ok(#[trigger] items@[i], activities[i]))
}

/// Sets the user's status and activities.
pub fn presence_update_payload(status: PresenceStatus, activities: &Vec<ActivityInfo>) -> (r: JsonValue)
    ensures
        presence_update_payload_ok(r, status, activities@),

{
    proof {
        reveal_strlit("activities");
        assert("activities"@ =~= seq!['a', 'c', 't', 'i', 'v', 'i', 't', 'i', 'e', 's']);
        reveal_strlit("afk");
        assert("afk"@ =~= seq!['a', 'f', 'k']);
        reveal_strlit("since");
        assert("since"@ =~= seq!['s', 'i', 'n', 'c', 'e']);
        reveal_strlit("status");
        assert("status"@ =~= seq!['s', 't', 'a', 't', 'u', 's']);
    }
    let mut items: Vec<JsonValue> = Vec::new();
    let n = activities.len();
    let mut i: usize = 0;
    while i < n
        invariant
            n == activities@.len(),
            i <= n,
            items@.len() == i,
            forall|j: int| 0 <= j < i ==> activity_payload_ok(#[trigger] items@[j], activities@[j]),
        decreases n - i,
    {
        items.push(activity_gateway_payload(&activities[i]));
        i = i + 1;
    }
    let d = insert_member(empty_object(), "since", json_u64(0));
    let d = insert_member(d, "activities", JsonValue::Array(items));
    let d = insert_member(d, "status", json_string(status.gateway_status()));
    let d = insert_member(d, "afk", json_bool(false));
    frame(3, d)
}

/// The `properties` of IDENTIFY: the browser fingerprint the session claims.
pub open spec fn identify_properties_ok(v: JsonValue, f: ClientFingerprint) -> bool {
    &&& has_keys(v, set!["os"@, "browser"@, "device"@, "system_locale"@, "browser_user_agent"@, "browser_version"@, "os_version"@, "referrer"@, "referring_domain"@, "referrer_current"@, "referring_domain_current"@, "release_channel"@, "client_build_number"@, "client_event_source"@])
    &&& field_str(v, "os"@) == Some(f.os@)
    &&& field_str(v, "browser"@) == Some(CLIENT_BROWSER@)
    &&& field_str(v, "device"@) == Some(Seq::<char>::empty())
    &&& field_str(v, "system_locale"@) == Some(f.system_locale@)
    &&& field_str(v, "browser_user_agent"@) == Some(f.user_agent@)
    &&& field_str(v, "browser_version"@) == Some(CLIENT_BROWSER_VERSION@)
    &&& field_str(v, "os_version"@) == Some(f.os_version@)
    &&& field_str(v, "referrer"@) == Some(Seq::<char>::empty())
    &&& field_str(v, "referring_domain"@) == Some(Seq::<char>::empty())
    &&& field_str(v, "referrer_current"@) == Some(Seq::<char>::empty())
    &&& field_str(v, "referring_domain_current"@) == Some(Seq::<char>::empty())
    &&& field_str(v, "release_channel"@) == Some("stable"@)
    &&& field_u64(v, "client_build_number"@) == Some(f.client_build_number)
    &&& jget(v, "client_event_source"@) == Some(JsonValue::Null)
}

#[verifier::rlimit(40)]
fn identify_properties(f: &ClientFingerprint) -> (r: JsonValue)
    ensures
        identify_properties_ok(r, *f),
{
    proof {
        reveal_strlit("browser");
        assert("browser"@ =~= seq!['b', 'r', 'o', 'w', 's', 'e', 'r']);
        reveal_strlit("browser_user_agent");
        assert("browser_user_agent"@ =~= seq!['b', 'r', 'o', 'w', 's', 'e', 'r', '_', 'u', 's', 'e', 'r', '_', 'a', 'g', 'e', 'n', 't']);
        reveal_strlit("browser_version");
        assert("browser_version"@ =~= seq!['b', 'r', 'o', 'w', 's', 'e', 'r', '_', 'v', 'e', 'r', 's', 'i', 'o', 'n']);
        reveal_strlit("client_build_number");
        assert("client_build_number"@ =~= seq!['c', 'l', 'i', 'e', 'n', 't', '_', 'b', 'u', 'i', 'l', 'd', '_', 'n', 'u', 'm', 'b', 'e', 'r']);
        reveal_strlit("client_event_source");
        assert("client_event_source"@ =~= seq!['c', 'l', 'i', 'e', 'n', 't', '_', 'e', 'v', 'e', 'n', 't', '_', 's', 'o', 'u', 'r', 'c', 'e']);
        reveal_strlit("device");
        assert("device"@ =~= seq!['d', 'e', 'v', 'i', 'c', 'e']);
        reveal_strlit("os");
        assert("os"@ =~= seq!['o', 's']);
        reveal_strlit("os_version");
        assert("os_version"@ =~= seq!['o', 's', '_', 'v', 'e', 'r', 's', 'i', 'o', 'n']);
        reveal_strlit("referrer");
        assert("referrer"@ =~= seq!['r', 'e', 'f', 'e', 'r', 'r', 'e', 'r']);
        reveal_strlit("referrer_current");
        assert("referrer_current"@ =~= seq!['r', 'e', 'f', 'e', 'r', 'r', 'e', 'r', '_', 'c', 'u', 'r', 'r', 'e', 'n', 't']);
        reveal_strlit("referring_domain");
        assert("referring_domain"@ =~= seq!['r', 'e', 'f', 'e', 'r', 'r', 'i', 'n', 'g', '_', 'd', 'o', 'm', 'a', 'i', 'n']);
        reveal_strlit("referring_domain_current");
        assert("referring_domain_current"@ =~= seq!['r', 'e', 'f', 'e', 'r', 'r', 'i', 'n', 'g', '_', 'd', 'o', 'm', 'a', 'i', 'n', '_', 'c', 'u', 'r', 'r', 'e', 'n', 't']);
        reveal_strlit("release_channel");
        assert("release_channel"@ =~= seq!['r', 'e', 'l', 'e', 'a', 's', 'e', '_', 'c', 'h', 'a', 'n', 'n', 'e', 'l']);
        reveal_strlit("stable");
        assert("stable"@ =~= seq!['s', 't', 'a', 'b', 'l', 'e']);
        reveal_strlit("system_locale");
        assert("system_locale"@ =~= seq!['s', 'y', 's', 't', 'e', 'm', '_', 'l', 'o', 'c', 'a', 'l', 'e']);
    }
    let v = insert_member(empty_object(), "os", json_string(f.os.as_str()));
    let v = insert_member(v, "browser", json_string(CLIENT_BROWSER));
    let v = insert_member(v, "device", JsonValue::Str(String::new()));
    let v = insert_member(v, "system_locale", json_string(f.system_locale.as_str()));
    let v = insert_member(v, "browser_user_agent", json_string(f.user_agent.as_str()));
    let v = insert_member(v, "browser_version", json_string(CLIENT_BROWSER_VERSION));
    let v = insert_member(v, "os_version", json_string(f.os_version.as_str()));
    let v = insert_member(v, "referrer", JsonValue::Str(String::new()));
    let v = insert_member(v, "referring_domain", JsonValue::Str(String::new()));
    let v = insert_member(v, "referrer_current", JsonValue::Str(String::new()));
    let v = insert_member(v, "referring_domain_current", JsonValue::Str(String::new()));
    let v = insert_member(v, "release_channel", json_string("stable"));
    let v = insert_member(v, "client_build_number", json_u64(f.client_build_number));
    insert_member(v, "client_event_source", JsonValue::Null)
}

/// The `client_state` of IDENTIFY: nothing cached yet.
pub open spec fn identify_client_state_ok(v: JsonValue) -> bool {
    &&& has_keys(v, set!["guild_versions"@, "highest_last_message_id"@, "read_state_version"@, "user_guild_settings_version"@, "user_settings_version"@, "private_channels_version"@, "api_code_version"@])
    &&& has_keys(jget(v, "guild_versions"@).unwrap(), Set::empty())
    &&& field_str(v, "highest_last_message_id"@) == Some("0"@)
    &&& field_u64(v, "read_state_version"@) == Some(0u64)
    &&& jget(v, "user_guild_settings_version"@) == Some(JsonValue::Number(JsonNumber::Negative(-1i64)))
    &&& jget(v, "user_settings_version"@) == Some(JsonValue::Number(JsonNumber::Negative(-1i64)))
    &&& field_str(v, "private_channels_version"@) == Some("0"@)
    &&& field_u64(v, "api_code_version"@) == Some(0u64)
}

fn identify_client_state() -> (r: JsonValue)
    ensures
        identify_client_state_ok(r),
{
    proof {
        reveal_strlit("0");
        assert("0"@ =~= seq!['0']);
        reveal_strlit("api_code_version");
        assert("api_code_version"@ =~= seq!['a', 'p', 'i', '_', 'c', 'o', 'd', 'e', '_', 'v', 'e', 'r', 's', 'i', 'o', 'n']);
        reveal_strlit("guild_versions");
        assert("guild_versions"@ =~= seq!['g', 'u', 'i', 'l', 'd', '_', 'v', 'e', 'r', 's', 'i', 'o', 'n', 's']);
        reveal_strlit("highest_last_message_id");
        assert("highest_last_message_id"@ =~= seq!['h', 'i', 'g', 'h', 'e', 's', 't', '_', 'l', 'a', 's', 't', '_', 'm', 'e', 's', 's', 'a', 'g', 'e', '_', 'i', 'd']);
        reveal_strlit("private_channels_version");
        assert("private_channels_version"@ =~= seq!['p', 'r', 'i', 'v', 'a', 't', 'e', '_', 'c', 'h', 'a', 'n', 'n', 'e', 'l', 's', '_', 'v', 'e', 'r', 's', 'i', 'o', 'n']);
        reveal_strlit("read_state_version");
        assert("read_state_version"@ =~= seq!['r', 'e', 'a', 'd', '_', 's', 't', 'a', 't', 'e', '_', 'v', 'e', 'r', 's', 'i', 'o', 'n']);
        reveal_strlit("user_guild_settings_version");
        assert("user_guild_settings_version"@ =~= seq!['u', 's', 'e', 'r', '_', 'g', 'u', 'i', 'l', 'd', '_', 's', 'e', 't', 't', 'i', 'n', 'g', 's', '_', 'v', 'e', 'r', 's', 'i', 'o', 'n']);
        reveal_strlit("user_settings_version");
        assert("user_settings_version"@ =~= seq!['u', 's', 'e', 'r', '_', 's', 'e', 't', 't', 'i', 'n', 'g', 's', '_', 'v', 'e', 'r', 's', 'i', 'o', 'n']);
    }
    let v = insert_member(empty_object(), "guild_versions", empty_object());
    let v = insert_member(v, "highest_last_message_id", json_string("0"));
    let v = insert_member(v, "read_state_version", json_u64(0));
    let v = insert_member(v, "user_guild_settings_version", JsonValue::Number(JsonNumber::Negative(-1)));
    let v = insert_member(v, "user_settings_version", JsonValue::Number(JsonNumber::Negative(-1)));
    let v = insert_member(v, "private_channels_version", json_string("0"));
    insert_member(v, "api_code_version", json_u64(0))
}

/// The initial presence of IDENTIFY: online, with no activity.
pub open spec fn identify_presence_ok(v: JsonValue) -> bool {
    &&& has_keys(v, set!["status"@, "since"@, "activities"@, "afk"@])
    &&& field_str(v, "status"@) == Some("online"@)
    &&& field_u64(v, "since"@) == Some(0u64)
    &&& jget(v, "activities"@) matches Some(JsonValue::Array(items)) && items@.len() == 0
    &&& field_bool(v, "afk"@) == Some(false)
}

fn identify_presence() -> (r: JsonValue)
    ensures
        identify_presence_ok(r),
{
    proof {
        reveal_strlit("activities");
        assert("activities"@ =~= seq!['a', 'c', 't', 'i', 'v', 'i', 't', 'i', 'e', 's']);
        reveal_strlit("afk");
        assert("afk"@ =~= seq!['a', 'f', 'k']);
        reveal_strlit("online");
        assert("online"@ =~= seq!['o', 'n', 'l', 'i', 'n', 'e']);
        reveal_strlit("since");
        assert("since"@ =~= seq!['s', 'i', 'n', 'c', 'e']);
        reveal_strlit("status");
        assert("status"@ =~= seq!['s', 't', 'a', 't', 'u', 's']);
    }
    let v = insert_member(empty_object(), "status", json_string(PresenceStatus::Online.gateway_status()));
    let v = insert_member(v, "since", json_u64(0));
    let v = insert_member(v, "activities", JsonValue::Array(Vec::new()));
    insert_member(v, "afk", json_bool(false))
}

/// Opens a session: the token, the user-account capabilities, the browser
/// fingerprint, an online presence, no compression and no cached state.
pub fn build_identify_payload(token: &str, fingerprint: &ClientFingerprint) -> (r: JsonValue)
    ensures
        is_frame(r, 2),
        has_keys(frame_data(r), set!["token"@, "capabilities"@, "properties"@, "presence"@, "compress"@, "client_state"@]),
        field_str(frame_data(r), "token"@) == Some(token@),
        field_u64(frame_data(r), "capabilities"@) == Some(USER_ACCOUNT_CAPABILITIES),
        identify_properties_ok(jget(frame_data(r), "properties"@).unwrap(), *fingerprint),
        identify_presence_ok(jget(frame_data(r), "presence"@).unwrap()),
        field_bool(frame_data(r), "compress"@) == Some(false),
        identify_client_state_ok(jget(frame_data(r), "client_state"@).unwrap()),
{
    proof {
        reveal_strlit("capabilities");
        assert("capabilities"@ =~= seq!['c', 'a', 'p', 'a', 'b', 'i', 'l', 'i', 't', 'i', 'e', 's']);
        reveal_strlit("client_state");
        assert("client_state"@ =~= seq!['c', 'l', 'i', 'e', 'n', 't', '_', 's', 't', 'a', 't', 'e']);
        reveal_strlit("compress");
        assert("compress"@ =~= seq!['c', 'o', 'm', 'p', 'r', 'e', 's', 's']);
        reveal_strlit("presence");
        assert("presence"@ =~= seq!['p', 'r', 'e', 's', 'e', 'n', 'c', 'e']);
        reveal_strlit("properties");
        assert("properties"@ =~= seq!['p', 'r', 'o', 'p', 'e', 'r', 't', 'i', 'e', 's']);
        reveal_strlit("token");
        assert("token"@ =~= seq!['t', 'o', 'k', 'e', 'n']);
    }
    let d = insert_member(empty_object(), "token", json_string(token));
    let d = insert_member(d, "capabilities", json_u64(USER_ACCOUNT_CAPABILITIES));
    let d = insert_member(d, "properties", identify_properties(fingerprint));
    let d = insert_member(d, "presence", identify_presence());
    let d = insert_member(d, "compress", json_bool(false));
    let d = insert_member(d, "client_state", identify_client_state());
    frame(2, d)
}

/// The frame a command becomes, when it is sent.
pub open spec fn command_payload_ok(command: GatewayCommand, r: JsonValue) -> bool {
    match command {
        GatewayCommand::RequestGuildMembers { guild_id, query, limit, presences, nonce } =>
            request_guild_members_payload_ok(
            r,
            guild_id@,
            query@,
            limit,
            presences,
            match nonce {
                Some(n) => Some(n@),
                None => None,
            },
        ),
        GatewayCommand::RequestGuildMembersByIds { guild_id, user_ids, presences } =>
            request_guild_members_by_ids_payload_ok(r, guild_id@, user_ids@, presences),
        GatewayCommand::SubscribeDirectMessage { channel_id } => direct_message_subscribe_payload_ok(r, channel_id@),
        GatewayCommand::SubscribeGuildChannel { guild_id, channel_id } => guild_channel_subscribe_payload_ok(
            r,
            guild_id@,
            channel_id@,
            seq![(0u32, 99u32)],
        ),
        GatewayCommand::UpdateMemberListSubscription { guild_id, channel_id, ranges } =>
            guild_channel_subscribe_payload_ok(r, guild_id@, channel_id@, ranges@),
        GatewayCommand::UpdateVoiceState { guild_id, channel_id, self_mute, self_deaf } =>
            voice_state_update_payload_ok(
            r,
            match guild_id {
                Some(g) => Some(g@),
                None => None,
            },
            match channel_id {
                Some(c) => Some(c@),
                None => None,
            },
            self_mute,
            self_deaf,
        ),
        GatewayCommand::UpdatePresence { status, activities } => presence_update_payload_ok(r, status, activities@),
        GatewayCommand::Shutdown => false,
    }
}

/// What a gateway command puts on the wire: nothing for a subscription the
/// connection already has (the deduper records what is sent) or for
/// shutting down, else its frame. A first channel subscription asks for the
/// first hundred members of the list.
pub fn command_payload(deduper: &mut SubscriptionDeduper, command: GatewayCommand) -> (r: Option<JsonValue>)
    ensures
        exists|b: bool| should_send_effect(*old(deduper), command, *final(deduper), b) && (r is Some <==> b
            && !(command is Shutdown)),
        match r {
            Some(v) => command_payload_ok(command, v),
            None => true,
        },
{
    let send = deduper.should_send(&command);
    if !send {
        return None;
    }
    match command {
        GatewayCommand::RequestGuildMembers { guild_id, query, limit, presences, nonce } => {
            let nonce_str = match &nonce {
                Some(n) => Some(n.as_str()),
                None => None,
            };
            Some(request_guild_members_payload(guild_id, query.as_str(), limit, presences, nonce_str))
        },
        GatewayCommand::RequestGuildMembersByIds { guild_id, user_ids, presences } => {
            Some(request_guild_members_by_ids_payload(guild_id, &user_ids, presences))
        },
        GatewayCommand::SubscribeDirectMessage { channel_id } => Some(direct_message_subscribe_payload(channel_id)),
        GatewayCommand::SubscribeGuildChannel { guild_id, channel_id } => {
            let mut ranges: Vec<(u32, u32)> = Vec::new();
            ranges.push((0, 99));
            proof {
                assert(ranges@ =~= seq![(0u32, 99u32)]);
            }
            Some(guild_channel_subscribe_payload(guild_id, channel_id, &ranges))
        },
        GatewayCommand::UpdateMemberListSubscription { guild_id, channel_id, ranges } => {
            Some(guild_channel_subscribe_payload(guild_id, channel_id, &ranges))
        },
        GatewayCommand::UpdateVoiceState { guild_id, channel_id, self_mute, self_deaf } => {
            Some(voice_state_update_payload(guild_id, channel_id, self_mute, self_deaf))
        },
        GatewayCommand::UpdatePresence { status, activities } => Some(presence_update_payload(status, &activities)),
        GatewayCommand::Shutdown => None,
    }
}

} // verus!
