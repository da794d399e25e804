//! Reading message payloads: embeds, and the message itself with its
//! author, attachments, mentions, reactions and references.
use vstd::prelude::*;

use crate::commands::ReactionEmoji;
use crate::avatar::{user_avatar_url, user_avatar_url_spec};
use crate::ids::{
    AttachmentMarker, ChannelMarker, EmojiMarker, GuildMarker, MessageMarker, RoleMarker, StickerMarker, UserMarker,
};
use crate::json::{
    deref_opt, field_bool, field_str, field_u64, get_bool, get_nested_string, get_nested_u64, get_str, get_string,
    get_u64, jget, jstr, nested_str, nested_u64, JsonValue,
};
use crate::message_info::{
    opt_string_view, AttachmentInfo, EmbedFieldInfo, EmbedInfo, MentionInfo, MessageInteractionInfo,
    MessageInfo, MessageKind, MessageReferenceInfo, MessageSnapshotInfo, PollAnswerInfo, PollInfo, ReactionInfo,
    ReplyInfo,
};
use crate::parse_channel::{
    display_name_from_parts, display_name_from_parts_or_unknown, display_name_or_unknown_spec, display_name_spec,
};
use crate::parse_common::{
    array_items, field_id, get_id, id_items, id_views, kept_items, lemma_filter_map_step, opt_id_view, parse_id_array,
    parse_list, seq_filter_map,
};
use crate::payload_rules::{embed_has_renderable_content, embed_renderable_spec};
use crate::events::MessageUpdateEventFields;
use crate::ids::Id;
use crate::message_info::AttachmentUpdate;
use crate::text::{parse_u64, parse_u8, parse_unsigned_spec, str_eq, str_trim, trim_spec};

verus! {

/// An embed field: its name and value, both strings.
pub open spec fn embed_field_spec(v: JsonValue) -> Option<(Seq<char>, Seq<char>)> {
    match (field_str(v, "name"@), field_str(v, "value"@)) {
        (Some(n), Some(val)) => Some((n, val)),
        _ => None,
    }
}

pub open spec fn embed_field_views(fields: Seq<EmbedFieldInfo>) -> Seq<(Seq<char>, Seq<char>)> {
    fields.map_values(|f: EmbedFieldInfo| (f.name@, f.value@))
}

/// The fields of an embed payload that parse.
pub open spec fn embed_fields_of(v: JsonValue) -> Seq<(Seq<char>, Seq<char>)> {
    seq_filter_map(array_items(jget(v, "fields"@)), |x: JsonValue| embed_field_spec(x))
}

/// A color that fits in 24 bits of an RGB value is kept; larger values are
/// not colors.
pub open spec fn color_spec(c: Option<u64>) -> Option<u32> {
    match c {
        Some(n) => if n <= u32::MAX {
            Some(n as u32)
        } else {
            None
        },
        None => None,
    }
}

/// `e` holds what the embed payload `v` says.
pub open spec fn embed_read_from(e: EmbedInfo, v: JsonValue) -> bool {
    &&& e.color == color_spec(field_u64(v, "color"@))
    &&& opt_string_view(e.provider_name) == nested_str(v, "provider"@, "name"@)
    &&& opt_string_view(e.author_name) == nested_str(v, "author"@, "name"@)
    &&& opt_string_view(e.title) == field_str(v, "title"@)
    &&& opt_string_view(e.description) == field_str(v, "description"@)
    &&& opt_string_view(e.timestamp) == field_str(v, "timestamp"@)
    &&& embed_field_views(e.fields@) == embed_fields_of(v)
    &&& opt_string_view(e.footer_text) == nested_str(v, "footer"@, "text"@)
    &&& opt_string_view(e.url) == field_str(v, "url"@)
    &&& opt_string_view(e.thumbnail_url) == nested_str(v, "thumbnail"@, "url"@)
    &&& opt_string_view(e.thumbnail_proxy_url) == nested_str(v, "thumbnail"@, "proxy_url"@)
    &&& e.thumbnail_width == nested_u64(v, "thumbnail"@, "width"@)
    &&& e.thumbnail_height == nested_u64(v, "thumbnail"@, "height"@)
    &&& opt_string_view(e.image_url) == nested_str(v, "image"@, "url"@)
    &&& opt_string_view(e.image_proxy_url) == nested_str(v, "image"@, "proxy_url"@)
    &&& e.image_width == nested_u64(v, "image"@, "width"@)
    &&& e.image_height == nested_u64(v, "image"@, "height"@)
    &&& opt_string_view(e.video_url) == nested_str(v, "video"@, "url"@)
}

/// The embed payload has something to show: a text, link or media part.
pub open spec fn embed_payload_renderable(v: JsonValue) -> bool {
    nested_str(v, "provider"@, "name"@) is Some || nested_str(v, "author"@, "name"@) is Some
        || field_str(v, "title"@) is Some || field_str(v, "description"@) is Some
        || field_str(v, "timestamp"@) is Some || embed_fields_of(v).len() > 0
        || nested_str(v, "footer"@, "text"@) is Some || field_str(v, "url"@) is Some
        || nested_str(v, "thumbnail"@, "url"@) is Some || nested_str(v, "image"@, "url"@) is Some
        || nested_str(v, "video"@, "url"@) is Some
}

/// Poll results arrive as an embed of this type; they are not shown as one.
pub open spec fn is_poll_result_embed(v: JsonValue) -> bool {
    field_str(v, "type"@) == Some("poll_result"@)
}

fn parse_embed_field(v: &JsonValue) -> (r: Option<EmbedFieldInfo>)
    ensures
        match r {
            Some(f) => embed_field_spec(*v) == Some((f.name@, f.value@)),
            None => embed_field_spec(*v) is None,
        },
{
    let name = match get_string(v, "name") {
        Some(n) => n,
        None => {
            return None;
        },
    };
    let value = match get_string(v, "value") {
        Some(x) => x,
        None => {
            return None;
        },
    };
    Some(EmbedFieldInfo { name, value })
}

fn parse_embed_fields(v: &JsonValue) -> (r: Vec<EmbedFieldInfo>)
    ensures
        embed_field_views(r@) == embed_fields_of(*v),
{
    let mut out: Vec<EmbedFieldInfo> = Vec::new();
    let ghost f = |x: JsonValue| embed_field_spec(x);
    let items = match v.get("fields") {
        Some(x) => match x.as_array() {
            Some(items) => items,
            None => {
                proof {
                    assert(embed_field_views(out@) =~= Seq::<(Seq<char>, Seq<char>)>::empty());
                }
                return out;
            },
        },
        None => {
            proof {
                assert(embed_field_views(out@) =~= Seq::<(Seq<char>, Seq<char>)>::empty());
            }
            return out;
        },
    };
    let n = items.len();
    let mut i: usize = 0;
    proof {
        assert(items@.subrange(0, 0) =~= Seq::<JsonValue>::empty());
        assert(embed_field_views(out@) =~= Seq::<(Seq<char>, Seq<char>)>::empty());
    }
    while i < n
        invariant
            n == items@.len(),
            i <= n,
            f == (|x: JsonValue| embed_field_spec(x)),
            embed_field_views(out@) == seq_filter_map(items@.subrange(0, i as int), f),
        decreases n - i,
    {
        proof {
            lemma_filter_map_step(items@, i as int, f);
        }
        let ghost before = out@;
        match parse_embed_field(&items[i]) {
            Some(field) => {
                out.push(field);
                proof {
                    assert(embed_field_views(out@) =~= embed_field_views(before).push((field.name@, field.value@)));
                }
            },
            None => {},
        }
        i = i + 1;
    }
    proof {
        assert(items@.subrange(0, n as int) =~= items@);
    }
    out
}

/// Reads one embed; a poll result, or an embed with nothing to show, gives
/// nothing.
pub fn parse_embed(v: &JsonValue) -> (r: Option<EmbedInfo>)
    ensures
        r is Some <==> !is_poll_result_embed(*v) && embed_payload_renderable(*v),
        match r {
            Some(e) => embed_read_from(e, *v),
            None => true,
        },
{
    let poll_result = match v.get("type") {
        Some(t) => match t.as_str() {
            Some(s) => str_eq(s, "poll_result"),
            None => false,
        },
        None => false,
    };
    if poll_result {
        proof {
            reveal_strlit("poll_result");
        }
        return None;
    }
    let color = match get_u64(v, "color") {
        Some(c) => if c <= 4_294_967_295u64 {
            Some(c as u32)
        } else {
            None
        },
        None => None,
    };
    let embed = EmbedInfo {
        color,
        provider_name: get_nested_string(v, "provider", "name"),
        author_name: get_nested_string(v, "author", "name"),
        title: get_string(v, "title"),
        description: get_string(v, "description"),
        timestamp: get_string(v, "timestamp"),
        fields: parse_embed_fields(v),
        footer_text: get_nested_string(v, "footer", "text"),
        url: get_string(v, "url"),
        thumbnail_url: get_nested_string(v, "thumbnail", "url"),
        thumbnail_proxy_url: get_nested_string(v, "thumbnail", "proxy_url"),
        thumbnail_width: get_nested_u64(v, "thumbnail", "width"),
        thumbnail_height: get_nested_u64(v, "thumbnail", "height"),
        image_url: get_nested_string(v, "image", "url"),
        image_proxy_url: get_nested_string(v, "image", "proxy_url"),
        image_width: get_nested_u64(v, "image", "width"),
        image_height: get_nested_u64(v, "image", "height"),
        video_url: get_nested_string(v, "video", "url"),
    };
    proof {
        reveal_strlit("poll_result");
        assert(embed_field_views(embed.fields@).len() == embed.fields@.len());
    }
    if embed_has_renderable_content(&embed) {
        Some(embed)
    } else {
        None
    }
}

/// The embed payloads of a message that are shown.
pub open spec fn embed_keep(x: JsonValue) -> bool {
    !is_poll_result_embed(x) && embed_payload_renderable(x)
}

/// `r` holds, in order, one embed read from each shown embed payload.
pub open spec fn embeds_read_from(r: Seq<EmbedInfo>, v: Option<JsonValue>) -> bool {
    &&& r.len() == kept_items(array_items(v), |x: JsonValue| embed_keep(x)).len()
    &&& forall|i: int| 0 <= i < r.len() ==> embed_read_from(
        #[trigger] r[i],
        kept_items(array_items(v), |x: JsonValue| embed_keep(x))[i],
    )
}

pub fn parse_embeds(v: Option<&JsonValue>) -> (r: Vec<EmbedInfo>)
    ensures
        embeds_read_from(r@, deref_opt(v)),
{
    parse_list(
        v,
        parse_embed,
        Ghost(|x: JsonValue| embed_keep(x)),
        Ghost(|e: EmbedInfo, x: JsonValue| embed_read_from(e, x)),
    )
}

/// An attachment: an id, a file name, and a URL or proxy URL; the proxy
/// URL defaults to the URL.
pub open spec fn attachment_keep(v: JsonValue) -> bool {
    &&& (field_str(v, "url"@) is Some || field_str(v, "proxy_url"@) is Some)
    &&& field_id(v, "id"@) is Some
    &&& field_str(v, "filename"@) is Some
}

pub open spec fn attachment_read_from(a: AttachmentInfo, v: JsonValue) -> bool {
    let url = match field_str(v, "url"@) {
        Some(u) => u,
        None => field_str(v, "proxy_url"@).unwrap(),
    };
    &&& field_id(v, "id"@) == Some(a.id@)
    &&& field_str(v, "filename"@) == Some(a.filename@)
    &&& a.url@ == url
    &&& a.proxy_url@ == match field_str(v, "proxy_url"@) {
        Some(p) => p,
        None => url,
    }
    &&& opt_string_view(a.content_type) == field_str(v, "content_type"@)
    &&& a.size == match field_u64(v, "size"@) {
        Some(n) => n,
        None => 0,
    }
    &&& a.width == field_u64(v, "width"@)
    &&& a.height == field_u64(v, "height"@)
    &&& opt_string_view(a.description) == field_str(v, "description"@)
}

fn parse_attachment(v: &JsonValue) -> (r: Option<AttachmentInfo>)
    ensures
        r is Some <==> attachment_keep(*v),
        match r {
            Some(a) => attachment_read_from(a, *v),
            None => true,
        },
{
    let url = match get_str(v, "url") {
        Some(u) => u.to_owned(),
        None => match get_str(v, "proxy_url") {
            Some(p) => p.to_owned(),
            None => {
                return None;
            },
        },
    };
    let proxy_url = match get_str(v, "proxy_url") {
        Some(p) => p.to_owned(),
        None => url.clone(),
    };
    let id = match get_id::<AttachmentMarker>(v, "id") {
        Some(id) => id,
        None => {
            return None;
        },
    };
    let filename = match get_string(v, "filename") {
        Some(f) => f,
        None => {
            return None;
        },
    };
    let size = match get_u64(v, "size") {
        Some(n) => n,
        None => 0,
    };
    Some(
        AttachmentInfo {
            id,
            filename,
            url,
            proxy_url,
            content_type: get_string(v, "content_type"),
            size,
            width: get_u64(v, "width"),
            height: get_u64(v, "height"),
            description: get_string(v, "description"),
        },
    )
}

pub open spec fn attachments_read_from(r: Seq<AttachmentInfo>, v: Option<JsonValue>) -> bool {
    &&& r.len() == kept_items(array_items(v), |x: JsonValue| attachment_keep(x)).len()
    &&& forall|i: int| 0 <= i < r.len() ==> attachment_read_from(
        #[trigger] r[i],
        kept_items(array_items(v), |x: JsonValue| attachment_keep(x))[i],
    )
}

pub fn parse_attachments(v: Option<&JsonValue>) -> (r: Vec<AttachmentInfo>)
    ensures
        attachments_read_from(r@, deref_opt(v)),
{
    parse_list(
        v,
        parse_attachment,
        Ghost(|x: JsonValue| attachment_keep(x)),
        Ghost(|a: AttachmentInfo, x: JsonValue| attachment_read_from(a, x)),
    )
}

/// A mention's server nickname.
pub open spec fn mention_nick(v: JsonValue) -> Option<Seq<char>> {
    nested_str(v, "member"@, "nick"@)
}

pub open spec fn mention_name(v: JsonValue) -> Option<Seq<char>> {
    display_name_spec(mention_nick(v), field_str(v, "global_name"@), field_str(v, "username"@))
}

/// A mention needs a user id and a name to show.
pub open spec fn mention_keep(v: JsonValue) -> bool {
    field_id(v, "id"@) is Some && mention_name(v) is Some
}

pub open spec fn mention_read_from(m: MentionInfo, v: JsonValue) -> bool {
    &&& field_id(v, "id"@) == Some(m.user_id@)
    &&& mention_name(v) == Some(m.display_name@)
    &&& opt_string_view(m.guild_nick) == match mention_nick(v) {
        Some(n) => if n.len() > 0 {
            Some(n)
        } else {
            None
        },
        None => None,
    }
}

fn parse_mention_info(v: &JsonValue) -> (r: Option<MentionInfo>)
    ensures
        r is Some <==> mention_keep(*v),
        match r {
            Some(m) => mention_read_from(m, *v),
            None => true,
        },
{
    let user_id = match get_id::<UserMarker>(v, "id") {
        Some(id) => id,
        None => {
            return None;
        },
    };
    let nick = match v.get("member") {
        Some(m) => get_str(m, "nick"),
        None => None,
    };
    let display_name = match display_name_from_parts(nick, get_str(v, "global_name"), get_str(v, "username")) {
        Some(n) => n.to_owned(),
        None => {
            return None;
        },
    };
    let guild_nick = match nick {
        Some(n) => if n.unicode_len() > 0 {
            Some(n.to_owned())
        } else {
            None
        },
        None => None,
    };
    Some(MentionInfo { user_id, guild_nick, display_name })
}

pub open spec fn mentions_read_from(r: Seq<MentionInfo>, v: Option<JsonValue>) -> bool {
    &&& r.len() == kept_items(array_items(v), |x: JsonValue| mention_keep(x)).len()
    &&& forall|i: int| 0 <= i < r.len() ==> mention_read_from(
        #[trigger] r[i],
        kept_items(array_items(v), |x: JsonValue| mention_keep(x))[i],
    )
}

pub fn parse_mentions(v: Option<&JsonValue>) -> (r: Vec<MentionInfo>)
    ensures
        mentions_read_from(r@, deref_opt(v)),
{
    parse_list(
        v,
        parse_mention_info,
        Ghost(|x: JsonValue| mention_keep(x)),
        Ghost(|m: MentionInfo, x: JsonValue| mention_read_from(m, x)),
    )
}

/// A reaction emoji: a custom one when it has an id, else a non-empty
/// Unicode name.
pub open spec fn reaction_emoji_keep(v: JsonValue) -> bool {
    field_id(v, "id"@) is Some || (field_str(v, "name"@) matches Some(n) && n.len() > 0)
}

pub open spec fn reaction_emoji_read_from(e: ReactionEmoji, v: JsonValue) -> bool {
    match field_id(v, "id"@) {
        Some(id) => e matches ReactionEmoji::Custom { id: eid, name, animated } && eid@ == id
            && opt_string_view(name) == field_str(v, "name"@) && animated == (field_bool(v, "animated"@) == Some(true)),
        None => e matches ReactionEmoji::Unicode(n) && field_str(v, "name"@) == Some(n@),
    }
}

pub fn parse_reaction_emoji(v: &JsonValue) -> (r: Option<ReactionEmoji>)
    ensures
        r is Some <==> reaction_emoji_keep(*v),
        match r {
            Some(e) => reaction_emoji_read_from(e, *v),
            None => true,
        },
{
    if let Some(id) = get_id::<EmojiMarker>(v, "id") {
        let animated = match get_bool(v, "animated") {
            Some(b) => b,
            None => false,
        };
        return Some(ReactionEmoji::Custom { id, name: get_string(v, "name"), animated });
    }
    match get_str(v, "name") {
        Some(n) => if n.unicode_len() > 0 {
            Some(ReactionEmoji::Unicode(n.to_owned()))
        } else {
            None
        },
        None => None,
    }
}

pub open spec fn reaction_keep(v: JsonValue) -> bool {
    jget(v, "emoji"@) matches Some(e) && reaction_emoji_keep(e)
}

pub open spec fn reaction_read_from(r: ReactionInfo, v: JsonValue) -> bool {
    &&& jget(v, "emoji"@) matches Some(e) && reaction_emoji_read_from(r.emoji, e)
    &&& r.count == match field_u64(v, "count"@) {
        Some(n) => n,
        None => 0,
    }
    &&& r.me == (field_bool(v, "me"@) == Some(true))
}

fn parse_reaction_info(v: &JsonValue) -> (r: Option<ReactionInfo>)
    ensures
        r is Some <==> reaction_keep(*v),
        match r {
            Some(x) => reaction_read_from(x, *v),
            None => true,
        },
{
    let emoji = match v.get("emoji") {
        Some(e) => match parse_reaction_emoji(e) {
            Some(x) => x,
            None => {
                return None;
            },
        },
        None => {
            return None;
        },
    };
    let count = match get_u64(v, "count") {
        Some(n) => n,
        None => 0,
    };
    let me = match get_bool(v, "me") {
        Some(b) => b,
        None => false,
    };
    Some(ReactionInfo { emoji, count, me })
}

pub open spec fn reactions_read_from(r: Seq<ReactionInfo>, v: Option<JsonValue>) -> bool {
    &&& r.len() == kept_items(array_items(v), |x: JsonValue| reaction_keep(x)).len()
    &&& forall|i: int| 0 <= i < r.len() ==> reaction_read_from(
        #[trigger] r[i],
        kept_items(array_items(v), |x: JsonValue| reaction_keep(x))[i],
    )
}

pub fn parse_reactions(v: Option<&JsonValue>) -> (r: Vec<ReactionInfo>)
    ensures
        reactions_read_from(r@, deref_opt(v)),
{
    parse_list(
        v,
        parse_reaction_info,
        Ghost(|x: JsonValue| reaction_keep(x)),
        Ghost(|m: ReactionInfo, x: JsonValue| reaction_read_from(m, x)),
    )
}

/// A sticker item contributes its name when it has an id and a name.
pub open spec fn sticker_keep(v: JsonValue) -> bool {
    field_id(v, "id"@) is Some && field_str(v, "name"@) is Some
}

fn parse_sticker_name(v: &JsonValue) -> (r: Option<String>)
    ensures
        r is Some <==> sticker_keep(*v),
        match r {
            Some(n) => field_str(*v, "name"@) == Some(n@),
            None => true,
        },
{
    match get_id::<StickerMarker>(v, "id") {
        Some(_) => get_string(v, "name"),
        None => None,
    }
}

pub open spec fn sticker_names_read_from(r: Seq<String>, v: Option<JsonValue>) -> bool {
    &&& r.len() == kept_items(array_items(v), |x: JsonValue| sticker_keep(x)).len()
    &&& forall|i: int| 0 <= i < r.len() ==> field_str(
        kept_items(array_items(v), |x: JsonValue| sticker_keep(x))[i],
        "name"@,
    ) == Some((#[trigger] r[i])@)
}

pub fn parse_sticker_names(v: Option<&JsonValue>) -> (r: Vec<String>)
    ensures
        sticker_names_read_from(r@, deref_opt(v)),
{
    parse_list(
        v,
        parse_sticker_name,
        Ghost(|x: JsonValue| sticker_keep(x)),
        Ghost(|n: String, x: JsonValue| field_str(x, "name"@) == Some(n@)),
    )
}

pub open spec fn reference_read_from(r: MessageReferenceInfo, v: JsonValue) -> bool {
    &&& opt_id_view(r.guild_id) == field_id(v, "guild_id"@)
    &&& opt_id_view(r.channel_id) == field_id(v, "channel_id"@)
    &&& opt_id_view(r.message_id) == field_id(v, "message_id"@)
}

fn parse_message_reference_info(v: &JsonValue) -> (r: MessageReferenceInfo)
    ensures
        reference_read_from(r, *v),
{
    MessageReferenceInfo {
        guild_id: get_id::<GuildMarker>(v, "guild_id"),
        channel_id: get_id::<ChannelMarker>(v, "channel_id"),
        message_id: get_id::<MessageMarker>(v, "message_id"),
    }
}

/// The name shown for a message's author: the member nickname the message
/// carries, then the author's global name, then the username.
pub open spec fn author_name_spec(message: JsonValue, author: JsonValue) -> Seq<char> {
    display_name_or_unknown_spec(
        nested_str(message, "member"@, "nick"@),
        field_str(author, "global_name"@),
        field_str(author, "username"@),
    )
}

fn message_author_display_name(message: &JsonValue, author: &JsonValue) -> (r: String)
    ensures
        r@ == author_name_spec(*message, *author),
{
    let nick = match message.get("member") {
        Some(m) => get_str(m, "nick"),
        None => None,
    };
    display_name_from_parts_or_unknown(nick, get_str(author, "global_name"), get_str(author, "username"))
}

/// The user an interaction came from: the newer `interaction_metadata`
/// first, then the legacy `interaction`.
pub open spec fn interaction_user(data: JsonValue) -> Option<JsonValue> {
    match jget(data, "interaction_metadata"@) {
        Some(m) if jget(m, "user"@) is Some => jget(m, "user"@),
        _ => match jget(data, "interaction"@) {
            Some(l) => jget(l, "user"@),
            None => None,
        },
    }
}

/// The command name: the legacy `interaction.name` member when present,
/// else `interaction_metadata.name`; kept when it is a string with more than
/// white space.
pub open spec fn interaction_command_name(data: JsonValue) -> Option<Seq<char>> {
    let raw = match jget(data, "interaction"@) {
        Some(l) if jget(l, "name"@) is Some => jget(l, "name"@),
        _ => match jget(data, "interaction_metadata"@) {
            Some(m) => jget(m, "name"@),
            None => None,
        },
    };
    match raw {
        Some(x) => match jstr(x) {
            Some(n) => if trim_spec(n).len() > 0 {
                Some(n)
            } else {
                None
            },
            None => None,
        },
        None => None,
    }
}

pub open spec fn interaction_read_from(i: MessageInteractionInfo, data: JsonValue) -> bool {
    let user = interaction_user(data).unwrap();
    &&& opt_id_view(i.user_id) == field_id(user, "id"@)
    &&& i.user@ == display_name_or_unknown_spec(None, field_str(user, "global_name"@), field_str(user, "username"@))
    &&& opt_string_view(i.command_name) == interaction_command_name(data)
}

fn get_member<'a>(v: Option<&'a JsonValue>, key: &str) -> (r: Option<&'a JsonValue>)
    ensures
        deref_opt(r) == match deref_opt(v) {
            Some(x) => jget(x, key@),
            None => None,
        },
{
    match v {
        Some(x) => x.get(key),
        None => None,
    }
}

fn parse_message_interaction_info(data: &JsonValue) -> (r: Option<MessageInteractionInfo>)
    ensures
        r is Some <==> interaction_user(*data) is Some,
        match r {
            Some(i) => interaction_read_from(i, *data),
            None => true,
        },
{
    let legacy = data.get("interaction");
    let metadata = data.get("interaction_metadata");
    let user = match get_member(metadata, "user") {
        Some(u) => u,
        None => match get_member(legacy, "user") {
            Some(u) => u,
            None => {
                return None;
            },
        },
    };
    let raw_name = match get_member(legacy, "name") {
        Some(n) => Some(n),
        None => get_member(metadata, "name"),
    };
    let command_name = match raw_name {
        Some(x) => match x.as_str() {
            Some(n) => if str_trim(n).unicode_len() > 0 {
                Some(n.to_owned())
            } else {
                None
            },
            None => None,
        },
        None => None,
    };
    Some(
        MessageInteractionInfo {
            user_id: get_id::<UserMarker>(user, "id"),
            user: display_name_from_parts_or_unknown(None, get_str(user, "global_name"), get_str(user, "username")),
            command_name,
        },
    )
}

/// The message a reply points at, as the reply preview shows it: it needs an
/// author; empty content counts as none.
pub open spec fn reply_keep(v: JsonValue) -> bool {
    !(v is Null) && jget(v, "author"@) is Some
}

pub open spec fn reply_read_from(r: ReplyInfo, v: JsonValue) -> bool {
    let author = jget(v, "author"@).unwrap();
    &&& opt_id_view(r.author_id) == field_id(author, "id"@)
    &&& r.author@ == author_name_spec(v, author)
    &&& opt_string_view(r.content) == match field_str(v, "content"@) {
        Some(c) => if c.len() > 0 {
            Some(c)
        } else {
            None
        },
        None => None,
    }
    &&& sticker_names_read_from(r.sticker_names@, jget(v, "sticker_items"@))
    &&& mentions_read_from(r.mentions@, jget(v, "mentions"@))
}

fn parse_reply_info(v: &JsonValue) -> (r: Option<ReplyInfo>)
    ensures
        r is Some <==> reply_keep(*v),
        match r {
            Some(x) => reply_read_from(x, *v),
            None => true,
        },
{
    if v.is_null() {
        return None;
    }
    let author = match v.get("author") {
        Some(a) => a,
        None => {
            return None;
        },
    };
    let content = match get_str(v, "content") {
        Some(c) => if c.unicode_len() > 0 {
            Some(c.to_owned())
        } else {
            None
        },
        None => None,
    };
    Some(
        ReplyInfo {
            author_id: get_id::<UserMarker>(author, "id"),
            author: message_author_display_name(v, author),
            content,
            sticker_names: parse_sticker_names(v.get("sticker_items")),
            mentions: parse_mentions(v.get("mentions")),
        },
    )
}

/// A forwarded message snapshot is kept when it shows something: text,
/// stickers, attachments or embeds, or when it knows its source or time.
pub open spec fn snapshot_keep(v: JsonValue, source: Option<u64>) -> bool {
    jget(v, "message"@) matches Some(m) && {
        ||| field_str(m, "content"@) matches Some(c) && c.len() > 0
        ||| kept_items(array_items(jget(m, "sticker_items"@)), |x: JsonValue| sticker_keep(x)).len() > 0
        ||| kept_items(array_items(jget(m, "attachments"@)), |x: JsonValue| attachment_keep(x)).len() > 0
        ||| kept_items(array_items(jget(m, "embeds"@)), |x: JsonValue| embed_keep(x)).len() > 0
        ||| source is Some
        ||| field_str(m, "timestamp"@) is Some
    }
}

pub open spec fn snapshot_read_from(s: MessageSnapshotInfo, v: JsonValue, source: Option<u64>) -> bool {
    let m = jget(v, "message"@).unwrap();
    &&& opt_string_view(s.content) == field_str(m, "content"@)
    &&& sticker_names_read_from(s.sticker_names@, jget(m, "sticker_items"@))
    &&& mentions_read_from(s.mentions@, jget(m, "mentions"@))
    &&& attachments_read_from(s.attachments@, jget(m, "attachments"@))
    &&& embeds_read_from(s.embeds@, jget(m, "embeds"@))
    &&& opt_id_view(s.source_channel_id) == source
    &&& opt_string_view(s.timestamp) == field_str(m, "timestamp"@)
}

fn parse_message_snapshot(v: &JsonValue, source_channel_id: Option<Id<ChannelMarker>>) -> (r: Option<
    MessageSnapshotInfo,
>)
    ensures
        r is Some <==> snapshot_keep(*v, opt_id_view(source_channel_id)),
        match r {
            Some(s) => snapshot_read_from(s, *v, opt_id_view(source_channel_id)),
            None => true,
        },
{
    let message = match v.get("message") {
        Some(m) => m,
        None => {
            return None;
        },
    };
    let content = get_string(message, "content");
    let sticker_names = parse_sticker_names(message.get("sticker_items"));
    let attachments = parse_attachments(message.get("attachments"));
    let embeds = parse_embeds(message.get("embeds"));
    let mentions = parse_mentions(message.get("mentions"));
    let timestamp = get_string(message, "timestamp");
    let has_content = match &content {
        Some(c) => c.unicode_len() > 0,
        None => false,
    };
    if has_content || sticker_names.len() > 0 || attachments.len() > 0 || embeds.len() > 0
        || source_channel_id.is_some() || timestamp.is_some() {
        Some(
            MessageSnapshotInfo {
                content,
                sticker_names,
                mentions,
                attachments,
                embeds,
                source_channel_id,
                timestamp,
            },
        )
    } else {
        None
    }
}

pub open spec fn snapshots_read_from(r: Seq<MessageSnapshotInfo>, v: Option<JsonValue>, source: Option<u64>) -> bool {
    &&& r.len() == kept_items(array_items(v), |x: JsonValue| snapshot_keep(x, source)).len()
    &&& forall|i: int| 0 <= i < r.len() ==> snapshot_read_from(
        #[trigger] r[i],
        kept_items(array_items(v), |x: JsonValue| snapshot_keep(x, source))[i],
        source,
    )
}

fn parse_message_snapshots(v: Option<&JsonValue>, source_channel_id: Option<Id<ChannelMarker>>) -> (r: Vec<
    MessageSnapshotInfo,
>)
    ensures
        snapshots_read_from(r@, deref_opt(v), opt_id_view(source_channel_id)),
{
    let ghost source = opt_id_view(source_channel_id);
    let read = |x: &JsonValue| -> (o: Option<MessageSnapshotInfo>)
        ensures
            o is Some <==> snapshot_keep(*x, source),
            match o {
                Some(s) => snapshot_read_from(s, *x, source),
                None => true,
            },
        { parse_message_snapshot(x, source_channel_id) };
    parse_list(
        v,
        read,
        Ghost(|x: JsonValue| snapshot_keep(x, source)),
        Ghost(|s: MessageSnapshotInfo, x: JsonValue| snapshot_read_from(s, x, source)),
    )
}

/// The first vote count entry of an answer.
pub open spec fn first_count_entry(items: Seq<JsonValue>, answer_id: u64) -> Option<JsonValue>
    decreases items.len(),
{
    if items.len() == 0 {
        None
    } else if field_u64(items[0], "id"@) == Some(answer_id) {
        Some(items[0])
    } else {
        first_count_entry(items.drop_first(), answer_id)
    }
}

pub open spec fn answer_counts(results: Option<JsonValue>) -> Option<Seq<JsonValue>> {
    match results {
        Some(r) => match jget(r, "answer_counts"@) {
            Some(JsonValue::Array(items)) => Some(items@),
            _ => None,
        },
        None => None,
    }
}

/// An answer's vote count and whether the current user voted for it, from
/// the poll results; absent fields read as zero and no.
pub open spec fn answer_count_spec(results: Option<JsonValue>, answer_id: u8) -> Option<(u64, bool)> {
    match answer_counts(results) {
        Some(items) => match first_count_entry(items, answer_id as u64) {
            Some(e) => Some(
                (
                    match field_u64(e, "count"@) {
                        Some(n) => n,
                        None => 0,
                    },
                    field_bool(e, "me_voted"@) == Some(true),
                ),
            ),
            None => None,
        },
        None => None,
    }
}

fn poll_answer_count(results: Option<&JsonValue>, answer_id: u8) -> (r: Option<(u64, bool)>)
    ensures
        r == answer_count_spec(deref_opt(results), answer_id),
{
    let items = match results {
        Some(x) => match x.get("answer_counts") {
            Some(JsonValue::Array(items)) => items,
            _ => {
                return None;
            },
        },
        None => {
            return None;
        },
    };
    let n = items.len();
    let mut i: usize = 0;
    proof {
        assert(items@.subrange(0, n as int) =~= items@);
    }
    while i < n
        invariant
            n == items@.len(),
            i <= n,
            answer_counts(deref_opt(results)) == Some(items@),
            first_count_entry(items@.subrange(i as int, n as int), answer_id as u64) == first_count_entry(
                items@,
                answer_id as u64,
            ),
        decreases n - i,
    {
        proof {
            assert(items@.subrange(i as int, n as int).drop_first() =~= items@.subrange(i + 1, n as int));
        }
        let e = &items[i];
        if get_u64(e, "id") == Some(answer_id as u64) {
            proof {
                assert(items@.subrange(i as int, n as int)[0] == items@[i as int]);
            }
            let count = match get_u64(e, "count") {
                Some(c) => c,
                None => 0,
            };
            let me = match get_bool(e, "me_voted") {
                Some(b) => b,
                None => false,
            };
            return Some((count, me));
        }
        i = i + 1;
    }
    None
}

/// The sum of the vote counts listed.
pub open spec fn counts_sum(items: Seq<JsonValue>) -> int
    decreases items.len(),
{
    if items.len() == 0 {
        0
    } else {
        counts_sum(items.drop_last()) + match field_u64(items.last(), "count"@) {
            Some(n) => n as int,
            None => 0,
        }
    }
}

/// All votes cast: the counts added up, wrapping past the largest `u64`.
pub open spec fn total_votes_spec(results: Option<JsonValue>) -> Option<u64> {
    match answer_counts(results) {
        Some(items) => Some((counts_sum(items) % 0x1_0000_0000_0000_0000) as u64),
        None => None,
    }
}

fn total_votes(results: Option<&JsonValue>) -> (r: Option<u64>)
    ensures
        r == total_votes_spec(deref_opt(results)),
{
    let items = match results {
        Some(x) => match x.get("answer_counts") {
            Some(JsonValue::Array(items)) => items,
            _ => {
                return None;
            },
        },
        None => {
            return None;
        },
    };
    let n = items.len();
    let mut acc: u64 = 0;
    let mut i: usize = 0;
    proof {
        assert(items@.subrange(0, 0) =~= Seq::<JsonValue>::empty());
    }
    while i < n
        invariant
            n == items@.len(),
            i <= n,
            acc == counts_sum(items@.subrange(0, i as int)) % 0x1_0000_0000_0000_0000,
        decreases n - i,
    {
        let c = match get_u64(&items[i], "count") {
            Some(c) => c,
            None => 0,
        };
        proof {
            let pre = items@.subrange(0, i as int);
            assert(items@.subrange(0, i + 1).drop_last() =~= pre);
            assert(items@.subrange(0, i + 1).last() == items@[i as int]);
            let m: int = 0x1_0000_0000_0000_0000;
            vstd::arithmetic::div_mod::lemma_add_mod_noop(counts_sum(pre), c as int, m);
            vstd::arithmetic::div_mod::lemma_small_mod(c as nat, m as nat);
            if acc + c < m {
                vstd::arithmetic::div_mod::lemma_small_mod((acc + c) as nat, m as nat);
            } else {
                vstd::arithmetic::div_mod::lemma_mod_add_multiples_vanish(acc + c - m, m);
                vstd::arithmetic::div_mod::lemma_small_mod((acc + c - m) as nat, m as nat);
            }
        }
        acc = acc.wrapping_add(c);
        i = i + 1;
    }
    proof {
        assert(items@.subrange(0, n as int) =~= items@);
    }
    Some(acc)
}

/// A poll answer: a small answer id is needed; the text defaults to a
/// placeholder.
pub open spec fn poll_answer_keep(v: JsonValue) -> bool {
    field_u64(v, "answer_id"@) matches Some(n) && n <= 255
}

pub open spec fn poll_answer_text(v: JsonValue) -> Seq<char> {
    match nested_str(v, "poll_media"@, "text"@) {
        Some(t) => if t.len() > 0 {
            t
        } else {
            "<no answer text>"@
        },
        None => "<no answer text>"@,
    }
}

pub open spec fn poll_answer_read_from(a: PollAnswerInfo, v: JsonValue, results: Option<JsonValue>) -> bool {
    &&& field_u64(v, "answer_id"@) == Some(a.answer_id as u64)
    &&& a.text@ == poll_answer_text(v)
    &&& match answer_count_spec(results, a.answer_id) {
        Some((count, me)) => a.vote_count == Some(count) && a.me_voted == me,
        None => a.vote_count is None && !a.me_voted,
    }
}

fn parse_poll_answer_info(v: &JsonValue, results: Option<&JsonValue>) -> (r: Option<PollAnswerInfo>)
    ensures
        r is Some <==> poll_answer_keep(*v),
        match r {
            Some(a) => poll_answer_read_from(a, *v, deref_opt(results)),
            None => true,
        },
{
    let answer_id = match get_u64(v, "answer_id") {
        Some(n) => if n <= 255 {
            n as u8
        } else {
            return None;
        },
        None => {
            return None;
        },
    };
    let text = match get_nested_string(v, "poll_media", "text") {
        Some(t) => if t.unicode_len() > 0 {
            t
        } else {
            "<no answer text>".to_owned()
        },
        None => "<no answer text>".to_owned(),
    };
    let (vote_count, me_voted) = match poll_answer_count(results, answer_id) {
        Some((count, me)) => (Some(count), me),
        None => (None, false),
    };
    Some(PollAnswerInfo { answer_id, text, vote_count, me_voted })
}

/// A poll payload (not null): its question, answers, settings and results.
pub open spec fn poll_read_from(p: PollInfo, v: JsonValue) -> bool {
    let results = jget(v, "results"@);
    &&& p.question@ == match nested_str(v, "question"@, "text"@) {
        Some(t) => if t.len() > 0 {
            t
        } else {
            "<no question text>"@
        },
        None => "<no question text>"@,
    }
    &&& p.answers@.len() == kept_items(array_items(jget(v, "answers"@)), |x: JsonValue| poll_answer_keep(x)).len()
    &&& forall|i: int| 0 <= i < p.answers@.len() ==> poll_answer_read_from(
        #[trigger] p.answers@[i],
        kept_items(array_items(jget(v, "answers"@)), |x: JsonValue| poll_answer_keep(x))[i],
        results,
    )
    &&& p.allow_multiselect == (field_bool(v, "allow_multiselect"@) == Some(true))
    &&& p.results_finalized == match results {
        Some(r) => field_bool(r, "is_finalized"@),
        None => None,
    }
    &&& p.total_votes == total_votes_spec(results)
}

pub fn parse_poll_info(v: &JsonValue) -> (r: Option<PollInfo>)
    ensures
        r is Some <==> !(*v is Null),
        match r {
            Some(p) => poll_read_from(p, *v),
            None => true,
        },
{
    if v.is_null() {
        return None;
    }
    let question = match get_nested_string(v, "question", "text") {
        Some(t) => if t.unicode_len() > 0 {
            t
        } else {
            "<no question text>".to_owned()
        },
        None => "<no question text>".to_owned(),
    };
    let results = v.get("results");
    let read = |x: &JsonValue| -> (o: Option<PollAnswerInfo>)
        ensures
            o is Some <==> poll_answer_keep(*x),
            match o {
                Some(a) => poll_answer_read_from(a, *x, deref_opt(results)),
                None => true,
            },
        { parse_poll_answer_info(x, results) };
    let answers = parse_list(
        v.get("answers"),
        read,
        Ghost(|x: JsonValue| poll_answer_keep(x)),
        Ghost(|a: PollAnswerInfo, x: JsonValue| poll_answer_read_from(a, x, deref_opt(results))),
    );
    let allow_multiselect = match get_bool(v, "allow_multiselect") {
        Some(b) => b,
        None => false,
    };
    let results_finalized = match results {
        Some(r) => get_bool(r, "is_finalized"),
        None => None,
    };
    Some(
        PollInfo {
            question,
            answers,
            allow_multiselect,
            results_finalized,
            total_votes: total_votes(results),
        },
    )
}

/// The first poll-result embed of a list.
pub open spec fn first_poll_result(items: Seq<JsonValue>) -> Option<JsonValue>
    decreases items.len(),
{
    if items.len() == 0 {
        None
    } else if is_poll_result_embed(items[0]) {
        Some(items[0])
    } else {
        first_poll_result(items.drop_first())
    }
}

/// What the fields of a poll-result embed say: the question, the winning
/// answer's id, text and votes, and the total votes. A later field of the
/// same name replaces an earlier one.
pub struct PollResultFields {
    pub question: Option<Seq<char>>,
    pub winner_id: Option<u8>,
    pub winner_text: Option<Seq<char>>,
    pub winner_votes: Option<u64>,
    pub total_votes: Option<u64>,
}

pub open spec fn parse_u8_spec(s: Seq<char>) -> Option<u8> {
    match parse_unsigned_spec(s, 255) {
        Some(n) => Some(n as u8),
        None => None,
    }
}

pub open spec fn parse_u64_spec(s: Seq<char>) -> Option<u64> {
    match parse_unsigned_spec(s, u64::MAX as nat) {
        Some(n) => Some(n as u64),
        None => None,
    }
}

pub open spec fn poll_result_fields(fields: Seq<JsonValue>) -> PollResultFields
    decreases fields.len(),
{
    if fields.len() == 0 {
        PollResultFields {
            question: None,
            winner_id: None,
            winner_text: None,
            winner_votes: None,
            total_votes: None,
        }
    } else {
        let st = poll_result_fields(fields.drop_last());
        let f = fields.last();
        match (field_str(f, "name"@), field_str(f, "value"@)) {
            (Some(name), Some(value)) => if name == "poll_question_text"@ {
                PollResultFields { question: Some(value), ..st }
            } else if name == "victor_answer_id"@ {
                PollResultFields { winner_id: parse_u8_spec(value), ..st }
            } else if name == "victor_answer_text"@ {
                PollResultFields { winner_text: Some(value), ..st }
            } else if name == "victor_answer_votes"@ {
                PollResultFields { winner_votes: parse_u64_spec(value), ..st }
            } else if name == "total_votes"@ {
                PollResultFields { total_votes: parse_u64_spec(value), ..st }
            } else {
                st
            },
            _ => st,
        }
    }
}

/// The fields of the first poll-result embed, when it has a field list.
pub open spec fn poll_result_embed_fields(embeds: Option<JsonValue>) -> Option<Seq<JsonValue>> {
    match first_poll_result(array_items(embeds)) {
        Some(e) => match jget(e, "fields"@) {
            Some(JsonValue::Array(fields)) => Some(fields@),
            _ => None,
        },
        None => None,
    }
}

/// A poll summarised from its result embed: finalized, with the winning
/// answer alone (id 1 when the embed names none).
pub open spec fn poll_result_read_from(p: PollInfo, st: PollResultFields) -> bool {
    &&& p.question@ == match st.question {
        Some(q) => q,
        None => "Poll results"@,
    }
    &&& match st.winner_text {
        Some(t) => p.answers@.len() == 1 && p.answers@[0].answer_id == match st.winner_id {
            Some(i) => i,
            None => 1u8,
        } && p.answers@[0].text@ == t && p.answers@[0].vote_count == st.winner_votes && !p.answers@[0].me_voted,
        None => p.answers@.len() == 0,
    }
    &&& !p.allow_multiselect
    &&& p.results_finalized == Some(true)
    &&& p.total_votes == st.total_votes
}

pub fn parse_poll_result_embed(embeds: Option<&JsonValue>) -> (r: Option<PollInfo>)
    ensures
        r is Some <==> poll_result_embed_fields(deref_opt(embeds)) is Some,
        match r {
            Some(p) => poll_result_read_from(p, poll_result_fields(poll_result_embed_fields(deref_opt(embeds)).unwrap())),
            None => true,
        },
{
    let items = match embeds {
        Some(x) => match x.as_array() {
            Some(items) => items,
            None => {
                return None;
            },
        },
        None => {
            return None;
        },
    };
    proof {
        reveal_strlit("poll_result");
    }
    let n = items.len();
    let mut i: usize = 0;
    proof {
        assert(items@.subrange(0, n as int) =~= items@);
    }
    let mut found: Option<&JsonValue> = None;
    while i < n
        invariant_except_break
            n == items@.len(),
            i <= n,
            found is None,
            first_poll_result(items@.subrange(i as int, n as int)) == first_poll_result(items@),
        ensures
            deref_opt(found) == first_poll_result(items@),
        decreases n - i,
    {
        proof {
            assert(items@.subrange(i as int, n as int).drop_first() =~= items@.subrange(i + 1, n as int));
            assert(items@.subrange(i as int, n as int)[0] == items@[i as int]);
        }
        let e = &items[i];
        let is_result = match get_str(e, "type") {
            Some(t) => str_eq(t, "poll_result"),
            None => false,
        };
        if is_result {
            found = Some(e);
            break;
        }
        i = i + 1;
    }
    let embed = match found {
        Some(e) => e,
        None => {
            return None;
        },
    };
    let fields = match embed.get("fields") {
        Some(JsonValue::Array(fields)) => fields,
        _ => {
            return None;
        },
    };
    let mut question: Option<String> = None;
    let mut winner_id: Option<u8> = None;
    let mut winner_text: Option<String> = None;
    let mut winner_votes: Option<u64> = None;
    let mut total: Option<u64> = None;
    let m = fields.len();
    let mut k: usize = 0;
    proof {
        assert(fields@.subrange(0, 0) =~= Seq::<JsonValue>::empty());
        reveal_strlit("poll_question_text");
        reveal_strlit("victor_answer_id");
        reveal_strlit("victor_answer_text");
        reveal_strlit("victor_answer_votes");
        reveal_strlit("total_votes");
    }
    while k < m
        invariant
            m == fields@.len(),
            k <= m,
            ({
                let st = poll_result_fields(fields@.subrange(0, k as int));
                &&& opt_string_view(question) == st.question
                &&& winner_id == st.winner_id
                &&& opt_string_view(winner_text) == st.winner_text
                &&& winner_votes == st.winner_votes
                &&& total == st.total_votes
            }),
        decreases m - k,
    {
        proof {
            assert(fields@.subrange(0, k + 1).drop_last() =~= fields@.subrange(0, k as int));
            assert(fields@.subrange(0, k + 1).last() == fields@[k as int]);
        }
        let f = &fields[k];
        match (get_str(f, "name"), get_str(f, "value")) {
            (Some(name), Some(value)) => {
                if str_eq(name, "poll_question_text") {
                    question = Some(value.to_owned());
                } else if str_eq(name, "victor_answer_id") {
                    winner_id = parse_u8(value);
                } else if str_eq(name, "victor_answer_text") {
                    winner_text = Some(value.to_owned());
                } else if str_eq(name, "victor_answer_votes") {
                    winner_votes = parse_u64(value);
                } else if str_eq(name, "total_votes") {
                    total = parse_u64(value);
                }
            },
            _ => {},
        }
        k = k + 1;
    }
    proof {
        assert(fields@.subrange(0, m as int) =~= fields@);
    }
    let answers = match winner_text {
        Some(text) => {
            let answer_id = match winner_id {
                Some(i) => i,
                None => 1,
            };
            let mut v: Vec<PollAnswerInfo> = Vec::new();
            v.push(PollAnswerInfo { answer_id, text, vote_count: winner_votes, me_voted: false });
            v
        },
        None => Vec::new(),
    };
    let question = match question {
        Some(q) => q,
        None => "Poll results".to_owned(),
    };
    Some(
        PollInfo {
            question,
            answers,
            allow_multiselect: false,
            results_finalized: Some(true),
            total_votes: total,
        },
    )
}

/// A message payload needs a channel id, a message id, and an author with
/// an id.
pub open spec fn message_keep(data: JsonValue) -> bool {
    &&& field_id(data, "channel_id"@) is Some
    &&& field_id(data, "id"@) is Some
    &&& jget(data, "author"@) matches Some(a) && field_id(a, "id"@) is Some
}

pub open spec fn message_kind_spec(data: JsonValue) -> u8 {
    match field_u64(data, "type"@) {
        Some(n) => if n <= 255 {
            n as u8
        } else {
            0
        },
        None => 0,
    }
}

pub open spec fn poll_spec_ok(p: Option<PollInfo>, data: JsonValue) -> bool {
    match jget(data, "poll"@) {
        Some(pv) if !(pv is Null) => p matches Some(x) && poll_read_from(x, pv),
        _ => match poll_result_embed_fields(jget(data, "embeds"@)) {
            Some(fields) => p matches Some(x) && poll_result_read_from(x, poll_result_fields(fields)),
            None => p is None,
        },
    }
}

/// `m` holds what the message payload `data` says.
pub open spec fn message_read_from(m: MessageInfo, data: JsonValue) -> bool {
    let author = jget(data, "author"@).unwrap();
    let reference = jget(data, "message_reference"@);
    let source = match reference {
        Some(r) => field_id(r, "channel_id"@),
        None => None,
    };
    &&& opt_id_view(m.guild_id) == field_id(data, "guild_id"@)
    &&& field_id(data, "channel_id"@) == Some(m.channel_id@)
    &&& field_id(data, "id"@) == Some(m.message_id@)
    &&& field_id(author, "id"@) == Some(m.author_id@)
    &&& m.author@ == author_name_spec(data, author)
    &&& m.author_avatar_url matches Some(u) && u@ == user_avatar_url_spec(m.author_id@, author)
    &&& m.author_is_bot == (field_bool(author, "bot"@) == Some(true))
    &&& id_views(m.author_role_ids@) == id_items(
        match jget(data, "member"@) {
            Some(mem) => jget(mem, "roles"@),
            None => None,
        },
    )
    &&& m.message_kind@ == message_kind_spec(data)
    &&& match interaction_user(data) {
        Some(_) => m.interaction matches Some(i) && interaction_read_from(i, data),
        None => m.interaction is None,
    }
    &&& match reference {
        Some(r) => m.reference matches Some(x) && reference_read_from(x, r),
        None => m.reference is None,
    }
    &&& match jget(data, "referenced_message"@) {
        Some(rv) if reply_keep(rv) => m.reply matches Some(x) && reply_read_from(x, rv),
        _ => m.reply is None,
    }
    &&& poll_spec_ok(m.poll, data)
    &&& m.pinned == (field_bool(data, "pinned"@) == Some(true))
    &&& reactions_read_from(m.reactions@, jget(data, "reactions"@))
    &&& opt_string_view(m.content) == field_str(data, "content"@)
    &&& sticker_names_read_from(m.sticker_names@, jget(data, "sticker_items"@))
    &&& mentions_read_from(m.mentions@, jget(data, "mentions"@))
    &&& m.mention_everyone == (field_bool(data, "mention_everyone"@) == Some(true))
    &&& id_views(m.mention_roles@) == id_items(jget(data, "mention_roles"@))
    &&& m.flags == match field_u64(data, "flags"@) {
        Some(f) => f,
        None => 0,
    }
    &&& attachments_read_from(m.attachments@, jget(data, "attachments"@))
    &&& embeds_read_from(m.embeds@, jget(data, "embeds"@))
    &&& snapshots_read_from(m.forwarded_snapshots@, jget(data, "message_snapshots"@), source)
    &&& opt_string_view(m.edited_timestamp) == field_str(data, "edited_timestamp"@)
}

/// Reads a message payload, as the gateway's MESSAGE_CREATE and the REST
/// message lists carry it.
pub fn parse_message_info(data: &JsonValue) -> (r: Option<MessageInfo>)
    ensures
        r is Some <==> message_keep(*data),
        match r {
            Some(m) => message_read_from(m, *data),
            None => true,
        },
{
    let channel_id = match get_id::<ChannelMarker>(data, "channel_id") {
        Some(id) => id,
        None => {
            return None;
        },
    };
    let message_id = match get_id::<MessageMarker>(data, "id") {
        Some(id) => id,
        None => {
            return None;
        },
    };
    let author = match data.get("author") {
        Some(a) => a,
        None => {
            return None;
        },
    };
    let author_id = match get_id::<UserMarker>(author, "id") {
        Some(id) => id,
        None => {
            return None;
        },
    };
    let author_name = message_author_display_name(data, author);
    let author_avatar_url = user_avatar_url(author_id, author);
    let author_is_bot = match get_bool(author, "bot") {
        Some(b) => b,
        None => false,
    };
    let author_role_ids = parse_id_array::<RoleMarker>(
        match data.get("member") {
            Some(mem) => mem.get("roles"),
            None => None,
        },
    );
    let message_kind = match get_u64(data, "type") {
        Some(n) => if n <= 255 {
            MessageKind::new(n as u8)
        } else {
            MessageKind::default()
        },
        None => MessageKind::default(),
    };
    let reference = match data.get("message_reference") {
        Some(r) => Some(parse_message_reference_info(r)),
        None => None,
    };
    let source_channel_id = match &reference {
        Some(r) => r.channel_id,
        None => None,
    };
    let reply = match data.get("referenced_message") {
        Some(rv) => parse_reply_info(rv),
        None => None,
    };
    let poll_payload = match data.get("poll") {
        Some(pv) => parse_poll_info(pv),
        None => None,
    };
    let poll = match poll_payload {
        Some(p) => Some(p),
        None => parse_poll_result_embed(data.get("embeds")),
    };
    let mention_everyone = match get_bool(data, "mention_everyone") {
        Some(b) => b,
        None => false,
    };
    let flags = match get_u64(data, "flags") {
        Some(f) => f,
        None => 0,
    };
    let pinned = match get_bool(data, "pinned") {
        Some(b) => b,
        None => false,
    };
    Some(
        MessageInfo {
            guild_id: get_id::<GuildMarker>(data, "guild_id"),
            channel_id,
            message_id,
            author_id,
            author: author_name,
            author_avatar_url,
            author_is_bot,
            author_role_ids,
            message_kind,
            interaction: parse_message_interaction_info(data),
            reference,
            reply,
            poll,
            pinned,
            reactions: parse_reactions(data.get("reactions")),
            content: get_string(data, "content"),
            sticker_names: parse_sticker_names(data.get("sticker_items")),
            mentions: parse_mentions(data.get("mentions")),
            mention_everyone,
            mention_roles: parse_id_array::<RoleMarker>(data.get("mention_roles")),
            flags,
            attachments: parse_attachments(data.get("attachments")),
            embeds: parse_embeds(data.get("embeds")),
            forwarded_snapshots: parse_message_snapshots(data.get("message_snapshots"), source_channel_id),
            edited_timestamp: get_string(data, "edited_timestamp"),
        },
    )
}

/// A MESSAGE_UPDATE dispatch: which message, and the fields it carries.
#[derive(Clone, Debug)]
pub struct MessageUpdateDispatchInfo {
    pub guild_id: Option<Id<GuildMarker>>,
    pub channel_id: Id<ChannelMarker>,
    pub message_id: Id<MessageMarker>,
    pub fields: MessageUpdateEventFields,
}

/// An update needs the channel and message ids.
pub open spec fn message_update_keep(data: JsonValue) -> bool {
    field_id(data, "channel_id"@) is Some && field_id(data, "id"@) is Some
}

/// `u` holds what the update payload `data` says; a list field is `None`
/// exactly when the payload leaves it out.
pub open spec fn message_update_read_from(u: MessageUpdateDispatchInfo, data: JsonValue) -> bool {
    let f = u.fields;
    &&& field_id(data, "channel_id"@) == Some(u.channel_id@)
    &&& field_id(data, "id"@) == Some(u.message_id@)
    &&& opt_id_view(u.guild_id) == field_id(data, "guild_id"@)
    &&& opt_string_view(f.content) == field_str(data, "content"@)
    &&& match jget(data, "sticker_items"@) {
        Some(_) => f.sticker_names matches Some(n) && sticker_names_read_from(n@, jget(data, "sticker_items"@)),
        None => f.sticker_names is None,
    }
    &&& match jget(data, "attachments"@) {
        Some(_) => f.attachments matches AttachmentUpdate::Replace(a) && attachments_read_from(
            a@,
            jget(data, "attachments"@),
        ),
        None => f.attachments is Unchanged,
    }
    &&& poll_spec_ok(f.poll, data)
    &&& match jget(data, "embeds"@) {
        Some(_) => f.embeds matches Some(e) && embeds_read_from(e@, jget(data, "embeds"@)),
        None => f.embeds is None,
    }
    &&& match jget(data, "mentions"@) {
        Some(_) => f.mentions matches Some(m) && mentions_read_from(m@, jget(data, "mentions"@)),
        None => f.mentions is None,
    }
    &&& f.mention_everyone == field_bool(data, "mention_everyone"@)
    &&& match jget(data, "mention_roles"@) {
        Some(_) => f.mention_roles matches Some(r) && id_views(r@) == id_items(jget(data, "mention_roles"@)),
        None => f.mention_roles is None,
    }
    &&& f.flags == field_u64(data, "flags"@)
    &&& opt_string_view(f.edited_timestamp) == field_str(data, "edited_timestamp"@)
}

/// Reads a MESSAGE_UPDATE payload.
pub fn parse_message_update(data: &JsonValue) -> (r: Option<MessageUpdateDispatchInfo>)
    ensures
        r is Some <==> message_update_keep(*data),
        match r {
            Some(u) => message_update_read_from(u, *data),
            None => true,
        },
{
    let channel_id = match get_id::<ChannelMarker>(data, "channel_id") {
        Some(id) => id,
        None => {
            return None;
        },
    };
    let message_id = match get_id::<MessageMarker>(data, "id") {
        Some(id) => id,
        None => {
            return None;
        },
    };
    let sticker_names = match data.get("sticker_items") {
        Some(v) => Some(parse_sticker_names(Some(v))),
        None => None,
    };
    let attachments = match data.get("attachments") {
        Some(v) => AttachmentUpdate::Replace(parse_attachments(Some(v))),
        None => AttachmentUpdate::Unchanged,
    };
    let poll_payload = match data.get("poll") {
        Some(pv) => parse_poll_info(pv),
        None => None,
    };
    let poll = match poll_payload {
        Some(p) => Some(p),
        None => parse_poll_result_embed(data.get("embeds")),
    };
    let embeds = match data.get("embeds") {
        Some(v) => Some(parse_embeds(Some(v))),
        None => None,
    };
    let mentions = match data.get("mentions") {
        Some(v) => Some(parse_mentions(Some(v))),
        None => None,
    };
    let mention_roles = match data.get("mention_roles") {
        Some(v) => Some(parse_id_array::<RoleMarker>(Some(v))),
        None => None,
    };
    Some(
        MessageUpdateDispatchInfo {
            guild_id: get_id::<GuildMarker>(data, "guild_id"),
            channel_id,
            message_id,
            fields: MessageUpdateEventFields {
                poll,
                content: get_string(data, "content"),
                sticker_names,
                mentions,
                mention_everyone: get_bool(data, "mention_everyone"),
                mention_roles,
                flags: get_u64(data, "flags"),
                attachments,
                embeds,
                edited_timestamp: get_string(data, "edited_timestamp"),
            },
        },
    )
}

/// A bulk delete needs a channel id and at least one message id.
pub open spec fn delete_bulk_keep(data: JsonValue) -> bool {
    &&& field_id(data, "channel_id"@) is Some
    &&& jget(data, "ids"@) matches Some(JsonValue::Array(_))
    &&& id_items(jget(data, "ids"@)).len() > 0
}

/// Reads a MESSAGE_DELETE_BULK payload: the guild, the channel and the
/// deleted message ids.
pub fn parse_message_delete_bulk(data: &JsonValue) -> (r: Option<
    (Option<Id<GuildMarker>>, Id<ChannelMarker>, Vec<Id<MessageMarker>>),
>)
    ensures
        r is Some <==> delete_bulk_keep(*data),
        match r {
            Some((g, c, ids)) => opt_id_view(g) == field_id(*data, "guild_id"@) && field_id(*data, "channel_id"@) == Some(
                c@,
            ) && id_views(ids@) == id_items(jget(*data, "ids"@)),
            None => true,
        },
{
    let channel_id = match get_id::<ChannelMarker>(data, "channel_id") {
        Some(id) => id,
        None => {
            return None;
        },
    };
    let list = match data.get("ids") {
        Some(x) => match x.as_array() {
            Some(_) => x,
            None => {
                return None;
            },
        },
        None => {
            return None;
        },
    };
    let ids = parse_id_array::<MessageMarker>(Some(list));
    if ids.len() == 0 {
        return None;
    }
    Some((get_id::<GuildMarker>(data, "guild_id"), channel_id, ids))
}

} // verus!
