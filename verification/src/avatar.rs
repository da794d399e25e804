//! Avatar image addresses: a user's or member's uploaded avatar, or one of
//! Discord's default avatars.
use vstd::prelude::*;

use crate::ids::{GuildMarker, Id, UserMarker};
use crate::json::{field_str, jget, JsonNumber, JsonValue};
use crate::text::{concat2, decimal, parse_u64, parse_unsigned_spec, push_decimal, seq_starts_with, str_starts_with};

verus! {

/// Which of the six default avatars a user gets: chosen by the snowflake's
/// timestamp bits for migrated usernames, by the discriminator otherwise.
pub open spec fn default_avatar_index(user_id: u64, discriminator: u16) -> u64 {
    if discriminator == 0 {
        ((user_id / 4194304) % 6) as u64
    } else {
        (discriminator % 5) as u64
    }
}

pub open spec fn default_avatar_url_spec(user_id: u64, discriminator: u16) -> Seq<char> {
    "https://cdn.discordapp.com/embed/avatars/"@ + decimal(default_avatar_index(user_id, discriminator) as nat)
        + ".png"@
}

pub fn default_avatar_url(user_id: Id<UserMarker>, discriminator: u16) -> (r: String)
    ensures
        r@ == default_avatar_url_spec(user_id@, discriminator),
{
    let raw = user_id.get();
    let index: u64 = if discriminator == 0 {
        assert(raw >> 22u64 == raw / 4194304) by (bit_vector);
        (raw >> 22u64) % 6
    } else {
        (discriminator % 5) as u64
    };
    let mut out = "https://cdn.discordapp.com/embed/avatars/".to_owned();
    push_decimal(&mut out, index);
    out.append(".png");
    out
}

/// Animated avatars (hash `a_…`) are GIFs; the others PNGs.
pub open spec fn avatar_extension_spec(hash: Seq<char>) -> Seq<char> {
    if seq_starts_with(hash, "a_"@) {
        "gif"@
    } else {
        "png"@
    }
}

pub fn avatar_hash_extension(hash: &str) -> (r: &'static str)
    ensures
        r@ == avatar_extension_spec(hash@),
{
    proof {
        reveal_strlit("a_");
        reveal_strlit("gif");
        reveal_strlit("png");
    }
    if str_starts_with(hash, "a_") {
        "gif"
    } else {
        "png"
    }
}

/// An uploaded avatar's hash: a non-empty `avatar` string.
pub open spec fn custom_avatar_hash_spec(v: JsonValue) -> Option<Seq<char>> {
    match field_str(v, "avatar"@) {
        Some(h) => if h.len() > 0 {
            Some(h)
        } else {
            None
        },
        None => None,
    }
}

fn custom_avatar_hash(v: &JsonValue) -> (r: Option<&str>)
    ensures
        match r {
            Some(h) => custom_avatar_hash_spec(*v) == Some(h@),
            None => custom_avatar_hash_spec(*v) is None,
        },
{
    match v.get("avatar") {
        Some(x) => match x.as_str() {
            Some(h) => if h.unicode_len() > 0 {
                Some(h)
            } else {
                None
            },
            None => None,
        },
        None => None,
    }
}

/// A discriminator: a decimal string or a number that fits in 16 bits;
/// zero when there is none.
pub open spec fn discriminator_spec(v: JsonValue) -> u16 {
    match jget(v, "discriminator"@) {
        Some(JsonValue::Str(s)) => match parse_unsigned_spec(s@, u16::MAX as nat) {
            Some(n) => n as u16,
            None => 0,
        },
        Some(JsonValue::Number(JsonNumber::Unsigned(n))) => if n <= u16::MAX {
            n as u16
        } else {
            0
        },
        _ => 0,
    }
}

fn discriminator(v: &JsonValue) -> (r: u16)
    ensures
        r == discriminator_spec(*v),
{
    match v.get("discriminator") {
        Some(JsonValue::Str(s)) => match parse_u64(s.as_str()) {
            Some(n) => if n <= 65535 {
                n as u16
            } else {
                0
            },
            None => 0,
        },
        Some(JsonValue::Number(JsonNumber::Unsigned(n))) => if *n <= 65535 {
            *n as u16
        } else {
            0
        },
        _ => 0,
    }
}

/// A user's avatar: the uploaded one when the payload names it, else the
/// default one.
pub open spec fn user_avatar_url_spec(user_id: u64, user: JsonValue) -> Seq<char> {
    match custom_avatar_hash_spec(user) {
        Some(hash) => "https://cdn.discordapp.com/avatars/"@ + decimal(user_id as nat) + "/"@ + hash + "."@
            + avatar_extension_spec(hash),
        None => default_avatar_url_spec(user_id, discriminator_spec(user)),
    }
}

pub fn user_avatar_url(user_id: Id<UserMarker>, user: &JsonValue) -> (r: Option<String>)
    ensures
        r matches Some(u) && u@ == user_avatar_url_spec(user_id@, *user),
{
    match custom_avatar_hash(user) {
        Some(hash) => {
            let mut out = "https://cdn.discordapp.com/avatars/".to_owned();
            push_decimal(&mut out, user_id.get());
            out.append("/");
            out.append(hash);
            out.append(".");
            out.append(avatar_hash_extension(hash));
            Some(out)
        },
        None => Some(default_avatar_url(user_id, discriminator(user))),
    }
}

/// A member's avatar: the guild-specific upload when there is one, else the
/// user's avatar when the user payload is at hand.
pub open spec fn member_avatar_url_spec(
    guild_id: Option<u64>,
    user_id: u64,
    member: Option<JsonValue>,
    user: Option<JsonValue>,
) -> Option<Seq<char>> {
    let member_hash = match member {
        Some(m) => custom_avatar_hash_spec(m),
        None => None,
    };
    match (guild_id, member_hash) {
        (Some(g), Some(hash)) => Some(
            "https://cdn.discordapp.com/guilds/"@ + decimal(g as nat) + "/users/"@ + decimal(user_id as nat)
                + "/avatars/"@ + hash + "."@ + avatar_extension_spec(hash),
        ),
        _ => match user {
            Some(u) => Some(user_avatar_url_spec(user_id, u)),
            None => None,
        },
    }
}

pub fn member_avatar_url(
    guild_id: Option<Id<GuildMarker>>,
    user_id: Id<UserMarker>,
    member: Option<&JsonValue>,
    user: Option<&JsonValue>,
) -> (r: Option<String>)
    ensures
        crate::message_info::opt_string_view(r) == member_avatar_url_spec(
            crate::parse_common::opt_id_view(guild_id),
            user_id@,
            crate::json::deref_opt(member),
            crate::json::deref_opt(user),
        ),
{
    if let Some(g) = guild_id {
        if let Some(m) = member {
            if let Some(hash) = custom_avatar_hash(m) {
                let mut out = "https://cdn.discordapp.com/guilds/".to_owned();
                push_decimal(&mut out, g.get());
                out.append("/users/");
                push_decimal(&mut out, user_id.get());
                out.append("/avatars/");
                out.append(hash);
                out.append(".");
                out.append(avatar_hash_extension(hash));
                return Some(out);
            }
        }
    }
    match user {
        Some(u) => user_avatar_url(user_id, u),
        None => None,
    }
}

} // verus!
