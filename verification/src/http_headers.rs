//! The HTTP headers the client sends to Discord: those of the web browser it
//! presents itself as, those of REST and login requests, and those of the
//! gateway handshake. A header list holds names and values in the order the
//! client sets them; a later value for a name replaces the earlier one.
use vstd::prelude::*;

use crate::fingerprint::{
    accept_language, accept_language_spec, base64_standard, encode_super_properties, ClientFingerprint,
    CLIENT_BROWSER, CLIENT_BROWSER_VERSION,
};
use crate::header::header_value_ok;
use crate::json::{
    empty_object, encode_json, field_bool, field_str, field_u64, has_keys, insert_member, jget, json_bool, json_bytes_of,
    json_string, json_u64, JsonValue,
};

verus! {

pub const DISCORD_ORIGIN: &'static str = "https://discord.com";

pub const DISCORD_CHANNELS_REFERER: &'static str = "https://discord.com/channels/@me";

pub const DISCORD_LOGIN_REFERER: &'static str = "https://discord.com/login";

/// Names and values of a header list.
pub open spec fn header_views(h: Seq<(String, String)>) -> Seq<(Seq<char>, Seq<char>)> {
    h.map_values(|p: (String, String)| (p.0@, p.1@))
}

/// The properties the client reports about itself in `X-Super-Properties`.
pub open spec fn super_properties_ok(v: JsonValue, f: ClientFingerprint) -> bool {
    &&& has_keys(
        v,
        set![
            "os"@,
            "device"@,
            "browser"@,
            "release_channel"@,
            "os_version"@,
            "os_arch"@,
            "system_locale"@,
            "has_client_mods"@,
            "browser_user_agent"@,
            "browser_version"@,
            "client_build_number"@,
            "client_event_source"@,
            "launch_signature"@,
            "client_launch_id"@,
            "client_heartbeat_session_id"@,
            "client_app_state"@,
            "referrer"@,
            "referrer_current"@,
            "referring_domain"@,
            "referring_domain_current"@,
        ],
    )
    &&& field_str(v, "os"@) == Some(f.os@)
    &&& field_str(v, "device"@) == Some(Seq::<char>::empty())
    &&& field_str(v, "browser"@) == Some(CLIENT_BROWSER@)
    &&& field_str(v, "release_channel"@) == Some("stable"@)
    &&& field_str(v, "os_version"@) == Some(f.os_version@)
    &&& field_str(v, "os_arch"@) == Some(f.os_arch@)
    &&& field_str(v, "system_locale"@) == Some(f.system_locale@)
    &&& field_bool(v, "has_client_mods"@) == Some(false)
    &&& field_str(v, "browser_user_agent"@) == Some(f.user_agent@)
    &&& field_str(v, "browser_version"@) == Some(CLIENT_BROWSER_VERSION@)
    &&& field_u64(v, "client_build_number"@) == Some(f.client_build_number)
    &&& jget(v, "client_event_source"@) == Some(JsonValue::Null)
    &&& field_str(v, "launch_signature"@) == Some(f.launch_signature@)
    &&& field_str(v, "client_launch_id"@) == Some(f.client_launch_id@)
    &&& field_str(v, "client_heartbeat_session_id"@) == Some(f.client_heartbeat_session_id@)
    &&& field_str(v, "client_app_state"@) == Some("unfocused"@)
    &&& field_str(v, "referrer"@) == Some(Seq::<char>::empty())
    &&& field_str(v, "referrer_current"@) == Some(Seq::<char>::empty())
    &&& field_str(v, "referring_domain"@) == Some(Seq::<char>::empty())
    &&& field_str(v, "referring_domain_current"@) == Some(Seq::<char>::empty())
}

/// The client properties of `X-Super-Properties`, as a JSON object.
#[verifier::rlimit(60)]
pub fn super_properties(f: &ClientFingerprint) -> (r: JsonValue)
    ensures
        super_properties_ok(r, *f),
{
    proof {
        reveal_strlit("os");
        assert("os"@ =~= seq!['o', 's']);
        reveal_strlit("device");
        assert("device"@ =~= seq!['d', 'e', 'v', 'i', 'c', 'e']);
        reveal_strlit("browser");
        assert("browser"@ =~= seq!['b', 'r', 'o', 'w', 's', 'e', 'r']);
        reveal_strlit("release_channel");
        assert("release_channel"@ =~= seq!['r', 'e', 'l', 'e', 'a', 's', 'e', '_', 'c', 'h', 'a', 'n', 'n', 'e', 'l']);
        reveal_strlit("os_version");
        assert("os_version"@ =~= seq!['o', 's', '_', 'v', 'e', 'r', 's', 'i', 'o', 'n']);
        reveal_strlit("os_arch");
        assert("os_arch"@ =~= seq!['o', 's', '_', 'a', 'r', 'c', 'h']);
        reveal_strlit("system_locale");
        assert("system_locale"@ =~= seq!['s', 'y', 's', 't', 'e', 'm', '_', 'l', 'o', 'c', 'a', 'l', 'e']);
        reveal_strlit("has_client_mods");
        assert("has_client_mods"@ =~= seq!['h', 'a', 's', '_', 'c', 'l', 'i', 'e', 'n', 't', '_', 'm', 'o', 'd', 's']);
        reveal_strlit("browser_user_agent");
        assert("browser_user_agent"@ =~= seq![
            'b', 'r', 'o', 'w', 's', 'e', 'r', '_', 'u', 's', 'e', 'r', '_', 'a', 'g', 'e', 'n', 't',
        ]);
        reveal_strlit("browser_version");
        assert("browser_version"@ =~= seq!['b', 'r', 'o', 'w', 's', 'e', 'r', '_', 'v', 'e', 'r', 's', 'i', 'o', 'n']);
        reveal_strlit("client_build_number");
        assert("client_build_number"@ =~= seq![
            'c', 'l', 'i', 'e', 'n', 't', '_', 'b', 'u', 'i', 'l', 'd', '_', 'n', 'u', 'm', 'b', 'e', 'r',
        ]);
        reveal_strlit("client_event_source");
        assert("client_event_source"@ =~= seq![
            'c', 'l', 'i', 'e', 'n', 't', '_', 'e', 'v', 'e', 'n', 't', '_', 's', 'o', 'u', 'r', 'c', 'e',
        ]);
        reveal_strlit("launch_signature");
        assert("launch_signature"@ =~= seq![
            'l', 'a', 'u', 'n', 'c', 'h', '_', 's', 'i', 'g', 'n', 'a', 't', 'u', 'r', 'e',
        ]);
        reveal_strlit("client_launch_id");
        assert("client_launch_id"@ =~= seq![
            'c', 'l', 'i', 'e', 'n', 't', '_', 'l', 'a', 'u', 'n', 'c', 'h', '_', 'i', 'd',
        ]);
        reveal_strlit("client_heartbeat_session_id");
        assert("client_heartbeat_session_id"@ =~= seq![
            'c', 'l', 'i', 'e', 'n', 't', '_', 'h', 'e', 'a', 'r', 't', 'b', 'e', 'a', 't', '_', 's', 'e', 's', 's',
            'i', 'o', 'n', '_', 'i', 'd',
        ]);
        reveal_strlit("client_app_state");
        assert("client_app_state"@ =~= seq![
            'c', 'l', 'i', 'e', 'n', 't', '_', 'a', 'p', 'p', '_', 's', 't', 'a', 't', 'e',
        ]);
        reveal_strlit("referrer");
        assert("referrer"@ =~= seq!['r', 'e', 'f', 'e', 'r', 'r', 'e', 'r']);
        reveal_strlit("referrer_current");
        assert("referrer_current"@ =~= seq![
            'r', 'e', 'f', 'e', 'r', 'r', 'e', 'r', '_', 'c', 'u', 'r', 'r', 'e', 'n', 't',
        ]);
        reveal_strlit("referring_domain");
        assert("referring_domain"@ =~= seq![
            'r', 'e', 'f', 'e', 'r', 'r', 'i', 'n', 'g', '_', 'd', 'o', 'm', 'a', 'i', 'n',
        ]);
        reveal_strlit("referring_domain_current");
        assert("referring_domain_current"@ =~= seq![
            'r', 'e', 'f', 'e', 'r', 'r', 'i', 'n', 'g', '_', 'd', 'o', 'm', 'a', 'i', 'n', '_', 'c', 'u', 'r', 'r', 'e',
            'n', 't',
        ]);
    }
    let v = insert_member(empty_object(), "os", json_string(f.os.as_str()));
    let v = insert_member(v, "device", JsonValue::Str(String::new()));
    let v = insert_member(v, "browser", json_string(CLIENT_BROWSER));
    let v = insert_member(v, "release_channel", json_string("stable"));
    let v = insert_member(v, "os_version", json_string(f.os_version.as_str()));
    let v = insert_member(v, "os_arch", json_string(f.os_arch.as_str()));
    let v = insert_member(v, "system_locale", json_string(f.system_locale.as_str()));
    let v = insert_member(v, "has_client_mods", json_bool(false));
    let v = insert_member(v, "browser_user_agent", json_string(f.user_agent.as_str()));
    let v = insert_member(v, "browser_version", json_string(CLIENT_BROWSER_VERSION));
    let v = insert_member(v, "client_build_number", json_u64(f.client_build_number));
    let v = insert_member(v, "client_event_source", JsonValue::Null);
    let v = insert_member(v, "launch_signature", json_string(f.launch_signature.as_str()));
    let v = insert_member(v, "client_launch_id", json_string(f.client_launch_id.as_str()));
    let v = insert_member(v, "client_heartbeat_session_id", json_string(f.client_heartbeat_session_id.as_str()));
    let v = insert_member(v, "client_app_state", json_string("unfocused"));
    let v = insert_member(v, "referrer", JsonValue::Str(String::new()));
    let v = insert_member(v, "referrer_current", JsonValue::Str(String::new()));
    let v = insert_member(v, "referring_domain", JsonValue::Str(String::new()));
    insert_member(v, "referring_domain_current", JsonValue::Str(String::new()))
}

/// The `X-Super-Properties` value: the base64 of the properties' JSON text.
pub fn build_super_properties(f: &ClientFingerprint) -> (r: String)
    ensures
        exists|doc: JsonValue| super_properties_ok(doc, *f) && r@ == base64_standard(json_bytes_of(doc)),
{
    let doc = super_properties(f);
    let bytes = encode_json(&doc);
    encode_super_properties(bytes.as_slice())
}

/// The values that the client's header lists take from its fingerprint can
/// stand as header values.
pub open spec fn fingerprint_headers_ok(f: ClientFingerprint) -> bool {
    &&& header_value_ok(f.user_agent@)
    &&& header_value_ok(accept_language_spec(f.system_locale@))
    &&& header_value_ok(f.system_locale@)
    &&& header_value_ok(f.timezone@)
}

/// Whether the fingerprint's values can stand as header values.
pub fn fingerprint_headers_valid(f: &ClientFingerprint) -> (r: bool)
    ensures
        r == fingerprint_headers_ok(*f),
{
    let language = accept_language(f.system_locale.as_str());
    crate::header::header_value_accepts(f.user_agent.as_str()) && crate::header::header_value_accepts(
        language.as_str(),
    ) && crate::header::header_value_accepts(f.system_locale.as_str()) && crate::header::header_value_accepts(
        f.timezone.as_str(),
    )
}

fn pair(name: &str, value: &str) -> (r: (String, String))
    ensures
        r.0@ == name@,
        r.1@ == value@,
{
    (name.to_owned(), value.to_owned())
}

/// The headers of the web browser the client presents itself as.
pub fn discord_browser_headers(f: &ClientFingerprint) -> (r: Vec<(String, String)>)
    requires
        fingerprint_headers_ok(*f),
    ensures
        header_views(r@) == seq![
            ("user-agent"@, f.user_agent@),
            ("accept-language"@, accept_language_spec(f.system_locale@)),
        ],
{
    let mut h: Vec<(String, String)> = Vec::new();
    h.push(pair("user-agent", f.user_agent.as_str()));
    let language = accept_language(f.system_locale.as_str());
    h.push(pair("accept-language", language.as_str()));
    proof {
        assert(header_views(h@) =~= seq![
            ("user-agent"@, f.user_agent@),
            ("accept-language"@, accept_language_spec(f.system_locale@)),
        ]);
    }
    h
}

/// The headers of a REST request.
pub open spec fn rest_headers_spec(f: ClientFingerprint, super_properties: Seq<char>) -> Seq<(Seq<char>, Seq<char>)> {
    seq![
        ("user-agent"@, f.user_agent@),
        ("accept"@, "*/*"@),
        ("accept-encoding"@, "gzip, deflate, br, zstd"@),
        ("accept-language"@, accept_language_spec(f.system_locale@)),
        ("origin"@, DISCORD_ORIGIN@),
        ("referer"@, DISCORD_CHANNELS_REFERER@),
        ("Priority"@, "u=1, i"@),
        ("Sec-Fetch-Dest"@, "empty"@),
        ("Sec-Fetch-Mode"@, "cors"@),
        ("Sec-Fetch-Site"@, "same-origin"@),
        ("X-Discord-Locale"@, f.system_locale@),
        ("X-Discord-Timezone"@, f.timezone@),
        ("X-Debug-Options"@, "bugReporterEnabled"@),
        ("X-Super-Properties"@, super_properties),
    ]
}

/// The headers of a REST request: the browser's, its origin and referer,
/// the locale and time zone, and the client's super properties.
pub fn discord_rest_headers(f: &ClientFingerprint) -> (r: Vec<(String, String)>)
    requires
        fingerprint_headers_ok(*f),
    ensures
        r@.len() == 14,
        exists|doc: JsonValue|
            super_properties_ok(doc, *f) && header_views(r@) == rest_headers_spec(
                *f,
                base64_standard(json_bytes_of(doc)),
            ),
{
    let mut h: Vec<(String, String)> = Vec::new();
    h.push(pair("user-agent", f.user_agent.as_str()));
    h.push(pair("accept", "*/*"));
    h.push(pair("accept-encoding", "gzip, deflate, br, zstd"));
    let language = accept_language(f.system_locale.as_str());
    h.push(pair("accept-language", language.as_str()));
    h.push(pair("origin", DISCORD_ORIGIN));
    h.push(pair("referer", DISCORD_CHANNELS_REFERER));
    h.push(pair("Priority", "u=1, i"));
    h.push(pair("Sec-Fetch-Dest", "empty"));
    h.push(pair("Sec-Fetch-Mode", "cors"));
    h.push(pair("Sec-Fetch-Site", "same-origin"));
    h.push(pair("X-Discord-Locale", f.system_locale.as_str()));
    h.push(pair("X-Discord-Timezone", f.timezone.as_str()));
    h.push(pair("X-Debug-Options", "bugReporterEnabled"));
    let sp = build_super_properties(f);
    h.push(pair("X-Super-Properties", sp.as_str()));
    proof {
        let doc = choose|doc: JsonValue| super_properties_ok(doc, *f) && sp@ == base64_standard(json_bytes_of(doc));
        assert(header_views(h@) =~= rest_headers_spec(*f, sp@));
    }
    h
}

/// The headers of a login request: those of a REST request, with the login
/// page as referer.
pub fn discord_login_headers(f: &ClientFingerprint) -> (r: Vec<(String, String)>)
    requires
        fingerprint_headers_ok(*f),
    ensures
        exists|doc: JsonValue|
            super_properties_ok(doc, *f) && header_views(r@) == rest_headers_spec(
                *f,
                base64_standard(json_bytes_of(doc)),
            ).update(5, ("referer"@, DISCORD_LOGIN_REFERER@)),
{
    let mut h = discord_rest_headers(f);
    let ghost before = h@;
    h.set(5, pair("referer", DISCORD_LOGIN_REFERER));
    proof {
        let doc = choose|doc: JsonValue|
            super_properties_ok(doc, *f) && header_views(before) == rest_headers_spec(
                *f,
                base64_standard(json_bytes_of(doc)),
            );
        assert(header_views(h@) =~= header_views(before).update(5, ("referer"@, DISCORD_LOGIN_REFERER@)));
    }
    h
}

/// The headers of the gateway's websocket handshake.
pub fn discord_gateway_headers(f: &ClientFingerprint) -> (r: Vec<(String, String)>)
    requires
        fingerprint_headers_ok(*f),
    ensures
        header_views(r@) == seq![
            ("user-agent"@, f.user_agent@),
            ("accept-language"@, accept_language_spec(f.system_locale@)),
            ("origin"@, DISCORD_ORIGIN@),
            ("cache-control"@, "no-cache"@),
            ("pragma"@, "no-cache"@),
        ],
{
    let mut h: Vec<(String, String)> = Vec::new();
    h.push(pair("user-agent", f.user_agent.as_str()));
    let language = accept_language(f.system_locale.as_str());
    h.push(pair("accept-language", language.as_str()));
    h.push(pair("origin", DISCORD_ORIGIN));
    h.push(pair("cache-control", "no-cache"));
    h.push(pair("pragma", "no-cache"));
    proof {
        assert(header_views(h@) =~= seq![
            ("user-agent"@, f.user_agent@),
            ("accept-language"@, accept_language_spec(f.system_locale@)),
            ("origin"@, DISCORD_ORIGIN@),
            ("cache-control"@, "no-cache"@),
            ("pragma"@, "no-cache"@),
        ]);
    }
    h
}

/// A login request carries the same fingerprint as a REST request: every
/// header but the referer is the same, and the referer is the login page.
pub proof fn lemma_login_headers_share_rest_fingerprint(f: ClientFingerprint, sp: Seq<char>, i: int)
    requires
        0 <= i < rest_headers_spec(f, sp).len(),
    ensures
        i != 5 ==> rest_headers_spec(f, sp).update(5, ("referer"@, DISCORD_LOGIN_REFERER@))[i] == rest_headers_spec(
            f,
            sp,
        )[i],
        rest_headers_spec(f, sp)[5].0 == "referer"@,
        rest_headers_spec(f, sp).update(5, ("referer"@, DISCORD_LOGIN_REFERER@))[5] == ("referer"@,
        DISCORD_LOGIN_REFERER@),
{
}

} // verus!
