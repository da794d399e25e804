use concord::fingerprint::{ClientFingerprint, CLIENT_BUILD_NUMBER};
use concord::http_headers::{
    build_super_properties, discord_browser_headers, discord_gateway_headers, discord_login_headers,
    discord_rest_headers, fingerprint_headers_valid, super_properties, DISCORD_LOGIN_REFERER,
};
use concord::json::{JsonNumber, JsonValue};
use concord::os_version::windows_version;

fn fingerprint() -> ClientFingerprint {
    let mut f = ClientFingerprint::new(CLIENT_BUILD_NUMBER, "Linux", "6.1.0".to_owned(), "x86_64");
    f.system_locale = "en-US".to_owned();
    f.timezone = "Europe/Berlin".to_owned();
    f
}

fn get<'a>(headers: &'a [(String, String)], name: &str) -> Option<&'a str> {
    headers
        .iter()
        .rev()
        .find(|(n, _)| n.eq_ignore_ascii_case(name))
        .map(|(_, v)| v.as_str())
}

#[test]
fn login_headers_share_the_rest_fingerprint() {
    let fingerprint = fingerprint();
    assert!(fingerprint_headers_valid(&fingerprint));
    let login = discord_login_headers(&fingerprint);
    let rest = discord_rest_headers(&fingerprint);

    for name in [
        "user-agent",
        "accept-language",
        "X-Discord-Locale",
        "X-Discord-Timezone",
        "X-Super-Properties",
    ] {
        assert_eq!(get(&login, name), get(&rest, name));
    }
    assert_eq!(get(&login, "referer"), Some(DISCORD_LOGIN_REFERER));
}

#[test]
fn rest_headers_carry_locale_timezone_and_origin() {
    let f = fingerprint();
    let rest = discord_rest_headers(&f);
    assert_eq!(rest.len(), 14);
    assert_eq!(get(&rest, "accept"), Some("*/*"));
    assert_eq!(get(&rest, "accept-language"), Some("en-US,en;q=0.9"));
    assert_eq!(get(&rest, "origin"), Some("https://discord.com"));
    assert_eq!(get(&rest, "referer"), Some("https://discord.com/channels/@me"));
    assert_eq!(get(&rest, "x-discord-locale"), Some("en-US"));
    assert_eq!(get(&rest, "x-discord-timezone"), Some("Europe/Berlin"));
    assert_eq!(get(&rest, "sec-fetch-site"), Some("same-origin"));
}

#[test]
fn browser_and_gateway_headers() {
    let f = fingerprint();
    let browser = discord_browser_headers(&f);
    assert_eq!(browser.len(), 2);
    assert_eq!(get(&browser, "user-agent"), Some(f.user_agent.as_str()));
    let gateway = discord_gateway_headers(&f);
    assert_eq!(gateway.len(), 5);
    assert_eq!(get(&gateway, "cache-control"), Some("no-cache"));
    assert_eq!(get(&gateway, "pragma"), Some("no-cache"));
    assert_eq!(get(&gateway, "origin"), Some("https://discord.com"));
}

#[test]
fn super_properties_describe_the_client() {
    let f = fingerprint();
    let doc = super_properties(&f);
    let JsonValue::Object(members) = &doc else {
        panic!("properties are an object");
    };
    assert_eq!(members.len(), 20);
    assert!(members
        .iter()
        .any(|(k, v)| k == "client_build_number"
            && matches!(v, JsonValue::Number(JsonNumber::Unsigned(n)) if *n == CLIENT_BUILD_NUMBER)));
    assert!(members
        .iter()
        .any(|(k, v)| k == "client_app_state" && matches!(v, JsonValue::Str(s) if s == "unfocused")));
    let encoded = build_super_properties(&f);
    assert!(!encoded.is_empty());
    assert!(encoded
        .bytes()
        .all(|b| b.is_ascii_alphanumeric() || b == b'+' || b == b'/' || b == b'='));
}

#[test]
fn invalid_timezone_fails_the_header_check() {
    let mut f = fingerprint();
    f.timezone = "bad\nzone".to_owned();
    assert!(!fingerprint_headers_valid(&f));
}

#[test]
fn windows_version_finds_the_dotted_number() {
    assert_eq!(
        windows_version("\r\nMicrosoft Windows [Version 10.0.19045.3803]\r\n").as_deref(),
        Some("10.0.19045.3803")
    );
    assert_eq!(windows_version("no version here"), None);
    assert_eq!(windows_version("v1..2 then 3.4"), Some("3.4".to_owned()));
    assert_eq!(windows_version("99999999999.1 and 7.8"), Some("7.8".to_owned()));
    assert_eq!(windows_version("12345"), None);
    assert_eq!(windows_version("5.6"), Some("5.6".to_owned()));
}
