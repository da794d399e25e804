//! The browser fingerprint the client presents to Discord: the user agent,
//! the locale headers, the launch identifiers, and reading the web client's
//! build number out of its assets.
use base64::Engine;
use vstd::prelude::*;

use crate::message_info::opt_string_view;
use crate::header::{header_value_accepts, header_value_ok};
use crate::text::{
    all_ascii_digits, concat2, concat3, decimal, digit_char, eq_ignore_ascii_case_spec, find_spec, parse_u64,
    parse_unsigned_spec, str_eq, str_eq_ignore_ascii_case, str_find, string_push,
};

verus! {

/// Build number used when the live one cannot be read.
pub const CLIENT_BUILD_NUMBER: u64 = 573410;

pub const CLIENT_BROWSER: &'static str = "Chrome";

pub const CLIENT_BROWSER_VERSION: &'static str = "150.0.0.0";

/// The path of the web client's error-reporting script: from the first
/// `/assets/sentry` through the first `.js` after it.
pub open spec fn sentry_asset_path_spec(html: Seq<char>) -> Option<Seq<char>> {
    match find_spec(html, "/assets/sentry"@) {
        None => None,
        Some(start) => {
            let rest = html.subrange(start, html.len() as int);
            match find_spec(rest, ".js"@) {
                None => None,
                Some(end) => Some(rest.subrange(0, end + 3)),
            }
        },
    }
}

pub fn find_sentry_asset_path(html: &str) -> (r: Option<String>)
    ensures
        match r {
            Some(p) => sentry_asset_path_spec(html@) == Some(p@),
            None => sentry_asset_path_spec(html@) is None,
        },
{
    let start = match str_find(html, "/assets/sentry") {
        Some(s) => s,
        None => return None,
    };
    let n = html.unicode_len();
    let rest = html.substring_char(start, n);
    let end = match str_find(rest, ".js") {
        Some(e) => e,
        None => return None,
    };
    proof {
        reveal_strlit(".js");
    }
    Some(rest.substring_char(0, end + 3).to_owned())
}

/// The length of the run of ASCII digits at the start of `s`.
pub open spec fn leading_digits(s: Seq<char>) -> nat
    decreases s.len(),
{
    if s.len() > 0 && '0' <= s[0] && s[0] <= '9' {
        1 + leading_digits(s.drop_first())
    } else {
        0
    }
}

/// The build number in the error-reporting script: the digits right after
/// the first `buildNumber","`, read as a `u64`.
pub open spec fn build_number_spec(js: Seq<char>) -> Option<nat> {
    match find_spec(js, "buildNumber\",\""@) {
        None => None,
        Some(start) => {
            let rest = js.subrange(start + 14, js.len() as int);
            parse_unsigned_spec(rest.subrange(0, leading_digits(rest) as int), u64::MAX as nat)
        },
    }
}

proof fn lemma_leading_digits_step(s: Seq<char>, i: int)
    requires
        0 <= i < s.len(),
        leading_digits(s) >= i,
        forall|j: int| 0 <= j < i ==> '0' <= #[trigger] s[j] && s[j] <= '9',
    ensures
        ('0' <= s[i] && s[i] <= '9') ==> leading_digits(s) >= i + 1,
        !('0' <= s[i] && s[i] <= '9') ==> leading_digits(s) == i,
    decreases i,
{
    if i > 0 {
        let t = s.drop_first();
        assert forall|j: int| 0 <= j < i - 1 implies '0' <= #[trigger] t[j] && t[j] <= '9' by {
            assert(t[j] == s[j + 1]);
        }
        assert(t[i - 1] == s[i]);
        lemma_leading_digits_step(t, i - 1);
    }
}

proof fn lemma_leading_digits_bound(s: Seq<char>)
    ensures
        leading_digits(s) <= s.len(),
        forall|j: int| 0 <= j < leading_digits(s) ==> '0' <= #[trigger] s[j] && s[j] <= '9',
    decreases s.len(),
{
    if s.len() > 0 && '0' <= s[0] && s[0] <= '9' {
        lemma_leading_digits_bound(s.drop_first());
        assert forall|j: int| 0 <= j < leading_digits(s) implies '0' <= #[trigger] s[j] && s[j] <= '9' by {
            if j > 0 {
                assert(s[j] == s.drop_first()[j - 1]);
            }
        }
    }
}

pub fn parse_build_number(js: &str) -> (r: Option<u64>)
    ensures
        match r {
            Some(v) => build_number_spec(js@) == Some(v as nat),
            None => build_number_spec(js@) is None,
        },
{
    let start = match str_find(js, "buildNumber\",\"") {
        Some(s) => s,
        None => return None,
    };
    proof {
        reveal_strlit("buildNumber\",\"");
    }
    let n = js.unicode_len();
    let rest = js.substring_char(start + 14, n);
    let m = rest.unicode_len();
    let mut k: usize = 0;
    while k < m && '0' <= rest.get_char(k) && rest.get_char(k) <= '9'
        invariant
            m == rest@.len(),
            k <= m,
            leading_digits(rest@) >= k,
            forall|j: int| 0 <= j < k ==> '0' <= #[trigger] rest@[j] && rest@[j] <= '9',
        decreases m - k,
    {
        proof {
            lemma_leading_digits_step(rest@, k as int);
        }
        k = k + 1;
    }
    proof {
        lemma_leading_digits_bound(rest@);
        if k < m {
            lemma_leading_digits_step(rest@, k as int);
        }
        assert(leading_digits(rest@) == k);
    }
    let digits = rest.substring_char(0, k);
    parse_u64(digits)
}

/// Every `.` replaced by `_`.
pub open spec fn dots_to_underscores(s: Seq<char>) -> Seq<char> {
    s.map_values(|c: char| if c == '.' { '_' } else { c })
}

/// The platform part of the user agent: Windows, macOS with its version,
/// or Linux on ARM or x86.
pub open spec fn ua_platform(os: Seq<char>, os_version: Seq<char>, os_arch: Seq<char>) -> Seq<char> {
    if os == "Windows"@ {
        "Windows NT 10.0; Win64; x64"@
    } else if os == "Mac OS X"@ {
        "Macintosh; Intel Mac OS X "@ + dots_to_underscores(os_version)
    } else if os_arch == "arm64"@ {
        "X11; Linux aarch64"@
    } else {
        "X11; Linux x86_64"@
    }
}

/// The Chrome user agent for a platform.
pub open spec fn user_agent_spec(os: Seq<char>, os_version: Seq<char>, os_arch: Seq<char>) -> Seq<char> {
    "Mozilla/5.0 ("@ + ua_platform(os, os_version, os_arch) + ") AppleWebKit/537.36 (KHTML, like Gecko) Chrome/"@
        + CLIENT_BROWSER_VERSION@ + " Safari/537.36"@
}

fn replace_dots(s: &str) -> (r: String)
    ensures
        r@ == dots_to_underscores(s@),
{
    let mut out = String::new();
    let n = s.unicode_len();
    let mut i: usize = 0;
    while i < n
        invariant
            n == s@.len(),
            i <= n,
            out@ == dots_to_underscores(s@.subrange(0, i as int)),
        decreases n - i,
    {
        let c = s.get_char(i);
        string_push(&mut out, if c == '.' { '_' } else { c });
        proof {
            assert(out@ =~= dots_to_underscores(s@.subrange(0, i + 1)));
        }
        i = i + 1;
    }
    proof {
        assert(s@.subrange(0, n as int) =~= s@);
    }
    out
}

pub fn web_user_agent(os: &str, os_version: &str, os_arch: &str) -> (r: String)
    ensures
        r@ == user_agent_spec(os@, os_version@, os_arch@),
{
    let platform = if str_eq(os, "Windows") {
        "Windows NT 10.0; Win64; x64".to_owned()
    } else if str_eq(os, "Mac OS X") {
        let version = replace_dots(os_version);
        concat2("Macintosh; Intel Mac OS X ", version.as_str())
    } else if str_eq(os_arch, "arm64") {
        "X11; Linux aarch64".to_owned()
    } else {
        "X11; Linux x86_64".to_owned()
    };
    let head = concat3("Mozilla/5.0 (", platform.as_str(), ") AppleWebKit/537.36 (KHTML, like Gecko) Chrome/");
    concat3(head.as_str(), CLIENT_BROWSER_VERSION, " Safari/537.36")
}

/// The characters before the first `c` (all of them without one).
pub open spec fn before_char(s: Seq<char>, c: char) -> Seq<char>
    decreases s.len(),
{
    if s.len() == 0 {
        s
    } else if s[0] == c {
        Seq::empty()
    } else {
        seq![s[0]] + before_char(s.drop_first(), c)
    }
}

fn prefix_before(s: &str, c: char) -> (r: &str)
    ensures
        r@ == before_char(s@, c),
{
    let n = s.unicode_len();
    let mut i: usize = 0;
    proof {
        assert(s@.subrange(0, n as int) =~= s@);
        assert(s@.subrange(0, 0) =~= Seq::<char>::empty());
    }
    while i < n && s.get_char(i) != c
        invariant
            n == s@.len(),
            i <= n,
            forall|j: int| 0 <= j < i ==> s@[j] != c,
            before_char(s@, c) == s@.subrange(0, i as int) + before_char(s@.subrange(i as int, n as int), c),
        decreases n - i,
    {
        proof {
            let t = s@.subrange(i as int, n as int);
            assert(t.drop_first() =~= s@.subrange(i + 1, n as int));
            assert(s@.subrange(0, i + 1) =~= s@.subrange(0, i as int) + seq![t[0]]);
        }
        i = i + 1;
    }
    proof {
        let t = s@.subrange(i as int, n as int);
        assert(before_char(t, c) =~= Seq::<char>::empty());
    }
    s.substring_char(0, i)
}

/// The Accept-Language value for a locale: the locale first, then its bare
/// language, then English, with falling weights; English alone when the
/// locale is bare English.
pub open spec fn accept_language_spec(locale: Seq<char>) -> Seq<char> {
    let language = before_char(locale, '-');
    if eq_ignore_ascii_case_spec(language, "en"@) {
        if locale == language {
            locale
        } else {
            locale + ",en;q=0.9"@
        }
    } else if locale == language {
        locale + ",en;q=0.9"@
    } else {
        locale + ","@ + language + ";q=0.9,en;q=0.8"@
    }
}

pub fn accept_language(locale: &str) -> (r: String)
    ensures
        r@ == accept_language_spec(locale@),
{
    let language = prefix_before(locale, '-');
    if str_eq_ignore_ascii_case(language, "en") {
        if str_eq(locale, language) {
            locale.to_owned()
        } else {
            concat2(locale, ",en;q=0.9")
        }
    } else if str_eq(locale, language) {
        concat2(locale, ",en;q=0.9")
    } else {
        let head = concat3(locale, ",", language);
        concat2(head.as_str(), ";q=0.9,en;q=0.8")
    }
}

/// The architecture label Discord expects: `x64` and `arm64` for the two
/// common ones, the platform's own name otherwise.
pub open spec fn arch_label_spec(arch: Seq<char>) -> Seq<char> {
    if arch == "x86_64"@ {
        "x64"@
    } else if arch == "aarch64"@ {
        "arm64"@
    } else {
        arch
    }
}

pub fn arch_label(arch: &str) -> (r: &str)
    ensures
        r@ == arch_label_spec(arch@),
{
    if str_eq(arch, "x86_64") {
        "x64"
    } else if str_eq(arch, "aarch64") {
        "arm64"
    } else {
        arch
    }
}

/// The bits of a random UUID kept in a launch signature, byte by byte.
pub open spec fn launch_mask() -> Seq<u8> {
    seq![255u8, 127u8, 239u8, 239u8, 247u8, 239u8, 247u8, 255u8, 223u8, 126u8, 255u8, 191u8, 254u8, 255u8, 247u8, 255u8]
}

/// Clears the masked bits of 16 random bytes.
pub fn mask_launch_bytes(b: [u8; 16]) -> (r: [u8; 16])
    ensures
        forall|i: int| 0 <= i < 16 ==> #[trigger] r@[i] == b@[i] & launch_mask()[i],
{
    let r = [
        b[0] & 255u8,
        b[1] & 127u8,
        b[2] & 239u8,
        b[3] & 239u8,
        b[4] & 247u8,
        b[5] & 239u8,
        b[6] & 247u8,
        b[7] & 255u8,
        b[8] & 223u8,
        b[9] & 126u8,
        b[10] & 255u8,
        b[11] & 191u8,
        b[12] & 254u8,
        b[13] & 255u8,
        b[14] & 247u8,
        b[15] & 255u8,
    ];
    proof {
        assert(r@ =~= seq![
            b@[0] & 255u8, b@[1] & 127u8, b@[2] & 239u8, b@[3] & 239u8, b@[4] & 247u8, b@[5] & 239u8, b@[6] & 247u8,
            b@[7] & 255u8, b@[8] & 223u8, b@[9] & 126u8, b@[10] & 255u8, b@[11] & 191u8, b@[12] & 254u8,
            b@[13] & 255u8, b@[14] & 247u8, b@[15] & 255u8,
        ]);
    }
    r
}

/// A lowercase hexadecimal digit.
pub open spec fn hex_lower(d: nat) -> char {
    if d < 10 {
        digit_char(d)
    } else {
        (('a' as nat) + d - 10) as char
    }
}

/// Each byte as two lowercase hexadecimal digits.
pub open spec fn hex_run(bytes: Seq<u8>) -> Seq<char>
    decreases bytes.len(),
{
    if bytes.len() == 0 {
        Seq::empty()
    } else {
        hex_run(bytes.drop_last()) + seq![hex_lower(bytes.last() as nat / 16), hex_lower(bytes.last() as nat % 16)]
    }
}

/// The hyphenated lowercase text of a UUID: its 16 bytes in hex, grouped
/// 4-2-2-2-6 bytes.
pub open spec fn uuid_hyphenated(b: Seq<u8>) -> Seq<char> {
    hex_run(b.subrange(0, 4)) + "-"@ + hex_run(b.subrange(4, 6)) + "-"@ + hex_run(b.subrange(6, 8)) + "-"@ + hex_run(
        b.subrange(8, 10),
    ) + "-"@ + hex_run(b.subrange(10, 16))
}

/// The bytes of a version-4 UUID: the version nibble (the high four bits of
/// byte 6) is 4, and the variant (the high two bits of byte 8) is 0b10.
pub open spec fn v4_uuid_bytes(b: Seq<u8>) -> bool {
    &&& b.len() == 16
    &&& b[6] & 0xf0u8 == 0x40u8
    &&& b[8] & 0xc0u8 == 0x80u8
}

/// The bytes of a fresh random version-4 UUID (uuid's `Uuid::new_v4`, which
/// draws 128 random bits and then sets the version and variant bits). The
/// other 122 bits are chance and are left unsaid.
#[verifier::external_body]
fn random_uuid_bytes() -> (r: [u8; 16])
    ensures
        v4_uuid_bytes(r@),
{
    *uuid::Uuid::new_v4().as_bytes()
}

/// The hyphenated text of a UUID with the given bytes (uuid's
/// `Uuid::from_bytes` and its `Display`, which writes the bytes as lowercase
/// hex in 8-4-4-4-12 digit groups).
#[verifier::external_body]
fn uuid_text(bytes: [u8; 16]) -> (r: String)
    ensures
        r@ == uuid_hyphenated(bytes@),
{
    uuid::Uuid::from_bytes(bytes).to_string()
}

/// A launch signature: a random UUID with the masked bits cleared.
pub fn generate_launch_signature() -> (r: String)
    ensures
        exists|b: Seq<u8>|
            v4_uuid_bytes(b) && r@ == uuid_hyphenated(b) && forall|i: int| 0 <= i < 16 ==> #[trigger] b[i]
                & launch_mask()[i] == b[i],
{
    let random = random_uuid_bytes();
    let masked = mask_launch_bytes(random);
    proof {
        let x6 = random@[6];
        let x8 = random@[8];
        assert(masked@[6] == x6 & launch_mask()[6]);
        assert(masked@[8] == x8 & launch_mask()[8]);
        assert(launch_mask()[6] == 247u8 && launch_mask()[8] == 223u8);
        assert(x6 & 0xf0u8 == 0x40u8 ==> (x6 & 247u8) & 0xf0u8 == 0x40u8) by (bit_vector);
        assert(x8 & 0xc0u8 == 0x80u8 ==> (x8 & 223u8) & 0xc0u8 == 0x80u8) by (bit_vector);
        assert(v4_uuid_bytes(masked@));
        assert forall|i: int| 0 <= i < 16 implies #[trigger] masked@[i] & launch_mask()[i] == masked@[i] by {
            let x = random@[i];
            let m = launch_mask()[i];
            assert((x & m) & m == x & m) by (bit_vector);
        }
    }
    uuid_text(masked)
}

/// A fresh random UUID's text.
pub fn random_uuid_string() -> (r: String)
    ensures
        exists|b: Seq<u8>| v4_uuid_bytes(b) && r@ == uuid_hyphenated(b),
{
    let random = random_uuid_bytes();
    uuid_text(random)
}

/// The standard base64 text (with padding) of some bytes.
pub uninterp spec fn base64_standard(bytes: Seq<u8>) -> Seq<char>;

/// Standard base64 with padding (base64's `STANDARD.encode`).
#[verifier::external_body]
fn base64_encode(bytes: &[u8]) -> (r: String)
    requires
        bytes@.len() <= isize::MAX,
    ensures
        r@ == base64_standard(bytes@),
{
    base64::engine::general_purpose::STANDARD.encode(bytes)
}

/// The `X-Super-Properties` header value: the JSON text of the client
/// properties, base64-encoded.
pub fn encode_super_properties(json: &[u8]) -> (r: String)
    requires
        json@.len() <= isize::MAX,
    ensures
        r@ == base64_standard(json@),
{
    base64_encode(json)
}

/// The system's preferred locale, if it has one (sys-locale's `get_locale`).
#[verifier::external_body]
fn system_locale_raw() -> (r: Option<String>) {
    sys_locale::get_locale()
}

/// The system's IANA time zone, if it can be read (iana-time-zone's
/// `get_timezone`).
#[verifier::external_body]
fn system_timezone() -> (r: Option<String>) {
    iana_time_zone::get_timezone().ok()
}

pub open spec fn is_ascii_alpha(c: char) -> bool {
    ('a' <= c && c <= 'z') || ('A' <= c && c <= 'Z')
}

pub open spec fn is_ascii_alnum(c: char) -> bool {
    is_ascii_alpha(c) || ('0' <= c && c <= '9')
}

/// The locale part of a POSIX locale name: before any `.` or `@`, with `_`
/// turned into `-`.
pub open spec fn locale_core(raw: Seq<char>) -> Seq<char> {
    before_char(before_char(raw, '.'), '@').map_values(|c: char| if c == '_' { '-' } else { c })
}

/// A well-formed language tag: a language of 2 to 8 ASCII letters, then
/// `-`-separated subtags of 1 to 8 ASCII letters or digits.
pub open spec fn valid_language_tag(t: Seq<char>) -> bool {
    let lang = before_char(t, '-');
    &&& 2 <= lang.len() <= 8
    &&& forall|i: int| 0 <= i < lang.len() ==> is_ascii_alpha(#[trigger] lang[i])
    &&& forall|i: int| lang.len() <= i < t.len() ==> (#[trigger] t[i] == '-' || is_ascii_alnum(t[i]))
    &&& forall|i: int| lang.len() <= i < t.len() && #[trigger] t[i] == '-' ==> i + 1 < t.len() && t[i + 1] != '-'
    &&& forall|i: int| 0 <= i && i + 9 <= t.len() ==> #[trigger] dash_within_nine(t, i)
}

/// Some `-` among the nine characters from `i`.
pub open spec fn dash_within_nine(t: Seq<char>, i: int) -> bool {
    exists|k: int| i <= k < i + 9 && #[trigger] t[k] == '-'
}

/// A system locale name as a language tag; `None` for the C and POSIX
/// locales and for anything that is not a well-formed tag.
pub open spec fn normalize_locale_spec(raw: Seq<char>) -> Option<Seq<char>> {
    let t = locale_core(raw);
    if eq_ignore_ascii_case_spec(t, "C"@) || eq_ignore_ascii_case_spec(t, "POSIX"@) || !valid_language_tag(t)
        || !header_value_ok(t) {
        None
    } else {
        Some(t)
    }
}

fn locale_core_of(raw: &str) -> (r: String)
    ensures
        r@ == locale_core(raw@),
{
    let a = prefix_before(raw, '.');
    let b = prefix_before(a, '@');
    let mut out = String::new();
    let n = b.unicode_len();
    let mut i: usize = 0;
    while i < n
        invariant
            n == b@.len(),
            i <= n,
            out@ == b@.subrange(0, i as int).map_values(|c: char| if c == '_' { '-' } else { c }),
        decreases n - i,
    {
        let c = b.get_char(i);
        string_push(&mut out, if c == '_' { '-' } else { c });
        proof {
            assert(out@ =~= b@.subrange(0, i + 1).map_values(|c: char| if c == '_' { '-' } else { c }));
        }
        i = i + 1;
    }
    proof {
        assert(b@.subrange(0, n as int) =~= b@);
    }
    out
}

proof fn lemma_before_char_is_prefix(s: Seq<char>, c: char)
    ensures
        before_char(s, c).len() <= s.len(),
        before_char(s, c) == s.subrange(0, before_char(s, c).len() as int),
        forall|i: int| 0 <= i < before_char(s, c).len() ==> #[trigger] s[i] != c,
        before_char(s, c).len() < s.len() ==> s[before_char(s, c).len() as int] == c,
    decreases s.len(),
{
    if s.len() > 0 && s[0] != c {
        lemma_before_char_is_prefix(s.drop_first(), c);
        let t = before_char(s.drop_first(), c);
        assert(before_char(s, c) =~= s.subrange(0, t.len() + 1int)) by {
            assert(s.drop_first().subrange(0, t.len() as int) == t);
        }
        assert forall|i: int| 0 <= i < before_char(s, c).len() implies #[trigger] s[i] != c by {
            if i > 0 {
                assert(s[i] == s.drop_first()[i - 1]);
            }
        }
        if before_char(s, c).len() < s.len() {
            assert(s[before_char(s, c).len() as int] == s.drop_first()[t.len() as int]);
        }
    }
}

fn is_valid_language_tag(t: &str) -> (r: bool)
    ensures
        r == valid_language_tag(t@),
{
    let n = t.unicode_len();
    let lang = prefix_before(t, '-');
    let l = lang.unicode_len();
    proof {
        lemma_before_char_is_prefix(t@, '-');
    }
    if l < 2 || l > 8 {
        return false;
    }
    let mut i: usize = 0;
    while i < l
        invariant
            l == lang@.len(),
            lang@ == before_char(t@, '-'),
            i <= l,
            forall|j: int| 0 <= j < i ==> is_ascii_alpha(#[trigger] lang@[j]),
        decreases l - i,
    {
        let c = lang.get_char(i);
        if !(('a' <= c && c <= 'z') || ('A' <= c && c <= 'Z')) {
            return false;
        }
        i = i + 1;
    }
    // The subtags: only letters, digits and dashes, no empty subtag, and no
    // run of more than 8 characters without a dash.
    let mut j: usize = l;
    let mut run: usize = l;
    while j < n
        invariant
            n == t@.len(),
            l == before_char(t@, '-').len(),
            lang@ == before_char(t@, '-'),
            l == lang@.len(),
            forall|k: int| 0 <= k < l ==> is_ascii_alpha(#[trigger] lang@[k]),
            l <= j <= n,
            2 <= l <= 8,
            j > l ==> run < j,
            run <= 8,
            run <= j,
            forall|k: int| j - run <= k < j ==> #[trigger] t@[k] != '-',
            j > run ==> t@[j - run - 1] == '-',
            l < n ==> t@[l as int] == '-',
            forall|k: int| l <= k < j ==> (#[trigger] t@[k] == '-' || is_ascii_alnum(t@[k])),
            forall|k: int| l <= k < j && #[trigger] t@[k] == '-' ==> k + 1 < n && t@[k + 1] != '-',
            forall|k: int| 0 <= k && k + 9 <= j ==> #[trigger] dash_within_nine(t@, k),
        decreases n - j,
    {
        let c = t.get_char(j);
        let ghost run0 = run;
        if c == '-' {
            if j + 1 >= n || t.get_char(j + 1) == '-' {
                return false;
            }
            run = 0;
        } else {
            if !(('a' <= c && c <= 'z') || ('A' <= c && c <= 'Z') || ('0' <= c && c <= '9')) {
                return false;
            }
            if run >= 8 {
                proof {
                    let k = j - 8;
                    assert(!dash_within_nine(t@, k as int));
                }
                return false;
            }
            run = run + 1;
        }
        proof {
            assert forall|k: int| 0 <= k && k + 9 <= j + 1 implies #[trigger] dash_within_nine(t@, k) by {
                if k + 9 <= j {
                } else {
                    if c == '-' {
                        assert(t@[j as int] == '-');
                    } else {
                        assert(k == j - 8);
                        if j == l {
                            assert(t@[l as int] == '-');
                        }
                        assert(j > run0);
                        let m = j - run0 - 1;
                        assert(t@[m] == '-');
                        assert(m >= k);
                        assert(k <= m < k + 9);
                    }
                }
            }
        }
        j = j + 1;
    }
    true
}

/// The system locale as a language tag, when it is one.
pub fn normalize_system_locale(raw: &str) -> (r: Option<String>)
    ensures
        match r {
            Some(t) => normalize_locale_spec(raw@) == Some(t@),
            None => normalize_locale_spec(raw@) is None,
        },
{
    let t = locale_core_of(raw);
    if str_eq_ignore_ascii_case(t.as_str(), "C") || str_eq_ignore_ascii_case(t.as_str(), "POSIX") {
        return None;
    }
    if !is_valid_language_tag(t.as_str()) || !header_value_accepts(t.as_str()) {
        return None;
    }
    Some(t)
}

/// The locale the client announces for what the system reported: its tag,
/// when it is a well-formed one, else `en-US`.
pub open spec fn announced_locale(raw: Option<Seq<char>>) -> Seq<char> {
    match raw {
        Some(x) => match normalize_locale_spec(x) {
            Some(t) => t,
            None => "en-US"@,
        },
        None => "en-US"@,
    }
}

/// The locale to announce, given what the system reported (if anything).
pub fn locale_from_system(raw: Option<String>) -> (r: String)
    ensures
        r@ == announced_locale(opt_string_view(raw)),
{
    match raw {
        Some(raw) => match normalize_system_locale(raw.as_str()) {
            Some(t) => t,
            None => "en-US".to_owned(),
        },
        None => "en-US".to_owned(),
    }
}

/// The locale the client announces: the system's, when it is a well-formed
/// tag, else `en-US`. What the system reports is left open.
pub fn system_locale() -> (r: String)
    ensures
        exists|raw: Option<Seq<char>>| r@ == announced_locale(raw),
{
    let raw = system_locale_raw();
    let r = locale_from_system(raw);
    proof {
        assert(r@ == announced_locale(opt_string_view(raw)));
    }
    r
}

/// The time zone the client announces for what the system reported: that
/// zone, else `UTC`.
pub open spec fn announced_timezone(tz: Option<Seq<char>>) -> Seq<char> {
    match tz {
        Some(t) => t,
        None => "UTC"@,
    }
}

/// The time zone the client announces: the system's, else `UTC`.
pub fn timezone_or_utc(timezone: Option<String>) -> (r: String)
    ensures
        r@ == match timezone {
            Some(t) => t@,
            None => "UTC"@,
        },
{
    match timezone {
        Some(t) => t,
        None => "UTC".to_owned(),
    }
}

/// What the client tells Discord about itself.
pub struct ClientFingerprint {
    pub os: String,
    pub os_version: String,
    pub os_arch: String,
    pub system_locale: String,
    pub timezone: String,
    pub user_agent: String,
    pub client_build_number: u64,
    pub launch_signature: String,
    pub client_launch_id: String,
    pub client_heartbeat_session_id: String,
}

impl ClientFingerprint {
    /// A fingerprint from the values read off this machine: the operating
    /// system, its version and architecture name, the locale and time zone it
    /// reported (if any), and the launch signature and identifiers drawn for
    /// this launch.
    pub fn from_system_values(
        client_build_number: u64,
        os: &str,
        os_version: String,
        arch: &str,
        locale: Option<String>,
        timezone: Option<String>,
        launch_signature: String,
        client_launch_id: String,
        client_heartbeat_session_id: String,
    ) -> (r: Self)
        ensures
            r.os@ == os@,
            r.os_version@ == os_version@,
            r.os_arch@ == arch_label_spec(arch@),
            r.user_agent@ == user_agent_spec(os@, os_version@, arch_label_spec(arch@)),
            r.client_build_number == client_build_number,
            r.system_locale@ == announced_locale(opt_string_view(locale)),
            r.timezone@ == announced_timezone(opt_string_view(timezone)),
            r.launch_signature@ == launch_signature@,
            r.client_launch_id@ == client_launch_id@,
            r.client_heartbeat_session_id@ == client_heartbeat_session_id@,
    {
        let os_arch = arch_label(arch);
        let user_agent = web_user_agent(os, os_version.as_str(), os_arch);
        ClientFingerprint {
            os: os.to_owned(),
            os_arch: os_arch.to_owned(),
            user_agent,
            os_version,
            system_locale: locale_from_system(locale),
            timezone: timezone_or_utc(timezone),
            client_build_number,
            launch_signature,
            client_launch_id,
            client_heartbeat_session_id,
        }
    }

    /// The fingerprint of this machine, given its operating system, version
    /// and architecture name: the matching user agent, the system locale and
    /// time zone (or `en-US` and `UTC`), a launch signature and fresh launch
    /// identifiers. What the system reports and the random draws are left
    /// open.
    pub fn new(client_build_number: u64, os: &str, os_version: String, arch: &str) -> (r: Self)
        ensures
            r.os@ == os@,
            r.os_version@ == os_version@,
            r.os_arch@ == arch_label_spec(arch@),
            r.user_agent@ == user_agent_spec(os@, os_version@, arch_label_spec(arch@)),
            r.client_build_number == client_build_number,
            exists|raw: Option<Seq<char>>| r.system_locale@ == announced_locale(raw),
            exists|tz: Option<Seq<char>>| r.timezone@ == announced_timezone(tz),
            exists|b: Seq<u8>|
                v4_uuid_bytes(b) && r.launch_signature@ == uuid_hyphenated(b) && forall|i: int| 0 <= i < 16
                    ==> #[trigger] b[i] & launch_mask()[i] == b[i],
            exists|b: Seq<u8>| v4_uuid_bytes(b) && r.client_launch_id@ == uuid_hyphenated(b),
            exists|b: Seq<u8>| v4_uuid_bytes(b) && r.client_heartbeat_session_id@ == uuid_hyphenated(b),
    {
        let locale = system_locale_raw();
        let timezone = system_timezone();
        let ghost locale_view = opt_string_view(locale);
        let ghost tz = opt_string_view(timezone);
        let r = ClientFingerprint::from_system_values(
            client_build_number,
            os,
            os_version,
            arch,
            locale,
            timezone,
            generate_launch_signature(),
            random_uuid_string(),
            random_uuid_string(),
        );
        proof {
            assert(r.system_locale@ == announced_locale(locale_view));
            assert(r.timezone@ == announced_timezone(tz));
        }
        r
    }
}

} // verus!
