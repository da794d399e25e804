//! Which strings can stand as an HTTP header value.
use vstd::prelude::*;
use vstd::utf8::encode_utf8;

verus! {

/// A byte that a header value may hold: a tab, or any byte from the space up
/// except DEL.
pub open spec fn header_byte_ok(b: u8) -> bool {
    (b >= 32 && b != 127) || b == 9
}

/// Every UTF-8 byte of `s` may stand in a header value.
pub open spec fn header_value_ok(s: Seq<char>) -> bool {
    let bytes = encode_utf8(s);
    forall|i: int| 0 <= i < bytes.len() ==> #[trigger] header_byte_ok(bytes[i])
}

/// `reqwest::header::HeaderValue::from_str`: accepts `s` exactly when every
/// byte of it is a tab or lies from the space up, DEL excluded.
#[verifier::external_body]
pub(crate) fn header_value_accepts(s: &str) -> (r: bool)
    ensures
        r == header_value_ok(s@),
{
    reqwest::header::HeaderValue::from_str(s).is_ok()
}

} // verus!
