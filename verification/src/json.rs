//! A JSON document as the gateway and the REST API send it, and the reads
//! that the payload parsers make of it: a member of an object, and a member
//! taken as a string, an unsigned or signed integer, a boolean or an array.
use vstd::prelude::*;

use crate::message_info::{opt_str_view, opt_string_view};
use crate::text::str_eq;

verus! {

/// A JSON number: a non-negative integer, a negative one, or one with a
/// fraction or exponent, kept as the text that stands for its value.
#[derive(Clone, Debug, PartialEq, Eq)]
pub enum JsonNumber {
    Unsigned(u64),
    Negative(i64),
    NonInteger(String),
}

/// A JSON value. An object keeps its members in order, each key once.
#[derive(Debug)]
pub enum JsonValue {
    Null,
    Bool(bool),
    Number(JsonNumber),
    Str(String),
    Array(Vec<JsonValue>),
    Object(Vec<(String, JsonValue)>),
}

/// The value of the first member named `key`.
pub open spec fn entries_lookup(entries: Seq<(String, JsonValue)>, key: Seq<char>) -> Option<JsonValue>
    decreases entries.len(),
{
    if entries.len() == 0 {
        None
    } else if entries[0].0@ == key {
        Some(entries[0].1)
    } else {
        entries_lookup(entries.drop_first(), key)
    }
}

/// The member `key` of an object; nothing for any other value.
pub open spec fn jget(v: JsonValue, key: Seq<char>) -> Option<JsonValue> {
    match v {
        JsonValue::Object(entries) => entries_lookup(entries@, key),
        _ => None,
    }
}

pub open spec fn jstr(v: JsonValue) -> Option<Seq<char>> {
    match v {
        JsonValue::Str(s) => Some(s@),
        _ => None,
    }
}

pub open spec fn ju64(v: JsonValue) -> Option<u64> {
    match v {
        JsonValue::Number(JsonNumber::Unsigned(n)) => Some(n),
        _ => None,
    }
}

/// A number that fits in an `i64`.
pub open spec fn ji64(v: JsonValue) -> Option<i64> {
    match v {
        JsonValue::Number(JsonNumber::Unsigned(n)) => if n <= i64::MAX {
            Some(n as i64)
        } else {
            None
        },
        JsonValue::Number(JsonNumber::Negative(n)) => Some(n),
        _ => None,
    }
}

pub open spec fn jbool(v: JsonValue) -> Option<bool> {
    match v {
        JsonValue::Bool(b) => Some(b),
        _ => None,
    }
}

pub open spec fn jarray(v: JsonValue) -> Option<Seq<JsonValue>> {
    match v {
        JsonValue::Array(items) => Some(items@),
        _ => None,
    }
}

pub open spec fn deref_opt(r: Option<&JsonValue>) -> Option<JsonValue> {
    match r {
        Some(x) => Some(*x),
        None => None,
    }
}

/// The member `key` as a string.
pub open spec fn field_str(v: JsonValue, key: Seq<char>) -> Option<Seq<char>> {
    match jget(v, key) {
        Some(x) => jstr(x),
        None => None,
    }
}

pub open spec fn field_u64(v: JsonValue, key: Seq<char>) -> Option<u64> {
    match jget(v, key) {
        Some(x) => ju64(x),
        None => None,
    }
}

pub open spec fn field_i64(v: JsonValue, key: Seq<char>) -> Option<i64> {
    match jget(v, key) {
        Some(x) => ji64(x),
        None => None,
    }
}

pub open spec fn field_bool(v: JsonValue, key: Seq<char>) -> Option<bool> {
    match jget(v, key) {
        Some(x) => jbool(x),
        None => None,
    }
}

/// The member `inner` of the member `outer`, as a string.
pub open spec fn nested_str(v: JsonValue, outer: Seq<char>, inner: Seq<char>) -> Option<Seq<char>> {
    match jget(v, outer) {
        Some(x) => field_str(x, inner),
        None => None,
    }
}

pub open spec fn nested_u64(v: JsonValue, outer: Seq<char>, inner: Seq<char>) -> Option<u64> {
    match jget(v, outer) {
        Some(x) => field_u64(x, inner),
        None => None,
    }
}

impl JsonValue {
    /// The member `key` of an object.
    pub fn get(&self, key: &str) -> (r: Option<&JsonValue>)
        ensures
            deref_opt(r) == jget(*self, key@),
    {
        match self {
            JsonValue::Object(entries) => {
                let n = entries.len();
                let mut i: usize = 0;
                proof {
                    assert(entries@.subrange(0, n as int) =~= entries@);
                }
                while i < n
                    invariant
                        n == entries@.len(),
                        jget(*self, key@) == entries_lookup(entries@, key@),
                        i <= n,
                        entries_lookup(entries@.subrange(i as int, n as int), key@) == entries_lookup(
                            entries@,
                            key@,
                        ),
                    decreases n - i,
                {
                    proof {
                        assert(entries@.subrange(i as int, n as int).drop_first() =~= entries@.subrange(
                            i + 1,
                            n as int,
                        ));
                    }
                    if str_eq(entries[i].0.as_str(), key) {
                        proof {
                            assert(entries@.subrange(i as int, n as int)[0] == entries@[i as int]);
                        }
                        return Some(&entries[i].1);
                    }
                    i = i + 1;
                }
                None
            },
            _ => None,
        }
    }

    pub fn as_str(&self) -> (r: Option<&str>)
        ensures
            match r {
                Some(s) => jstr(*self) == Some(s@),
                None => jstr(*self) is None,
            },
    {
        match self {
            JsonValue::Str(s) => Some(s.as_str()),
            _ => None,
        }
    }

    pub fn as_u64(&self) -> (r: Option<u64>)
        ensures
            r == ju64(*self),
    {
        match self {
            JsonValue::Number(JsonNumber::Unsigned(n)) => Some(*n),
            _ => None,
        }
    }

    pub fn as_i64(&self) -> (r: Option<i64>)
        ensures
            r == ji64(*self),
    {
        match self {
            JsonValue::Number(JsonNumber::Unsigned(n)) => {
                if *n <= 9_223_372_036_854_775_807u64 {
                    Some(*n as i64)
                } else {
                    None
                }
            },
            JsonValue::Number(JsonNumber::Negative(n)) => Some(*n),
            _ => None,
        }
    }

    pub fn as_bool(&self) -> (r: Option<bool>)
        ensures
            r == jbool(*self),
    {
        match self {
            JsonValue::Bool(b) => Some(*b),
            _ => None,
        }
    }

    pub fn as_array(&self) -> (r: Option<&Vec<JsonValue>>)
        ensures
            match r {
                Some(items) => jarray(*self) == Some(items@),
                None => jarray(*self) is None,
            },
    {
        match self {
            JsonValue::Array(items) => Some(items),
            _ => None,
        }
    }

    pub fn is_null(&self) -> (r: bool)
        ensures
            r == (*self is Null),
    {
        match self {
            JsonValue::Null => true,
            _ => false,
        }
    }
}

/// The member `key` as a string.
pub fn get_str<'a>(v: &'a JsonValue, key: &str) -> (r: Option<&'a str>)
    ensures
        opt_str_view(r) == field_str(*v, key@),
{
    match v.get(key) {
        Some(x) => x.as_str(),
        None => None,
    }
}

/// The member `key` as an owned string.
pub fn get_string(v: &JsonValue, key: &str) -> (r: Option<String>)
    ensures
        opt_string_view(r) == field_str(*v, key@),
{
    match v.get(key) {
        Some(x) => match x.as_str() {
            Some(s) => Some(s.to_owned()),
            None => None,
        },
        None => None,
    }
}

pub fn get_u64(v: &JsonValue, key: &str) -> (r: Option<u64>)
    ensures
        r == field_u64(*v, key@),
{
    match v.get(key) {
        Some(x) => x.as_u64(),
        None => None,
    }
}

pub fn get_i64(v: &JsonValue, key: &str) -> (r: Option<i64>)
    ensures
        r == field_i64(*v, key@),
{
    match v.get(key) {
        Some(x) => x.as_i64(),
        None => None,
    }
}

pub fn get_bool(v: &JsonValue, key: &str) -> (r: Option<bool>)
    ensures
        r == field_bool(*v, key@),
{
    match v.get(key) {
        Some(x) => x.as_bool(),
        None => None,
    }
}

/// The member `inner` of the member `outer`, as an owned string.
pub fn get_nested_string(v: &JsonValue, outer: &str, inner: &str) -> (r: Option<String>)
    ensures
        opt_string_view(r) == nested_str(*v, outer@, inner@),
{
    match v.get(outer) {
        Some(x) => get_string(x, inner),
        None => None,
    }
}

pub fn get_nested_u64(v: &JsonValue, outer: &str, inner: &str) -> (r: Option<u64>)
    ensures
        r == nested_u64(*v, outer@, inner@),
{
    match v.get(outer) {
        Some(x) => get_u64(x, inner),
        None => None,
    }
}

/// An object whose members have pairwise distinct names.
pub open spec fn distinct_keys(v: JsonValue) -> bool {
    match v {
        JsonValue::Object(e) => forall|i: int, j: int|
            0 <= i < j < e@.len() ==> (#[trigger] e@[i]).0@ != (#[trigger] e@[j]).0@,
        _ => false,
    }
}

/// An object whose members are exactly the keys of `keys`, each named once.
pub open spec fn has_keys(v: JsonValue, keys: Set<Seq<char>>) -> bool {
    &&& v is Object
    &&& distinct_keys(v)
    &&& forall|k: Seq<char>| #[trigger] jget(v, k) is Some <==> keys.contains(k)
}

/// After a new last member, a key reads the first match as before, or the
/// new member when it had none.
proof fn lemma_lookup_push(e: Seq<(String, JsonValue)>, m: (String, JsonValue), key: Seq<char>)
    ensures
        entries_lookup(e.push(m), key) == match entries_lookup(e, key) {
            Some(x) => Some(x),
            None => if m.0@ == key {
                Some(m.1)
            } else {
                None
            },
        },
    decreases e.len(),
{
    if e.len() > 0 {
        assert(e.push(m)[0] == e[0]);
        assert(e.push(m).drop_first() =~= e.drop_first().push(m));
        lemma_lookup_push(e.drop_first(), m, key);
    } else {
        assert(e.push(m)[0] == m);
        assert(e.push(m).drop_first() =~= Seq::<(String, JsonValue)>::empty());
        assert(entries_lookup(Seq::<(String, JsonValue)>::empty(), key) is None);
    }
}

/// Replacing the value of the first member named `m.0` changes only what
/// that key reads.
proof fn lemma_lookup_update(e: Seq<(String, JsonValue)>, i: int, m: (String, JsonValue), key: Seq<char>)
    requires
        0 <= i < e.len(),
        e[i].0@ == m.0@,
        forall|j: int| 0 <= j < i ==> (#[trigger] e[j]).0@ != m.0@,
    ensures
        entries_lookup(e.update(i, m), key) == if key == m.0@ {
            Some(m.1)
        } else {
            entries_lookup(e, key)
        },
    decreases e.len(),
{
    if i > 0 {
        assert(e.update(i, m).drop_first() =~= e.drop_first().update(i - 1, m));
        assert forall|j: int| 0 <= j < i - 1 implies (#[trigger] e.drop_first()[j]).0@ != m.0@ by {
            assert(e.drop_first()[j] == e[j + 1]);
        }
        lemma_lookup_update(e.drop_first(), i - 1, m, key);
    } else {
        assert(e.update(i, m).drop_first() =~= e.drop_first());
    }
}

/// An object with no members.
pub fn empty_object() -> (r: JsonValue)
    ensures
        has_keys(r, Set::empty()),
{
    JsonValue::Object(Vec::new())
}

/// Sets the member `key` of an object, replacing its value when the key is
/// already there.
pub fn insert_member(obj: JsonValue, key: &str, value: JsonValue) -> (r: JsonValue)
    requires
        obj is Object,
    ensures
        r is Object,
        distinct_keys(obj) ==> distinct_keys(r),
        forall|k: Seq<char>| #[trigger] jget(r, k) == if k == key@ {
            Some(value)
        } else {
            jget(obj, k)
        },
{
    let ghost g = obj;
    match obj {
        JsonValue::Object(mut entries) => {
            let n = entries.len();
            let mut i: usize = 0;
            while i < n
                invariant
                    g == obj,
                    g matches JsonValue::Object(ge) && ge@ == entries@,
                    n == entries@.len(),
                    i <= n,
                    forall|j: int| 0 <= j < i ==> (#[trigger] entries@[j]).0@ != key@,
                decreases n - i,
            {
                if str_eq(entries[i].0.as_str(), key) {
                    let ghost old_entries = entries@;
                    let m = (key.to_owned(), value);
                    proof {
                        assert forall|k: Seq<char>| #[trigger] entries_lookup(old_entries.update(i as int, m), k)
                            == (if k == key@ {
                            Some(m.1)
                        } else {
                            entries_lookup(old_entries, k)
                        }) by {
                            lemma_lookup_update(old_entries, i as int, m, k);
                        }
                    }
                    entries.set(i, m);
                    proof {
                        assert(entries@ == old_entries.update(i as int, m));
                        assert(old_entries[i as int].0@ == m.0@);
                    }
                    return JsonValue::Object(entries);
                }
                i = i + 1;
            }
            let ghost old_entries = entries@;
            let m = (key.to_owned(), value);
            proof {
                assert forall|k: Seq<char>| #[trigger] entries_lookup(old_entries.push(m), k) == (if k == key@ {
                    Some(m.1)
                } else {
                    entries_lookup(old_entries, k)
                }) by {
                    lemma_lookup_push(old_entries, m, k);
                    if k == key@ {
                        lemma_lookup_absent(old_entries, k);
                    }
                }
            }
            entries.push(m);
            proof {
                assert(entries@ == old_entries.push(m));
                assert(forall|j: int| 0 <= j < old_entries.len() ==> (#[trigger] old_entries[j]).0@ != m.0@);
            }
            JsonValue::Object(entries)
        },
        _ => JsonValue::Null,
    }
}

/// A key that no member has reads nothing.
proof fn lemma_lookup_absent(e: Seq<(String, JsonValue)>, key: Seq<char>)
    requires
        forall|j: int| 0 <= j < e.len() ==> (#[trigger] e[j]).0@ != key,
    ensures
        entries_lookup(e, key) is None,
    decreases e.len(),
{
    if e.len() > 0 {
        assert forall|j: int| 0 <= j < e.drop_first().len() implies (#[trigger] e.drop_first()[j]).0@ != key by {
            assert(e.drop_first()[j] == e[j + 1]);
        }
        lemma_lookup_absent(e.drop_first(), key);
    }
}

pub fn json_string(s: &str) -> (r: JsonValue)
    ensures
        jstr(r) == Some(s@),
{
    JsonValue::Str(s.to_owned())
}

pub fn json_u64(n: u64) -> (r: JsonValue)
    ensures
        ju64(r) == Some(n),
        r == JsonValue::Number(JsonNumber::Unsigned(n)),
{
    JsonValue::Number(JsonNumber::Unsigned(n))
}

pub fn json_bool(b: bool) -> (r: JsonValue)
    ensures
        jbool(r) == Some(b),
        r == JsonValue::Bool(b),
{
    JsonValue::Bool(b)
}

#[verifier::external_type_specification]
#[verifier::external_body]
pub struct ExSerdeJsonValue(serde_json::Value);

#[verifier::external_type_specification]
#[verifier::external_body]
pub struct ExSerdeJsonNumber(serde_json::Number);

/// The document that `serde_json::from_str::<serde_json::Value>` reads from
/// a text; nothing when the text is not JSON.
pub uninterp spec fn json_of(text: Seq<char>) -> Option<JsonValue>;

/// `serde_json::from_str::<serde_json::Value>`: the document a text holds,
/// converted value by value, or nothing when the text is not JSON.
#[verifier::external_body]
fn json_document(text: &str) -> (r: Option<JsonValue>)
    ensures
        r == json_of(text@),
{
    serde_json::from_str::<serde_json::Value>(text).ok().map(|v| json_from_serde(&v))
}

/// Converts one parsed `serde_json::Number`: an integer that fits in a `u64`
/// or an `i64` keeps its value, any other number is kept as the text that
/// `serde_json` writes for it.
#[verifier::external_body]
fn number_from_serde(n: &serde_json::Number) -> (r: JsonNumber) {
    match (n.as_u64(), n.as_i64()) {
        (Some(u), _) => JsonNumber::Unsigned(u),
        (None, Some(i)) => JsonNumber::Negative(i),
        (None, None) => JsonNumber::NonInteger(n.to_string()),
    }
}

/// Converts one parsed `serde_json::Value` into a document value.
#[verifier::external_body]
fn json_from_serde(v: &serde_json::Value) -> (r: JsonValue) {
    match v {
        serde_json::Value::Null => JsonValue::Null,
        serde_json::Value::Bool(b) => JsonValue::Bool(*b),
        serde_json::Value::Number(n) => JsonValue::Number(number_from_serde(n)),
        serde_json::Value::String(s) => JsonValue::Str(s.clone()),
        serde_json::Value::Array(items) => JsonValue::Array(items.iter().map(json_from_serde).collect()),
        serde_json::Value::Object(m) => JsonValue::Object(m.iter().map(|(k, x)| (k.clone(), json_from_serde(x))).collect()),
    }
}

/// Reads a JSON text: its document, or nothing when it is not JSON.
pub fn parse_json(text: &str) -> (r: Option<JsonValue>)
    ensures
        r == json_of(text@),
{
    json_document(text)
}

/// The bytes of the JSON text that `serde_json::to_vec` writes for a
/// document.
pub uninterp spec fn json_bytes_of(v: JsonValue) -> Seq<u8>;

/// `serde_json::to_vec` of a document, converted value by value into a
/// `serde_json::Value` (whose objects list their members by key); a number
/// with a fraction or exponent is read back from its text.
#[verifier::external_body]
fn json_bytes(v: &JsonValue) -> (r: Vec<u8>)
    ensures
        r@ == json_bytes_of(*v),
        r@.len() <= isize::MAX,
{
    serde_json::to_vec(&json_to_serde(v)).unwrap_or_default()
}

/// Converts one document number into a `serde_json::Value`: a number with a
/// fraction or exponent is read back from its text.
#[verifier::external_body]
fn number_to_serde(n: &JsonNumber) -> (r: serde_json::Value) {
    match n {
        JsonNumber::Unsigned(u) => serde_json::Value::from(*u),
        JsonNumber::Negative(i) => serde_json::Value::from(*i),
        JsonNumber::NonInteger(t) => t.parse().map(serde_json::Value::Number).unwrap_or_default(),
    }
}

/// Converts one document value into a `serde_json::Value`.
#[verifier::external_body]
fn json_to_serde(v: &JsonValue) -> (r: serde_json::Value) {
    match v {
        JsonValue::Null => serde_json::Value::Null,
        JsonValue::Bool(b) => serde_json::Value::Bool(*b),
        JsonValue::Number(n) => number_to_serde(n),
        JsonValue::Str(s) => serde_json::Value::String(s.clone()),
        JsonValue::Array(items) => serde_json::Value::Array(items.iter().map(json_to_serde).collect()),
        JsonValue::Object(m) => serde_json::Value::Object(m.iter().map(|(k, x)| (k.clone(), json_to_serde(x))).collect()),
    }
}

/// The JSON text of a document, as bytes.
pub fn encode_json(v: &JsonValue) -> (r: Vec<u8>)
    ensures
        r@ == json_bytes_of(*v),
        r@.len() <= isize::MAX,
{
    json_bytes(v)
}

} // verus!
