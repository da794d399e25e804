//! Reads shared by the payload parsers: snowflakes, which Discord sends as
//! decimal strings (and test payloads as numbers), and lists of them.
use vstd::prelude::*;

use crate::ids::Id;
use crate::json::{deref_opt, jarray, jget, JsonNumber, JsonValue};
use crate::text::{parse_u64, parse_unsigned_spec};

verus! {

/// Keeps, in order, what `f` makes of each item, dropping the items it
/// makes nothing of.
pub open spec fn seq_filter_map<A, B>(s: Seq<A>, f: spec_fn(A) -> Option<B>) -> Seq<B>
    decreases s.len(),
{
    if s.len() == 0 {
        Seq::empty()
    } else {
        let rest = seq_filter_map(s.drop_last(), f);
        match f(s.last()) {
            Some(b) => rest.push(b),
            None => rest,
        }
    }
}

/// One more item extends the kept list by what `f` makes of it.
pub proof fn lemma_filter_map_step<A, B>(s: Seq<A>, i: int, f: spec_fn(A) -> Option<B>)
    requires
        0 <= i < s.len(),
    ensures
        seq_filter_map(s.subrange(0, i + 1), f) == match f(s[i]) {
            Some(b) => seq_filter_map(s.subrange(0, i), f).push(b),
            None => seq_filter_map(s.subrange(0, i), f),
        },
{
    assert(s.subrange(0, i + 1).drop_last() =~= s.subrange(0, i));
}

/// The items of an array; none for anything else or for nothing.
pub open spec fn array_items(v: Option<JsonValue>) -> Seq<JsonValue> {
    match v {
        Some(x) => match jarray(x) {
            Some(items) => items,
            None => Seq::empty(),
        },
        None => Seq::empty(),
    }
}

/// A snowflake: a decimal string or an unsigned number, never zero.
pub open spec fn parse_id_spec(v: JsonValue) -> Option<u64> {
    let raw = match v {
        JsonValue::Str(s) => match parse_unsigned_spec(s@, u64::MAX as nat) {
            Some(n) => Some(n as u64),
            None => None,
        },
        JsonValue::Number(JsonNumber::Unsigned(n)) => Some(n),
        _ => None,
    };
    match raw {
        Some(n) => if n != 0 {
            Some(n)
        } else {
            None
        },
        None => None,
    }
}

/// The member `key` read as a snowflake.
pub open spec fn field_id(v: JsonValue, key: Seq<char>) -> Option<u64> {
    match jget(v, key) {
        Some(x) => parse_id_spec(x),
        None => None,
    }
}

pub open spec fn opt_id_view<M>(id: Option<Id<M>>) -> Option<u64> {
    match id {
        Some(i) => Some(i@),
        None => None,
    }
}

/// The snowflakes of an array, skipping what is not one.
pub open spec fn id_items(v: Option<JsonValue>) -> Seq<u64> {
    seq_filter_map(array_items(v), |x: JsonValue| parse_id_spec(x))
}

/// Reads a snowflake.
pub fn parse_id<M>(v: &JsonValue) -> (r: Option<Id<M>>)
    ensures
        opt_id_view(r) == parse_id_spec(*v),
{
    let raw = match v {
        JsonValue::Str(s) => match parse_u64(s.as_str()) {
            Some(n) => Some(n),
            None => None,
        },
        JsonValue::Number(JsonNumber::Unsigned(n)) => Some(*n),
        _ => None,
    };
    match raw {
        Some(n) => Id::new_checked(n),
        None => None,
    }
}

/// Reads the member `key` as a snowflake.
pub fn get_id<M>(v: &JsonValue, key: &str) -> (r: Option<Id<M>>)
    ensures
        opt_id_view(r) == field_id(*v, key@),
{
    match v.get(key) {
        Some(x) => parse_id(x),
        None => None,
    }
}

pub open spec fn id_views<M>(ids: Seq<Id<M>>) -> Seq<u64> {
    ids.map_values(|i: Id<M>| i@)
}

/// Reads an array of snowflakes, skipping what is not one; nothing when the
/// value is not an array.
pub fn parse_id_array<M>(v: Option<&JsonValue>) -> (r: Vec<Id<M>>)
    ensures
        id_views(r@) == id_items(crate::json::deref_opt(v)),
{
    let mut out: Vec<Id<M>> = Vec::new();
    let items = match v {
        Some(x) => match x.as_array() {
            Some(items) => items,
            None => {
                proof {
                    assert(id_views(out@) =~= Seq::<u64>::empty());
                }
                return out;
            },
        },
        None => {
            proof {
                assert(id_views(out@) =~= Seq::<u64>::empty());
            }
            return out;
        },
    };
    let ghost f = |x: JsonValue| parse_id_spec(x);
    let n = items.len();
    let mut i: usize = 0;
    proof {
        assert(items@.subrange(0, 0) =~= Seq::<JsonValue>::empty());
        assert(id_views(out@) =~= Seq::<u64>::empty());
    }
    while i < n
        invariant
            n == items@.len(),
            i <= n,
            f == (|x: JsonValue| parse_id_spec(x)),
            id_views(out@) == seq_filter_map(items@.subrange(0, i as int), f),
        decreases n - i,
    {
        proof {
            lemma_filter_map_step(items@, i as int, f);
            assert(f(items@[i as int]) == parse_id_spec(items@[i as int]));
        }
        let ghost before = out@;
        match parse_id::<M>(&items[i]) {
            Some(id) => {
                out.push(id);
                proof {
                    assert(id_views(out@) =~= id_views(before).push(id@));
                }
            },
            None => {},
        }
        i = i + 1;
    }
    proof {
        assert(items@.subrange(0, n as int) =~= items@);
    }
    out
}

/// The items of a list that `keep` accepts, in order.
pub open spec fn kept_items(items: Seq<JsonValue>, keep: spec_fn(JsonValue) -> bool) -> Seq<JsonValue> {
    seq_filter_map(
        items,
        |x: JsonValue|
            if keep(x) {
                Some(x)
            } else {
                None
            },
    )
}

/// Reads each item of an array with `read`, keeping what it makes; nothing
/// when the value is not an array. `read` makes something of exactly the
/// items that `keep` accepts, and what it makes stands in `rel` to the item.
pub fn parse_list<T, F: Fn(&JsonValue) -> Option<T>>(
    v: Option<&JsonValue>,
    read: F,
    Ghost(keep): Ghost<spec_fn(JsonValue) -> bool>,
    Ghost(rel): Ghost<spec_fn(T, JsonValue) -> bool>,
) -> (r: Vec<T>)
    requires
        forall|x: &JsonValue| #[trigger] read.requires((x,)),
        forall|x: &JsonValue, o: Option<T>| #[trigger] read.ensures((x,), o) ==> {
            &&& (o is Some <==> keep(*x))
            &&& (o matches Some(t) ==> rel(t, *x))
        },
    ensures
        r@.len() == kept_items(array_items(deref_opt(v)), keep).len(),
        forall|i: int| 0 <= i < r@.len() ==> rel(#[trigger] r@[i], kept_items(array_items(deref_opt(v)), keep)[i]),
{
    let mut out: Vec<T> = Vec::new();
    let items = match v {
        Some(x) => match x.as_array() {
            Some(items) => items,
            None => {
                return out;
            },
        },
        None => {
            return out;
        },
    };
    let ghost f = |x: JsonValue|
        if keep(x) {
            Some(x)
        } else {
            None
        };
    let n = items.len();
    let mut i: usize = 0;
    proof {
        assert(items@.subrange(0, 0) =~= Seq::<JsonValue>::empty());
    }
    while i < n
        invariant
            n == items@.len(),
            i <= n,
            f == (|x: JsonValue|
                if keep(x) {
                    Some(x)
                } else {
                    None
                }),
            forall|x: &JsonValue| #[trigger] read.requires((x,)),
            forall|x: &JsonValue, o: Option<T>| #[trigger] read.ensures((x,), o) ==> {
                &&& (o is Some <==> keep(*x))
                &&& (o matches Some(t) ==> rel(t, *x))
            },
            out@.len() == seq_filter_map(items@.subrange(0, i as int), f).len(),
            forall|k: int| 0 <= k < out@.len() ==> rel(
                #[trigger] out@[k],
                seq_filter_map(items@.subrange(0, i as int), f)[k],
            ),
        decreases n - i,
    {
        proof {
            lemma_filter_map_step(items@, i as int, f);
        }
        let item = &items[i];
        match read(item) {
            Some(t) => {
                out.push(t);
            },
            None => {},
        }
        i = i + 1;
    }
    proof {
        assert(items@.subrange(0, n as int) =~= items@);
    }
    out
}

} // verus!
