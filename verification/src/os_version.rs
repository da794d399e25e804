//! Reading the Windows version out of the text that `cmd /C ver` prints.
use vstd::prelude::*;

use crate::message_info::opt_string_view;
use crate::text::{all_ascii_digits, digits_value, string_push};

verus! {

/// The separators of a split: dots, or else anything but digits and dots.
pub open spec fn is_sep(dots: bool, c: char) -> bool {
    if dots {
        c == '.'
    } else {
        !is_version_char(c)
    }
}

/// The pieces of `s` between separators, as `str::split` makes them: one
/// more piece than separators, empty ones included.
pub open spec fn split_pieces(s: Seq<char>, dots: bool) -> Seq<Seq<char>>
    decreases s.len(),
{
    if s.len() == 0 {
        seq![Seq::empty()]
    } else {
        let p = split_pieces(s.drop_last(), dots);
        if is_sep(dots, s.last()) {
            p.push(Seq::empty())
        } else {
            p.update(p.len() - 1, p.last().push(s.last()))
        }
    }
}

pub proof fn lemma_split_nonempty(s: Seq<char>, sep: bool)
    ensures
        split_pieces(s, sep).len() >= 1,
    decreases s.len(),
{
    if s.len() > 0 {
        lemma_split_nonempty(s.drop_last(), sep);
    }
}

/// The pieces of a prefix, but its last, are the first pieces of the whole;
/// the whole has at least as many pieces.
proof fn lemma_split_prefix(s: Seq<char>, k: int, sep: bool)
    requires
        0 <= k <= s.len(),
    ensures
        split_pieces(s.subrange(0, k), sep).len() <= split_pieces(s, sep).len(),
        forall|j: int|
            0 <= j < split_pieces(s.subrange(0, k), sep).len() - 1 ==> #[trigger] split_pieces(s.subrange(0, k), sep)[j]
                == split_pieces(s, sep)[j],
    decreases s.len() - k,
{
    if k == s.len() {
        assert(s.subrange(0, k) =~= s);
    } else {
        lemma_split_prefix(s, k + 1, sep);
        lemma_split_nonempty(s.subrange(0, k), sep);
        assert(s.subrange(0, k + 1).drop_last() =~= s.subrange(0, k));
        assert(s.subrange(0, k + 1).last() == s[k]);
        let p = split_pieces(s.subrange(0, k), sep);
        let p2 = split_pieces(s.subrange(0, k + 1), sep);
        assert forall|j: int| 0 <= j < p.len() - 1 implies #[trigger] p[j] == split_pieces(s, sep)[j] by {
            assert(p2[j] == p[j]);
        }
    }
}

pub open spec fn is_version_char(c: char) -> bool {
    ('0' <= c && c <= '9') || c == '.'
}

/// A version component: digits that read as a `u32`.
pub open spec fn version_component_ok(c: Seq<char>) -> bool {
    c.len() > 0 && all_ascii_digits(c) && digits_value(c) <= u32::MAX
}

/// A version: dotted, with every component a `u32`.
pub open spec fn version_part_ok(p: Seq<char>) -> bool {
    &&& p.contains('.')
    &&& forall|i: int|
        0 <= i < split_pieces(p, true).len() ==> #[trigger] version_component_ok(
            split_pieces(p, true)[i],
        )
}

/// The first piece that is a version.
pub open spec fn first_version(ps: Seq<Seq<char>>) -> Option<Seq<char>>
    decreases ps.len(),
{
    if ps.len() == 0 {
        None
    } else if version_part_ok(ps[0]) {
        Some(ps[0])
    } else {
        first_version(ps.drop_first())
    }
}

proof fn lemma_first_version_at(ps: Seq<Seq<char>>, m: int)
    requires
        0 <= m < ps.len(),
        forall|j: int| 0 <= j < m ==> !version_part_ok(#[trigger] ps[j]),
    ensures
        first_version(ps) == if version_part_ok(ps[m]) {
            Some(ps[m])
        } else {
            first_version(ps.subrange(m + 1, ps.len() as int))
        },
    decreases m,
{
    if m > 0 {
        assert(!version_part_ok(ps[0]));
        lemma_first_version_at(ps.drop_first(), m - 1);
        assert(ps.drop_first().subrange(m, ps.drop_first().len() as int) =~= ps.subrange(m + 1, ps.len() as int));
    } else {
        assert(ps.drop_first() =~= ps.subrange(1, ps.len() as int));
    }
}

/// The Windows version in the output of `ver`: the first run of digits and
/// dots that holds a dot and whose dot-separated components all read as
/// `u32` numbers.
pub open spec fn windows_version_spec(output: Seq<char>) -> Option<Seq<char>> {
    first_version(split_pieces(output, false))
}

fn is_ascii_digit(c: char) -> (r: bool)
    ensures
        r == ('0' <= c && c <= '9'),
{
    '0' <= c && c <= '9'
}

/// Whether a run of digits and dots is a version.
fn version_part_valid(p: &Vec<char>) -> (r: bool)
    ensures
        r == version_part_ok(p@),
{
    let ghost dot = true;
    let n = p.len();
    let mut i: usize = 0;
    let mut has_dot = false;
    let mut done_ok = true;
    let mut cur_len: usize = 0;
    let mut cur_digits = true;
    let mut cur_value: u64 = 0;
    let mut cur_small = true;
    proof {
        assert(p@.subrange(0, 0) =~= Seq::<char>::empty());
        assert(split_pieces(Seq::<char>::empty(), dot) =~= seq![Seq::<char>::empty()]);
    }
    while i < n
        invariant
            n == p@.len(),
            i <= n,
            dot == (true),
            split_pieces(p@.subrange(0, i as int), dot).len() >= 1,
            has_dot == p@.subrange(0, i as int).contains('.'),
            done_ok == forall|j: int|
                0 <= j < split_pieces(p@.subrange(0, i as int), dot).len() - 1 ==> #[trigger] version_component_ok(
                    split_pieces(p@.subrange(0, i as int), dot)[j],
                ),
            cur_len == split_pieces(p@.subrange(0, i as int), dot).last().len(),
            cur_len <= i,
            cur_digits == all_ascii_digits(split_pieces(p@.subrange(0, i as int), dot).last()),
            cur_digits ==> cur_small == (digits_value(split_pieces(p@.subrange(0, i as int), dot).last()) <= u32::MAX),
            cur_digits && cur_small ==> cur_value == digits_value(split_pieces(p@.subrange(0, i as int), dot).last()),
        decreases n - i,
    {
        let c = p[i];
        let ghost before = split_pieces(p@.subrange(0, i as int), dot);
        proof {
            assert(p@.subrange(0, i + 1).drop_last() =~= p@.subrange(0, i as int));
            assert(p@.subrange(0, i + 1).last() == c);
        }
        if c == '.' {
            let component_ok = cur_len > 0 && cur_digits && cur_small;
            proof {
                let after = split_pieces(p@.subrange(0, i + 1), dot);
                assert(after == before.push(Seq::<char>::empty()));
                assert(component_ok == version_component_ok(before.last()));
                assert forall|j: int| 0 <= j < after.len() - 1 implies (#[trigger] version_component_ok(after[j])
                    == version_component_ok(before[j])) by {}
                if done_ok && component_ok {
                    assert forall|j: int| 0 <= j < after.len() - 1 implies #[trigger] version_component_ok(
                        after[j],
                    ) by {
                        if j < before.len() - 1 {
                            assert(version_component_ok(before[j]));
                        }
                    }
                } else if !component_ok {
                    assert(!version_component_ok(after[before.len() - 1]));
                } else {
                    let j0 = choose|j: int|
                        0 <= j < before.len() - 1 && !#[trigger] version_component_ok(before[j]);
                    assert(!version_component_ok(after[j0]));
                }
                assert(p@.subrange(0, i + 1) =~= p@.subrange(0, i as int).push(c));
                assert(p@.subrange(0, i + 1).contains('.')) by {
                    assert(p@.subrange(0, i + 1)[i as int] == '.');
                }
                assert(all_ascii_digits(Seq::<char>::empty()));
                assert(digits_value(Seq::<char>::empty()) == 0);
            }
            has_dot = true;
            done_ok = done_ok && component_ok;
            cur_len = 0;
            cur_digits = true;
            cur_value = 0;
            cur_small = true;
        } else {
            let digit = is_ascii_digit(c);
            proof {
                let after = split_pieces(p@.subrange(0, i + 1), dot);
                let last = before.last();
                assert(after == before.update(before.len() - 1, last.push(c)));
                assert(last.push(c).drop_last() =~= last);
                if done_ok {
                    assert forall|j: int| 0 <= j < after.len() - 1 implies #[trigger] version_component_ok(
                        after[j],
                    ) by {
                        assert(after[j] == before[j]);
                        assert(version_component_ok(before[j]));
                    }
                } else {
                    let j0 = choose|j: int|
                        0 <= j < before.len() - 1 && !#[trigger] version_component_ok(before[j]);
                    assert(after[j0] == before[j0]);
                    assert(!version_component_ok(after[j0]));
                }
                assert(digits_value(last.push(c)) == digits_value(last) * 10 + ((c as nat) - ('0' as nat)) as nat);
                assert forall|j: int| 0 <= j < after.len() - 1 implies (#[trigger] version_component_ok(after[j])
                    == version_component_ok(before[j])) by {}
                if all_ascii_digits(last.push(c)) {
                    assert(all_ascii_digits(last)) by {
                        assert forall|k: int| 0 <= k < last.len() implies '0' <= #[trigger] last[k] && last[k] <= '9' by {
                            assert(last.push(c)[k] == last[k]);
                        }
                    }
                    assert(digit) by {
                        assert(last.push(c)[last.len() as int] == c);
                    }
                }
                if cur_digits && digit {
                    assert forall|k: int| 0 <= k < last.push(c).len() implies '0' <= #[trigger] last.push(c)[k]
                        && last.push(c)[k] <= '9' by {
                        if k < last.len() {
                            assert(last.push(c)[k] == last[k]);
                        }
                    }
                }
                assert(p@.subrange(0, i + 1) =~= p@.subrange(0, i as int).push(c));
                if p@.subrange(0, i + 1).contains('.') {
                    let k = choose|k: int| 0 <= k < p@.subrange(0, i + 1).len() && #[trigger] p@.subrange(0, i + 1)[k] == '.';
                    assert(k < i);
                    assert(p@.subrange(0, i as int)[k] == '.');
                }
            }
            if cur_digits && digit && cur_small {
                let d = (c as u32 - '0' as u32) as u64;
                let next = cur_value * 10 + d;
                if next > 4294967295u64 {
                    cur_small = false;
                } else {
                    cur_value = next;
                }
            }
            cur_len = cur_len + 1;
            cur_digits = cur_digits && digit;
        }
        i = i + 1;
    }
    proof {
        assert(p@.subrange(0, n as int) =~= p@);
        let ps = split_pieces(p@, dot);
        let last_ok = version_component_ok(ps.last());
        assert forall|j: int| 0 <= j < ps.len() implies (#[trigger] version_component_ok(ps[j])) == if j
            == ps.len() - 1 {
            last_ok
        } else {
            version_component_ok(ps[j])
        } by {}
    }
    let last_ok = cur_len > 0 && cur_digits && cur_small;
    proof {
        let ps = split_pieces(p@, dot);
        if done_ok && last_ok {
            assert forall|j: int| 0 <= j < ps.len() implies #[trigger] version_component_ok(ps[j]) by {
                if j < ps.len() - 1 {
                    assert(version_component_ok(ps[j]));
                }
            }
        } else if !last_ok {
            assert(!version_component_ok(ps[ps.len() - 1]));
        } else {
            let j0 = choose|j: int| 0 <= j < ps.len() - 1 && !#[trigger] version_component_ok(ps[j]);
            assert(!version_component_ok(ps[j0]));
        }
    }
    has_dot && done_ok && last_ok
}

fn string_of(chars: &Vec<char>) -> (r: String)
    ensures
        r@ == chars@,
{
    let mut out = String::new();
    let n = chars.len();
    let mut i: usize = 0;
    while i < n
        invariant
            n == chars@.len(),
            i <= n,
            out@ == chars@.subrange(0, i as int),
        decreases n - i,
    {
        string_push(&mut out, chars[i]);
        proof {
            assert(out@ =~= chars@.subrange(0, i + 1));
        }
        i = i + 1;
    }
    proof {
        assert(chars@.subrange(0, n as int) =~= chars@);
    }
    out
}

/// The Windows version in the output of `ver`, if it holds one.
pub fn windows_version(output: &str) -> (r: Option<String>)
    ensures
        opt_string_view(r) == windows_version_spec(output@),
{
    let ghost s = output@;
    let n = output.unicode_len();
    let mut cur: Vec<char> = Vec::new();
    let mut i: usize = 0;
    proof {
        assert(s.subrange(0, 0) =~= Seq::<char>::empty());
        assert(split_pieces(Seq::<char>::empty(), false) =~= seq![Seq::<char>::empty()]);
    }
    while i < n
        invariant
            n == s.len(),
            s == output@,
            i <= n,
            split_pieces(s.subrange(0, i as int), false).len() >= 1,
            forall|j: int|
                0 <= j < split_pieces(s.subrange(0, i as int), false).len() - 1 ==> !version_part_ok(
                    #[trigger] split_pieces(s.subrange(0, i as int), false)[j],
                ),
            cur@ == split_pieces(s.subrange(0, i as int), false).last(),
        decreases n - i,
    {
        let c = output.get_char(i);
        let ghost before = split_pieces(s.subrange(0, i as int), false);
        proof {
            assert(s.subrange(0, i + 1).drop_last() =~= s.subrange(0, i as int));
            assert(s.subrange(0, i + 1).last() == c);
        }
        let version_char = ('0' <= c && c <= '9') || c == '.';
        if version_char {
            cur.push(c);
            proof {
                let after = split_pieces(s.subrange(0, i + 1), false);
                assert(after == before.update(before.len() - 1, before.last().push(c)));
                assert forall|j: int| 0 <= j < after.len() - 1 implies !version_part_ok(#[trigger] after[j]) by {
                    assert(after[j] == before[j]);
                }
            }
        } else {
            if version_part_valid(&cur) {
                proof {
                    let whole = split_pieces(s, false);
                    let after = split_pieces(s.subrange(0, i + 1), false);
                    assert(after == before.push(Seq::<char>::empty()));
                    lemma_split_prefix(s, i + 1, false);
                    assert forall|j: int| 0 <= j < before.len() - 1 implies !version_part_ok(#[trigger] whole[j]) by {
                        assert(after[j] == before[j]);
                        assert(after[j] == whole[j]);
                    }
                    assert(after[before.len() - 1] == whole[before.len() - 1]);
                    lemma_first_version_at(whole, before.len() - 1);
                }
                return Some(string_of(&cur));
            }
            cur = Vec::new();
            proof {
                let after = split_pieces(s.subrange(0, i + 1), false);
                assert(after == before.push(Seq::<char>::empty()));
                assert forall|j: int| 0 <= j < after.len() - 1 implies !version_part_ok(#[trigger] after[j]) by {
                    if j < before.len() - 1 {
                        assert(after[j] == before[j]);
                    }
                }
                assert(cur@ =~= after.last());
            }
        }
        i = i + 1;
    }
    proof {
        assert(s.subrange(0, n as int) =~= s);
        let whole = split_pieces(s, false);
        lemma_first_version_at(whole, whole.len() - 1);
        assert(whole.subrange(whole.len() as int, whole.len() as int).len() == 0);
    }
    if version_part_valid(&cur) {
        Some(string_of(&cur))
    } else {
        None
    }
}

} // verus!
