//! Who is typing in a channel: the latest typing notice of each user, shown
//! while it is fresh, newest first.
use vstd::prelude::*;

use crate::ids::{ChannelMarker, Id, UserMarker};
use crate::id_map::IdMap;
use crate::state::{lookup, DiscordState};

verus! {

/// How long a typing notice stays fresh, in milliseconds.
pub const TYPING_INDICATOR_TTL_MS: u64 = 10_000;

/// The latest typing notice of one user in one channel.
#[derive(Clone, Debug)]
pub struct TypingIndicator {
    /// When it arrived, on the caller's monotonic clock, in milliseconds.
    pub started_ms: u64,
    pub display_name: Option<String>,
}

/// A user shown as typing.
#[derive(Clone, Debug)]
pub struct TypingUserState {
    pub user_id: Id<UserMarker>,
    pub display_name: Option<String>,
}

/// A notice is fresh while no more than the time to live has passed since it
/// arrived.
pub open spec fn typing_fresh(started: u64, now: u64) -> bool {
    now <= started + TYPING_INDICATOR_TTL_MS
}

/// Display order: newer notices first, then lower user ids.
pub open spec fn typing_precedes(a_started: u64, a_user: u64, b_started: u64, b_user: u64) -> bool {
    a_started > b_started || (a_started == b_started && a_user < b_user)
}

/// A listed typer: a user of `m` whose notice is fresh, with its name.
pub open spec fn typer_ok(t: TypingUserState, m: Map<u64, TypingIndicator>, now: u64) -> bool {
    &&& m.dom().contains(t.user_id@)
    &&& typing_fresh(m[t.user_id@].started_ms, now)
    &&& t.display_name == m[t.user_id@].display_name
}

/// The listed typers are in display order.
pub open spec fn typers_ordered(r: Seq<TypingUserState>, m: Map<u64, TypingIndicator>) -> bool {
    forall|i: int, j: int| 0 <= i < j < r.len() ==> typing_precedes(
        m[(#[trigger] r[i]).user_id@].started_ms,
        r[i].user_id@,
        m[(#[trigger] r[j]).user_id@].started_ms,
        r[j].user_id@,
    )
}

pub open spec fn typer_ids(r: Seq<TypingUserState>) -> Seq<u64> {
    r.map_values(|t: TypingUserState| t.user_id@)
}

/// `r` lists exactly the users of `m` with a fresh notice, each with the
/// notice's display name, in display order.
pub open spec fn lists_fresh_typers(r: Seq<TypingUserState>, m: Map<u64, TypingIndicator>, now: u64) -> bool {
    &&& forall|i: int| 0 <= i < r.len() ==> typer_ok(#[trigger] r[i], m, now)
    &&& forall|u: u64| m.dom().contains(u) && u != 0 && typing_fresh(m[u].started_ms, now)
        ==> #[trigger] typer_ids(r).contains(u)
    &&& typers_ordered(r, m)
}

proof fn lemma_insert_keeps<A>(s: Seq<A>, p: int, e: A)
    requires
        0 <= p <= s.len(),
    ensures
        forall|x: A| s.contains(x) ==> #[trigger] s.insert(p, e).contains(x),
        s.insert(p, e).contains(e),
{
    s.insert_ensures(p, e);
    assert forall|x: A| s.contains(x) implies #[trigger] s.insert(p, e).contains(x) by {
        let i = choose|i: int| 0 <= i < s.len() && s[i] == x;
        if i < p {
            assert(s.insert(p, e)[i] == x);
        } else {
            assert(s.insert(p, e)[i + 1] == x);
        }
    }
    assert(s.insert(p, e)[p] == e);
}

/// Puts `entry` into its place in display order; it comes after every
/// listed typer, so it goes after all of those with a notice at least as new.
fn insert_typer(out: &mut Vec<TypingUserState>, typers: &IdMap<TypingIndicator>, entry: TypingUserState) -> (p: usize)
    requires
        forall|i: int| 0 <= i < old(out)@.len() ==> typers@.dom().contains((#[trigger] old(out)@[i]).user_id@),
        forall|i: int| 0 <= i < old(out)@.len() ==> (#[trigger] old(out)@[i]).user_id@ < entry.user_id@,
        typers@.dom().contains(entry.user_id@),
        typers_ordered(old(out)@, typers@),
    ensures
        p <= old(out)@.len(),
        final(out)@ == old(out)@.insert(p as int, entry),
        typers_ordered(final(out)@, typers@),
{
    let ghost m = typers@;
    let started = match typers.get(entry.user_id.get()) {
        Some(x) => x.started_ms,
        None => {
            proof {
                assert(false);
            }
            0
        },
    };
    let mut p: usize = 0;
    while p < out.len()
        invariant_except_break
            m == typers@,
            p <= out@.len(),
            forall|i: int| 0 <= i < out@.len() ==> m.dom().contains((#[trigger] out@[i]).user_id@),
            forall|i: int| 0 <= i < p ==> m[(#[trigger] out@[i]).user_id@].started_ms >= started,
        ensures
            p <= out@.len(),
            forall|i: int| 0 <= i < p ==> m[(#[trigger] out@[i]).user_id@].started_ms >= started,
            p < out@.len() ==> m[out@[p as int].user_id@].started_ms < started,
        decreases out@.len() - p,
    {
        let v = out[p].user_id.get();
        let s = match typers.get(v) {
            Some(x) => x.started_ms,
            None => {
                proof {
                    assert(false);
                }
                0
            },
        };
        if s < started {
            break;
        }
        p = p + 1;
    }
    let ghost old_out = out@;
    out.insert(p, entry);
    proof {
        old_out.insert_ensures(p as int, entry);
        assert forall|i: int, j: int| 0 <= i < j < out@.len() implies typing_precedes(
            m[(#[trigger] out@[i]).user_id@].started_ms,
            out@[i].user_id@,
            m[(#[trigger] out@[j]).user_id@].started_ms,
            out@[j].user_id@,
        ) by {
            if j < p {
                assert(out@[i] == old_out[i] && out@[j] == old_out[j]);
            } else if j == p {
                assert(out@[i] == old_out[i]);
            } else if i == p {
                assert(out@[j] == old_out[j - 1]);
                if j - 1 > p {
                    assert(typing_precedes(
                        m[old_out[p as int].user_id@].started_ms,
                        old_out[p as int].user_id@,
                        m[old_out[j - 1].user_id@].started_ms,
                        old_out[j - 1].user_id@,
                    ));
                }
            } else if i < p {
                assert(out@[i] == old_out[i] && out@[j] == old_out[j - 1]);
            } else {
                assert(out@[i] == old_out[i - 1] && out@[j] == old_out[j - 1]);
            }
        }
    }
    p
}

fn clone_name(s: &Option<String>) -> (r: Option<String>)
    ensures
        r == *s,
{
    match s {
        Some(v) => Some(v.clone()),
        None => None,
    }
}

impl DiscordState {
    /// Records that a user started typing in a channel at `now_ms`; it
    /// replaces that user's earlier notice there.
    pub fn record_typing_start(
        &mut self,
        channel_id: Id<ChannelMarker>,
        user_id: Id<UserMarker>,
        display_name: Option<String>,
        now_ms: u64,
    )
        ensures
            old(self).well_formed() ==> final(self).well_formed(),
            final(self).typing@.dom() == old(self).typing@.dom().insert(channel_id@),
            final(self).typing@[channel_id@]@ == (match lookup(old(self).typing@, channel_id@) {
                Some(m) => m@,
                None => Map::<u64, TypingIndicator>::empty(),
            }).insert(user_id@, TypingIndicator { started_ms: now_ms, display_name }),
            forall|c: u64| c != channel_id@ && old(self).typing@.dom().contains(c)
                ==> #[trigger] final(self).typing@[c] == old(self).typing@[c],
    {
        let mut inner = match self.typing.remove(channel_id.get()) {
            Some(m) => m,
            None => IdMap::new(),
        };
        inner.insert(user_id.get(), TypingIndicator { started_ms: now_ms, display_name });
        self.typing.insert(channel_id.get(), inner);
    }

    /// The users typing in a channel at `now_ms`: those whose latest notice
    /// is fresh, newest first.
    pub fn typing_users(&self, channel_id: Id<ChannelMarker>, now_ms: u64) -> (r: Vec<TypingUserState>)
        ensures
            match lookup(self.typing@, channel_id@) {
                Some(m) => lists_fresh_typers(r@, m@, now_ms),
                None => r@.len() == 0,
            },
    {
        let typers = match self.typing.get(channel_id.get()) {
            Some(m) => m,
            None => {
                return Vec::new();
            },
        };
        let keys = typers.keys();
        let ghost m = typers@;
        let mut out: Vec<TypingUserState> = Vec::new();
        let mut idx: usize = 0;
        while idx < keys.len()
            invariant
                m == typers@,
                lookup(self.typing@, channel_id@) == Some(*typers),
                idx <= keys@.len(),
                forall|a: int, b: int| 0 <= a < b < keys@.len() ==> keys@[a] < keys@[b],
                forall|k: u64| m.dom().contains(k) <==> keys@.contains(k),
                forall|i: int| 0 <= i < out@.len() ==> typer_ok(#[trigger] out@[i], m, now_ms),
                forall|i: int, k: int| 0 <= i < out@.len() && idx <= k < keys@.len()
                    ==> (#[trigger] out@[i]).user_id@ < #[trigger] keys@[k],
                forall|k: int| 0 <= k < idx && keys@[k] != 0 && typing_fresh(m[keys@[k]].started_ms, now_ms)
                    ==> typer_ids(out@).contains(#[trigger] keys@[k]),
                typers_ordered(out@, m),
            decreases keys@.len() - idx,
        {
            let u = keys[idx];
            proof {
                assert(keys@.contains(u));
            }
            let ind = match typers.get(u) {
                Some(ind) => ind,
                None => {
                    proof {
                        assert(false);
                    }
                    return Vec::new();
                },
            };
            let fresh = now_ms <= ind.started_ms || now_ms - ind.started_ms <= TYPING_INDICATOR_TTL_MS;
            let ghost old_out = out@;
            if fresh {
                match Id::<UserMarker>::new_checked(u) {
                    Some(user_id) => {
                        let entry = TypingUserState { user_id, display_name: clone_name(&ind.display_name) };
                        let p = insert_typer(&mut out, typers, entry);
                        proof {
                            old_out.insert_ensures(p as int, entry);
                            lemma_insert_keeps(typer_ids(old_out), p as int, u);
                            assert(typer_ids(out@) =~= typer_ids(old_out).insert(p as int, u));
                            assert forall|i: int| 0 <= i < out@.len() implies typer_ok(#[trigger] out@[i], m, now_ms) by {
                                if i < p {
                                    assert(out@[i] == old_out[i]);
                                } else if i > p {
                                    assert(out@[i] == old_out[i - 1]);
                                }
                            }
                            assert forall|i: int, k: int| 0 <= i < out@.len() && idx + 1 <= k < keys@.len()
                                implies (#[trigger] out@[i]).user_id@ < #[trigger] keys@[k] by {
                                if i < p {
                                    assert(out@[i] == old_out[i]);
                                } else if i > p {
                                    assert(out@[i] == old_out[i - 1]);
                                } else {
                                    assert(keys@[idx as int] < keys@[k]);
                                }
                            }
                        }
                    },
                    None => {},
                }
            }
            proof {
                assert forall|k: int| 0 <= k < idx + 1 && keys@[k] != 0 && typing_fresh(m[keys@[k]].started_ms, now_ms)
                    implies typer_ids(out@).contains(#[trigger] keys@[k]) by {
                    if k < idx {
                        assert(typer_ids(old_out).contains(keys@[k]));
                    }
                }
            }
            idx = idx + 1;
        }
        proof {
            assert forall|w: u64| m.dom().contains(w) && w != 0 && typing_fresh(m[w].started_ms, now_ms)
                implies #[trigger] typer_ids(out@).contains(w) by {
                let k = choose|k: int| 0 <= k < keys@.len() && keys@[k] == w;
                assert(typer_ids(out@).contains(keys@[k]));
            }
        }
        out
    }
}

} // verus!
