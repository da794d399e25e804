//! Reactions and poll votes on one message: the counting rules, for the
//! current user's own clicks and for what the gateway reports of others.
use vstd::prelude::*;

use crate::channel::clone_opt_string;
use crate::commands::{reaction_emoji_eq, same_emoji, ReactionEmoji};
use crate::message_info::{PollAnswerInfo, PollInfo, ReactionInfo};

verus! {

/// A change to a message's reactions.
#[derive(Clone, Debug)]
pub enum ReactionOp {
    /// The current user reacted from this client.
    AddOwn(ReactionEmoji),
    /// The current user removed their reaction from this client.
    RemoveOwn(ReactionEmoji),
    /// The gateway reports a reaction; `is_current_user` when it is ours.
    GatewayAdd { emoji: ReactionEmoji, is_current_user: bool },
    /// The gateway reports a removed reaction.
    GatewayRemove { emoji: ReactionEmoji, is_current_user: bool },
    /// Every reaction was removed.
    ClearAll,
    /// Every reaction with one emoji was removed.
    ClearEmoji(ReactionEmoji),
}

pub open spec fn sat_inc(c: u64) -> u64 {
    if c == u64::MAX {
        c
    } else {
        (c + 1) as u64
    }
}

pub open spec fn sat_dec(c: u64) -> u64 {
    if c == 0 {
        0
    } else {
        (c - 1) as u64
    }
}

/// The index of the first reaction with the emoji, or -1.
pub open spec fn first_emoji_index(rs: Seq<ReactionInfo>, e: ReactionEmoji) -> int
    decreases rs.len(),
{
    if rs.len() == 0 {
        -1
    } else {
        let p = first_emoji_index(rs.drop_last(), e);
        if p >= 0 {
            p
        } else if same_emoji(rs.last().emoji, e) {
            rs.len() - 1
        } else {
            -1
        }
    }
}

/// The reactions that still have a count.
pub open spec fn with_counts(rs: Seq<ReactionInfo>) -> Seq<ReactionInfo>
    decreases rs.len(),
{
    if rs.len() == 0 {
        Seq::empty()
    } else if rs.last().count > 0 {
        with_counts(rs.drop_last()).push(rs.last())
    } else {
        with_counts(rs.drop_last())
    }
}

/// The reactions with another emoji.
pub open spec fn without_emoji(rs: Seq<ReactionInfo>, e: ReactionEmoji) -> Seq<ReactionInfo>
    decreases rs.len(),
{
    if rs.len() == 0 {
        Seq::empty()
    } else if !same_emoji(rs.last().emoji, e) {
        without_emoji(rs.drop_last(), e).push(rs.last())
    } else {
        without_emoji(rs.drop_last(), e)
    }
}

/// Adds a reaction: the first reaction with the emoji gains a count unless
/// the adder already counted in it (the current user, when `me` is set),
/// and is marked ours when the adder is us; without one, a reaction with a
/// count of one is appended.
pub open spec fn add_spec(rs: Seq<ReactionInfo>, e: ReactionEmoji, is_current_user: bool) -> Seq<ReactionInfo> {
    let i = first_emoji_index(rs, e);
    if i >= 0 {
        let r = rs[i];
        rs.update(
            i,
            ReactionInfo {
                emoji: r.emoji,
                count: if is_current_user && r.me {
                    r.count
                } else {
                    sat_inc(r.count)
                },
                me: r.me || is_current_user,
            },
        )
    } else {
        rs.push(ReactionInfo { emoji: e, count: 1, me: is_current_user })
    }
}

/// Removes a reaction: the first reaction with the emoji loses a count
/// unless it is our removal and we had not counted in it, and loses our
/// mark when the remover is us; then reactions left without a count go.
pub open spec fn remove_spec(rs: Seq<ReactionInfo>, e: ReactionEmoji, is_current_user: bool) -> Seq<ReactionInfo> {
    let i = first_emoji_index(rs, e);
    let updated = if i >= 0 {
        let r = rs[i];
        rs.update(
            i,
            ReactionInfo {
                emoji: r.emoji,
                count: if !is_current_user || r.me {
                    sat_dec(r.count)
                } else {
                    r.count
                },
                me: r.me && !is_current_user,
            },
        )
    } else {
        rs
    };
    with_counts(updated)
}

pub open spec fn reaction_op_spec(rs: Seq<ReactionInfo>, op: ReactionOp) -> Seq<ReactionInfo> {
    match op {
        ReactionOp::AddOwn(e) => add_spec(rs, e, true),
        ReactionOp::RemoveOwn(e) => remove_spec(rs, e, true),
        ReactionOp::GatewayAdd { emoji, is_current_user } => add_spec(rs, emoji, is_current_user),
        ReactionOp::GatewayRemove { emoji, is_current_user } => remove_spec(rs, emoji, is_current_user),
        ReactionOp::ClearAll => Seq::empty(),
        ReactionOp::ClearEmoji(e) => without_emoji(rs, e),
    }
}

/// A copy of an emoji.
pub fn clone_emoji(e: &ReactionEmoji) -> (r: ReactionEmoji)
    ensures
        r == *e,
{
    match e {
        ReactionEmoji::Unicode(s) => ReactionEmoji::Unicode(s.clone()),
        ReactionEmoji::Custom { id, name, animated } => ReactionEmoji::Custom {
            id: *id,
            name: clone_opt_string(name),
            animated: *animated,
        },
    }
}

fn find_emoji(rs: &Vec<ReactionInfo>, e: &ReactionEmoji) -> (r: Option<usize>)
    ensures
        match r {
            Some(i) => i < rs@.len() && first_emoji_index(rs@, *e) == i,
            None => first_emoji_index(rs@, *e) == -1,
        },
{
    let n = rs.len();
    let mut i: usize = 0;
    while i < n
        invariant
            n == rs@.len(),
            i <= n,
            first_emoji_index(rs@.subrange(0, i as int), *e) == -1,
        decreases n - i,
    {
        proof {
            let sub = rs@.subrange(0, i + 1);
            assert(sub.drop_last() =~= rs@.subrange(0, i as int));
        }
        if reaction_emoji_eq(&rs[i].emoji, e) {
            proof {
                lemma_first_index_prefix(rs@, *e, i + 1);
            }
            return Some(i);
        }
        i = i + 1;
    }
    proof {
        assert(rs@.subrange(0, n as int) =~= rs@);
    }
    None
}

/// The first match in a prefix that holds one is the first match overall.
proof fn lemma_first_index_prefix(rs: Seq<ReactionInfo>, e: ReactionEmoji, k: int)
    requires
        0 <= k <= rs.len(),
        first_emoji_index(rs.subrange(0, k), e) >= 0,
    ensures
        first_emoji_index(rs, e) == first_emoji_index(rs.subrange(0, k), e),
    decreases rs.len() - k,
{
    if k < rs.len() {
        let sub = rs.subrange(0, k + 1);
        assert(sub.drop_last() =~= rs.subrange(0, k));
        lemma_first_index_prefix(rs, e, k + 1);
    } else {
        assert(rs.subrange(0, k) =~= rs);
    }
}

fn keep_counted(rs: Vec<ReactionInfo>) -> (r: Vec<ReactionInfo>)
    ensures
        r@ == with_counts(rs@),
{
    let mut out: Vec<ReactionInfo> = Vec::new();
    let mut rest = rs;
    let ghost all = rest@;
    let mut taken: Vec<ReactionInfo> = Vec::new();
    let mut reversed: Vec<ReactionInfo> = Vec::new();
    while rest.len() > 0
        invariant
            all == rest@ + reversed@.reverse(),
        decreases rest.len(),
    {
        let last = rest.pop().unwrap();
        proof {
            assert(reversed@.push(last).reverse() =~= seq![last] + reversed@.reverse());
        }
        reversed.push(last);
        proof {
            assert(all =~= rest@ + reversed@.reverse());
        }
    }
    proof {
        assert(all =~= reversed@.reverse());
    }
    while reversed.len() > 0
        invariant
            all == taken@ + reversed@.reverse(),
            out@ == with_counts(taken@),
        decreases reversed.len(),
    {
        let next = reversed.pop().unwrap();
        let keep = next.count > 0;
        let ghost before = taken@;
        proof {
            assert(reversed@.push(next).reverse() =~= seq![next] + reversed@.reverse());
        }
        taken.push(next);
        proof {
            assert(taken@.drop_last() =~= before);
            assert(all =~= taken@ + reversed@.reverse());
        }
        if keep {
            let copy = clone_reaction(&taken[taken.len() - 1]);
            out.push(copy);
        }
    }
    proof {
        assert(taken@ =~= all);
    }
    out
}

fn clone_reaction(r: &ReactionInfo) -> (c: ReactionInfo)
    ensures
        c == *r,
{
    ReactionInfo { emoji: clone_emoji(&r.emoji), count: r.count, me: r.me }
}

fn drop_emoji(rs: &Vec<ReactionInfo>, e: &ReactionEmoji) -> (r: Vec<ReactionInfo>)
    ensures
        r@ == without_emoji(rs@, *e),
{
    let mut out: Vec<ReactionInfo> = Vec::new();
    let n = rs.len();
    let mut i: usize = 0;
    while i < n
        invariant
            n == rs@.len(),
            i <= n,
            out@ == without_emoji(rs@.subrange(0, i as int), *e),
        decreases n - i,
    {
        proof {
            let sub = rs@.subrange(0, i + 1);
            assert(sub.drop_last() =~= rs@.subrange(0, i as int));
        }
        if !reaction_emoji_eq(&rs[i].emoji, e) {
            out.push(clone_reaction(&rs[i]));
        }
        i = i + 1;
    }
    proof {
        assert(rs@.subrange(0, n as int) =~= rs@);
    }
    out
}

/// Applies one reaction change to a message's reactions.
pub fn apply_reaction_op(rs: &Vec<ReactionInfo>, op: &ReactionOp) -> (r: Vec<ReactionInfo>)
    ensures
        r@ == reaction_op_spec(rs@, *op),
{
    match op {
        ReactionOp::AddOwn(e) => add_reaction(rs, e, true),
        ReactionOp::RemoveOwn(e) => remove_reaction(rs, e, true),
        ReactionOp::GatewayAdd { emoji, is_current_user } => add_reaction(rs, emoji, *is_current_user),
        ReactionOp::GatewayRemove { emoji, is_current_user } => remove_reaction(rs, emoji, *is_current_user),
        ReactionOp::ClearAll => Vec::new(),
        ReactionOp::ClearEmoji(e) => drop_emoji(rs, e),
    }
}

fn copy_reactions(rs: &Vec<ReactionInfo>) -> (r: Vec<ReactionInfo>)
    ensures
        r@ == rs@,
{
    let mut out: Vec<ReactionInfo> = Vec::new();
    let n = rs.len();
    let mut i: usize = 0;
    while i < n
        invariant
            n == rs@.len(),
            i <= n,
            out@ == rs@.subrange(0, i as int),
        decreases n - i,
    {
        out.push(clone_reaction(&rs[i]));
        proof {
            assert(out@ =~= rs@.subrange(0, i + 1));
        }
        i = i + 1;
    }
    proof {
        assert(rs@.subrange(0, n as int) =~= rs@);
    }
    out
}

fn add_reaction(rs: &Vec<ReactionInfo>, e: &ReactionEmoji, is_current_user: bool) -> (r: Vec<ReactionInfo>)
    ensures
        r@ == add_spec(rs@, *e, is_current_user),
{
    let mut out = copy_reactions(rs);
    match find_emoji(rs, e) {
        Some(i) => {
            let old_count = out[i].count;
            let old_me = out[i].me;
            let count = if is_current_user && old_me {
                old_count
            } else if old_count == u64::MAX {
                old_count
            } else {
                old_count + 1
            };
            let updated = ReactionInfo { emoji: clone_emoji(&out[i].emoji), count, me: old_me || is_current_user };
            out.set(i, updated);
        },
        None => {
            out.push(ReactionInfo { emoji: clone_emoji(e), count: 1, me: is_current_user });
        },
    }
    out
}

fn remove_reaction(rs: &Vec<ReactionInfo>, e: &ReactionEmoji, is_current_user: bool) -> (r: Vec<ReactionInfo>)
    ensures
        r@ == remove_spec(rs@, *e, is_current_user),
{
    let mut out = copy_reactions(rs);
    match find_emoji(rs, e) {
        Some(i) => {
            let old_count = out[i].count;
            let old_me = out[i].me;
            let count = if !is_current_user || old_me {
                if old_count == 0 {
                    0
                } else {
                    old_count - 1
                }
            } else {
                old_count
            };
            let updated = ReactionInfo { emoji: clone_emoji(&out[i].emoji), count, me: old_me && !is_current_user };
            out.set(i, updated);
        },
        None => {},
    }
    keep_counted(out)
}

/// Every reaction in the list has a count.
pub open spec fn all_counted(rs: Seq<ReactionInfo>) -> bool {
    forall|i: int| 0 <= i < rs.len() ==> (#[trigger] rs[i]).count > 0
}

proof fn lemma_with_counts_all_counted(rs: Seq<ReactionInfo>)
    requires
        all_counted(rs),
    ensures
        with_counts(rs) == rs,
    decreases rs.len(),
{
    if rs.len() > 0 {
        assert(all_counted(rs.drop_last()));
        lemma_with_counts_all_counted(rs.drop_last());
        assert(rs.drop_last().push(rs.last()) =~= rs);
    }
}

proof fn lemma_with_counts_drops_last_zero(rs: Seq<ReactionInfo>, r: ReactionInfo)
    requires
        all_counted(rs),
        r.count == 0,
    ensures
        with_counts(rs.push(r)) == rs,
{
    assert(rs.push(r).drop_last() =~= rs);
    lemma_with_counts_all_counted(rs);
}

proof fn lemma_first_index_bounds(rs: Seq<ReactionInfo>, e: ReactionEmoji)
    ensures
        -1 <= first_emoji_index(rs, e) < rs.len(),
        first_emoji_index(rs, e) >= 0 ==> same_emoji(rs[first_emoji_index(rs, e)].emoji, e),
        first_emoji_index(rs, e) >= 0 ==> forall|j: int| 0 <= j < first_emoji_index(rs, e) ==> !same_emoji(#[trigger] rs[j].emoji, e),
        first_emoji_index(rs, e) == -1 ==> forall|j: int| 0 <= j < rs.len() ==> !same_emoji(#[trigger] rs[j].emoji, e),
    decreases rs.len(),
{
    if rs.len() > 0 {
        lemma_first_index_bounds(rs.drop_last(), e);
        assert forall|j: int| 0 <= j < rs.len() - 1 implies rs[j] == rs.drop_last()[j] by {}
    }
}

/// The first match is determined by its position and the absence of an
/// earlier one.
proof fn lemma_first_index_char(rs: Seq<ReactionInfo>, e: ReactionEmoji, i: int)
    requires
        -1 <= i < rs.len(),
        i >= 0 ==> same_emoji(rs[i].emoji, e),
        forall|j: int| 0 <= j < rs.len() && (i < 0 || j < i) ==> !same_emoji(#[trigger] rs[j].emoji, e),
    ensures
        first_emoji_index(rs, e) == i,
{
    lemma_first_index_bounds(rs, e);
    let f = first_emoji_index(rs, e);
    if f >= 0 && i >= 0 {
        if f < i {
            assert(!same_emoji(rs[f].emoji, e));
        } else if i < f {
            assert(!same_emoji(rs[i].emoji, e));
        }
    } else if f >= 0 {
        assert(!same_emoji(rs[f].emoji, e));
    } else if i >= 0 {
        assert(!same_emoji(rs[i].emoji, e));
    }
}

/// Reacting and then taking the reaction back, from this client or as the
/// gateway reports it, gives back the reactions there were, provided every
/// reaction had a count, ours did not already count in the one with this
/// emoji, and that count could still grow.
pub proof fn lemma_add_then_remove_restores(rs: Seq<ReactionInfo>, e: ReactionEmoji, is_current_user: bool)
    requires
        all_counted(rs),
        first_emoji_index(rs, e) >= 0 ==> !(is_current_user && rs[first_emoji_index(rs, e)].me)
            && rs[first_emoji_index(rs, e)].count < u64::MAX,
        first_emoji_index(rs, e) >= 0 ==> (is_current_user || !rs[first_emoji_index(rs, e)].me),
    ensures
        remove_spec(add_spec(rs, e, is_current_user), e, is_current_user) == rs,
{
    lemma_first_index_bounds(rs, e);
    let i = first_emoji_index(rs, e);
    let added = add_spec(rs, e, is_current_user);
    if i >= 0 {
        let r = rs[i];
        lemma_first_index_char(added, e, i);
        let removed = added.update(
            i,
            ReactionInfo {
                emoji: added[i].emoji,
                count: if !is_current_user || added[i].me {
                    sat_dec(added[i].count)
                } else {
                    added[i].count
                },
                me: added[i].me && !is_current_user,
            },
        );
        assert(removed =~= rs);
        lemma_with_counts_all_counted(rs);
    } else {
        let pushed = ReactionInfo { emoji: e, count: 1, me: is_current_user };
        assert(added == rs.push(pushed));
        assert(same_emoji(e, e)) by {
            match e {
                ReactionEmoji::Unicode(_) => {},
                ReactionEmoji::Custom { name, .. } => {
                    match name {
                        Some(_) => {},
                        None => {},
                    }
                },
            }
        }
        lemma_first_index_char(added, e, rs.len() as int);
        let removed = added.update(rs.len() as int, ReactionInfo { emoji: e, count: 0, me: false });
        assert(removed =~= rs.push(ReactionInfo { emoji: e, count: 0, me: false }));
        lemma_with_counts_drops_last_zero(rs, ReactionInfo { emoji: e, count: 0, me: false });
    }
}

/// How many answers a new vote selection adds a vote to (not voted before,
/// selected now) and how many it takes one from (voted before, not now).
pub open spec fn votes_added(answers: Seq<PollAnswerInfo>, selected: Seq<u8>) -> nat
    decreases answers.len(),
{
    if answers.len() == 0 {
        0
    } else {
        votes_added(answers.drop_last(), selected) + if !answers.last().me_voted && selected.contains(
            answers.last().answer_id,
        ) {
            1nat
        } else {
            0nat
        }
    }
}

pub open spec fn votes_removed(answers: Seq<PollAnswerInfo>, selected: Seq<u8>) -> nat
    decreases answers.len(),
{
    if answers.len() == 0 {
        0
    } else {
        votes_removed(answers.drop_last(), selected) + if answers.last().me_voted && !selected.contains(
            answers.last().answer_id,
        ) {
            1nat
        } else {
            0nat
        }
    }
}

/// One answer after the current user's selection changed: it gains a vote
/// when newly selected, loses one when deselected, and is marked by whether
/// it is selected.
pub open spec fn voted_answer(a: PollAnswerInfo, selected: Seq<u8>) -> PollAnswerInfo {
    let next = selected.contains(a.answer_id);
    let count = match a.vote_count {
        Some(c) => c,
        None => 0,
    };
    PollAnswerInfo {
        answer_id: a.answer_id,
        text: a.text,
        vote_count: if !a.me_voted && next {
            Some(sat_inc(count))
        } else if a.me_voted && !next {
            Some(sat_dec(count))
        } else {
            a.vote_count
        },
        me_voted: next,
    }
}

pub open spec fn sat_add_nat(t: u64, n: nat) -> u64 {
    if t + n > u64::MAX {
        u64::MAX
    } else {
        (t + n) as u64
    }
}

pub open spec fn sat_sub_nat(t: u64, n: nat) -> u64 {
    if t < n {
        0
    } else {
        (t - n) as u64
    }
}

/// The poll after the current user's selection changed: each answer as
/// `voted_answer` says, and a known total moved by the votes added and
/// removed (saturating).
pub open spec fn poll_vote_spec(old: PollInfo, new: PollInfo, selected: Seq<u8>) -> bool {
    &&& new.question == old.question
    &&& new.allow_multiselect == old.allow_multiselect
    &&& new.results_finalized == old.results_finalized
    &&& new.answers@.len() == old.answers@.len()
    &&& forall|i: int| 0 <= i < old.answers@.len() ==> #[trigger] new.answers@[i] == voted_answer(old.answers@[i], selected)
    &&& new.total_votes == match old.total_votes {
        Some(t) => Some(
            sat_sub_nat(
                sat_add_nat(t, votes_added(old.answers@, selected)),
                votes_removed(old.answers@, selected),
            ),
        ),
        None => None,
    }
}

fn contains_u8(v: &[u8], x: u8) -> (r: bool)
    ensures
        r == v@.contains(x),
{
    let n = v.len();
    let mut i: usize = 0;
    while i < n
        invariant
            n == v@.len(),
            i <= n,
            forall|j: int| 0 <= j < i ==> v@[j] != x,
        decreases n - i,
    {
        if v[i] == x {
            proof {
                assert(v@[i as int] == x);
            }
            return true;
        }
        i = i + 1;
    }
    false
}

/// Applies the current user's new vote selection to a poll.
pub fn update_poll_vote(poll: PollInfo, selected: &[u8]) -> (r: PollInfo)
    ensures
        poll_vote_spec(poll, r, selected@),
{
    let PollInfo { question, answers, allow_multiselect, results_finalized, total_votes } = poll;
    let ghost old_answers = answers@;
    let mut rest = answers;
    let mut reversed: Vec<PollAnswerInfo> = Vec::new();
    while rest.len() > 0
        invariant
            old_answers == rest@ + reversed@.reverse(),
        decreases rest.len(),
    {
        let last = rest.pop().unwrap();
        proof {
            assert(reversed@.push(last).reverse() =~= seq![last] + reversed@.reverse());
        }
        reversed.push(last);
        proof {
            assert(old_answers =~= rest@ + reversed@.reverse());
        }
    }
    let answer_count = reversed.len();
    proof {
        assert(old_answers =~= reversed@.reverse());
        assert(old_answers.len() == answer_count);
    }
    let mut out: Vec<PollAnswerInfo> = Vec::new();
    let mut added: u64 = 0;
    let mut removed: u64 = 0;
    while reversed.len() > 0
        invariant
            old_answers == old_answers.subrange(0, out@.len() as int) + reversed@.reverse(),
            out@.len() <= old_answers.len(),
            forall|i: int| 0 <= i < out@.len() ==> #[trigger] out@[i] == voted_answer(old_answers[i], selected@),
            added == votes_added(old_answers.subrange(0, out@.len() as int), selected@),
            removed == votes_removed(old_answers.subrange(0, out@.len() as int), selected@),
            added <= out@.len(),
            removed <= out@.len(),
            old_answers.len() <= usize::MAX,
        decreases reversed.len(),
    {
        let a = reversed.pop().unwrap();
        let k = out.len();
        proof {
            assert(reversed@.push(a).reverse() =~= seq![a] + reversed@.reverse());
            assert(old_answers[k as int] == a);
            let sub = old_answers.subrange(0, k + 1);
            assert(sub.drop_last() =~= old_answers.subrange(0, k as int));
            assert(sub.last() == a);
        }
        let next = contains_u8(selected, a.answer_id);
        let count = match a.vote_count {
            Some(c) => c,
            None => 0,
        };
        let PollAnswerInfo { answer_id, text, vote_count, me_voted } = a;
        let new_count = if !me_voted && next {
            added = added + 1;
            Some(if count == u64::MAX { count } else { count + 1 })
        } else if me_voted && !next {
            removed = removed + 1;
            Some(if count == 0 { 0 } else { count - 1 })
        } else {
            vote_count
        };
        out.push(PollAnswerInfo { answer_id, text, vote_count: new_count, me_voted: next });
        proof {
            assert(old_answers =~= old_answers.subrange(0, out@.len() as int) + reversed@.reverse());
        }
    }
    proof {
        assert(old_answers.subrange(0, out@.len() as int) =~= old_answers);
    }
    let total = match total_votes {
        Some(t) => {
            let up = if t > u64::MAX - added {
                u64::MAX
            } else {
                t + added
            };
            Some(if up < removed { 0 } else { up - removed })
        },
        None => None,
    };
    PollInfo { question, answers: out, allow_multiselect, results_finalized, total_votes: total }
}

proof fn lemma_votes_after_revote(answers: Seq<PollAnswerInfo>, selected: Seq<u8>)
    requires
        forall|i: int| 0 <= i < answers.len() ==> (#[trigger] answers[i]).me_voted == selected.contains(
            answers[i].answer_id,
        ),
    ensures
        votes_added(answers, selected) == 0,
        votes_removed(answers, selected) == 0,
    decreases answers.len(),
{
    if answers.len() > 0 {
        let rest = answers.drop_last();
        assert forall|i: int| 0 <= i < rest.len() implies (#[trigger] rest[i]).me_voted == selected.contains(
            rest[i].answer_id,
        ) by {
            assert(rest[i] == answers[i]);
        }
        lemma_votes_after_revote(rest, selected);
        assert(answers.last() == answers[answers.len() - 1]);
    }
}

/// Submitting the same vote selection twice changes nothing the second
/// time: every answer keeps its count and mark, and the total stays.
pub proof fn lemma_revote_is_idempotent(p0: PollInfo, p1: PollInfo, p2: PollInfo, selected: Seq<u8>)
    requires
        poll_vote_spec(p0, p1, selected),
        poll_vote_spec(p1, p2, selected),
    ensures
        p2.answers@ == p1.answers@,
        p2.total_votes == p1.total_votes,
        p2.question == p1.question,
{
    assert forall|i: int| 0 <= i < p1.answers@.len() implies (#[trigger] p1.answers@[i]).me_voted == selected.contains(
        p1.answers@[i].answer_id,
    ) by {
        assert(p1.answers@[i] == voted_answer(p0.answers@[i], selected));
    }
    lemma_votes_after_revote(p1.answers@, selected);
    assert forall|i: int| 0 <= i < p1.answers@.len() implies p2.answers@[i] == p1.answers@[i] by {
        assert(p2.answers@[i] == voted_answer(p1.answers@[i], selected));
        assert(p1.answers@[i] == voted_answer(p0.answers@[i], selected));
    }
    assert(p2.answers@ =~= p1.answers@);
}

/// Dropping one emoji's reactions is filtering the list by that emoji.
proof fn lemma_without_emoji_is_filter(rs: Seq<ReactionInfo>, e: ReactionEmoji)
    ensures
        without_emoji(rs, e) == rs.filter(|r: ReactionInfo| !same_emoji(r.emoji, e)),
    decreases rs.len(),
{
    reveal(Seq::filter);
    if rs.len() > 0 {
        lemma_without_emoji_is_filter(rs.drop_last(), e);
    }
}

/// Clearing one emoji's reactions keeps, in order, exactly the reactions
/// with another emoji: a reaction survives unless its emoji is the cleared
/// one, and nothing else changes.
pub proof fn lemma_clear_emoji_keeps_other_reactions(rs: Seq<ReactionInfo>, e: ReactionEmoji)
    ensures
        reaction_op_spec(rs, ReactionOp::ClearEmoji(e)) == rs.filter(|r: ReactionInfo| !same_emoji(r.emoji, e)),
        forall|i: int|
            0 <= i < rs.len() && !same_emoji(#[trigger] rs[i].emoji, e) ==> reaction_op_spec(
                rs,
                ReactionOp::ClearEmoji(e),
            ).contains(rs[i]),
        forall|r: ReactionInfo|
            #[trigger] reaction_op_spec(rs, ReactionOp::ClearEmoji(e)).contains(r) ==> rs.contains(r) && !same_emoji(
                r.emoji,
                e,
            ),
{
    lemma_without_emoji_is_filter(rs, e);
    let pred = |r: ReactionInfo| !same_emoji(r.emoji, e);
    rs.filter_lemma(pred);
    assert forall|i: int| 0 <= i < rs.len() && !same_emoji(#[trigger] rs[i].emoji, e) implies rs.filter(pred).contains(
        rs[i],
    ) by {
        assert(pred(rs[i]));
    }
    assert forall|r: ReactionInfo| #[trigger] rs.filter(pred).contains(r) implies rs.contains(r) && !same_emoji(
        r.emoji,
        e,
    ) by {
        let k = choose|k: int| 0 <= k < rs.filter(pred).len() && rs.filter(pred)[k] == r;
        assert(pred(rs.filter(pred)[k]));
        rs.lemma_filter_contains_rev(pred, r);
    }
}

} // verus!
