//! The message cache of the client state: reading a channel's messages,
//! pins and history gaps, and applying reactions, votes and deletions to
//! every cached copy of a message.
use vstd::prelude::*;

use crate::commands::ReactionEmoji;
use crate::id_map::IdMap;
use crate::ids::{ChannelMarker, GuildMarker, Id, MessageMarker, RoleMarker, UserMarker};
use crate::member_state::{
    clone_ids, lemma_selected_color_unique, member_color_spec, selected_color_spec, selected_role_ids_color,
};
use crate::message_info::{MentionInfo, PollInfo};
use crate::message_state::MessageState;
use crate::reactions::{apply_reaction_op, clone_emoji, poll_vote_spec, reaction_op_spec, update_poll_vote, ReactionOp};
use crate::state::{get2, ids_increasing, lookup, lookup2, DiscordState, MessageHistoryGap};

verus! {

/// The index of the first message with the id, or -1.
pub open spec fn first_message_index(msgs: Seq<MessageState>, id: u64) -> int
    decreases msgs.len(),
{
    if msgs.len() == 0 {
        -1
    } else {
        let p = first_message_index(msgs.drop_last(), id);
        if p >= 0 {
            p
        } else if msgs.last().id@ == id {
            msgs.len() - 1
        } else {
            -1
        }
    }
}

/// The first message with the id had its reactions changed by the
/// operation; nothing else changed.
pub open spec fn reactions_updated(old: Seq<MessageState>, new: Seq<MessageState>, id: u64, op: ReactionOp) -> bool {
    let i = first_message_index(old, id);
    &&& new.len() == old.len()
    &&& forall|j: int| 0 <= j < old.len() && j != i ==> #[trigger] new[j] == old[j]
    &&& i >= 0 ==> {
        &&& new[i] == MessageState { reactions: new[i].reactions, ..old[i] }
        &&& new[i].reactions@ == reaction_op_spec(old[i].reactions@, op)
    }
}

/// The first message with the id had its poll updated to the current user's
/// selection; nothing else changed.
pub open spec fn poll_vote_updated(old: Seq<MessageState>, new: Seq<MessageState>, id: u64, selected: Seq<u8>) -> bool {
    let i = first_message_index(old, id);
    &&& new.len() == old.len()
    &&& forall|j: int| 0 <= j < old.len() && j != i ==> #[trigger] new[j] == old[j]
    &&& i >= 0 ==> {
        &&& new[i] == MessageState { poll: new[i].poll, ..old[i] }
        &&& match old[i].poll {
            Some(p) => new[i].poll matches Some(q) && poll_vote_spec(p, q, selected),
            None => new[i].poll is None,
        }
    }
}

/// Only one channel's list changed, as `changed` relates its old and new
/// contents; a channel without a list keeps none.
pub open spec fn only_channel_changed(
    old: Map<u64, Vec<MessageState>>,
    new: Map<u64, Vec<MessageState>>,
    channel: u64,
    changed: spec_fn(Seq<MessageState>, Seq<MessageState>) -> bool,
) -> bool {
    &&& new.dom() == old.dom()
    &&& forall|k: u64| #[trigger] old.dom().contains(k) && k != channel ==> new[k] == old[k]
    &&& old.dom().contains(channel) ==> changed(old[channel]@, new[channel]@)
}

pub fn find_message_index(msgs: &Vec<MessageState>, id: Id<MessageMarker>) -> (r: Option<usize>)
    ensures
        match r {
            Some(i) => i < msgs@.len() && first_message_index(msgs@, id@) == i,
            None => first_message_index(msgs@, id@) == -1,
        },
{
    let n = msgs.len();
    let mut i: usize = 0;
    while i < n
        invariant
            n == msgs@.len(),
            i <= n,
            first_message_index(msgs@.subrange(0, i as int), id@) == -1,
        decreases n - i,
    {
        proof {
            let sub = msgs@.subrange(0, i + 1);
            assert(sub.drop_last() =~= msgs@.subrange(0, i as int));
        }
        if msgs[i].id.get() == id.get() {
            proof {
                lemma_first_message_prefix(msgs@, id@, i + 1);
            }
            return Some(i);
        }
        i = i + 1;
    }
    proof {
        assert(msgs@.subrange(0, n as int) =~= msgs@);
    }
    None
}

proof fn lemma_first_message_prefix(msgs: Seq<MessageState>, id: u64, k: int)
    requires
        0 <= k <= msgs.len(),
        first_message_index(msgs.subrange(0, k), id) >= 0,
    ensures
        first_message_index(msgs, id) == first_message_index(msgs.subrange(0, k), id),
    decreases msgs.len() - k,
{
    if k < msgs.len() {
        let sub = msgs.subrange(0, k + 1);
        assert(sub.drop_last() =~= msgs.subrange(0, k));
        lemma_first_message_prefix(msgs, id, k + 1);
    } else {
        assert(msgs.subrange(0, k) =~= msgs);
    }
}

/// The index of the first gap starting at `lower`, or -1.
pub open spec fn first_gap_index(gaps: Seq<MessageHistoryGap>, lower: u64) -> int
    decreases gaps.len(),
{
    if gaps.len() == 0 {
        -1
    } else {
        let p = first_gap_index(gaps.drop_last(), lower);
        if p >= 0 {
            p
        } else if gaps.last().lower_id@ == lower {
            gaps.len() - 1
        } else {
            -1
        }
    }
}

proof fn lemma_first_gap_index_bounds(gaps: Seq<MessageHistoryGap>, lower: u64)
    ensures
        -1 <= first_gap_index(gaps, lower) < gaps.len(),
        first_gap_index(gaps, lower) >= 0 ==> gaps[first_gap_index(gaps, lower)].lower_id@ == lower,
    decreases gaps.len(),
{
    if gaps.len() > 0 {
        let rest = gaps.drop_last();
        lemma_first_gap_index_bounds(rest, lower);
        if first_gap_index(rest, lower) >= 0 {
            assert(rest[first_gap_index(rest, lower)] == gaps[first_gap_index(rest, lower)]);
        }
    }
}

proof fn lemma_first_gap_prefix(gaps: Seq<MessageHistoryGap>, lower: u64, k: int)
    requires
        0 <= k <= gaps.len(),
        first_gap_index(gaps.subrange(0, k), lower) >= 0,
    ensures
        first_gap_index(gaps, lower) == first_gap_index(gaps.subrange(0, k), lower),
    decreases gaps.len() - k,
{
    if k < gaps.len() {
        let sub = gaps.subrange(0, k + 1);
        assert(sub.drop_last() =~= gaps.subrange(0, k));
        lemma_first_gap_prefix(gaps, lower, k + 1);
    } else {
        assert(gaps.subrange(0, k) =~= gaps);
    }
}

/// Whether some message of the list has the id.
pub open spec fn has_message(msgs: Seq<MessageState>, id: u64) -> bool {
    exists|i: int| 0 <= i < msgs.len() && (#[trigger] msgs[i]).id@ == id
}

proof fn lemma_first_message_index_bounds(msgs: Seq<MessageState>, id: u64)
    ensures
        -1 <= first_message_index(msgs, id) < msgs.len(),
        first_message_index(msgs, id) >= 0 ==> msgs[first_message_index(msgs, id)].id@ == id,
        first_message_index(msgs, id) == -1 <==> !has_message(msgs, id),
    decreases msgs.len(),
{
    if msgs.len() > 0 {
        let rest = msgs.drop_last();
        lemma_first_message_index_bounds(rest, id);
        if has_message(rest, id) {
            let j = choose|j: int| 0 <= j < rest.len() && (#[trigger] rest[j]).id@ == id;
            assert(msgs[j] == rest[j]);
        }
        if has_message(msgs, id) && !has_message(rest, id) {
            let j = choose|j: int| 0 <= j < msgs.len() && (#[trigger] msgs[j]).id@ == id;
            if j < msgs.len() - 1 {
                assert(rest[j] == msgs[j]);
            }
        }
    }
}

fn update_reactions_in_list(msgs: &mut Vec<MessageState>, id: Id<MessageMarker>, op: &ReactionOp)
    ensures
        reactions_updated(old(msgs)@, final(msgs)@, id@, *op),
{
    match find_message_index(msgs, id) {
        Some(i) => {
            let updated = apply_reaction_op(&msgs[i].reactions, op);
            let mut m = msgs.remove(i);
            m.reactions = updated;
            msgs.insert(i, m);
        },
        None => {},
    }
}

fn update_reactions_in_map(map: &mut IdMap<Vec<MessageState>>, channel: Id<ChannelMarker>, id: Id<MessageMarker>, op: &ReactionOp)
    ensures
        only_channel_changed(
            old(map)@,
            final(map)@,
            channel@,
            |o: Seq<MessageState>, n: Seq<MessageState>| reactions_updated(o, n, id@, *op),
        ),
{
    if let Some(mut msgs) = map.remove(channel.get()) {
        update_reactions_in_list(&mut msgs, id, op);
        map.insert(channel.get(), msgs);
    }
    proof {
        assert(map@.dom() =~= old(map)@.dom());
    }
}

fn update_poll_in_list(msgs: &mut Vec<MessageState>, id: Id<MessageMarker>, selected: &[u8])
    ensures
        poll_vote_updated(old(msgs)@, final(msgs)@, id@, selected@),
{
    match find_message_index(msgs, id) {
        Some(i) => {
            let mut m = msgs.remove(i);
            let poll = m.poll.take();
            m.poll = match poll {
                Some(p) => Some(update_poll_vote(p, selected)),
                None => None,
            };
            msgs.insert(i, m);
        },
        None => {},
    }
}

fn update_poll_in_map(map: &mut IdMap<Vec<MessageState>>, channel: Id<ChannelMarker>, id: Id<MessageMarker>, selected: &[u8])
    ensures
        only_channel_changed(
            old(map)@,
            final(map)@,
            channel@,
            |o: Seq<MessageState>, n: Seq<MessageState>| poll_vote_updated(o, n, id@, selected@),
        ),
{
    if let Some(mut msgs) = map.remove(channel.get()) {
        update_poll_in_list(&mut msgs, id, selected);
        map.insert(channel.get(), msgs);
    }
    proof {
        assert(map@.dom() =~= old(map)@.dom());
    }
}

/// The messages of a list whose id is not among the given ones, in order.
pub open spec fn without_ids(msgs: Seq<MessageState>, ids: Seq<Id<MessageMarker>>) -> Seq<MessageState>
    decreases msgs.len(),
{
    if msgs.len() == 0 {
        Seq::empty()
    } else if (exists|k: int| 0 <= k < ids.len() && (#[trigger] ids[k])@ == msgs.last().id@) {
        without_ids(msgs.drop_last(), ids)
    } else {
        without_ids(msgs.drop_last(), ids).push(msgs.last())
    }
}

fn id_listed(ids: &[Id<MessageMarker>], id: Id<MessageMarker>) -> (r: bool)
    ensures
        r == exists|k: int| 0 <= k < ids@.len() && (#[trigger] ids@[k])@ == id@,
{
    let n = ids.len();
    let mut i: usize = 0;
    while i < n
        invariant
            n == ids@.len(),
            i <= n,
            forall|k: int| 0 <= k < i ==> (#[trigger] ids@[k])@ != id@,
        decreases n - i,
    {
        if ids[i].get() == id.get() {
            return true;
        }
        i = i + 1;
    }
    false
}

fn retain_not_listed(msgs: Vec<MessageState>, ids: &[Id<MessageMarker>]) -> (r: Vec<MessageState>)
    ensures
        r@ == without_ids(msgs@, ids@),
{
    let ghost all = msgs@;
    let mut rest = msgs;
    let mut reversed: Vec<MessageState> = Vec::new();
    while rest.len() > 0
        invariant
            all == rest@ + reversed@.reverse(),
        decreases rest.len(),
    {
        let last = rest.pop().unwrap();
        proof {
            assert(reversed@.push(last).reverse() =~= seq![last] + reversed@.reverse());
        }
        reversed.push(last);
        proof {
            assert(all =~= rest@ + reversed@.reverse());
        }
    }
    proof {
        assert(all =~= reversed@.reverse());
    }
    let mut out: Vec<MessageState> = Vec::new();
    let ghost mut taken: Seq<MessageState> = Seq::empty();
    while reversed.len() > 0
        invariant
            all == taken + reversed@.reverse(),
            out@ == without_ids(taken, ids@),
        decreases reversed.len(),
    {
        let next = reversed.pop().unwrap();
        proof {
            assert(reversed@.push(next).reverse() =~= seq![next] + reversed@.reverse());
            assert(taken.push(next).drop_last() =~= taken);
        }
        let listed = id_listed(ids, next.id);
        proof {
            taken = taken.push(next);
            assert(all =~= taken + reversed@.reverse());
        }
        if !listed {
            out.push(next);
        }
    }
    proof {
        assert(taken =~= all);
    }
    out
}

/// Dropping messages from a list sorted by id leaves it sorted, and keeps
/// only messages of the list.
proof fn lemma_without_ids_increasing(msgs: Seq<MessageState>, ids: Seq<Id<MessageMarker>>)
    requires
        ids_increasing(msgs),
    ensures
        ids_increasing(without_ids(msgs, ids)),
        forall|i: int|
            0 <= i < without_ids(msgs, ids).len() ==> exists|j: int|
                0 <= j < msgs.len() && #[trigger] without_ids(msgs, ids)[i] == msgs[j],
    decreases msgs.len(),
{
    if msgs.len() > 0 {
        let d = msgs.drop_last();
        assert forall|i: int, j: int| 0 <= i < j < d.len() implies (#[trigger] d[i]).id@ < (#[trigger] d[j]).id@ by {
            assert(d[i] == msgs[i] && d[j] == msgs[j]);
        }
        lemma_without_ids_increasing(d, ids);
        let w = without_ids(d, ids);
        if !(exists|k: int| 0 <= k < ids.len() && (#[trigger] ids[k])@ == msgs.last().id@) {
            let w2 = w.push(msgs.last());
            assert(without_ids(msgs, ids) == w2);
            assert forall|i: int| 0 <= i < w.len() implies (#[trigger] w[i]).id@ < msgs.last().id@ by {
                let j = choose|j: int| 0 <= j < d.len() && w[i] == d[j];
                assert(d[j] == msgs[j]);
                assert(msgs[j].id@ < msgs[msgs.len() - 1].id@);
            }
            assert forall|i: int, j: int| 0 <= i < j < w2.len() implies (#[trigger] w2[i]).id@ < (#[trigger] w2[j]).id@ by {
                if j == w.len() {
                    assert(w2[i] == w[i]);
                } else {
                    assert(w2[i] == w[i] && w2[j] == w[j]);
                }
            }
            assert forall|i: int| 0 <= i < w2.len() implies exists|j: int|
                0 <= j < msgs.len() && #[trigger] w2[i] == msgs[j] by {
                if i == w.len() {
                    assert(w2[i] == msgs[msgs.len() - 1]);
                } else {
                    assert(w2[i] == w[i]);
                    let j = choose|j: int| 0 <= j < d.len() && w[i] == d[j];
                    assert(d[j] == msgs[j]);
                }
            }
        } else {
            assert forall|i: int| 0 <= i < w.len() implies exists|j: int|
                0 <= j < msgs.len() && #[trigger] w[i] == msgs[j] by {
                let j = choose|j: int| 0 <= j < d.len() && w[i] == d[j];
                assert(d[j] == msgs[j]);
            }
        }
    }
}

fn delete_in_map(map: &mut IdMap<Vec<MessageState>>, channel: Id<ChannelMarker>, ids: &[Id<MessageMarker>])
    ensures
        only_channel_changed(
            old(map)@,
            final(map)@,
            channel@,
            |o: Seq<MessageState>, n: Seq<MessageState>| n == without_ids(o, ids@),
        ),
{
    if let Some(msgs) = map.remove(channel.get()) {
        let kept = retain_not_listed(msgs, ids);
        map.insert(channel.get(), kept);
    }
    proof {
        assert(map@.dom() =~= old(map)@.dom());
    }
}

/// A channel's cached messages, as a sequence.
pub open spec fn cached(map: Map<u64, Vec<MessageState>>, channel: u64) -> Seq<MessageState> {
    match lookup(map, channel) {
        Some(v) => v@,
        None => Seq::empty(),
    }
}

impl DiscordState {
    /// Applies a reaction change to the cached and pinned copies of a
    /// message.
    pub fn apply_reaction(&mut self, channel_id: Id<ChannelMarker>, message_id: Id<MessageMarker>, op: &ReactionOp)
        ensures
            old(self).well_formed() ==> final(self).well_formed(),
            only_channel_changed(
                old(self).messages@,
                final(self).messages@,
                channel_id@,
                |o: Seq<MessageState>, n: Seq<MessageState>| reactions_updated(o, n, message_id@, *op),
            ),
            only_channel_changed(
                old(self).pinned_messages@,
                final(self).pinned_messages@,
                channel_id@,
                |o: Seq<MessageState>, n: Seq<MessageState>| reactions_updated(o, n, message_id@, *op),
            ),
            final(self).channels@ == old(self).channels@,
            final(self).current_user_id == old(self).current_user_id,
    {
        update_reactions_in_map(&mut self.messages, channel_id, message_id, op);
        update_reactions_in_map(&mut self.pinned_messages, channel_id, message_id, op);
    }

    /// The current user reacted with an emoji from this client.
    pub fn add_reaction(&mut self, channel_id: Id<ChannelMarker>, message_id: Id<MessageMarker>, emoji: ReactionEmoji)
        ensures
            old(self).well_formed() ==> final(self).well_formed(),
            only_channel_changed(
                old(self).messages@,
                final(self).messages@,
                channel_id@,
                |o: Seq<MessageState>, n: Seq<MessageState>| reactions_updated(o, n, message_id@, ReactionOp::AddOwn(emoji)),
            ),
            only_channel_changed(
                old(self).pinned_messages@,
                final(self).pinned_messages@,
                channel_id@,
                |o: Seq<MessageState>, n: Seq<MessageState>| reactions_updated(o, n, message_id@, ReactionOp::AddOwn(emoji)),
            ),
    {
        let op = ReactionOp::AddOwn(emoji);
        self.apply_reaction(channel_id, message_id, &op);
    }

    /// The current user took back a reaction from this client.
    pub fn remove_reaction(&mut self, channel_id: Id<ChannelMarker>, message_id: Id<MessageMarker>, emoji: &ReactionEmoji)
        ensures
            old(self).well_formed() ==> final(self).well_formed(),
            only_channel_changed(
                old(self).messages@,
                final(self).messages@,
                channel_id@,
                |o: Seq<MessageState>, n: Seq<MessageState>| reactions_updated(o, n, message_id@, ReactionOp::RemoveOwn(*emoji)),
            ),
            only_channel_changed(
                old(self).pinned_messages@,
                final(self).pinned_messages@,
                channel_id@,
                |o: Seq<MessageState>, n: Seq<MessageState>| reactions_updated(o, n, message_id@, ReactionOp::RemoveOwn(*emoji)),
            ),
    {
        let op = ReactionOp::RemoveOwn(clone_emoji(emoji));
        self.apply_reaction(channel_id, message_id, &op);
    }

    /// Whether a user id is the current user's.
    pub open spec fn is_current_user_spec(&self, user_id: Id<UserMarker>) -> bool {
        self.current_user_id matches Some(u) && u@ == user_id@
    }

    fn is_current_user(&self, user_id: Id<UserMarker>) -> (r: bool)
        ensures
            r == self.is_current_user_spec(user_id),
    {
        match self.current_user_id {
            Some(u) => u.get() == user_id.get(),
            None => false,
        }
    }

    /// The gateway reports that a user reacted.
    pub fn add_gateway_reaction(
        &mut self,
        channel_id: Id<ChannelMarker>,
        message_id: Id<MessageMarker>,
        user_id: Id<UserMarker>,
        emoji: ReactionEmoji,
    )
        ensures
            old(self).well_formed() ==> final(self).well_formed(),
            ({
                let op = ReactionOp::GatewayAdd { emoji, is_current_user: old(self).is_current_user_spec(user_id) };
                &&& only_channel_changed(
                    old(self).messages@,
                    final(self).messages@,
                    channel_id@,
                    |o: Seq<MessageState>, n: Seq<MessageState>| reactions_updated(o, n, message_id@, op),
                )
                &&& only_channel_changed(
                    old(self).pinned_messages@,
                    final(self).pinned_messages@,
                    channel_id@,
                    |o: Seq<MessageState>, n: Seq<MessageState>| reactions_updated(o, n, message_id@, op),
                )
            }),
    {
        let is_current_user = self.is_current_user(user_id);
        let op = ReactionOp::GatewayAdd { emoji, is_current_user };
        self.apply_reaction(channel_id, message_id, &op);
    }

    /// The gateway reports that a user took a reaction back.
    pub fn remove_gateway_reaction(
        &mut self,
        channel_id: Id<ChannelMarker>,
        message_id: Id<MessageMarker>,
        user_id: Id<UserMarker>,
        emoji: &ReactionEmoji,
    )
        ensures
            old(self).well_formed() ==> final(self).well_formed(),
            ({
                let op = ReactionOp::GatewayRemove { emoji: *emoji, is_current_user: old(self).is_current_user_spec(user_id) };
                &&& only_channel_changed(
                    old(self).messages@,
                    final(self).messages@,
                    channel_id@,
                    |o: Seq<MessageState>, n: Seq<MessageState>| reactions_updated(o, n, message_id@, op),
                )
                &&& only_channel_changed(
                    old(self).pinned_messages@,
                    final(self).pinned_messages@,
                    channel_id@,
                    |o: Seq<MessageState>, n: Seq<MessageState>| reactions_updated(o, n, message_id@, op),
                )
            }),
    {
        let is_current_user = self.is_current_user(user_id);
        let op = ReactionOp::GatewayRemove { emoji: clone_emoji(emoji), is_current_user };
        self.apply_reaction(channel_id, message_id, &op);
    }

    /// The gateway reports that all reactions of a message were removed.
    pub fn clear_gateway_reactions(&mut self, channel_id: Id<ChannelMarker>, message_id: Id<MessageMarker>)
        ensures
            old(self).well_formed() ==> final(self).well_formed(),
            only_channel_changed(
                old(self).messages@,
                final(self).messages@,
                channel_id@,
                |o: Seq<MessageState>, n: Seq<MessageState>| reactions_updated(o, n, message_id@, ReactionOp::ClearAll),
            ),
            only_channel_changed(
                old(self).pinned_messages@,
                final(self).pinned_messages@,
                channel_id@,
                |o: Seq<MessageState>, n: Seq<MessageState>| reactions_updated(o, n, message_id@, ReactionOp::ClearAll),
            ),
    {
        let op = ReactionOp::ClearAll;
        self.apply_reaction(channel_id, message_id, &op);
    }

    /// The gateway reports that all reactions with one emoji were removed.
    pub fn clear_gateway_reaction_emoji(
        &mut self,
        channel_id: Id<ChannelMarker>,
        message_id: Id<MessageMarker>,
        emoji: &ReactionEmoji,
    )
        ensures
            old(self).well_formed() ==> final(self).well_formed(),
            only_channel_changed(
                old(self).messages@,
                final(self).messages@,
                channel_id@,
                |o: Seq<MessageState>, n: Seq<MessageState>| reactions_updated(o, n, message_id@, ReactionOp::ClearEmoji(*emoji)),
            ),
            only_channel_changed(
                old(self).pinned_messages@,
                final(self).pinned_messages@,
                channel_id@,
                |o: Seq<MessageState>, n: Seq<MessageState>| reactions_updated(o, n, message_id@, ReactionOp::ClearEmoji(*emoji)),
            ),
    {
        let op = ReactionOp::ClearEmoji(clone_emoji(emoji));
        self.apply_reaction(channel_id, message_id, &op);
    }

    /// The current user's poll selection changed.
    pub fn update_current_user_poll_vote(
        &mut self,
        channel_id: Id<ChannelMarker>,
        message_id: Id<MessageMarker>,
        answer_ids: &[u8],
    )
        ensures
            old(self).well_formed() ==> final(self).well_formed(),
            only_channel_changed(
                old(self).messages@,
                final(self).messages@,
                channel_id@,
                |o: Seq<MessageState>, n: Seq<MessageState>| poll_vote_updated(o, n, message_id@, answer_ids@),
            ),
            only_channel_changed(
                old(self).pinned_messages@,
                final(self).pinned_messages@,
                channel_id@,
                |o: Seq<MessageState>, n: Seq<MessageState>| poll_vote_updated(o, n, message_id@, answer_ids@),
            ),
    {
        update_poll_in_map(&mut self.messages, channel_id, message_id, answer_ids);
        update_poll_in_map(&mut self.pinned_messages, channel_id, message_id, answer_ids);
    }

    /// Removes messages from a channel's cache and pins, and forgets their
    /// authors' role ids.
    pub fn delete_messages(&mut self, channel_id: Id<ChannelMarker>, message_ids: &[Id<MessageMarker>])
        ensures
            old(self).well_formed() ==> final(self).well_formed(),
            only_channel_changed(
                old(self).messages@,
                final(self).messages@,
                channel_id@,
                |o: Seq<MessageState>, n: Seq<MessageState>| n == without_ids(o, message_ids@),
            ),
            only_channel_changed(
                old(self).pinned_messages@,
                final(self).pinned_messages@,
                channel_id@,
                |o: Seq<MessageState>, n: Seq<MessageState>| n == without_ids(o, message_ids@),
            ),
            forall|c: u64, m: u64| #[trigger] lookup2(final(self).message_author_role_ids@, c, m) == if c == channel_id@
                && exists|k: int| 0 <= k < message_ids@.len() && (#[trigger] message_ids@[k])@ == m {
                None
            } else {
                lookup2(old(self).message_author_role_ids@, c, m)
            },
    {
        delete_in_map(&mut self.messages, channel_id, message_ids);
        delete_in_map(&mut self.pinned_messages, channel_id, message_ids);
        proof {
            if old(self).well_formed() && old(self).pinned_messages@.dom().contains(channel_id@) {
                lemma_without_ids_increasing(old(self).pinned_messages@[channel_id@]@, message_ids@);
            }
        }
        if let Some(mut inner) = self.message_author_role_ids.remove(channel_id.get()) {
            let n = message_ids.len();
            let mut i: usize = 0;
            while i < n
                invariant
                    n == message_ids@.len(),
                    i <= n,
                    forall|m: u64| #[trigger] inner@.dom().contains(m) <==> (lookup2(
                        old(self).message_author_role_ids@,
                        channel_id@,
                        m,
                    ) is Some && !exists|k: int| 0 <= k < i && (#[trigger] message_ids@[k])@ == m),
                    forall|m: u64| #[trigger] inner@.dom().contains(m) ==> Some(inner@[m]) == lookup2(
                        old(self).message_author_role_ids@,
                        channel_id@,
                        m,
                    ),
                decreases n - i,
            {
                inner.remove(message_ids[i].get());
                proof {
                    assert forall|m: u64| #[trigger] inner@.dom().contains(m) <==> (lookup2(
                        old(self).message_author_role_ids@,
                        channel_id@,
                        m,
                    ) is Some && !exists|k: int| 0 <= k < i + 1 && (#[trigger] message_ids@[k])@ == m) by {
                        if m == message_ids@[i as int]@ {
                            assert(message_ids@[i as int]@ == m);
                        } else if exists|k: int| 0 <= k < i + 1 && (#[trigger] message_ids@[k])@ == m {
                            let k = choose|k: int| 0 <= k < i + 1 && (#[trigger] message_ids@[k])@ == m;
                            assert(k != i);
                        }
                    }
                }
                i = i + 1;
            }
            self.message_author_role_ids.insert(channel_id.get(), inner);
        }
    }

    /// Removes one message, as `delete_messages` does.
    pub fn delete_message(&mut self, channel_id: Id<ChannelMarker>, message_id: Id<MessageMarker>)
        ensures
            old(self).well_formed() ==> final(self).well_formed(),
            only_channel_changed(
                old(self).messages@,
                final(self).messages@,
                channel_id@,
                |o: Seq<MessageState>, n: Seq<MessageState>| n == without_ids(o, seq![message_id]),
            ),
            only_channel_changed(
                old(self).pinned_messages@,
                final(self).pinned_messages@,
                channel_id@,
                |o: Seq<MessageState>, n: Seq<MessageState>| n == without_ids(o, seq![message_id]),
            ),
    {
        let ids = [message_id];
        proof {
            assert(ids@ =~= seq![message_id]);
        }
        self.delete_messages(channel_id, &ids);
    }

    /// A channel's cached messages, oldest first.
    pub fn messages_for_channel(&self, channel_id: Id<ChannelMarker>) -> (r: Vec<&MessageState>)
        ensures
            r@.len() == cached(self.messages@, channel_id@).len(),
            forall|i: int| 0 <= i < r@.len() ==> *(#[trigger] r@[i]) == cached(self.messages@, channel_id@)[i],
    {
        let mut out: Vec<&MessageState> = Vec::new();
        match self.messages.get(channel_id.get()) {
            Some(msgs) => {
                let n = msgs.len();
                let mut i: usize = 0;
                while i < n
                    invariant
                        n == msgs@.len(),
                        msgs@ == cached(self.messages@, channel_id@),
                        i <= n,
                        out@.len() == i,
                        forall|j: int| 0 <= j < i ==> *(#[trigger] out@[j]) == msgs@[j],
                    decreases n - i,
                {
                    out.push(&msgs[i]);
                    i = i + 1;
                }
            },
            None => {},
        }
        out
    }

    /// A channel's pinned messages, newest first.
    pub fn pinned_messages_for_channel(&self, channel_id: Id<ChannelMarker>) -> (r: Vec<&MessageState>)
        ensures
            r@.len() == cached(self.pinned_messages@, channel_id@).len(),
            forall|i: int| 0 <= i < r@.len() ==> *(#[trigger] r@[i]) == cached(self.pinned_messages@, channel_id@)[r@.len()
                - 1 - i],
            self.well_formed() ==> forall|i: int, j: int| 0 <= i < j < r@.len() ==> (#[trigger] r@[i]).id@ > (
            #[trigger] r@[j]).id@,
    {
        let mut out: Vec<&MessageState> = Vec::new();
        match self.pinned_messages.get(channel_id.get()) {
            Some(msgs) => {
                let n = msgs.len();
                let mut i: usize = n;
                while i > 0
                    invariant
                        n == msgs@.len(),
                        msgs@ == cached(self.pinned_messages@, channel_id@),
                        i <= n,
                        out@.len() == n - i,
                        forall|j: int| 0 <= j < out@.len() ==> *(#[trigger] out@[j]) == msgs@[n - 1 - j],
                    decreases i,
                {
                    out.push(&msgs[i - 1]);
                    i = i - 1;
                }
                proof {
                    if self.well_formed() {
                        assert(ids_increasing(msgs@));
                        assert forall|a: int, b: int| 0 <= a < b < out@.len() implies (#[trigger] out@[a]).id@ > (
                        #[trigger] out@[b]).id@ by {
                            assert(*out@[a] == msgs@[n - 1 - a]);
                            assert(*out@[b] == msgs@[n - 1 - b]);
                        }
                    }
                }
            },
            None => {},
        }
        out
    }

    pub fn channel_has_cached_messages(&self, channel_id: Id<ChannelMarker>) -> (r: bool)
        ensures
            r == (cached(self.messages@, channel_id@).len() > 0),
    {
        match self.messages.get(channel_id.get()) {
            Some(msgs) => msgs.len() > 0,
            None => false,
        }
    }

    /// Whether a channel's cache holds a message by the author.
    pub fn channel_has_cached_message_from(&self, channel_id: Id<ChannelMarker>, author_id: Id<UserMarker>) -> (r: bool)
        ensures
            r == exists|i: int| 0 <= i < cached(self.messages@, channel_id@).len() && (#[trigger] cached(
                self.messages@,
                channel_id@,
            )[i]).author_id@ == author_id@,
    {
        match self.messages.get(channel_id.get()) {
            Some(msgs) => {
                let n = msgs.len();
                let mut i: usize = 0;
                while i < n
                    invariant
                        n == msgs@.len(),
                        msgs@ == cached(self.messages@, channel_id@),
                        i <= n,
                        forall|j: int| 0 <= j < i ==> (#[trigger] msgs@[j]).author_id@ != author_id@,
                    decreases n - i,
                {
                    if msgs[i].author_id.get() == author_id.get() {
                        proof {
                            assert(cached(self.messages@, channel_id@)[i as int].author_id@ == author_id@);
                        }
                        return true;
                    }
                    i = i + 1;
                }
                false
            },
            None => false,
        }
    }

    /// Whether a message with the id is cached in the channel.
    pub fn cached_message_id_exists(&self, channel_id: Id<ChannelMarker>, message_id: Id<MessageMarker>) -> (r: bool)
        ensures
            r == has_message(cached(self.messages@, channel_id@), message_id@),
    {
        match self.messages.get(channel_id.get()) {
            Some(msgs) => {
                let found = find_message_index(msgs, message_id);
                proof {
                    lemma_first_message_index_bounds(msgs@, message_id@);
                }
                found.is_some()
            },
            None => false,
        }
    }

    /// Whether a message with the id is among the channel's pins.
    pub fn pinned_message_known(&self, channel_id: Id<ChannelMarker>, message_id: Id<MessageMarker>) -> (r: bool)
        ensures
            r == has_message(cached(self.pinned_messages@, channel_id@), message_id@),
    {
        match self.pinned_messages.get(channel_id.get()) {
            Some(msgs) => {
                let found = find_message_index(msgs, message_id);
                proof {
                    lemma_first_message_index_bounds(msgs@, message_id@);
                }
                found.is_some()
            },
            None => false,
        }
    }

    /// The upper end of the first history gap that starts at `lower_id`, if
    /// one is recorded.
    pub fn message_history_gap_after(&self, channel_id: Id<ChannelMarker>, lower_id: Id<MessageMarker>) -> (r: Option<
        Id<MessageMarker>,
    >)
        ensures
            self.well_formed() ==> (r matches Some(u) ==> lower_id@ < u@),
            r == match lookup(self.message_gaps@, channel_id@) {
                None => None,
                Some(gaps) => if first_gap_index(gaps@, lower_id@) >= 0 {
                    Some(gaps@[first_gap_index(gaps@, lower_id@)].upper_id)
                } else {
                    None
                },
            },
    {
        match self.message_gaps.get(channel_id.get()) {
            Some(gaps) => {
                let n = gaps.len();
                let mut i: usize = 0;
                while i < n
                    invariant
                        n == gaps@.len(),
                        lookup(self.message_gaps@, channel_id@) == Some(*gaps),
                        i <= n,
                        first_gap_index(gaps@.subrange(0, i as int), lower_id@) == -1,
                    decreases n - i,
                {
                    proof {
                        let sub = gaps@.subrange(0, i + 1);
                        assert(sub.drop_last() =~= gaps@.subrange(0, i as int));
                    }
                    if gaps[i].lower_id.get() == lower_id.get() {
                        proof {
                            lemma_first_gap_prefix(gaps@, lower_id@, i + 1);
                            if self.well_formed() {
                                assert(self.message_gaps@[channel_id@]@[i as int] == gaps@[i as int]);
                            }
                        }
                        return Some(gaps[i].upper_id);
                    }
                    i = i + 1;
                }
                proof {
                    assert(gaps@.subrange(0, n as int) =~= gaps@);
                }
                None
            },
            None => None,
        }
    }

    /// Whether a channel's cached message bodies were redacted.
    pub fn channel_message_bodies_are_cold(&self, channel_id: Id<ChannelMarker>) -> (r: bool)
        ensures
            r == exists|i: int| 0 <= i < self.cold_message_channels@.len()
                && (#[trigger] self.cold_message_channels@[i])@ == channel_id@,
    {
        id_in(&self.cold_message_channels, channel_id)
    }

    /// Whether a channel's bodies are kept warm.
    pub fn channel_message_bodies_are_warm(&self, channel_id: Id<ChannelMarker>) -> (r: bool)
        ensures
            r == exists|i: int| 0 <= i < self.warm_message_channels@.len()
                && (#[trigger] self.warm_message_channels@[i])@ == channel_id@,
    {
        id_in(&self.warm_message_channels, channel_id)
    }

    /// Message bodies of a channel are kept until the UI has said which
    /// channel is selected, and afterwards for the selected channel and the
    /// warm ones.
    pub open spec fn retains_channel_bodies_spec(&self, channel_id: u64) -> bool {
        !self.selected_message_channel_known || (self.selected_message_channel_id matches Some(c) && c@ == channel_id)
            || exists|i: int| 0 <= i < self.warm_message_channels@.len()
                && (#[trigger] self.warm_message_channels@[i])@ == channel_id
    }

    pub fn should_retain_channel_message_body(&self, channel_id: Id<ChannelMarker>) -> (r: bool)
        ensures
            r == self.retains_channel_bodies_spec(channel_id@),
    {
        let selected = match self.selected_message_channel_id {
            Some(c) => c.get() == channel_id.get(),
            None => false,
        };
        !self.selected_message_channel_known || selected || self.channel_message_bodies_are_warm(channel_id)
    }

    /// A live message's body is kept when the current user wrote it or is
    /// mentioned in it, or when its channel's bodies are kept.
    pub fn should_retain_live_message_body(
        &self,
        channel_id: Id<ChannelMarker>,
        author_id: Id<UserMarker>,
        mentions: &Vec<MentionInfo>,
    ) -> (r: bool)
        ensures
            r == (self.is_current_user_spec(author_id) || (self.current_user_id matches Some(u) && exists|i: int|
                0 <= i < mentions@.len() && (#[trigger] mentions@[i]).user_id@ == u@)
                || self.retains_channel_bodies_spec(channel_id@)),
    {
        if self.is_current_user(author_id) {
            return true;
        }
        let mentioned = match self.current_user_id {
            Some(u) => {
                let n = mentions.len();
                let mut i: usize = 0;
                let mut found = false;
                while i < n
                    invariant
                        n == mentions@.len(),
                        i <= n,
                        found == exists|j: int| 0 <= j < i && (#[trigger] mentions@[j]).user_id@ == u@,
                    decreases n - i,
                {
                    if mentions[i].user_id.get() == u.get() {
                        found = true;
                    }
                    i = i + 1;
                }
                found
            },
            None => false,
        };
        mentioned || self.should_retain_channel_message_body(channel_id)
    }

    /// The body of an updated message is kept when its channel's bodies are,
    /// or when the message is pinned.
    pub fn should_retain_message_update_body(&self, channel_id: Id<ChannelMarker>, message_id: Id<MessageMarker>) -> (r: bool)
        ensures
            r == (self.retains_channel_bodies_spec(channel_id@) || has_message(
                cached(self.pinned_messages@, channel_id@),
                message_id@,
            )),
    {
        self.should_retain_channel_message_body(channel_id) || self.pinned_message_known(channel_id, message_id)
    }

    /// Records the role ids of a message's author; an empty list forgets
    /// them.
    pub fn record_author_role_ids(
        &mut self,
        channel_id: Id<ChannelMarker>,
        message_id: Id<MessageMarker>,
        author_role_ids: &[Id<RoleMarker>],
    )
        ensures
            old(self).well_formed() ==> final(self).well_formed(),
            forall|c: u64, m: u64| !(c == channel_id@ && m == message_id@) ==> #[trigger] lookup2(
                final(self).message_author_role_ids@,
                c,
                m,
            ) == lookup2(old(self).message_author_role_ids@, c, m),
            author_role_ids@.len() == 0 ==> lookup2(final(self).message_author_role_ids@, channel_id@, message_id@) is None,
            author_role_ids@.len() > 0 ==> (lookup2(final(self).message_author_role_ids@, channel_id@, message_id@) matches Some(
                ids,
            ) && ids@ == author_role_ids@),
    {
        let mut inner = match self.message_author_role_ids.remove(channel_id.get()) {
            Some(m) => m,
            None => IdMap::new(),
        };
        if author_role_ids.len() == 0 {
            inner.remove(message_id.get());
        } else {
            let mut ids: Vec<Id<RoleMarker>> = Vec::new();
            let n = author_role_ids.len();
            let mut i: usize = 0;
            while i < n
                invariant
                    n == author_role_ids@.len(),
                    i <= n,
                    ids@ == author_role_ids@.subrange(0, i as int),
                decreases n - i,
            {
                ids.push(author_role_ids[i]);
                proof {
                    assert(ids@ =~= author_role_ids@.subrange(0, i + 1));
                }
                i = i + 1;
            }
            proof {
                assert(author_role_ids@.subrange(0, n as int) =~= author_role_ids@);
            }
            inner.insert(message_id.get(), ids);
        }
        self.message_author_role_ids.insert(channel_id.get(), inner);
    }

    /// The colour of a message author's name: that of their member entry's
    /// roles when cached, else of the roles their profile reported, else of
    /// the roles the message carried; none without the guild's roles.
    pub open spec fn author_color_spec(
        &self,
        guild_id: u64,
        channel_id: u64,
        message_id: u64,
        user_id: u64,
        r: Option<u32>,
    ) -> bool {
        match lookup(self.roles@, guild_id) {
            None => r is None,
            Some(roles) => match lookup2(self.members@, guild_id, user_id) {
                Some(member) => selected_color_spec(member.role_ids@, roles@, r),
                None => match lookup2(self.profile_role_ids@, guild_id, user_id) {
                    Some(ids) => selected_color_spec(ids@, roles@, r),
                    None => match lookup2(self.message_author_role_ids@, channel_id, message_id) {
                        Some(ids) => selected_color_spec(ids@, roles@, r),
                        None => r is None,
                    },
                },
            },
        }
    }

    /// The colour of a message author's name: from their member entry when
    /// cached, else from the roles their profile reported, else from the
    /// roles the message carried; none without the guild's roles.
    pub fn message_author_role_color(
        &self,
        guild_id: Id<GuildMarker>,
        channel_id: Id<ChannelMarker>,
        message_id: Id<MessageMarker>,
        user_id: Id<UserMarker>,
    ) -> (r: Option<u32>)
        ensures
            self.author_color_spec(guild_id@, channel_id@, message_id@, user_id@, r),
    {
        let roles = match self.roles.get(guild_id.get()) {
            Some(r) => r,
            None => return None,
        };
        if let Some(member) = get2(&self.members, guild_id.get(), user_id.get()) {
            return selected_role_ids_color(&member.role_ids, roles);
        }
        if let Some(ids) = get2(&self.profile_role_ids, guild_id.get(), user_id.get()) {
            return selected_role_ids_color(ids, roles);
        }
        match get2(&self.message_author_role_ids, channel_id.get(), message_id.get()) {
            Some(ids) => selected_role_ids_color(ids, roles),
            None => None,
        }
    }

    /// The colour of a user's name in a guild: from their member entry when
    /// cached, else from the roles their profile reported.
    pub fn user_role_color(&self, guild_id: Id<GuildMarker>, user_id: Id<UserMarker>) -> (r: Option<u32>)
        ensures
            match lookup(self.roles@, guild_id@) {
                None => r is None,
                Some(roles) => match lookup2(self.members@, guild_id@, user_id@) {
                    Some(member) => selected_color_spec(member.role_ids@, roles@, r),
                    None => match lookup2(self.profile_role_ids@, guild_id@, user_id@) {
                        Some(ids) => selected_color_spec(ids@, roles@, r),
                        None => r is None,
                    },
                },
            },
    {
        let roles = match self.roles.get(guild_id.get()) {
            Some(r) => r,
            None => return None,
        };
        if let Some(member) = get2(&self.members, guild_id.get(), user_id.get()) {
            return selected_role_ids_color(&member.role_ids, roles);
        }
        match get2(&self.profile_role_ids, guild_id.get(), user_id.get()) {
            Some(ids) => selected_role_ids_color(ids, roles),
            None => None,
        }
    }

    /// Whether anything is known of a message author's roles: a member entry
    /// with a handle or roles, or roles from their profile or the message.
    pub fn message_author_role_ids_known(
        &self,
        guild_id: Id<GuildMarker>,
        channel_id: Id<ChannelMarker>,
        message_id: Id<MessageMarker>,
        user_id: Id<UserMarker>,
    ) -> (r: bool)
        ensures
            r == match lookup2(self.members@, guild_id@, user_id@) {
                Some(member) => member.username is Some || member.role_ids@.len() > 0,
                None => lookup2(self.profile_role_ids@, guild_id@, user_id@) is Some || lookup2(
                    self.message_author_role_ids@,
                    channel_id@,
                    message_id@,
                ) is Some,
            },
    {
        if let Some(member) = get2(&self.members, guild_id.get(), user_id.get()) {
            return member.username.is_some() || member.role_ids.len() > 0;
        }
        get2(&self.profile_role_ids, guild_id.get(), user_id.get()).is_some() || get2(
            &self.message_author_role_ids,
            channel_id.get(),
            message_id.get(),
        ).is_some()
    }
}

/// Whether an id is in a list.
pub fn id_in<M>(ids: &Vec<Id<M>>, id: Id<M>) -> (r: bool)
    ensures
        r == exists|i: int| 0 <= i < ids@.len() && (#[trigger] ids@[i])@ == id@,
{
    let n = ids.len();
    let mut i: usize = 0;
    while i < n
        invariant
            n == ids@.len(),
            i <= n,
            forall|j: int| 0 <= j < i ==> (#[trigger] ids@[j])@ != id@,
        decreases n - i,
    {
        if ids[i].get() == id.get() {
            return true;
        }
        i = i + 1;
    }
    false
}

/// With the state's roles stored under their own ids, a cached member's
/// name colour on a message is the member's own colour.
pub proof fn lemma_author_color_is_member_color(
    s: DiscordState,
    guild_id: u64,
    channel_id: u64,
    message_id: u64,
    user_id: u64,
    author_color: Option<u32>,
    member_color: Option<u32>,
)
    requires
        s.well_formed(),
        lookup2(s.members@, guild_id, user_id) is Some,
        s.author_color_spec(guild_id, channel_id, message_id, user_id, author_color),
        member_color_spec(s.members@, s.roles@, guild_id, user_id, member_color),
    ensures
        author_color == member_color,
{
    match lookup(s.roles@, guild_id) {
        Some(roles) => {
            assert forall|k: u64| #[trigger] roles@.dom().contains(k) implies roles@[k].id@ == k by {
                assert(s.roles@[guild_id]@.dom().contains(k));
            }
            let member = lookup2(s.members@, guild_id, user_id).unwrap();
            lemma_selected_color_unique(member.role_ids@, roles@, author_color, member_color);
        },
        None => {},
    }
}

/// Each channel that the state holds is stored under its own id.
pub proof fn lemma_channel_under_own_id(s: DiscordState, channel_id: u64)
    requires
        s.well_formed(),
    ensures
        lookup(s.channels@, channel_id) matches Some(c) ==> c.id@ == channel_id,
{
}

/// A channel's cached pins are sorted by increasing id, without repeats.
pub proof fn lemma_pins_sorted(s: DiscordState, channel_id: u64)
    requires
        s.well_formed(),
    ensures
        ids_increasing(cached(s.pinned_messages@, channel_id)),
{
}

/// Every recorded history gap has its lower bound below its upper one.
pub proof fn lemma_gaps_ordered(s: DiscordState, channel_id: u64, i: int)
    requires
        s.well_formed(),
        lookup(s.message_gaps@, channel_id) matches Some(gaps) && 0 <= i < gaps@.len(),
    ensures
        s.message_gaps@[channel_id]@[i].lower_id@ < s.message_gaps@[channel_id]@[i].upper_id@,
{
}

} // verus!
