//! Adding a live message to the cache: merging a repeated create into the
//! copy already cached, appending a new one, and trimming each channel to
//! its bound.
use vstd::prelude::*;

use crate::channel::clone_opt_string;
use crate::channel_state::{with_last_message, with_thread_message_counted};
use crate::id_map::IdMap;
use crate::ids::{ChannelMarker, GuildMarker, Id, MessageMarker};
use crate::message_cache::{cached, first_message_index, has_message};
use crate::message_info::MentionInfo;
use crate::message_state::MessageState;
use crate::state::{lookup, lookup2, DiscordState};

verus! {

/// A mention after merging: one carrying a guild nickname is taken as is;
/// otherwise the first mention already known for the user is kept, if any.
pub open spec fn merged_mention(existing: Seq<MentionInfo>, m: MentionInfo) -> MentionInfo {
    if m.guild_nick is Some {
        m
    } else {
        match first_mention_of(existing, m.user_id@) {
            Some(e) => e,
            None => m,
        }
    }
}

/// The first mention of a user in a list.
pub open spec fn first_mention_of(ms: Seq<MentionInfo>, user: u64) -> Option<MentionInfo>
    decreases ms.len(),
{
    if ms.len() == 0 {
        None
    } else {
        match first_mention_of(ms.drop_last(), user) {
            Some(m) => Some(m),
            None => if ms.last().user_id@ == user {
                Some(ms.last())
            } else {
                None
            },
        }
    }
}

/// The mentions after merging: none when the incoming message has none,
/// else each incoming mention merged with those known.
pub open spec fn merged_mentions(existing: Seq<MentionInfo>, incoming: Seq<MentionInfo>) -> Seq<MentionInfo> {
    incoming.map_values(|m: MentionInfo| merged_mention(existing, m))
}

fn clone_mention(m: &MentionInfo) -> (r: MentionInfo)
    ensures
        r == *m,
{
    MentionInfo { user_id: m.user_id, guild_nick: clone_opt_string(&m.guild_nick), display_name: m.display_name.clone() }
}

fn find_mention(ms: &Vec<MentionInfo>, user: u64) -> (r: Option<MentionInfo>)
    ensures
        r == first_mention_of(ms@, user),
{
    let n = ms.len();
    let mut i: usize = 0;
    while i < n
        invariant
            n == ms@.len(),
            i <= n,
            first_mention_of(ms@.subrange(0, i as int), user) is None,
        decreases n - i,
    {
        proof {
            let sub = ms@.subrange(0, i + 1);
            assert(sub.drop_last() =~= ms@.subrange(0, i as int));
        }
        if ms[i].user_id.get() == user {
            proof {
                lemma_first_mention_prefix(ms@, user, i + 1);
            }
            return Some(clone_mention(&ms[i]));
        }
        i = i + 1;
    }
    proof {
        assert(ms@.subrange(0, n as int) =~= ms@);
    }
    None
}

proof fn lemma_first_mention_prefix(ms: Seq<MentionInfo>, user: u64, k: int)
    requires
        0 <= k <= ms.len(),
        first_mention_of(ms.subrange(0, k), user) is Some,
    ensures
        first_mention_of(ms, user) == first_mention_of(ms.subrange(0, k), user),
    decreases ms.len() - k,
{
    if k < ms.len() {
        let sub = ms.subrange(0, k + 1);
        assert(sub.drop_last() =~= ms.subrange(0, k));
        lemma_first_mention_prefix(ms, user, k + 1);
    } else {
        assert(ms.subrange(0, k) =~= ms);
    }
}

/// Merges incoming mentions with those already known.
pub fn merge_message_mentions(existing: &Vec<MentionInfo>, incoming: &Vec<MentionInfo>) -> (r: Vec<MentionInfo>)
    ensures
        r@ == merged_mentions(existing@, incoming@),
{
    let mut out: Vec<MentionInfo> = Vec::new();
    let n = incoming.len();
    let mut i: usize = 0;
    while i < n
        invariant
            n == incoming@.len(),
            i <= n,
            out@.len() == i,
            forall|j: int| 0 <= j < i ==> #[trigger] out@[j] == merged_mention(existing@, incoming@[j]),
        decreases n - i,
    {
        let m = &incoming[i];
        let merged = if m.guild_nick.is_some() {
            clone_mention(m)
        } else {
            match find_mention(existing, m.user_id.get()) {
                Some(e) => e,
                None => clone_mention(m),
            }
        };
        out.push(merged);
        i = i + 1;
    }
    proof {
        assert(out@ =~= merged_mentions(existing@, incoming@));
    }
    out
}

/// A repeated create merged into the cached copy: identity, author, kind,
/// reactions, flags and mention data follow the new copy; the guild, avatar,
/// reply, poll, reference and attachments only when the new copy has them
/// (or the cached one lacked them); content when the new copy carries it;
/// mentions merged; a pin is kept; everything else stays.
pub open spec fn merged_duplicate(existing: MessageState, incoming: MessageState, r: MessageState) -> bool {
    &&& r.id == existing.id
    &&& r.guild_id == (if incoming.guild_id is Some {
        incoming.guild_id
    } else {
        existing.guild_id
    })
    &&& r.channel_id == incoming.channel_id
    &&& r.author_id == incoming.author_id
    &&& r.author == incoming.author
    &&& r.author_avatar_url == (if incoming.author_avatar_url is Some || existing.author_avatar_url is None {
        incoming.author_avatar_url
    } else {
        existing.author_avatar_url
    })
    &&& r.author_is_bot == existing.author_is_bot
    &&& r.message_kind == incoming.message_kind
    &&& r.interaction == existing.interaction
    &&& r.reference == (if incoming.reference is Some || existing.reference is None {
        incoming.reference
    } else {
        existing.reference
    })
    &&& r.reply == (if incoming.reply is Some || existing.reply is None {
        incoming.reply
    } else {
        existing.reply
    })
    &&& r.poll == (if incoming.poll is Some || existing.poll is None {
        incoming.poll
    } else {
        existing.poll
    })
    &&& r.pinned == (existing.pinned || incoming.pinned)
    &&& r.reactions == incoming.reactions
    &&& r.content == (if incoming.content is Some {
        incoming.content
    } else {
        existing.content
    })
    &&& r.sticker_names == existing.sticker_names
    &&& r.mentions@ == (if incoming.mentions@.len() > 0 || existing.mentions@.len() == 0 {
        merged_mentions(existing.mentions@, incoming.mentions@)
    } else {
        existing.mentions@
    })
    &&& r.mention_everyone == incoming.mention_everyone
    &&& r.mention_roles == incoming.mention_roles
    &&& r.flags == incoming.flags
    &&& r.attachments == (if incoming.attachments@.len() > 0 || existing.attachments@.len() == 0 {
        incoming.attachments
    } else {
        existing.attachments
    })
    &&& r.embeds == existing.embeds
    &&& r.forwarded_snapshots == (if incoming.forwarded_snapshots@.len() > 0 || existing.forwarded_snapshots@.len() == 0 {
        incoming.forwarded_snapshots
    } else {
        existing.forwarded_snapshots
    })
    &&& r.edited_timestamp == existing.edited_timestamp
}

/// Merges a repeated create of a cached message into the cached copy.
pub fn merge_duplicate_message_create(existing: MessageState, incoming: MessageState) -> (r: MessageState)
    ensures
        merged_duplicate(existing, incoming, r),
{
    let mentions = if incoming.mentions.len() > 0 || existing.mentions.len() == 0 {
        merge_message_mentions(&existing.mentions, &incoming.mentions)
    } else {
        existing.mentions
    };
    let MessageState {
        id: _,
        guild_id,
        channel_id,
        author_id,
        author,
        author_avatar_url,
        author_is_bot: _,
        message_kind,
        interaction: _,
        reference,
        reply,
        poll,
        pinned,
        reactions,
        content,
        sticker_names: _,
        mentions: _,
        mention_everyone,
        mention_roles,
        flags,
        attachments,
        embeds: _,
        forwarded_snapshots,
        edited_timestamp: _,
    } = incoming;
    MessageState {
        id: existing.id,
        guild_id: if guild_id.is_some() {
            guild_id
        } else {
            existing.guild_id
        },
        channel_id,
        author_id,
        author,
        author_avatar_url: if author_avatar_url.is_some() || existing.author_avatar_url.is_none() {
            author_avatar_url
        } else {
            existing.author_avatar_url
        },
        author_is_bot: existing.author_is_bot,
        message_kind,
        interaction: existing.interaction,
        reference: if reference.is_some() || existing.reference.is_none() {
            reference
        } else {
            existing.reference
        },
        reply: if reply.is_some() || existing.reply.is_none() {
            reply
        } else {
            existing.reply
        },
        poll: if poll.is_some() || existing.poll.is_none() {
            poll
        } else {
            existing.poll
        },
        pinned: existing.pinned || pinned,
        reactions,
        content: if content.is_some() {
            content
        } else {
            existing.content
        },
        sticker_names: existing.sticker_names,
        mentions,
        mention_everyone,
        mention_roles,
        flags,
        attachments: if attachments.len() > 0 || existing.attachments.len() == 0 {
            attachments
        } else {
            existing.attachments
        },
        embeds: existing.embeds,
        forwarded_snapshots: if forwarded_snapshots.len() > 0 || existing.forwarded_snapshots.len() == 0 {
            forwarded_snapshots
        } else {
            existing.forwarded_snapshots
        },
        edited_timestamp: existing.edited_timestamp,
    }
}

/// How many of the oldest messages a list of `len` messages drops to fit
/// `max`.
pub open spec fn overflow(len: int, max: int) -> int {
    if len > max {
        len - max
    } else {
        0
    }
}

/// A channel's list after a live message: a repeated create is merged into
/// the first cached copy, a new message is appended, and then the oldest
/// messages beyond the bound are dropped.
pub open spec fn upserted_list(old: Seq<MessageState>, incoming: MessageState, max: int, new: Seq<MessageState>) -> bool {
    let i = first_message_index(old, incoming.id@);
    let total = if i >= 0 {
        old.len() as int
    } else {
        old.len() + 1int
    };
    let drop = overflow(total, max);
    &&& new.len() == total - drop
    &&& forall|j: int| 0 <= j < new.len() ==> {
        let src = j + drop;
        if i >= 0 && src == i {
            merged_duplicate(old[i], incoming, #[trigger] new[j])
        } else if i < 0 && src == old.len() {
            new[j] == incoming
        } else {
            new[j] == old[src]
        }
    }
}

/// The ids of the messages dropped to fit the bound.
pub open spec fn evicted_ids(old: Seq<MessageState>, incoming: MessageState, max: int) -> Set<u64> {
    let i = first_message_index(old, incoming.id@);
    let total = if i >= 0 {
        old.len() as int
    } else {
        old.len() + 1int
    };
    let drop = overflow(total, max);
    Set::new(|m: u64| exists|j: int| 0 <= j < drop && (if j == old.len() { incoming.id@ } else { (#[trigger] old[j]).id@ }) == m)
}

/// A channel never holds more cached messages than the bound after a live
/// message arrives; a new message, when the bound admits any, is the last
/// one; and a repeated create never adds a copy.
pub proof fn lemma_upsert_respects_bound(old: Seq<MessageState>, incoming: MessageState, max: int, new: Seq<MessageState>)
    requires
        max >= 0,
        upserted_list(old, incoming, max, new),
    ensures
        new.len() <= max,
        max >= 1 && first_message_index(old, incoming.id@) < 0 ==> new.len() > 0 && new.last() == incoming,
        first_message_index(old, incoming.id@) >= 0 ==> new.len() <= old.len(),
{
    let i = first_message_index(old, incoming.id@);
    let total = if i >= 0 {
        old.len() as int
    } else {
        old.len() + 1int
    };
    let drop = overflow(total, max);
    if max >= 1 && i < 0 {
        assert(new.len() > 0);
        let j = new.len() - 1;
        assert(j + drop == old.len());
    }
}

fn trim_front(msgs: Vec<MessageState>, max: usize) -> (r: (Vec<MessageState>, Vec<Id<MessageMarker>>))
    ensures
        r.0@ == msgs@.subrange(overflow(msgs@.len() as int, max as int), msgs@.len() as int),
        r.1@.len() == overflow(msgs@.len() as int, max as int),
        forall|j: int| 0 <= j < r.1@.len() ==> (#[trigger] r.1@[j]) == msgs@[j].id,
{
    let n = msgs.len();
    if n <= max {
        proof {
            assert(msgs@.subrange(0, n as int) =~= msgs@);
        }
        return (msgs, Vec::new());
    }
    let drop = n - max;
    let mut kept: Vec<MessageState> = Vec::new();
    let mut evicted: Vec<Id<MessageMarker>> = Vec::new();
    let ghost all = msgs@;
    let mut rest = msgs;
    let mut reversed: Vec<MessageState> = Vec::new();
    while rest.len() > 0
        invariant
            all == rest@ + reversed@.reverse(),
        decreases rest.len(),
    {
        let last = rest.pop().unwrap();
        proof {
            assert(reversed@.push(last).reverse() =~= seq![last] + reversed@.reverse());
        }
        reversed.push(last);
        proof {
            assert(all =~= rest@ + reversed@.reverse());
        }
    }
    proof {
        assert(all =~= reversed@.reverse());
    }
    let mut k: usize = 0;
    while reversed.len() > 0
        invariant
            all.len() == n,
            drop == n - max,
            drop <= n,
            k + reversed@.len() == n,
            all == all.subrange(0, k as int) + reversed@.reverse(),
            evicted@.len() == if k < drop { k as int } else { drop as int },
            forall|j: int| 0 <= j < evicted@.len() ==> (#[trigger] evicted@[j]) == all[j].id,
            kept@ == all.subrange(if k < drop { k as int } else { drop as int }, k as int),
        decreases reversed.len(),
    {
        let next = reversed.pop().unwrap();
        proof {
            assert(reversed@.push(next).reverse() =~= seq![next] + reversed@.reverse());
            assert(all[k as int] == next);
        }
        if k < drop {
            evicted.push(next.id);
        } else {
            kept.push(next);
        }
        k = k + 1;
        proof {
            assert(all =~= all.subrange(0, k as int) + reversed@.reverse());
            assert(kept@ =~= all.subrange(if k < drop { k as int } else { drop as int }, k as int));
        }
    }
    (kept, evicted)
}

impl DiscordState {
    /// Forgets the author role ids of a message no longer cached in its
    /// channel nor pinned there.
    pub fn prune_message_author_role_ids_if_unreferenced(&mut self, channel_id: Id<ChannelMarker>, message_id: Id<MessageMarker>)
        ensures
            old(self).well_formed() ==> final(self).well_formed(),
            forall|c: u64, m: u64| #[trigger] lookup2(final(self).message_author_role_ids@, c, m) == if c == channel_id@
                && m == message_id@ && !has_message(cached(old(self).messages@, channel_id@), message_id@) && !has_message(
                cached(old(self).pinned_messages@, channel_id@),
                message_id@,
            ) {
                None
            } else {
                lookup2(old(self).message_author_role_ids@, c, m)
            },
            final(self).messages@ == old(self).messages@,
            final(self).pinned_messages@ == old(self).pinned_messages@,
            final(self).channels@ == old(self).channels@,
            final(self).max_messages_per_channel == old(self).max_messages_per_channel,
    {
        let still_cached = self.cached_message_id_exists(channel_id, message_id) || self.pinned_message_known(
            channel_id,
            message_id,
        );
        if !still_cached {
            if let Some(mut inner) = self.message_author_role_ids.remove(channel_id.get()) {
                inner.remove(message_id.get());
                self.message_author_role_ids.insert(channel_id.get(), inner);
            }
        }
    }

    /// Caches a live message (see `upserted_list`), filling in its guild from
    /// its channel when it lacks one. The channel's last message id follows
    /// it, a new message counts in its thread, and the author role ids of
    /// messages dropped from the cache (and not pinned) are forgotten.
    pub fn upsert_message(&mut self, message: MessageState)
        ensures
            old(self).well_formed() ==> final(self).well_formed(),
            ({
                let incoming = MessageState {
                    guild_id: if message.guild_id is Some {
                        message.guild_id
                    } else {
                        old(self).channel_guild_spec(message.channel_id@)
                    },
                    ..message
                };
                let ch = message.channel_id@;
                let before = cached(old(self).messages@, ch);
                let inserted = first_message_index(before, message.id@) < 0;
                &&& final(self).messages@.dom() == old(self).messages@.dom().insert(ch)
                &&& forall|k: u64| k != ch ==> #[trigger] lookup(final(self).messages@, k) == lookup(old(self).messages@, k)
                &&& upserted_list(before, incoming, old(self).max_messages_per_channel as int, final(self).messages@[ch]@)
                &&& final(self).channels@.dom() == old(self).channels@.dom()
                &&& forall|k: u64| k != ch ==> #[trigger] lookup(final(self).channels@, k) == lookup(old(self).channels@, k)
                &&& old(self).channels@.dom().contains(ch) ==> final(self).channels@[ch] == if inserted {
                    with_thread_message_counted(with_last_message(old(self).channels@[ch], message.id))
                } else {
                    with_last_message(old(self).channels@[ch], message.id)
                }
                &&& forall|c: u64, m: u64| #[trigger] lookup2(final(self).message_author_role_ids@, c, m) == if c == ch
                    && evicted_ids(before, incoming, old(self).max_messages_per_channel as int).contains(m) && !has_message(
                    final(self).messages@[ch]@,
                    m,
                ) && !has_message(cached(old(self).pinned_messages@, ch), m) {
                    None
                } else {
                    lookup2(old(self).message_author_role_ids@, c, m)
                }
            }),
            final(self).pinned_messages@ == old(self).pinned_messages@,
            final(self).max_messages_per_channel == old(self).max_messages_per_channel,
    {
        let channel_id = message.channel_id;
        let message_id = message.id;
        let channel_guild = self.channel_guild_id(channel_id);
        let mut message = message;
        if message.guild_id.is_none() {
            message.guild_id = channel_guild;
        }
        let ghost incoming = message;
        let mut list = match self.messages.remove(channel_id.get()) {
            Some(v) => v,
            None => Vec::new(),
        };
        let ghost before = list@;
        proof {
            assert(before == cached(old(self).messages@, channel_id@));
            assert(incoming.id@ == message_id@);
        }
        let mut inserted = false;
        match crate::message_cache::find_message_index(&list, message_id) {
            Some(i) => {
                let existing = list.remove(i);
                let merged = merge_duplicate_message_create(existing, message);
                list.insert(i, merged);
                proof {
                    assert(list@.len() == before.len());
                    assert forall|j: int| 0 <= j < before.len() && j != i implies list@[j] == before[j] by {}
                    assert(merged_duplicate(before[i as int], incoming, list@[i as int]));
                }
            },
            None => {
                list.push(message);
                inserted = true;
                proof {
                    assert(list@ == before.push(incoming));
                }
            },
        }
        let ghost combined = list@;
        let (kept, evicted) = trim_front(list, self.max_messages_per_channel);
        proof {
            let i = first_message_index(before, message_id@);
            let drop = overflow(combined.len() as int, self.max_messages_per_channel as int);
            assert forall|j: int| 0 <= j < kept@.len() implies {
                let src = j + drop;
                if i >= 0 && src == i {
                    merged_duplicate(before[i], incoming, #[trigger] kept@[j])
                } else if i < 0 && src == before.len() {
                    kept@[j] == incoming
                } else {
                    kept@[j] == before[src]
                }
            } by {
                assert(kept@[j] == combined[j + drop]);
                if i >= 0 {
                    if j + drop != i {
                        assert(combined[j + drop] == before[j + drop]);
                    }
                } else {
                    if j + drop < before.len() {
                        assert(combined[j + drop] == before[j + drop]);
                    }
                }
            }
            assert(upserted_list(before, incoming, self.max_messages_per_channel as int, kept@));
            assert forall|j: int| 0 <= j < evicted@.len() implies (#[trigger] evicted@[j])@ == (if j == before.len() {
                incoming.id@
            } else {
                before[j].id@
            }) by {
                assert(evicted@[j] == combined[j].id);
                if i >= 0 {
                    if j == i {
                        assert(combined[j].id == before[j].id);
                    } else {
                        assert(combined[j] == before[j]);
                    }
                } else if j < before.len() {
                    assert(combined[j] == before[j]);
                }
            }
            assert forall|m: u64| (exists|j: int| 0 <= j < evicted@.len() && (#[trigger] evicted@[j])@ == m) <==> evicted_ids(
                before,
                incoming,
                self.max_messages_per_channel as int,
            ).contains(m) by {
                if exists|j: int| 0 <= j < evicted@.len() && (#[trigger] evicted@[j])@ == m {
                    let j = choose|j: int| 0 <= j < evicted@.len() && (#[trigger] evicted@[j])@ == m;
                    assert((if j == before.len() { incoming.id@ } else { (before[j]).id@ }) == m);
                }
                if evicted_ids(before, incoming, self.max_messages_per_channel as int).contains(m) {
                    let j = choose|j: int| 0 <= j < drop && (if j == before.len() { incoming.id@ } else { (#[trigger] before[j]).id@ }) == m;
                    assert(evicted@[j]@ == m);
                }
            }
        }
        let ghost kept_view = kept@;
        self.messages.insert(channel_id.get(), kept);
        proof {
            assert(self.messages@.dom() =~= old(self).messages@.dom().insert(channel_id@));
            assert(self.messages@ =~= old(self).messages@.insert(channel_id@, self.messages@[channel_id@]));
        }
        let n = evicted.len();
        let mut e: usize = 0;
        while e < n
            invariant
                n == evicted@.len(),
                e <= n,
                self.messages@ == old(self).messages@.insert(channel_id@, self.messages@[channel_id@]),
                self.messages@.dom().contains(channel_id@),
                self.messages@[channel_id@]@ == kept_view,
                upserted_list(before, incoming, old(self).max_messages_per_channel as int, kept_view),
                self.pinned_messages@ == old(self).pinned_messages@,
                self.channels@ == old(self).channels@,
                self.max_messages_per_channel == old(self).max_messages_per_channel,
                old(self).well_formed() ==> self.well_formed(),
                forall|c: u64, m: u64| #[trigger] lookup2(self.message_author_role_ids@, c, m) == if c == channel_id@
                    && (exists|j: int| 0 <= j < e && (#[trigger] evicted@[j])@ == m) && !has_message(self.messages@[channel_id@]@, m)
                    && !has_message(cached(old(self).pinned_messages@, channel_id@), m) {
                    None
                } else {
                    lookup2(old(self).message_author_role_ids@, c, m)
                },
            decreases n - e,
        {
            self.prune_message_author_role_ids_if_unreferenced(channel_id, evicted[e]);
            e = e + 1;
        }
        self.record_channel_message_id(channel_id, message_id);
        if inserted {
            self.increment_thread_message_counts(channel_id);
        }
    }
}

} // verus!
