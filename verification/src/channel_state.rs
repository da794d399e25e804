//! Channels in the client state: listing a guild's channels, merging a
//! channel payload into what is known, and keeping private channels' names
//! and recipients current.
use vstd::prelude::*;

use crate::channel::{
    clone_opt_string, is_thread_kind, is_thread_kind_spec, join_names, joined_recipient_display_names,
    name_follows_recipients_spec, private_channel_name_follows_recipients, recipient_display_names,
    recipient_names, recipient_status_spec, refresh_private_channel_name_from_recipients, string_views, ChannelInfo,
    ChannelRecipientInfo, ChannelRecipientState, ChannelState, PermissionOverwriteInfo, ThreadMetadataInfo,
};
use crate::id_map::{lists_keys_once, IdMap};
use crate::message_info::{opt_str_view, opt_string_view};
use crate::ids::{opt_id_max, opt_id_max_spec, ChannelMarker, GuildMarker, Id, MessageMarker, UserMarker};
use crate::presence::PresenceStatus;
use crate::reactions::sat_inc;
use crate::state::{lookup, DiscordState};

verus! {

/// The status the first cached recipient with the user id had.
pub open spec fn previous_recipient_status(rs: Seq<ChannelRecipientState>, user: u64) -> Option<PresenceStatus>
    decreases rs.len(),
{
    if rs.len() == 0 {
        None
    } else {
        match previous_recipient_status(rs.drop_last(), user) {
            Some(s) => Some(s),
            None => if rs.last().user_id@ == user {
                Some(rs.last().status)
            } else {
                None
            },
        }
    }
}

/// A recipient's cached state from a payload.
pub open spec fn recipient_state_spec(
    r: ChannelRecipientInfo,
    previous: Option<PresenceStatus>,
    known: Option<PresenceStatus>,
) -> ChannelRecipientState {
    ChannelRecipientState {
        user_id: r.user_id,
        display_name: r.display_name,
        username: r.username,
        is_bot: r.is_bot,
        avatar_url: r.avatar_url,
        status: recipient_status_spec(r.status, previous, known),
    }
}

/// The recipients a channel is stored with: those of the payload (keeping
/// a status already known), else those already cached, else none.
pub open spec fn merged_recipients(
    incoming: Option<Vec<ChannelRecipientInfo>>,
    existing: Option<ChannelState>,
    presences: Map<u64, PresenceStatus>,
) -> Seq<ChannelRecipientState> {
    match incoming {
        Some(rs) => Seq::new(
            rs@.len(),
            |i: int| recipient_state_spec(
                rs@[i],
                match existing {
                    Some(e) => previous_recipient_status(e.recipients@, rs@[i].user_id@),
                    None => None,
                },
                lookup(presences, rs@[i].user_id@),
            ),
        ),
        None => match existing {
            Some(e) => e.recipients@,
            None => Seq::empty(),
        },
    }
}

pub open spec fn info_recipient_names(incoming: Option<Vec<ChannelRecipientInfo>>) -> Seq<Seq<char>> {
    match incoming {
        Some(rs) => rs@.map_values(|r: ChannelRecipientInfo| r.display_name@),
        None => Seq::empty(),
    }
}

/// The name a channel is stored with: a private channel with recipients
/// whose name followed them (in the payload, or as cached) is named after
/// them; any other keeps the payload's name.
pub open spec fn merged_channel_name(channel: ChannelInfo, existing: Option<ChannelState>, recipients: Seq<ChannelRecipientState>) -> Seq<char> {
    let existing_follows = match existing {
        Some(e) => name_follows_recipients_spec(e.kind@, e.name@, e.id@, recipient_names(e.recipients@)),
        None => false,
    };
    if channel.guild_id is None && recipients.len() > 0 && (name_follows_recipients_spec(
        channel.kind@,
        channel.name@,
        channel.channel_id@,
        info_recipient_names(channel.recipients),
    ) || existing_follows) {
        join_names(recipient_names(recipients))
    } else {
        channel.name@
    }
}

/// A channel payload merged into what was cached: the newest of the two
/// last-message ids, the merged recipients and name, and, for a thread, the
/// cached permission overwrites (threads take their parent's); everything
/// else as the payload says.
pub open spec fn merged_channel(
    channel: ChannelInfo,
    existing: Option<ChannelState>,
    presences: Map<u64, PresenceStatus>,
    stored: ChannelState,
) -> bool {
    let recipients = merged_recipients(channel.recipients, existing, presences);
    &&& stored.id == channel.channel_id
    &&& stored.guild_id == channel.guild_id
    &&& stored.parent_id == channel.parent_id
    &&& stored.owner_id == channel.owner_id
    &&& stored.position == channel.position
    &&& stored.last_message_id == opt_id_max_spec(
        match existing {
            Some(e) => e.last_message_id,
            None => None,
        },
        channel.last_message_id,
    )
    &&& stored.name@ == merged_channel_name(channel, existing, recipients)
    &&& stored.kind == channel.kind
    &&& stored.message_count == channel.message_count
    &&& stored.member_count == channel.member_count
    &&& stored.total_message_sent == channel.total_message_sent
    &&& stored.thread_metadata == channel.thread_metadata
    &&& stored.flags == channel.flags
    &&& stored.recipients@ == recipients
    &&& stored.permission_overwrites@ == if is_thread_kind_spec(channel.kind@) {
        match existing {
            Some(e) => e.permission_overwrites@,
            None => Seq::empty(),
        }
    } else {
        channel.permission_overwrites@
    }
}

fn clone_recipient(r: &ChannelRecipientState) -> (c: ChannelRecipientState)
    ensures
        c == *r,
{
    ChannelRecipientState {
        user_id: r.user_id,
        display_name: r.display_name.clone(),
        username: clone_opt_string(&r.username),
        is_bot: r.is_bot,
        avatar_url: clone_opt_string(&r.avatar_url),
        status: r.status,
    }
}

fn clone_recipients(rs: &Vec<ChannelRecipientState>) -> (c: Vec<ChannelRecipientState>)
    ensures
        c@ == rs@,
{
    let mut out: Vec<ChannelRecipientState> = Vec::new();
    let n = rs.len();
    let mut i: usize = 0;
    while i < n
        invariant
            n == rs@.len(),
            i <= n,
            out@ == rs@.subrange(0, i as int),
        decreases n - i,
    {
        out.push(clone_recipient(&rs[i]));
        proof {
            assert(out@ =~= rs@.subrange(0, i + 1));
        }
        i = i + 1;
    }
    proof {
        assert(rs@.subrange(0, n as int) =~= rs@);
    }
    out
}

fn clone_overwrites(os: &Vec<PermissionOverwriteInfo>) -> (c: Vec<PermissionOverwriteInfo>)
    ensures
        c@ == os@,
{
    let mut out: Vec<PermissionOverwriteInfo> = Vec::new();
    let n = os.len();
    let mut i: usize = 0;
    while i < n
        invariant
            n == os@.len(),
            i <= n,
            out@ == os@.subrange(0, i as int),
        decreases n - i,
    {
        out.push(os[i]);
        proof {
            assert(out@ =~= os@.subrange(0, i + 1));
        }
        i = i + 1;
    }
    proof {
        assert(os@.subrange(0, n as int) =~= os@);
    }
    out
}

fn find_previous_status(rs: &Vec<ChannelRecipientState>, user: Id<UserMarker>) -> (r: Option<PresenceStatus>)
    ensures
        r == previous_recipient_status(rs@, user@),
{
    let n = rs.len();
    let mut i: usize = 0;
    while i < n
        invariant
            n == rs@.len(),
            i <= n,
            previous_recipient_status(rs@.subrange(0, i as int), user@) is None,
        decreases n - i,
    {
        proof {
            let sub = rs@.subrange(0, i + 1);
            assert(sub.drop_last() =~= rs@.subrange(0, i as int));
        }
        if rs[i].user_id.get() == user.get() {
            proof {
                lemma_previous_status_prefix(rs@, user@, i + 1);
            }
            return Some(rs[i].status);
        }
        i = i + 1;
    }
    proof {
        assert(rs@.subrange(0, n as int) =~= rs@);
    }
    None
}

proof fn lemma_previous_status_prefix(rs: Seq<ChannelRecipientState>, user: u64, k: int)
    requires
        0 <= k <= rs.len(),
        previous_recipient_status(rs.subrange(0, k), user) is Some,
    ensures
        previous_recipient_status(rs, user) == previous_recipient_status(rs.subrange(0, k), user),
    decreases rs.len() - k,
{
    if k < rs.len() {
        let sub = rs.subrange(0, k + 1);
        assert(sub.drop_last() =~= rs.subrange(0, k));
        lemma_previous_status_prefix(rs, user, k + 1);
    } else {
        assert(rs.subrange(0, k) =~= rs);
    }
}

fn info_display_names(rs: &Vec<ChannelRecipientInfo>) -> (r: Vec<String>)
    ensures
        string_views(r@) == rs@.map_values(|x: ChannelRecipientInfo| x.display_name@),
{
    let mut out: Vec<String> = Vec::new();
    let n = rs.len();
    let mut i: usize = 0;
    while i < n
        invariant
            n == rs@.len(),
            i <= n,
            out@.len() == i,
            forall|j: int| 0 <= j < i ==> (#[trigger] out@[j])@ == rs@[j].display_name@,
        decreases n - i,
    {
        out.push(rs[i].display_name.clone());
        i = i + 1;
    }
    proof {
        assert(string_views(out@) =~= rs@.map_values(|x: ChannelRecipientInfo| x.display_name@));
    }
    out
}

/// Whether a key occurs among the first `i` of a list.
pub open spec fn in_prefix(keys: Seq<u64>, i: int, k: u64) -> bool {
    exists|j: int| 0 <= j < i && #[trigger] keys[j] == k
}

/// A channel after a message id was recorded: its last message id is the
/// newer of the two.
pub open spec fn with_last_message(c: ChannelState, message_id: Id<MessageMarker>) -> ChannelState {
    ChannelState { last_message_id: opt_id_max_spec(c.last_message_id, Some(message_id)), ..c }
}

/// A channel after a new message: a thread's known counts grow by one
/// (saturating); other channels are unchanged.
pub open spec fn with_thread_message_counted(c: ChannelState) -> ChannelState {
    if is_thread_kind_spec(c.kind@) {
        ChannelState {
            message_count: match c.message_count {
                Some(n) => Some(sat_inc(n)),
                None => None,
            },
            total_message_sent: match c.total_message_sent {
                Some(n) => Some(sat_inc(n)),
                None => None,
            },
            ..c
        }
    } else {
        c
    }
}

/// A recipient entry after a user's status changed.
pub open spec fn with_status(r: ChannelRecipientState, user: u64, status: PresenceStatus) -> ChannelRecipientState {
    if r.user_id@ == user {
        ChannelRecipientState { status, ..r }
    } else {
        r
    }
}

/// Two channel states that differ at most in their recipients.
pub open spec fn same_but_recipients(before: ChannelState, after: ChannelState) -> bool {
    after == ChannelState { recipients: after.recipients, ..before }
}

/// A channel after a user's status changed: every recipient entry of theirs
/// carries the status, nothing else changed.
pub open spec fn presence_updated(before: ChannelState, after: ChannelState, user: u64, status: PresenceStatus) -> bool {
    &&& same_but_recipients(before, after)
    &&& after.recipients@.len() == before.recipients@.len()
    &&& forall|j: int| 0 <= j < before.recipients@.len() ==> #[trigger] after.recipients@[j] == with_status(
        before.recipients@[j],
        user,
        status,
    )
}

/// The channels whose guild is the given one (`None`: private channels),
/// in increasing id order.
pub open spec fn channels_in_scope(channels: Seq<ChannelState>, guild_id: Option<Id<GuildMarker>>) -> Seq<ChannelState>
    decreases channels.len(),
{
    if channels.len() == 0 {
        Seq::empty()
    } else if channels.last().guild_id == guild_id {
        channels_in_scope(channels.drop_last(), guild_id).push(channels.last())
    } else {
        channels_in_scope(channels.drop_last(), guild_id)
    }
}

impl DiscordState {
    /// The cached channels in increasing id order.
    pub open spec fn channel_values(&self) -> Seq<ChannelState> {
        self.channels.key_seq().map_values(|k: u64| self.channels@[k])
    }

    /// The channels of a guild (`None`: the private channels), by increasing
    /// id.
    pub fn channels_for_guild(&self, guild_id: Option<Id<GuildMarker>>) -> (r: Vec<&ChannelState>)
        ensures
            r@.len() == channels_in_scope(self.channel_values(), guild_id).len(),
            forall|i: int| 0 <= i < r@.len() ==> *(#[trigger] r@[i]) == channels_in_scope(self.channel_values(), guild_id)[i],
            lists_keys_once(self.channels@, self.channels.key_seq()),
    {
        let all = self.channels.values();
        let ghost values = self.channel_values();
        let mut out: Vec<&ChannelState> = Vec::new();
        let n = all.len();
        let mut i: usize = 0;
        while i < n
            invariant
                n == all@.len(),
                values == self.channel_values(),
                values.len() == n,
                forall|j: int| 0 <= j < n ==> *(#[trigger] all@[j]) == values[j],
                i <= n,
                out@.len() == channels_in_scope(values.subrange(0, i as int), guild_id).len(),
                forall|j: int| 0 <= j < out@.len() ==> *(#[trigger] out@[j]) == channels_in_scope(
                    values.subrange(0, i as int),
                    guild_id,
                )[j],
            decreases n - i,
        {
            let c: &ChannelState = all[i];
            proof {
                let sub = values.subrange(0, i + 1);
                assert(sub.drop_last() =~= values.subrange(0, i as int));
                assert(sub.last() == *c);
            }
            let same = match (c.guild_id, guild_id) {
                (Some(a), Some(b)) => a.get() == b.get(),
                (None, None) => true,
                _ => false,
            };
            proof {
                if same {
                    if c.guild_id is Some {
                        Id::<GuildMarker>::lemma_view_injective(c.guild_id->0, guild_id->0);
                    }
                }
            }
            if same {
                out.push(c);
            }
            i = i + 1;
        }
        proof {
            assert(values.subrange(0, n as int) =~= values);
        }
        out
    }

    /// Merges a channel payload into the cache (see `merged_channel`).
    pub fn upsert_channel(&mut self, channel: ChannelInfo)
        ensures
            old(self).well_formed() ==> final(self).well_formed(),
            final(self).channels@.dom() == old(self).channels@.dom().insert(channel.channel_id@),
            forall|k: u64| k != channel.channel_id@ ==> #[trigger] lookup(final(self).channels@, k) == lookup(
                old(self).channels@,
                k,
            ),
            merged_channel(
                channel,
                lookup(old(self).channels@, channel.channel_id@),
                old(self).user_presences@,
                final(self).channels@[channel.channel_id@],
            ),
    {
        let channel_id = channel.channel_id;
        let existing = self.channels.get(channel_id.get());
        let ghost existing_spec = lookup(self.channels@, channel_id@);
        let last_message_id = opt_id_max(
            match existing {
                Some(e) => e.last_message_id,
                None => None,
            },
            channel.last_message_id,
        );
        let recipients: Vec<ChannelRecipientState> = match &channel.recipients {
            Some(rs) => {
                let mut out: Vec<ChannelRecipientState> = Vec::new();
                let n = rs.len();
                let mut i: usize = 0;
                while i < n
                    invariant
                        n == rs@.len(),
                        i <= n,
                        existing_spec == lookup(self.channels@, channel_id@),
                        match existing {
                            Some(e) => existing_spec == Some(*e),
                            None => existing_spec is None,
                        },
                        out@.len() == i,
                        forall|j: int| 0 <= j < i ==> #[trigger] out@[j] == recipient_state_spec(
                            rs@[j],
                            match existing_spec {
                                Some(e) => previous_recipient_status(e.recipients@, rs@[j].user_id@),
                                None => None,
                            },
                            lookup(self.user_presences@, rs@[j].user_id@),
                        ),
                    decreases n - i,
                {
                    let r = &rs[i];
                    let previous = match existing {
                        Some(e) => find_previous_status(&e.recipients, r.user_id),
                        None => None,
                    };
                    let known = match self.user_presences.get(r.user_id.get()) {
                        Some(s) => Some(*s),
                        None => None,
                    };
                    let state = ChannelRecipientState::from_info(r, previous, known, r.display_name.clone());
                    out.push(state);
                    i = i + 1;
                }
                proof {
                    assert(out@ =~= merged_recipients(channel.recipients, existing_spec, self.user_presences@));
                }
                out
            },
            None => match existing {
                Some(e) => clone_recipients(&e.recipients),
                None => Vec::new(),
            },
        };
        let ghost recipients_spec = merged_recipients(channel.recipients, existing_spec, self.user_presences@);
        proof {
            assert(recipients@ =~= recipients_spec);
        }
        let incoming_names: Vec<String> = match &channel.recipients {
            Some(rs) => info_display_names(rs),
            None => Vec::new(),
        };
        proof {
            assert(string_views(incoming_names@) =~= info_recipient_names(channel.recipients));
        }
        let existing_follows = match existing {
            Some(e) => {
                let names = recipient_display_names(&e.recipients);
                private_channel_name_follows_recipients(e.kind.as_str(), e.name.as_str(), e.id, &names)
            },
            None => false,
        };
        let renamed = channel.guild_id.is_none() && recipients.len() > 0 && (private_channel_name_follows_recipients(
            channel.kind.as_str(),
            channel.name.as_str(),
            channel_id,
            &incoming_names,
        ) || existing_follows);
        let permission_overwrites = if is_thread_kind(channel.kind.as_str()) {
            match existing {
                Some(e) => clone_overwrites(&e.permission_overwrites),
                None => Vec::new(),
            }
        } else {
            clone_overwrites(&channel.permission_overwrites)
        };
        let ghost given = channel;
        let ChannelInfo {
            guild_id,
            channel_id: _,
            parent_id,
            owner_id,
            position,
            last_message_id: _,
            name,
            kind,
            message_count,
            member_count,
            total_message_sent,
            thread_metadata,
            flags,
            recipients: _,
            permission_overwrites: _,
        } = channel;
        let name = if renamed {
            joined_recipient_display_names(&recipients)
        } else {
            name
        };
        let state = ChannelState {
            id: channel_id,
            guild_id,
            parent_id,
            owner_id,
            position,
            last_message_id,
            name,
            kind,
            message_count,
            member_count,
            total_message_sent,
            thread_metadata,
            flags,
            recipients,
            permission_overwrites,
        };
        proof {
            assert(merged_channel(given, existing_spec, self.user_presences@, state));
        }
        self.channels.insert(channel_id.get(), state);
        proof {
            assert(self.channels@.dom() =~= old(self).channels@.dom().insert(channel_id@));
        }
    }

    /// Raises a known channel's last message id to `message_id` if it is
    /// newer.
    pub fn record_channel_message_id(&mut self, channel_id: Id<ChannelMarker>, message_id: Id<MessageMarker>)
        ensures
            old(self).well_formed() ==> final(self).well_formed(),
            final(self).only_channels_changed(*old(self)),
            final(self).channels@.dom() == old(self).channels@.dom(),
            forall|k: u64| k != channel_id@ ==> #[trigger] lookup(final(self).channels@, k) == lookup(old(self).channels@, k),
            old(self).channels@.dom().contains(channel_id@) ==> final(self).channels@[channel_id@] == with_last_message(
                old(self).channels@[channel_id@],
                message_id,
            ),
    {
        if let Some(mut channel) = self.channels.remove(channel_id.get()) {
            channel.last_message_id = opt_id_max(channel.last_message_id, Some(message_id));
            self.channels.insert(channel_id.get(), channel);
        }
        proof {
            assert(self.channels@.dom() =~= old(self).channels@.dom());
        }
    }

    /// A new message in a known thread adds one to its message counts
    /// (saturating); other channels are left alone.
    pub fn increment_thread_message_counts(&mut self, channel_id: Id<ChannelMarker>)
        ensures
            old(self).well_formed() ==> final(self).well_formed(),
            final(self).only_channels_changed(*old(self)),
            final(self).channels@.dom() == old(self).channels@.dom(),
            forall|k: u64| k != channel_id@ ==> #[trigger] lookup(final(self).channels@, k) == lookup(old(self).channels@, k),
            old(self).channels@.dom().contains(channel_id@) ==> final(self).channels@[channel_id@] == with_thread_message_counted(
                old(self).channels@[channel_id@],
            ),
    {
        if let Some(mut channel) = self.channels.remove(channel_id.get()) {
            if channel.is_thread() {
                channel.message_count = match channel.message_count {
                    Some(n) => Some(if n == u64::MAX { n } else { n + 1 }),
                    None => None,
                };
                channel.total_message_sent = match channel.total_message_sent {
                    Some(n) => Some(if n == u64::MAX { n } else { n + 1 }),
                    None => None,
                };
            }
            self.channels.insert(channel_id.get(), channel);
        }
        proof {
            assert(self.channels@.dom() =~= old(self).channels@.dom());
        }
    }

    /// Sets a user's status on every private-channel recipient entry of
    /// theirs.
    pub fn update_channel_recipient_presence(&mut self, user_id: Id<UserMarker>, status: PresenceStatus)
        ensures
            old(self).well_formed() ==> final(self).well_formed(),
            final(self).channels@.dom() == old(self).channels@.dom(),
            forall|k: u64| #[trigger] old(self).channels@.dom().contains(k) ==> presence_updated(
                old(self).channels@[k],
                final(self).channels@[k],
                user_id@,
                status,
            ),
    {
        let keys = self.channels.keys();
        let n = keys.len();
        let mut i: usize = 0;
        while i < n
            invariant
                n == keys@.len(),
                i <= n,
                forall|k: u64| old(self).channels@.dom().contains(k) <==> keys@.contains(k),
                forall|a: int, b: int| 0 <= a < b < n ==> keys@[a] < keys@[b],
                self.channels@.dom() == old(self).channels@.dom(),
                self.roles == old(self).roles,
                self.pinned_messages == old(self).pinned_messages,
                self.message_gaps == old(self).message_gaps,
                forall|k: u64| #[trigger] old(self).channels@.dom().contains(k) ==> if in_prefix(keys@, i as int, k) {
                    presence_updated(old(self).channels@[k], self.channels@[k], user_id@, status)
                } else {
                    self.channels@[k] == old(self).channels@[k]
                },
            decreases n - i,
        {
            let k = keys[i];
            proof {
                assert(keys@.contains(k)) by {
                    assert(keys@[i as int] == k);
                }
                assert forall|j: int| 0 <= j < i implies keys@[j] != k by {
                    assert(keys@[j] < keys@[i as int]);
                }
            }
            let ghost before_map = self.channels@;
            let mut channel = self.channels.remove(k).unwrap();
            let ghost before = channel;
            let m = channel.recipients.len();
            let mut j: usize = 0;
            while j < m
                invariant
                    m == channel.recipients@.len(),
                    m == before.recipients@.len(),
                    j <= m,
                    same_but_recipients(before, channel),
                    forall|t: int| 0 <= t < m ==> #[trigger] channel.recipients@[t] == if t < j {
                        with_status(before.recipients@[t], user_id@, status)
                    } else {
                        before.recipients@[t]
                    },
                decreases m - j,
            {
                proof {
                    assert(channel.recipients@[j as int] == before.recipients@[j as int]);
                }
                if channel.recipients[j].user_id.get() == user_id.get() {
                    let mut r = channel.recipients.remove(j);
                    r.status = status;
                    channel.recipients.insert(j, r);
                }
                j = j + 1;
            }
            self.channels.insert(k, channel);
            proof {
                assert(self.channels@.dom() =~= old(self).channels@.dom());
                assert(presence_updated(before, channel, user_id@, status));
                assert forall|h: u64| #[trigger] old(self).channels@.dom().contains(h) implies (if in_prefix(keys@, i + 1, h) {
                    presence_updated(old(self).channels@[h], self.channels@[h], user_id@, status)
                } else {
                    self.channels@[h] == old(self).channels@[h]
                }) by {
                    if h == k {
                        assert(keys@[i as int] == k);
                        assert(!in_prefix(keys@, i as int, k));
                    } else {
                        assert(self.channels@[h] == before_map[h]);
                        if in_prefix(keys@, i + 1, h) {
                            let t = choose|t: int| 0 <= t < i + 1 && #[trigger] keys@[t] == h;
                            assert(t != i);
                            assert(in_prefix(keys@, i as int, h));
                        }
                    }
                }
            }
            i = i + 1;
        }
        proof {
            assert forall|k: u64| #[trigger] old(self).channels@.dom().contains(k) implies in_prefix(keys@, n as int, k) by {
                assert(keys@.contains(k));
                let t = choose|t: int| 0 <= t < keys@.len() && keys@[t] == k;
                assert(keys@[t] == k);
            }
            if old(self).well_formed() {
                assert forall|k: u64| #[trigger] self.channels@.dom().contains(k) implies self.channels@[k].id@ == k by {
                    assert(old(self).channels@.dom().contains(k));
                }
            }
        }
    }
}

/// A recipient entry after a user's profile was read: theirs takes the
/// display name, the username when one was read, and the avatar when one was
/// read or it had none; other entries are unchanged.
pub open spec fn profile_applied(
    before: ChannelRecipientState,
    after: ChannelRecipientState,
    user: u64,
    display_name: Seq<char>,
    username: Option<Seq<char>>,
    avatar_url: Option<Seq<char>>,
) -> bool {
    if before.user_id@ == user {
        &&& after.user_id == before.user_id
        &&& after.display_name@ == display_name
        &&& opt_string_view(after.username) == match username {
            Some(u) => Some(u),
            None => opt_string_view(before.username),
        }
        &&& opt_string_view(after.avatar_url) == if avatar_url is Some || before.avatar_url is None {
            avatar_url
        } else {
            opt_string_view(before.avatar_url)
        }
        &&& after.is_bot == before.is_bot
        &&& after.status == before.status
    } else {
        after == before
    }
}

/// A private channel after a user's profile was read: the user's recipient
/// entries take it, and when the user is among the recipients the channel's
/// name follows their new names as it followed the old ones. Guild channels
/// are unchanged.
pub open spec fn channel_profile_refreshed(
    before: ChannelState,
    after: ChannelState,
    user: u64,
    display_name: Seq<char>,
    username: Option<Seq<char>>,
    avatar_url: Option<Seq<char>>,
) -> bool {
    if before.guild_id is Some {
        after == before
    } else {
        let updated = exists|j: int| 0 <= j < before.recipients@.len() && #[trigger] before.recipients@[j].user_id@ == user;
        let new_names = recipient_names(after.recipients@);
        let follows = name_follows_recipients_spec(
            before.kind@,
            before.name@,
            before.id@,
            recipient_names(before.recipients@),
        );
        &&& after.recipients@.len() == before.recipients@.len()
        &&& forall|j: int|
            0 <= j < before.recipients@.len() ==> profile_applied(
                before.recipients@[j],
                #[trigger] after.recipients@[j],
                user,
                display_name,
                username,
                avatar_url,
            )
        &&& after.name@ == if updated && follows && join_names(new_names).len() > 0 {
            join_names(new_names)
        } else {
            before.name@
        }
        &&& after.id == before.id
        &&& after.guild_id == before.guild_id
        &&& after.kind == before.kind
        &&& after.last_message_id == before.last_message_id
    }
}

fn clone_opt_str(s: Option<&str>) -> (r: Option<String>)
    ensures
        opt_string_view(r) == opt_str_view(s),
{
    match s {
        Some(t) => Some(t.to_owned()),
        None => None,
    }
}

/// Updates the user's entries in one channel's recipients; whether any was
/// theirs.
fn apply_profile_to_recipients(
    recipients: &mut Vec<ChannelRecipientState>,
    user_id: Id<UserMarker>,
    display_name: &str,
    username: Option<&str>,
    avatar_url: Option<&str>,
) -> (updated: bool)
    ensures
        final(recipients)@.len() == old(recipients)@.len(),
        forall|j: int|
            0 <= j < old(recipients)@.len() ==> profile_applied(
                old(recipients)@[j],
                #[trigger] final(recipients)@[j],
                user_id@,
                display_name@,
                opt_str_view(username),
                opt_str_view(avatar_url),
            ),
        updated == exists|j: int| 0 <= j < old(recipients)@.len() && #[trigger] old(recipients)@[j].user_id@ == user_id@,
{
    let ghost before = recipients@;
    let m = recipients.len();
    let mut j: usize = 0;
    let mut updated = false;
    while j < m
        invariant
            m == recipients@.len(),
            m == before.len(),
            j <= m,
            forall|t: int|
                0 <= t < m ==> if t < j {
                    profile_applied(
                        before[t],
                        #[trigger] recipients@[t],
                        user_id@,
                        display_name@,
                        opt_str_view(username),
                        opt_str_view(avatar_url),
                    )
                } else {
                    recipients@[t] == before[t]
                },
            updated == exists|t: int| 0 <= t < j && #[trigger] before[t].user_id@ == user_id@,
        decreases m - j,
    {
        proof {
            assert(recipients@[j as int] == before[j as int]);
        }
        if recipients[j].user_id.get() == user_id.get() {
            let mut r = recipients.remove(j);
            r.display_name = display_name.to_owned();
            if username.is_some() {
                r.username = clone_opt_str(username);
            }
            if avatar_url.is_some() || r.avatar_url.is_none() {
                r.avatar_url = clone_opt_str(avatar_url);
            }
            recipients.insert(j, r);
            updated = true;
            proof {
                assert(before[j as int].user_id@ == user_id@);
            }
        } else {
            proof {
                if exists|t: int| 0 <= t < j + 1 && #[trigger] before[t].user_id@ == user_id@ {
                    let t = choose|t: int| 0 <= t < j + 1 && #[trigger] before[t].user_id@ == user_id@;
                    assert(t != j);
                }
            }
        }
        j = j + 1;
    }
    updated
}

impl DiscordState {
    /// After a user's profile was read: their entries among the private
    /// channels' recipients take the new display name, username and avatar,
    /// and those channels' names follow.
    pub fn refresh_dm_channel_info_from_profile(
        &mut self,
        user_id: Id<UserMarker>,
        display_name: &str,
        username: Option<&str>,
        avatar_url: Option<&str>,
    )
        ensures
            old(self).well_formed() ==> final(self).well_formed(),
            final(self).channels@.dom() == old(self).channels@.dom(),
            forall|k: u64| #[trigger] old(self).channels@.dom().contains(k) ==> channel_profile_refreshed(
                old(self).channels@[k],
                final(self).channels@[k],
                user_id@,
                display_name@,
                opt_str_view(username),
                opt_str_view(avatar_url),
            ),
    {
        let keys = self.channels.keys();
        let n = keys.len();
        let mut i: usize = 0;
        while i < n
            invariant
                n == keys@.len(),
                i <= n,
                forall|k: u64| old(self).channels@.dom().contains(k) <==> keys@.contains(k),
                forall|a: int, b: int| 0 <= a < b < n ==> keys@[a] < keys@[b],
                self.channels@.dom() == old(self).channels@.dom(),
                self.roles == old(self).roles,
                self.pinned_messages == old(self).pinned_messages,
                self.message_gaps == old(self).message_gaps,
                forall|k: u64| #[trigger] old(self).channels@.dom().contains(k) ==> if in_prefix(keys@, i as int, k) {
                    channel_profile_refreshed(
                        old(self).channels@[k],
                        self.channels@[k],
                        user_id@,
                        display_name@,
                        opt_str_view(username),
                        opt_str_view(avatar_url),
                    )
                } else {
                    self.channels@[k] == old(self).channels@[k]
                },
            decreases n - i,
        {
            let k = keys[i];
            proof {
                assert(keys@.contains(k)) by {
                    assert(keys@[i as int] == k);
                }
                assert forall|j: int| 0 <= j < i implies keys@[j] != k by {
                    assert(keys@[j] < keys@[i as int]);
                }
            }
            let ghost before_map = self.channels@;
            let mut channel = self.channels.remove(k).unwrap();
            let ghost before = channel;
            if channel.guild_id.is_none() {
                let previous_names = recipient_display_names(&channel.recipients);
                let updated = apply_profile_to_recipients(
                    &mut channel.recipients,
                    user_id,
                    display_name,
                    username,
                    avatar_url,
                );
                if updated {
                    refresh_private_channel_name_from_recipients(&mut channel, &previous_names);
                }
            }
            self.channels.insert(k, channel);
            proof {
                assert(self.channels@.dom() =~= old(self).channels@.dom());
                assert(channel_profile_refreshed(
                    before,
                    channel,
                    user_id@,
                    display_name@,
                    opt_str_view(username),
                    opt_str_view(avatar_url),
                ));
                assert forall|h: u64| #[trigger] old(self).channels@.dom().contains(h) implies (if in_prefix(keys@, i + 1, h) {
                    channel_profile_refreshed(
                        old(self).channels@[h],
                        self.channels@[h],
                        user_id@,
                        display_name@,
                        opt_str_view(username),
                        opt_str_view(avatar_url),
                    )
                } else {
                    self.channels@[h] == old(self).channels@[h]
                }) by {
                    if h == k {
                        assert(keys@[i as int] == k);
                        assert(!in_prefix(keys@, i as int, k));
                    } else {
                        assert(self.channels@[h] == before_map[h]);
                        if in_prefix(keys@, i + 1, h) {
                            let t = choose|t: int| 0 <= t < i + 1 && #[trigger] keys@[t] == h;
                            assert(t != i);
                            assert(in_prefix(keys@, i as int, h));
                        }
                    }
                }
            }
            i = i + 1;
        }
        proof {
            assert forall|k: u64| #[trigger] old(self).channels@.dom().contains(k) implies in_prefix(keys@, n as int, k) by {
                assert(keys@.contains(k));
                let t = choose|t: int| 0 <= t < keys@.len() && keys@[t] == k;
                assert(keys@[t] == k);
            }
            if old(self).well_formed() {
                assert forall|k: u64| #[trigger] self.channels@.dom().contains(k) implies self.channels@[k].id@ == k by {
                    assert(old(self).channels@.dom().contains(k));
                }
            }
        }
    }
}

/// A known channel's last message id never moves back: after a message id is
/// recorded it is at least that id and at least what it was.
pub proof fn lemma_last_message_id_monotone<T>(before: Option<Id<T>>, recorded: Id<T>)
    ensures
        opt_id_max_spec(before, Some(recorded)) matches Some(after) && after@ >= recorded@ && (before matches Some(b) ==> after@ >= b@),
{
}

} // verus!
