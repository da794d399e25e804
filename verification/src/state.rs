//! The client's view of Discord: channels, guilds, members, presences and
//! cached messages, kept in maps keyed by snowflake, with the queries the UI
//! makes of them.
use vstd::prelude::*;

use crate::capabilities::{effective_attachment_limit_bytes, effective_limit_spec, GuildBoostTier, PremiumTier};
use crate::channel::ChannelState;
use crate::id_map::{lists_keys_once, IdMap};
use crate::ids::{ChannelMarker, EmojiMarker, GuildMarker, Id, MessageMarker, RoleMarker, UserMarker};
use crate::message_state::MessageState;
use crate::presence::{ActivityInfo, PresenceStatus};
use crate::typing::TypingIndicator;

verus! {

/// A guild as the client keeps it.
#[derive(Clone, Debug)]
pub struct GuildState {
    pub id: Id<GuildMarker>,
    pub name: String,
    pub member_count: Option<u64>,
    pub online_count: Option<u32>,
    /// The owner sees every channel regardless of overwrites; `None` until a
    /// guild payload names it.
    pub owner_id: Option<Id<UserMarker>>,
    pub boost_tier: GuildBoostTier,
    pub boost_count: u32,
}

/// A guild's custom emoji.
#[derive(Clone, Debug)]
pub struct CustomEmojiInfo {
    pub id: Id<EmojiMarker>,
    pub name: String,
    pub animated: bool,
    pub available: bool,
}

/// A folder of guilds in the user's sidebar.
#[derive(Clone, Debug)]
pub struct GuildFolder {
    pub id: Option<u64>,
    pub name: Option<String>,
    pub color: Option<u32>,
    pub guild_ids: Vec<Id<GuildMarker>>,
}

/// A member of one guild as the client keeps it.
#[derive(Clone, Debug)]
pub struct GuildMemberState {
    pub user_id: Id<UserMarker>,
    pub display_name: String,
    /// The login handle; the mention picker matches it too.
    pub username: Option<String>,
    pub is_bot: bool,
    pub avatar_url: Option<String>,
    pub role_ids: Vec<Id<RoleMarker>>,
    pub status: PresenceStatus,
}

/// A guild role as the client keeps it.
#[derive(Clone, Debug)]
pub struct RoleState {
    pub id: Id<RoleMarker>,
    pub name: String,
    pub color: Option<u32>,
    pub position: i64,
    pub hoist: bool,
    /// The role's permission bits.
    pub permissions: u64,
}

/// A range of a channel's history known to be missing from the cache:
/// messages strictly between the two ids were not loaded.
#[derive(Clone, Copy, Debug, Eq, PartialEq)]
pub struct MessageHistoryGap {
    pub lower_id: Id<MessageMarker>,
    pub upper_id: Id<MessageMarker>,
}

/// Everything the client knows of Discord.
pub struct DiscordState {
    pub current_user_id: Option<Id<UserMarker>>,
    pub current_user_premium_tier: Option<PremiumTier>,
    /// Whether the UI has said which message channel is selected; until it
    /// has, every channel's message bodies are kept.
    pub selected_message_channel_known: bool,
    pub selected_message_channel_id: Option<Id<ChannelMarker>>,
    pub guild_folders: Vec<GuildFolder>,
    pub channels: IdMap<ChannelState>,
    pub guilds: IdMap<GuildState>,
    pub custom_emojis: IdMap<Vec<CustomEmojiInfo>>,
    pub user_presences: IdMap<PresenceStatus>,
    /// Guild-specific presences, by guild and then user.
    pub guild_user_presences: IdMap<IdMap<PresenceStatus>>,
    pub user_activities: IdMap<Vec<ActivityInfo>>,
    /// Guild-specific activities, by guild and then user.
    pub guild_user_activities: IdMap<IdMap<Vec<ActivityInfo>>>,
    /// Members by guild and then user.
    pub members: IdMap<IdMap<GuildMemberState>>,
    /// Roles by guild and then role.
    pub roles: IdMap<IdMap<RoleState>>,
    /// The current user's role ids in each guild, kept apart so that a
    /// member payload without roles cannot erase them.
    pub current_user_role_ids: IdMap<Vec<Id<RoleMarker>>>,
    /// Role ids that profiles reported, by guild and then user.
    pub profile_role_ids: IdMap<IdMap<Vec<Id<RoleMarker>>>>,
    /// Cached messages of each channel, oldest first.
    pub messages: IdMap<Vec<MessageState>>,
    /// Pinned messages of each channel, by increasing id.
    pub pinned_messages: IdMap<Vec<MessageState>>,
    pub message_gaps: IdMap<Vec<MessageHistoryGap>>,
    /// The author's role ids carried by each message, by channel and then
    /// message.
    pub message_author_role_ids: IdMap<IdMap<Vec<Id<RoleMarker>>>>,
    /// Channels whose cached message bodies were redacted.
    pub cold_message_channels: Vec<Id<ChannelMarker>>,
    /// Channels whose message bodies are kept, least recently used first.
    pub warm_message_channels: Vec<Id<ChannelMarker>>,
    pub max_warm_message_channels: usize,
    pub max_messages_per_channel: usize,
    /// The latest typing notice by channel and then user.
    pub typing: IdMap<IdMap<TypingIndicator>>,
}

/// The value of a key in a map, if any.
pub open spec fn lookup<V>(m: Map<u64, V>, k: u64) -> Option<V> {
    if m.dom().contains(k) {
        Some(m[k])
    } else {
        None
    }
}

/// The value under two keys of a nested map, if any.
pub open spec fn lookup2<V>(m: Map<u64, IdMap<V>>, a: u64, b: u64) -> Option<V> {
    if m.dom().contains(a) && m[a]@.dom().contains(b) {
        Some(m[a]@[b])
    } else {
        None
    }
}

/// Looks a value up under two keys of a nested map.
pub fn get2<V>(m: &IdMap<IdMap<V>>, a: u64, b: u64) -> (r: Option<&V>)
    ensures
        match r {
            Some(v) => lookup2(m@, a, b) == Some(*v),
            None => lookup2(m@, a, b) is None,
        },
{
    match m.get(a) {
        Some(inner) => inner.get(b),
        None => None,
    }
}

/// Message ids strictly increase along the list, so none repeats.
pub open spec fn ids_increasing(msgs: Seq<MessageState>) -> bool {
    forall|i: int, j: int| 0 <= i < j < msgs.len() ==> (#[trigger] msgs[i]).id@ < (#[trigger] msgs[j]).id@
}

/// The emojis of the guilds listed in `keys`, in that order.
pub open spec fn emojis_in_order(m: Map<u64, Vec<CustomEmojiInfo>>, keys: Seq<u64>) -> Seq<CustomEmojiInfo>
    decreases keys.len(),
{
    if keys.len() == 0 {
        Seq::empty()
    } else {
        emojis_in_order(m, keys.drop_last()) + m[keys.last()]@
    }
}

impl DiscordState {
    /// Each channel is stored under its own id.
    pub open spec fn channels_keyed(&self) -> bool {
        forall|k: u64| #[trigger] self.channels@.dom().contains(k) ==> self.channels@[k].id@ == k
    }

    /// Each role is stored under its own id.
    pub open spec fn roles_keyed(&self) -> bool {
        forall|g: u64, r: u64|
            self.roles@.dom().contains(g) && #[trigger] self.roles@[g]@.dom().contains(r) ==> self.roles@[g]@[r].id@
                == r
    }

    /// Each channel's pins are sorted by increasing id, without repeats.
    pub open spec fn pins_sorted(&self) -> bool {
        forall|c: u64| #[trigger] self.pinned_messages@.dom().contains(c) ==> ids_increasing(self.pinned_messages@[c]@)
    }

    /// Each recorded history gap has its lower bound below its upper one.
    pub open spec fn gaps_ordered(&self) -> bool {
        forall|c: u64, i: int|
            self.message_gaps@.dom().contains(c) && 0 <= i < self.message_gaps@[c]@.len() ==> (
            #[trigger] self.message_gaps@[c]@[i]).lower_id@ < self.message_gaps@[c]@[i].upper_id@
    }

    /// What every state reached from `new` by the library's operations keeps:
    /// `new` gives it, and each operation that changes the state keeps it.
    pub open spec fn well_formed(&self) -> bool {
        &&& self.channels_keyed()
        &&& self.roles_keyed()
        &&& self.pins_sorted()
        &&& self.gaps_ordered()
    }
}

impl DiscordState {
    /// Everything but the channels is as in `other`.
    pub open spec fn only_channels_changed(&self, other: Self) -> bool {
        &&& self.current_user_id == other.current_user_id
        &&& self.current_user_premium_tier == other.current_user_premium_tier
        &&& self.selected_message_channel_known == other.selected_message_channel_known
        &&& self.selected_message_channel_id == other.selected_message_channel_id
        &&& self.guilds@ == other.guilds@
        &&& self.user_presences@ == other.user_presences@
        &&& self.members@ == other.members@
        &&& self.roles@ == other.roles@
        &&& self.messages@ == other.messages@
        &&& self.pinned_messages@ == other.pinned_messages@
        &&& self.message_gaps@ == other.message_gaps@
        &&& self.message_author_role_ids@ == other.message_author_role_ids@
        &&& self.profile_role_ids@ == other.profile_role_ids@
        &&& self.max_messages_per_channel == other.max_messages_per_channel
    }

    /// An empty state that caches at most `max_messages_per_channel`
    /// messages per channel and keeps the bodies of at most
    /// `max_warm_message_channels` channels.
    pub fn new(max_messages_per_channel: usize, max_warm_message_channels: usize) -> (r: Self)
        ensures
            r.current_user_id is None,
            r.current_user_premium_tier is None,
            !r.selected_message_channel_known,
            r.selected_message_channel_id is None,
            r.guild_folders@.len() == 0,
            r.channels@ == Map::<u64, ChannelState>::empty(),
            r.guilds@ == Map::<u64, GuildState>::empty(),
            r.custom_emojis@ == Map::<u64, Vec<CustomEmojiInfo>>::empty(),
            r.user_presences@ == Map::<u64, PresenceStatus>::empty(),
            r.guild_user_presences@ == Map::<u64, IdMap<PresenceStatus>>::empty(),
            r.user_activities@ == Map::<u64, Vec<ActivityInfo>>::empty(),
            r.guild_user_activities@ == Map::<u64, IdMap<Vec<ActivityInfo>>>::empty(),
            r.members@ == Map::<u64, IdMap<GuildMemberState>>::empty(),
            r.roles@ == Map::<u64, IdMap<RoleState>>::empty(),
            r.current_user_role_ids@ == Map::<u64, Vec<Id<RoleMarker>>>::empty(),
            r.profile_role_ids@ == Map::<u64, IdMap<Vec<Id<RoleMarker>>>>::empty(),
            r.messages@ == Map::<u64, Vec<MessageState>>::empty(),
            r.pinned_messages@ == Map::<u64, Vec<MessageState>>::empty(),
            r.message_gaps@ == Map::<u64, Vec<MessageHistoryGap>>::empty(),
            r.message_author_role_ids@ == Map::<u64, IdMap<Vec<Id<RoleMarker>>>>::empty(),
            r.cold_message_channels@.len() == 0,
            r.warm_message_channels@.len() == 0,
            r.max_warm_message_channels == max_warm_message_channels,
            r.max_messages_per_channel == max_messages_per_channel,
            r.typing@ == Map::<u64, IdMap<TypingIndicator>>::empty(),
            r.well_formed(),
    {
        DiscordState {
            current_user_id: None,
            current_user_premium_tier: None,
            selected_message_channel_known: false,
            selected_message_channel_id: None,
            guild_folders: Vec::new(),
            channels: IdMap::new(),
            guilds: IdMap::new(),
            custom_emojis: IdMap::new(),
            user_presences: IdMap::new(),
            guild_user_presences: IdMap::new(),
            user_activities: IdMap::new(),
            guild_user_activities: IdMap::new(),
            members: IdMap::new(),
            roles: IdMap::new(),
            current_user_role_ids: IdMap::new(),
            profile_role_ids: IdMap::new(),
            messages: IdMap::new(),
            pinned_messages: IdMap::new(),
            message_gaps: IdMap::new(),
            message_author_role_ids: IdMap::new(),
            cold_message_channels: Vec::new(),
            warm_message_channels: Vec::new(),
            max_warm_message_channels,
            max_messages_per_channel,
            typing: IdMap::new(),
        }
    }

    pub fn guild_folders(&self) -> (r: &Vec<GuildFolder>)
        ensures
            r == &self.guild_folders,
    {
        &self.guild_folders
    }

    pub fn guild(&self, guild_id: Id<GuildMarker>) -> (r: Option<&GuildState>)
        ensures
            match r {
                Some(g) => lookup(self.guilds@, guild_id@) == Some(*g),
                None => lookup(self.guilds@, guild_id@) is None,
            },
    {
        self.guilds.get(guild_id.get())
    }

    /// The guilds by increasing id.
    pub fn guilds(&self) -> (r: Vec<&GuildState>)
        ensures
            r@.len() == self.guilds.key_seq().len(),
            forall|i: int| 0 <= i < r@.len() ==> *(#[trigger] r@[i]) == self.guilds@[self.guilds.key_seq()[i]],
            lists_keys_once(self.guilds@, self.guilds.key_seq()),
    {
        self.guilds.values()
    }

    pub fn channel(&self, channel_id: Id<ChannelMarker>) -> (r: Option<&ChannelState>)
        ensures
            match r {
                Some(c) => lookup(self.channels@, channel_id@) == Some(*c),
                None => lookup(self.channels@, channel_id@) is None,
            },
    {
        self.channels.get(channel_id.get())
    }

    /// The guild a known channel belongs to.
    pub open spec fn channel_guild_spec(&self, channel_id: u64) -> Option<Id<GuildMarker>> {
        match lookup(self.channels@, channel_id) {
            Some(c) => c.guild_id,
            None => None,
        }
    }

    pub fn channel_guild_id(&self, channel_id: Id<ChannelMarker>) -> (r: Option<Id<GuildMarker>>)
        ensures
            r == self.channel_guild_spec(channel_id@),
    {
        match self.channels.get(channel_id.get()) {
            Some(channel) => channel.guild_id,
            None => None,
        }
    }

    /// The boost tier of the guild a channel belongs to, when both are known.
    pub open spec fn channel_boost_spec(&self, channel_id: u64) -> Option<GuildBoostTier> {
        match self.channel_guild_spec(channel_id) {
            Some(g) => match lookup(self.guilds@, g@) {
                Some(guild) => Some(guild.boost_tier),
                None => None,
            },
            None => None,
        }
    }

    /// Per-file upload limit for the current user posting in a channel: the
    /// more generous of their Nitro tier (none when unknown) and the boost
    /// tier of the channel's guild.
    pub fn attachment_size_limit(&self, channel_id: Id<ChannelMarker>) -> (r: u64)
        ensures
            r == effective_limit_spec(
                match self.current_user_premium_tier {
                    Some(t) => t,
                    None => PremiumTier::NoNitro,
                },
                self.channel_boost_spec(channel_id@),
            ),
    {
        let user_tier = match self.current_user_premium_tier {
            Some(t) => t,
            None => PremiumTier::NoNitro,
        };
        let guild_boost = match self.channel_guild_id(channel_id) {
            Some(guild_id) => match self.guild(guild_id) {
                Some(guild) => Some(guild.boost_tier),
                None => None,
            },
            None => None,
        };
        effective_attachment_limit_bytes(user_tier, guild_boost)
    }

    /// Each guild's custom emojis, by increasing guild id.
    pub fn all_custom_emojis(&self) -> (r: Vec<(u64, &Vec<CustomEmojiInfo>)>)
        ensures
            r@.len() == self.custom_emojis.key_seq().len(),
            forall|i: int| 0 <= i < r@.len() ==> (#[trigger] r@[i]).0 == self.custom_emojis.key_seq()[i]
                && *r@[i].1 == self.custom_emojis@[r@[i].0],
    {
        let n = self.custom_emojis.len();
        let mut out: Vec<(u64, &Vec<CustomEmojiInfo>)> = Vec::new();
        let mut i: usize = 0;
        while i < n
            invariant
                n == self.custom_emojis.key_seq().len(),
                i <= n,
                out@.len() == i,
                forall|j: int| 0 <= j < i ==> (#[trigger] out@[j]).0 == self.custom_emojis.key_seq()[j]
                    && *out@[j].1 == self.custom_emojis@[out@[j].0],
            decreases n - i,
        {
            let (k, v) = self.custom_emojis.entry_at(i);
            out.push((k, v));
            i = i + 1;
        }
        out
    }

    /// Every cached custom emoji, guild by guild by increasing guild id.
    pub fn custom_emojis(&self) -> (r: Vec<&CustomEmojiInfo>)
        ensures
            r@.len() == emojis_in_order(self.custom_emojis@, self.custom_emojis.key_seq()).len(),
            forall|i: int| 0 <= i < r@.len() ==> *(#[trigger] r@[i]) == emojis_in_order(
                self.custom_emojis@,
                self.custom_emojis.key_seq(),
            )[i],
    {
        let ghost keys = self.custom_emojis.key_seq();
        let ghost m = self.custom_emojis@;
        let n = self.custom_emojis.len();
        let mut out: Vec<&CustomEmojiInfo> = Vec::new();
        let mut i: usize = 0;
        while i < n
            invariant
                n == keys.len(),
                keys == self.custom_emojis.key_seq(),
                m == self.custom_emojis@,
                i <= n,
                out@.len() == emojis_in_order(m, keys.subrange(0, i as int)).len(),
                forall|j: int| 0 <= j < out@.len() ==> *(#[trigger] out@[j]) == emojis_in_order(
                    m,
                    keys.subrange(0, i as int),
                )[j],
            decreases n - i,
        {
            let (k, v) = self.custom_emojis.entry_at(i);
            let ghost before = emojis_in_order(m, keys.subrange(0, i as int));
            proof {
                let sub = keys.subrange(0, i + 1);
                assert(sub.drop_last() =~= keys.subrange(0, i as int));
                assert(sub.last() == k);
            }
            let c = v.len();
            let mut t: usize = 0;
            while t < c
                invariant
                    c == v@.len(),
                    t <= c,
                    out@.len() == before.len() + t,
                    forall|j: int| 0 <= j < out@.len() ==> *(#[trigger] out@[j]) == (before + v@)[j],
                decreases c - t,
            {
                out.push(&v[t]);
                t = t + 1;
            }
            proof {
                assert(before + v@ =~= emojis_in_order(m, keys.subrange(0, i + 1)));
            }
            i = i + 1;
        }
        proof {
            assert(keys.subrange(0, n as int) =~= keys);
        }
        out
    }

    /// A guild's custom emojis; none when the guild has none cached.
    pub fn custom_emojis_for_guild(&self, guild_id: Id<GuildMarker>) -> (r: &[CustomEmojiInfo])
        ensures
            r@ == (match lookup(self.custom_emojis@, guild_id@) {
                Some(v) => v@,
                None => Seq::<CustomEmojiInfo>::empty(),
            }),
    {
        match self.custom_emojis.get(guild_id.get()) {
            Some(v) => v.as_slice(),
            None => &[],
        }
    }

    /// Adds one to a known guild's member count (saturating).
    pub fn increment_guild_member_count(&mut self, guild_id: Id<GuildMarker>)
        ensures
            old(self).well_formed() ==> final(self).well_formed(),
            final(self).guilds@ == (match lookup(old(self).guilds@, guild_id@) {
                Some(g) => match g.member_count {
                    Some(c) => old(self).guilds@.insert(
                        guild_id@,
                        GuildState { member_count: Some(if c == u64::MAX { c } else { (c + 1) as u64 }), ..g },
                    ),
                    None => old(self).guilds@,
                },
                None => old(self).guilds@,
            }),
    {
        if let Some(mut guild) = self.guilds.remove(guild_id.get()) {
            let changed = match guild.member_count {
                Some(c) => {
                    guild.member_count = Some(if c == u64::MAX { c } else { c + 1 });
                    true
                },
                None => false,
            };
            self.guilds.insert(guild_id.get(), guild);
            proof {
                assert(final(self).guilds@ =~= old(self).guilds@.insert(guild_id@, guild));
                if !changed {
                    assert(old(self).guilds@.insert(guild_id@, guild) =~= old(self).guilds@);
                }
            }
        }
    }

    /// Takes one from a known guild's member count (saturating at zero).
    pub fn decrement_guild_member_count(&mut self, guild_id: Id<GuildMarker>)
        ensures
            old(self).well_formed() ==> final(self).well_formed(),
            final(self).guilds@ == (match lookup(old(self).guilds@, guild_id@) {
                Some(g) => match g.member_count {
                    Some(c) => old(self).guilds@.insert(
                        guild_id@,
                        GuildState { member_count: Some(if c == 0 { 0 } else { (c - 1) as u64 }), ..g },
                    ),
                    None => old(self).guilds@,
                },
                None => old(self).guilds@,
            }),
    {
        if let Some(mut guild) = self.guilds.remove(guild_id.get()) {
            let changed = match guild.member_count {
                Some(c) => {
                    guild.member_count = Some(if c == 0 { 0 } else { c - 1 });
                    true
                },
                None => false,
            };
            self.guilds.insert(guild_id.get(), guild);
            proof {
                assert(final(self).guilds@ =~= old(self).guilds@.insert(guild_id@, guild));
                if !changed {
                    assert(old(self).guilds@.insert(guild_id@, guild) =~= old(self).guilds@);
                }
            }
        }
    }

    /// The user's presence: the guild-specific one when a guild is given
    /// and has one, else the global one.
    pub open spec fn presence_spec(&self, guild_id: Option<Id<GuildMarker>>, user_id: u64) -> Option<PresenceStatus> {
        let guild_specific = match guild_id {
            Some(g) => lookup2(self.guild_user_presences@, g@, user_id),
            None => None,
        };
        match guild_specific {
            Some(s) => Some(s),
            None => lookup(self.user_presences@, user_id),
        }
    }

    pub fn user_presence_for_guild(&self, guild_id: Option<Id<GuildMarker>>, user_id: Id<UserMarker>) -> (r: Option<PresenceStatus>)
        ensures
            r == self.presence_spec(guild_id, user_id@),
    {
        let guild_specific = match guild_id {
            Some(g) => match get2(&self.guild_user_presences, g.get(), user_id.get()) {
                Some(s) => Some(*s),
                None => None,
            },
            None => None,
        };
        match guild_specific {
            Some(s) => Some(s),
            None => match self.user_presences.get(user_id.get()) {
                Some(s) => Some(*s),
                None => None,
            },
        }
    }

    pub fn user_presence(&self, user_id: Id<UserMarker>) -> (r: Option<PresenceStatus>)
        ensures
            r == self.presence_spec(None, user_id@),
    {
        self.user_presence_for_guild(None, user_id)
    }

    /// The user's activities: the guild-specific ones when a guild is given
    /// and has them, else the global ones, else none.
    pub open spec fn activities_spec(&self, guild_id: Option<Id<GuildMarker>>, user_id: u64) -> Seq<ActivityInfo> {
        let guild_specific = match guild_id {
            Some(g) => lookup2(self.guild_user_activities@, g@, user_id),
            None => None,
        };
        match guild_specific {
            Some(v) => v@,
            None => match lookup(self.user_activities@, user_id) {
                Some(v) => v@,
                None => Seq::empty(),
            },
        }
    }

    pub fn user_activities_for_guild(&self, guild_id: Option<Id<GuildMarker>>, user_id: Id<UserMarker>) -> (r: &[ActivityInfo])
        ensures
            r@ == self.activities_spec(guild_id, user_id@),
    {
        let guild_specific = match guild_id {
            Some(g) => get2(&self.guild_user_activities, g.get(), user_id.get()),
            None => None,
        };
        match guild_specific {
            Some(v) => v.as_slice(),
            None => match self.user_activities.get(user_id.get()) {
                Some(v) => v.as_slice(),
                None => &[],
            },
        }
    }

    pub fn user_activities(&self, user_id: Id<UserMarker>) -> (r: &[ActivityInfo])
        ensures
            r@ == self.activities_spec(None, user_id@),
    {
        self.user_activities_for_guild(None, user_id)
    }

    /// Records a user's global activities; an empty list forgets them.
    pub fn update_user_activities(&mut self, user_id: Id<UserMarker>, activities: Vec<ActivityInfo>)
        ensures
            old(self).well_formed() ==> final(self).well_formed(),
            final(self).user_activities@ == (if activities@.len() == 0 {
                old(self).user_activities@.remove(user_id@)
            } else {
                old(self).user_activities@.insert(user_id@, activities)
            }),
    {
        if activities.len() == 0 {
            self.user_activities.remove(user_id.get());
        } else {
            self.user_activities.insert(user_id.get(), activities);
        }
    }

    /// Records a user's activities in one guild; an empty list forgets them.
    pub fn update_guild_user_activities(
        &mut self,
        guild_id: Id<GuildMarker>,
        user_id: Id<UserMarker>,
        activities: Vec<ActivityInfo>,
    )
        ensures
            old(self).well_formed() ==> final(self).well_formed(),
            forall|g: u64, u: u64| #[trigger] lookup2(final(self).guild_user_activities@, g, u) == (if g == guild_id@
                && u == user_id@ {
                if activities@.len() == 0 {
                    None
                } else {
                    Some(activities)
                }
            } else {
                lookup2(old(self).guild_user_activities@, g, u)
            }),
    {
        let empty = activities.len() == 0;
        let mut inner = match self.guild_user_activities.remove(guild_id.get()) {
            Some(m) => m,
            None => IdMap::new(),
        };
        if empty {
            inner.remove(user_id.get());
        } else {
            inner.insert(user_id.get(), activities);
        }
        self.guild_user_activities.insert(guild_id.get(), inner);
    }
}

impl DiscordState {
    /// A user's presence in a guild is the guild's own entry for them when
    /// there is one; only without one does their global presence show.
    /// Without a guild, it is the global presence.
    pub proof fn lemma_guild_presence_comes_first(&self, guild_id: Id<GuildMarker>, user_id: u64)
        ensures
            lookup2(self.guild_user_presences@, guild_id@, user_id) matches Some(p) ==> self.presence_spec(
                Some(guild_id),
                user_id,
            ) == Some(p),
            lookup2(self.guild_user_presences@, guild_id@, user_id) is None ==> self.presence_spec(Some(guild_id), user_id)
                == lookup(self.user_presences@, user_id),
            self.presence_spec(None, user_id) == lookup(self.user_presences@, user_id),
    {
    }

    /// Likewise for activities: the guild's own list for the user wins over
    /// the global one.
    pub proof fn lemma_guild_activities_come_first(&self, guild_id: Id<GuildMarker>, user_id: u64)
        ensures
            lookup2(self.guild_user_activities@, guild_id@, user_id) matches Some(v) ==> self.activities_spec(
                Some(guild_id),
                user_id,
            ) == v@,
            lookup2(self.guild_user_activities@, guild_id@, user_id) is None ==> self.activities_spec(Some(guild_id), user_id)
                == match lookup(self.user_activities@, user_id) {
                Some(v) => v@,
                None => Seq::<ActivityInfo>::empty(),
            },
    {
    }
}

} // verus!
