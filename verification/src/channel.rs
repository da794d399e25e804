//! Channels: what the gateway reports of one, what the client keeps of it,
//! and the naming rules of private channels.
use vstd::prelude::*;

use crate::ids::{ChannelMarker, GuildMarker, Id, MessageMarker, UserMarker};
use crate::presence::PresenceStatus;
use crate::text::{concat2, str_eq, u64_to_decimal, decimal};

verus! {

/// One channel as a gateway or REST payload describes it.
#[derive(Clone, Debug)]
pub struct ChannelInfo {
    pub guild_id: Option<Id<GuildMarker>>,
    pub channel_id: Id<ChannelMarker>,
    pub parent_id: Option<Id<ChannelMarker>>,
    /// The group DM owner, or the user that started a thread.
    pub owner_id: Option<Id<UserMarker>>,
    pub position: Option<i32>,
    pub last_message_id: Option<Id<MessageMarker>>,
    pub name: String,
    pub kind: String,
    /// Messages in one thread (threads only).
    pub message_count: Option<u64>,
    /// Approximate members of one thread, capped at 50 (threads only).
    pub member_count: Option<u64>,
    /// Messages ever sent in one thread; deletions do not lower it.
    pub total_message_sent: Option<u64>,
    pub thread_metadata: Option<ThreadMetadataInfo>,
    /// The raw channel flags; `PINNED = 1 << 1` marks a pinned forum thread.
    pub flags: Option<u64>,
    pub recipients: Option<Vec<ChannelRecipientInfo>>,
    /// Channel-level permission overrides; empty when the payload had none.
    pub permission_overwrites: Vec<PermissionOverwriteInfo>,
}

/// A thread's archive and lock state.
#[derive(Clone, Debug)]
pub struct ThreadMetadataInfo {
    pub archived: bool,
    /// In minutes.
    pub auto_archive_duration: Option<u64>,
    pub archive_timestamp: Option<String>,
    pub locked: bool,
    /// Private threads only.
    pub invitable: Option<bool>,
    pub create_timestamp: Option<String>,
}

/// Whether a permission overwrite targets a role or one member.
#[derive(Clone, Copy, Debug, Eq, PartialEq, Structural)]
pub enum PermissionOverwriteKind {
    Role,
    Member,
}

/// One channel-level allow/deny pair. The id is raw: a role, a member, or
/// the guild itself (its `@everyone` role).
#[derive(Clone, Copy, Debug, Eq, PartialEq, Structural)]
pub struct PermissionOverwriteInfo {
    pub id: u64,
    pub kind: PermissionOverwriteKind,
    pub allow: u64,
    pub deny: u64,
}

/// One recipient of a private channel, as a payload lists it.
#[derive(Clone, Debug)]
pub struct ChannelRecipientInfo {
    pub user_id: Id<UserMarker>,
    pub display_name: String,
    /// The login handle, when the payload carried one.
    pub username: Option<String>,
    pub is_bot: bool,
    pub avatar_url: Option<String>,
    pub status: Option<PresenceStatus>,
}

/// The flag that marks a thread pinned in its forum.
pub const THREAD_PINNED_FLAG: u64 = 2;

pub open spec fn thread_pinned_spec(flags: Option<u64>) -> Option<bool> {
    match flags {
        Some(f) => Some(f & THREAD_PINNED_FLAG != 0),
        None => None,
    }
}

pub open spec fn thread_archived_spec(metadata: Option<ThreadMetadataInfo>) -> Option<bool> {
    match metadata {
        Some(m) => Some(m.archived),
        None => None,
    }
}

pub open spec fn thread_locked_spec(metadata: Option<ThreadMetadataInfo>) -> Option<bool> {
    match metadata {
        Some(m) => Some(m.locked),
        None => None,
    }
}

fn metadata_archived(metadata: &Option<ThreadMetadataInfo>) -> (r: Option<bool>)
    ensures
        r == thread_archived_spec(*metadata),
{
    match metadata {
        Some(m) => Some(m.archived),
        None => None,
    }
}

fn metadata_locked(metadata: &Option<ThreadMetadataInfo>) -> (r: Option<bool>)
    ensures
        r == thread_locked_spec(*metadata),
{
    match metadata {
        Some(m) => Some(m.locked),
        None => None,
    }
}

fn flags_pinned(flags: Option<u64>) -> (r: Option<bool>)
    ensures
        r == thread_pinned_spec(flags),
{
    match flags {
        Some(f) => Some(f & THREAD_PINNED_FLAG != 0),
        None => None,
    }
}

impl ChannelInfo {
    /// The thread's `archived` flag; `None` for a non-thread.
    pub fn thread_archived(&self) -> (r: Option<bool>)
        ensures
            r == thread_archived_spec(self.thread_metadata),
    {
        metadata_archived(&self.thread_metadata)
    }

    /// The thread's `locked` flag; `None` for a non-thread.
    pub fn thread_locked(&self) -> (r: Option<bool>)
        ensures
            r == thread_locked_spec(self.thread_metadata),
    {
        metadata_locked(&self.thread_metadata)
    }

    /// Whether the thread is pinned in its forum; `None` without flags.
    pub fn thread_pinned(&self) -> (r: Option<bool>)
        ensures
            r == thread_pinned_spec(self.flags),
    {
        flags_pinned(self.flags)
    }
}

/// The kinds that name a thread.
pub open spec fn is_thread_kind_spec(kind: Seq<char>) -> bool {
    kind == "thread"@ || kind == "GuildPublicThread"@ || kind == "GuildPrivateThread"@
        || kind == "GuildNewsThread"@
}

pub open spec fn is_category_kind_spec(kind: Seq<char>) -> bool {
    kind == "category"@ || kind == "GuildCategory"@
}

pub open spec fn is_forum_kind_spec(kind: Seq<char>) -> bool {
    kind == "forum"@ || kind == "GuildForum"@
}

pub open spec fn is_voice_kind_spec(kind: Seq<char>) -> bool {
    kind == "voice"@ || kind == "GuildVoice"@
}

pub open spec fn is_private_thread_kind_spec(kind: Seq<char>) -> bool {
    kind == "GuildPrivateThread"@ || kind == "private-thread"@
}

/// Whether a channel kind names a thread.
pub fn is_thread_kind(kind: &str) -> (r: bool)
    ensures
        r == is_thread_kind_spec(kind@),
{
    str_eq(kind, "thread") || str_eq(kind, "GuildPublicThread") || str_eq(kind, "GuildPrivateThread")
        || str_eq(kind, "GuildNewsThread")
}

/// A channel as the client keeps it.
#[derive(Clone, Debug)]
pub struct ChannelState {
    pub id: Id<ChannelMarker>,
    pub guild_id: Option<Id<GuildMarker>>,
    pub parent_id: Option<Id<ChannelMarker>>,
    pub owner_id: Option<Id<UserMarker>>,
    pub position: Option<i32>,
    pub last_message_id: Option<Id<MessageMarker>>,
    pub name: String,
    pub kind: String,
    pub message_count: Option<u64>,
    pub member_count: Option<u64>,
    pub total_message_sent: Option<u64>,
    pub thread_metadata: Option<ThreadMetadataInfo>,
    pub flags: Option<u64>,
    pub recipients: Vec<ChannelRecipientState>,
    /// Channel-level permission overrides. Threads inherit their parent's,
    /// so this stays empty for them.
    pub permission_overwrites: Vec<PermissionOverwriteInfo>,
}

impl ChannelState {
    pub fn is_category(&self) -> (r: bool)
        ensures
            r == is_category_kind_spec(self.kind@),
    {
        str_eq(self.kind.as_str(), "category") || str_eq(self.kind.as_str(), "GuildCategory")
    }

    pub fn is_thread(&self) -> (r: bool)
        ensures
            r == is_thread_kind_spec(self.kind@),
    {
        is_thread_kind(self.kind.as_str())
    }

    pub fn is_forum(&self) -> (r: bool)
        ensures
            r == is_forum_kind_spec(self.kind@),
    {
        str_eq(self.kind.as_str(), "forum") || str_eq(self.kind.as_str(), "GuildForum")
    }

    pub fn is_voice(&self) -> (r: bool)
        ensures
            r == is_voice_kind_spec(self.kind@),
    {
        str_eq(self.kind.as_str(), "voice") || str_eq(self.kind.as_str(), "GuildVoice")
    }

    pub fn is_private_thread(&self) -> (r: bool)
        ensures
            r == is_private_thread_kind_spec(self.kind@),
    {
        str_eq(self.kind.as_str(), "GuildPrivateThread") || str_eq(self.kind.as_str(), "private-thread")
    }

    pub fn thread_archived(&self) -> (r: Option<bool>)
        ensures
            r == thread_archived_spec(self.thread_metadata),
    {
        metadata_archived(&self.thread_metadata)
    }

    pub fn thread_locked(&self) -> (r: Option<bool>)
        ensures
            r == thread_locked_spec(self.thread_metadata),
    {
        metadata_locked(&self.thread_metadata)
    }

    pub fn thread_pinned(&self) -> (r: Option<bool>)
        ensures
            r == thread_pinned_spec(self.flags),
    {
        flags_pinned(self.flags)
    }
}

/// One recipient of a private channel as the client keeps it.
#[derive(Clone, Debug)]
pub struct ChannelRecipientState {
    pub user_id: Id<UserMarker>,
    pub display_name: String,
    /// The login handle; the mention picker matches it too.
    pub username: Option<String>,
    pub is_bot: bool,
    pub avatar_url: Option<String>,
    pub status: PresenceStatus,
}

/// The status a recipient is shown with: the payload's, else the one it had,
/// else the one known from presences, else unknown.
pub open spec fn recipient_status_spec(
    given: Option<PresenceStatus>,
    previous: Option<PresenceStatus>,
    known: Option<PresenceStatus>,
) -> PresenceStatus {
    match given {
        Some(s) => s,
        None => match previous {
            Some(s) => s,
            None => match known {
                Some(s) => s,
                None => PresenceStatus::Unknown,
            },
        },
    }
}

pub fn clone_opt_string(s: &Option<String>) -> (r: Option<String>)
    ensures
        r == *s,
{
    match s {
        Some(v) => Some(v.clone()),
        None => None,
    }
}

impl ChannelRecipientState {
    pub fn from_info(
        recipient: &ChannelRecipientInfo,
        previous_status: Option<PresenceStatus>,
        known_status: Option<PresenceStatus>,
        display_name: String,
    ) -> (r: Self)
        ensures
            r.user_id == recipient.user_id,
            r.display_name == display_name,
            r.username == recipient.username,
            r.is_bot == recipient.is_bot,
            r.avatar_url == recipient.avatar_url,
            r.status == recipient_status_spec(recipient.status, previous_status, known_status),
    {
        let status = match recipient.status {
            Some(s) => s,
            None => match previous_status {
                Some(s) => s,
                None => match known_status {
                    Some(s) => s,
                    None => PresenceStatus::Unknown,
                },
            },
        };
        ChannelRecipientState {
            user_id: recipient.user_id,
            display_name,
            username: clone_opt_string(&recipient.username),
            is_bot: recipient.is_bot,
            avatar_url: clone_opt_string(&recipient.avatar_url),
            status,
        }
    }
}

/// Counts of viewable and permission-hidden channels in one scope.
#[derive(Clone, Copy, Debug, Eq, PartialEq, Structural)]
pub struct ChannelVisibilityStats {
    pub visible: usize,
    pub hidden: usize,
}

impl Default for ChannelVisibilityStats {
    fn default() -> (r: Self)
        ensures
            r.visible == 0 && r.hidden == 0,
    {
        ChannelVisibilityStats { visible: 0, hidden: 0 }
    }
}

/// Names joined with `", "`.
pub open spec fn join_names(names: Seq<Seq<char>>) -> Seq<char>
    decreases names.len(),
{
    if names.len() == 0 {
        Seq::empty()
    } else if names.len() == 1 {
        names[0]
    } else {
        join_names(names.drop_last()) + ", "@ + names.last()
    }
}

pub open spec fn recipient_names(recipients: Seq<ChannelRecipientState>) -> Seq<Seq<char>> {
    recipients.map_values(|r: ChannelRecipientState| r.display_name@)
}

pub open spec fn string_views(names: Seq<String>) -> Seq<Seq<char>> {
    names.map_values(|s: String| s@)
}

/// Joins strings with `", "`.
pub fn join_strings(names: &Vec<String>) -> (r: String)
    ensures
        r@ == join_names(string_views(names@)),
{
    let mut out = String::new();
    let n = names.len();
    let mut i: usize = 0;
    while i < n
        invariant
            n == names@.len(),
            i <= n,
            out@ == join_names(string_views(names@.subrange(0, i as int))),
        decreases n - i,
    {
        let ghost prev = string_views(names@.subrange(0, i as int));
        let ghost next = string_views(names@.subrange(0, i + 1));
        proof {
            assert(next.drop_last() =~= prev);
            assert(next.last() == names@[i as int]@);
        }
        if i > 0 {
            out.append(", ");
        }
        out.append(names[i].as_str());
        proof {
            if i == 0 {
                assert(next.len() == 1);
                assert(out@ =~= next[0]);
            } else {
                assert(out@ =~= join_names(prev) + ", "@ + next.last());
            }
        }
        i = i + 1;
    }
    proof {
        assert(names@.subrange(0, n as int) =~= names@);
    }
    out
}

/// The recipients' display names joined with `", "`: how a private channel
/// that follows its recipients is named.
pub fn joined_recipient_display_names(recipients: &Vec<ChannelRecipientState>) -> (r: String)
    ensures
        r@ == join_names(recipient_names(recipients@)),
{
    let names = recipient_display_names(recipients);
    proof {
        assert(string_views(names@) =~= recipient_names(recipients@));
    }
    join_strings(&names)
}

pub fn recipient_display_names(recipients: &Vec<ChannelRecipientState>) -> (r: Vec<String>)
    ensures
        string_views(r@) == recipient_names(recipients@),
{
    let mut out: Vec<String> = Vec::new();
    let n = recipients.len();
    let mut i: usize = 0;
    while i < n
        invariant
            n == recipients@.len(),
            i <= n,
            out@.len() == i,
            forall|j: int| 0 <= j < i ==> (#[trigger] out@[j])@ == recipients@[j].display_name@,
        decreases n - i,
    {
        out.push(recipients[i].display_name.clone());
        i = i + 1;
    }
    proof {
        assert(string_views(out@) =~= recipient_names(recipients@));
    }
    out
}

/// The name `dm-<id>` given to a private channel that has no name of its own.
pub open spec fn dm_placeholder_name(channel_id: u64) -> Seq<char> {
    "dm-"@ + decimal(channel_id as nat)
}

/// A private channel's name follows its recipients when it is a plain DM,
/// or when its current name is the placeholder or the recipients' names
/// joined.
pub open spec fn name_follows_recipients_spec(
    kind: Seq<char>,
    current_name: Seq<char>,
    channel_id: u64,
    recipient_names: Seq<Seq<char>>,
) -> bool {
    kind == "dm"@ || kind == "Private"@ || current_name == dm_placeholder_name(channel_id)
        || current_name == join_names(recipient_names)
}

pub fn private_channel_name_follows_recipients(
    kind: &str,
    current_name: &str,
    channel_id: Id<ChannelMarker>,
    recipient_names: &Vec<String>,
) -> (r: bool)
    ensures
        r == name_follows_recipients_spec(kind@, current_name@, channel_id@, string_views(recipient_names@)),
{
    if str_eq(kind, "dm") || str_eq(kind, "Private") {
        return true;
    }
    let digits = u64_to_decimal(channel_id.get());
    let placeholder = concat2("dm-", digits.as_str());
    if str_eq(current_name, placeholder.as_str()) {
        return true;
    }
    let joined = join_strings(recipient_names);
    str_eq(current_name, joined.as_str())
}

/// After a recipient's name changed: a private channel whose name followed
/// its recipients (judged by the names they had before) takes their new
/// joined names, unless those are empty.
pub fn refresh_private_channel_name_from_recipients(channel: &mut ChannelState, previous_names: &Vec<String>)
    ensures
        ({
            let new_name = join_names(recipient_names(old(channel).recipients@));
            let follows = old(channel).guild_id is None && name_follows_recipients_spec(
                old(channel).kind@,
                old(channel).name@,
                old(channel).id@,
                string_views(previous_names@),
            );
            &&& final(channel).name@ == (if follows && new_name.len() > 0 {
                new_name
            } else {
                old(channel).name@
            })
            &&& final(channel).id == old(channel).id
            &&& final(channel).guild_id == old(channel).guild_id
            &&& final(channel).kind == old(channel).kind
            &&& final(channel).recipients == old(channel).recipients
            &&& final(channel).last_message_id == old(channel).last_message_id
        }),
{
    if channel.guild_id.is_some() {
        return;
    }
    if !private_channel_name_follows_recipients(channel.kind.as_str(), channel.name.as_str(), channel.id, previous_names) {
        return;
    }
    let new_name = joined_recipient_display_names(&channel.recipients);
    if !new_name.as_str().is_empty() {
        channel.name = new_name;
    }
}

} // verus!
