//! Application events: which of them change the client's state, which must
//! reach the UI as effects, and which parts of the snapshot they touch.
use vstd::prelude::*;

use crate::channel::{is_thread_kind, is_thread_kind_spec, ChannelInfo};
use crate::ids::{Id, MessageMarker, RoleMarker, UserMarker};
use crate::message_info::{AttachmentUpdate, EmbedInfo, MentionInfo, PollInfo};
use crate::presence::{ActivityInfo, PresenceStatus};

verus! {

/// The fields a MESSAGE_UPDATE dispatch may carry; `None` means absent.
#[derive(Clone, Debug)]
pub struct MessageUpdateEventFields {
    pub poll: Option<PollInfo>,
    pub content: Option<String>,
    pub sticker_names: Option<Vec<String>>,
    pub mentions: Option<Vec<MentionInfo>>,
    pub mention_everyone: Option<bool>,
    pub mention_roles: Option<Vec<Id<RoleMarker>>>,
    pub flags: Option<u64>,
    pub attachments: AttachmentUpdate,
    pub embeds: Option<Vec<EmbedInfo>>,
    pub edited_timestamp: Option<String>,
}

impl Default for MessageUpdateEventFields {
    fn default() -> (r: Self)
        ensures
            r.poll is None,
            r.content is None,
            r.sticker_names is None,
            r.mentions is None,
            r.mention_everyone is None,
            r.mention_roles is None,
            r.flags is None,
            r.attachments is Unchanged,
            r.embeds is None,
            r.edited_timestamp is None,
    {
        MessageUpdateEventFields {
            poll: None,
            content: None,
            sticker_names: None,
            mentions: None,
            mention_everyone: None,
            mention_roles: None,
            flags: None,
            attachments: AttachmentUpdate::Unchanged,
            embeds: None,
            edited_timestamp: None,
        }
    }
}

/// One user's presence as a dispatch reports it.
#[derive(Clone, Debug)]
pub struct PresenceEventFields {
    pub user_id: Id<UserMarker>,
    pub status: PresenceStatus,
    pub activities: Vec<ActivityInfo>,
}

/// Which window of a channel's history a load asks for.
#[derive(Clone, Copy, Debug, Eq, PartialEq)]
pub enum MessageHistoryLoadTarget {
    Latest,
    Older { before: Id<MessageMarker> },
    Newer { after: Id<MessageMarker> },
    Around { message_id: Id<MessageMarker> },
}

/// The parts of the published snapshot that an event may change.
#[derive(Clone, Copy, Debug, Eq, PartialEq, Structural)]
pub struct SnapshotAreas {
    pub navigation: bool,
    pub message: bool,
    pub detail: bool,
}

pub open spec fn areas_all() -> SnapshotAreas {
    SnapshotAreas { navigation: true, message: true, detail: true }
}

pub open spec fn areas_navigation() -> SnapshotAreas {
    SnapshotAreas { navigation: true, message: false, detail: false }
}

pub open spec fn areas_message() -> SnapshotAreas {
    SnapshotAreas { navigation: false, message: true, detail: false }
}

pub open spec fn areas_navigation_and_message() -> SnapshotAreas {
    SnapshotAreas { navigation: true, message: true, detail: false }
}

pub open spec fn areas_navigation_and_detail() -> SnapshotAreas {
    SnapshotAreas { navigation: true, message: false, detail: true }
}

impl SnapshotAreas {
    pub fn all() -> (r: Self)
        ensures
            r == areas_all(),
    {
        SnapshotAreas { navigation: true, message: true, detail: true }
    }

    pub fn navigation() -> (r: Self)
        ensures
            r == areas_navigation(),
    {
        SnapshotAreas { navigation: true, message: false, detail: false }
    }

    pub fn message() -> (r: Self)
        ensures
            r == areas_message(),
    {
        SnapshotAreas { navigation: false, message: true, detail: false }
    }

    pub fn navigation_and_message() -> (r: Self)
        ensures
            r == areas_navigation_and_message(),
    {
        SnapshotAreas { navigation: true, message: true, detail: false }
    }

    pub fn navigation_and_detail() -> (r: Self)
        ensures
            r == areas_navigation_and_detail(),
    {
        SnapshotAreas { navigation: true, message: false, detail: true }
    }
}

/// How an event is published: whether it changes the client's state,
/// whether it must be delivered to the UI as an effect, and which snapshot
/// areas a state change touches.
#[derive(Clone, Copy, Debug, Eq, PartialEq, Structural)]
pub struct AppEventMetadata {
    pub mutates_discord_state: bool,
    pub needs_effect_delivery: bool,
    pub snapshot_areas: Option<SnapshotAreas>,
}

pub open spec fn metadata_mutating(areas: SnapshotAreas) -> AppEventMetadata {
    AppEventMetadata { mutates_discord_state: true, needs_effect_delivery: false, snapshot_areas: Some(areas) }
}

pub open spec fn metadata_mutating_effect(areas: SnapshotAreas) -> AppEventMetadata {
    AppEventMetadata { mutates_discord_state: true, needs_effect_delivery: true, snapshot_areas: Some(areas) }
}

pub open spec fn metadata_effect_only() -> AppEventMetadata {
    AppEventMetadata { mutates_discord_state: false, needs_effect_delivery: true, snapshot_areas: None }
}

pub open spec fn metadata_inert() -> AppEventMetadata {
    AppEventMetadata { mutates_discord_state: false, needs_effect_delivery: false, snapshot_areas: None }
}

impl AppEventMetadata {
    /// Changes state, touching `snapshot_areas`; nothing for the UI.
    pub fn mutating(snapshot_areas: SnapshotAreas) -> (r: Self)
        ensures
            r == metadata_mutating(snapshot_areas),
    {
        AppEventMetadata { mutates_discord_state: true, needs_effect_delivery: false, snapshot_areas: Some(snapshot_areas) }
    }

    /// Changes state and is delivered to the UI as well.
    pub fn mutating_effect(snapshot_areas: SnapshotAreas) -> (r: Self)
        ensures
            r == metadata_mutating_effect(snapshot_areas),
    {
        AppEventMetadata { mutates_discord_state: true, needs_effect_delivery: true, snapshot_areas: Some(snapshot_areas) }
    }

    /// Only delivered to the UI.
    pub fn effect_only() -> (r: Self)
        ensures
            r == metadata_effect_only(),
    {
        AppEventMetadata { mutates_discord_state: false, needs_effect_delivery: true, snapshot_areas: None }
    }

    /// Neither changes state nor reaches the UI.
    pub fn inert() -> (r: Self)
        ensures
            r == metadata_inert(),
    {
        AppEventMetadata { mutates_discord_state: false, needs_effect_delivery: false, snapshot_areas: None }
    }
}

/// The kind of an application event, one per event variant.
#[derive(Clone, Copy, Debug, Eq, PartialEq, Structural)]
pub enum AppEventKind {
    GatewayDispatchReceived,
    Ready,
    SignedOut,
    DmEstablished,
    CurrentUserCapabilities,
    UserIdentityUpdate,
    ApplicationCommandsLoaded,
    GuildCreate,
    GuildUpdate,
    GuildRolesUpdate,
    GuildRoleUpsert,
    GuildRoleDelete,
    GuildEmojisUpdate,
    GuildDelete,
    SelectedGuildChanged,
    SelectedMessageChannelChanged,
    ChannelUpsert,
    ChannelDelete,
    ThreadListSync,
    ThreadMembersUpdateDispatch,
    MessageCreate,
    MessageHistoryLoaded,
    MessageHistoryRefreshed,
    MessageHistoryAfterLoaded,
    MessageHistoryAroundLoaded,
    ThreadPreviewLoaded,
    ThreadPreviewLoadFailed,
    ForumPostsLoaded,
    ForumPostsLoadFailed,
    MessageSearchLoaded,
    MessageSearchLoadFailed,
    InboxMentionsLoaded,
    InboxMentionsLoadFailed,
    InboxChannelMessagesLoaded,
    InboxChannelMessagesLoadFailed,
    MessageHistoryLoadFailed,
    MessageUpdateDispatch,
    MessageDelete,
    MessageDeleteBulk,
    GuildMemberListUpdate,
    GuildMembersChunk,
    GuildMemberUpsert,
    GuildMemberAdd,
    GuildMemberRemove,
    PresenceUpdate,
    RichPresenceDetected,
    VoiceStateUpdate,
    VoiceSpeakingUpdate,
    VoiceServerUpdate,
    VoiceConnectionStatusChanged,
    VoiceSound,
    CallDelete,
    TypingStart,
    CurrentUserReactionAdd,
    CurrentUserReactionRemove,
    MessageReactionAdd,
    MessageReactionRemove,
    MessageReactionRemoveAll,
    MessageReactionRemoveEmoji,
    MessagePinnedUpdate,
    ChannelPinsUpdate,
    PinnedMessagesLoaded,
    PinnedMessagesLoadFailed,
    CurrentUserPollVoteUpdate,
    ReactionUsersLoaded,
    ReactionUsersLoadFailed,
    UserSettingsUpdate,
    UserGuildSettingsInit,
    UserGuildSettingsUpdate,
    GatewayError,
    CaptchaRequired,
    ThreadNotificationLevelUpdate,
    MediaPlaybackWindowReady,
    AttachmentDownloadStarted,
    AttachmentDownloadProgress,
    AttachmentDownloadCompleted,
    AttachmentDownloadFailed,
    UpdateAvailable,
    AttachmentPreviewLoaded,
    AttachmentPreviewLoadFailed,
    UserProfileLoaded,
    UserProfileLoadFailed,
    UserProfileUpdateFailed,
    UserNoteLoaded,
    RelationshipsLoaded,
    RelationshipUpsert,
    RelationshipRemove,
    ActivateChannel,
    ReadStateInit,
    MessageAck,
    GatewayResumed,
    GatewayReidentified,
    GatewayClosed,
}

/// How each kind of event is published. Guild, channel and thread
/// structure, and READY, touch every area; message loads and creations are
/// also delivered to the UI; per-message changes touch the message area;
/// membership, presence, voice and settings touch navigation; read states
/// touch navigation and detail; errors, downloads, previews and other
/// notices only reach the UI; a voice server update does neither.
pub open spec fn metadata_spec(kind: AppEventKind) -> AppEventMetadata {
    match kind {
        AppEventKind::GuildCreate
        | AppEventKind::GuildUpdate
        | AppEventKind::GuildDelete
        | AppEventKind::ThreadListSync
        | AppEventKind::ThreadMembersUpdateDispatch
        | AppEventKind::ChannelUpsert
        | AppEventKind::ChannelDelete
        | AppEventKind::Ready => metadata_mutating(areas_all()),
        AppEventKind::ForumPostsLoaded => metadata_mutating_effect(areas_all()),
        AppEventKind::MessageCreate => metadata_mutating_effect(areas_navigation_and_message()),
        AppEventKind::MessageHistoryLoaded
        | AppEventKind::MessageHistoryRefreshed
        | AppEventKind::MessageHistoryAfterLoaded
        | AppEventKind::MessageHistoryAroundLoaded
        | AppEventKind::MessageSearchLoaded
        | AppEventKind::ThreadPreviewLoaded
        | AppEventKind::PinnedMessagesLoaded => metadata_mutating_effect(areas_message()),
        AppEventKind::MessageUpdateDispatch
        | AppEventKind::CurrentUserReactionAdd
        | AppEventKind::CurrentUserReactionRemove
        | AppEventKind::MessageReactionAdd
        | AppEventKind::MessageReactionRemove
        | AppEventKind::MessageReactionRemoveAll
        | AppEventKind::MessageReactionRemoveEmoji
        | AppEventKind::MessagePinnedUpdate
        | AppEventKind::ChannelPinsUpdate
        | AppEventKind::CurrentUserPollVoteUpdate
        | AppEventKind::MessageDelete
        | AppEventKind::MessageDeleteBulk => metadata_mutating(areas_message()),
        AppEventKind::SelectedMessageChannelChanged => metadata_mutating(areas_navigation_and_message()),
        AppEventKind::UserProfileLoaded => metadata_mutating_effect(areas_navigation_and_message()),
        AppEventKind::GuildMemberAdd
        | AppEventKind::GuildMemberUpsert
        | AppEventKind::RelationshipsLoaded
        | AppEventKind::RelationshipUpsert
        | AppEventKind::UserIdentityUpdate
        | AppEventKind::RelationshipRemove => metadata_mutating(areas_navigation_and_message()),
        AppEventKind::SelectedGuildChanged
        | AppEventKind::GuildRolesUpdate
        | AppEventKind::GuildRoleUpsert
        | AppEventKind::GuildRoleDelete
        | AppEventKind::GuildEmojisUpdate
        | AppEventKind::GuildMemberListUpdate
        | AppEventKind::GuildMembersChunk
        | AppEventKind::GuildMemberRemove
        | AppEventKind::PresenceUpdate
        | AppEventKind::VoiceStateUpdate
        | AppEventKind::VoiceSpeakingUpdate
        | AppEventKind::CallDelete
        | AppEventKind::TypingStart
        | AppEventKind::UserSettingsUpdate
        | AppEventKind::UserNoteLoaded
        | AppEventKind::UserGuildSettingsInit
        | AppEventKind::UserGuildSettingsUpdate => metadata_mutating(areas_navigation()),
        AppEventKind::ReadStateInit
        | AppEventKind::MessageAck => metadata_mutating(areas_navigation_and_detail()),
        AppEventKind::GatewayError
        | AppEventKind::CaptchaRequired
        | AppEventKind::GatewayDispatchReceived
        | AppEventKind::SignedOut
        | AppEventKind::MediaPlaybackWindowReady
        | AppEventKind::ApplicationCommandsLoaded
        | AppEventKind::AttachmentDownloadStarted
        | AppEventKind::AttachmentDownloadProgress
        | AppEventKind::AttachmentDownloadCompleted
        | AppEventKind::AttachmentDownloadFailed
        | AppEventKind::UpdateAvailable
        | AppEventKind::ReactionUsersLoaded
        | AppEventKind::ReactionUsersLoadFailed
        | AppEventKind::AttachmentPreviewLoaded
        | AppEventKind::AttachmentPreviewLoadFailed
        | AppEventKind::ThreadPreviewLoadFailed
        | AppEventKind::ForumPostsLoadFailed
        | AppEventKind::MessageSearchLoadFailed
        | AppEventKind::MessageHistoryLoadFailed
        | AppEventKind::InboxMentionsLoaded
        | AppEventKind::InboxMentionsLoadFailed
        | AppEventKind::InboxChannelMessagesLoaded
        | AppEventKind::InboxChannelMessagesLoadFailed
        | AppEventKind::PinnedMessagesLoadFailed
        | AppEventKind::UserProfileLoadFailed
        | AppEventKind::UserProfileUpdateFailed
        | AppEventKind::VoiceConnectionStatusChanged
        | AppEventKind::VoiceSound
        | AppEventKind::ActivateChannel
        | AppEventKind::RichPresenceDetected
        | AppEventKind::GatewayResumed
        | AppEventKind::GatewayReidentified
        | AppEventKind::GatewayClosed
        | AppEventKind::DmEstablished => metadata_effect_only(),
        AppEventKind::VoiceServerUpdate => metadata_inert(),
        AppEventKind::CurrentUserCapabilities => metadata_mutating_effect(areas_navigation()),
        AppEventKind::ThreadNotificationLevelUpdate => metadata_mutating(areas_navigation()),
    }
}

impl AppEventKind {
    pub fn metadata(self) -> (r: AppEventMetadata)
        ensures
            r == metadata_spec(self),
    {
        match self {
        AppEventKind::GuildCreate
        | AppEventKind::GuildUpdate
        | AppEventKind::GuildDelete
        | AppEventKind::ThreadListSync
        | AppEventKind::ThreadMembersUpdateDispatch
        | AppEventKind::ChannelUpsert
        | AppEventKind::ChannelDelete
        | AppEventKind::Ready => AppEventMetadata::mutating(SnapshotAreas::all()),
        AppEventKind::ForumPostsLoaded => AppEventMetadata::mutating_effect(SnapshotAreas::all()),
        AppEventKind::MessageCreate => AppEventMetadata::mutating_effect(SnapshotAreas::navigation_and_message()),
        AppEventKind::MessageHistoryLoaded
        | AppEventKind::MessageHistoryRefreshed
        | AppEventKind::MessageHistoryAfterLoaded
        | AppEventKind::MessageHistoryAroundLoaded
        | AppEventKind::MessageSearchLoaded
        | AppEventKind::ThreadPreviewLoaded
        | AppEventKind::PinnedMessagesLoaded => AppEventMetadata::mutating_effect(SnapshotAreas::message()),
        AppEventKind::MessageUpdateDispatch
        | AppEventKind::CurrentUserReactionAdd
        | AppEventKind::CurrentUserReactionRemove
        | AppEventKind::MessageReactionAdd
        | AppEventKind::MessageReactionRemove
        | AppEventKind::MessageReactionRemoveAll
        | AppEventKind::MessageReactionRemoveEmoji
        | AppEventKind::MessagePinnedUpdate
        | AppEventKind::ChannelPinsUpdate
        | AppEventKind::CurrentUserPollVoteUpdate
        | AppEventKind::MessageDelete
        | AppEventKind::MessageDeleteBulk => AppEventMetadata::mutating(SnapshotAreas::message()),
        AppEventKind::SelectedMessageChannelChanged => AppEventMetadata::mutating(SnapshotAreas::navigation_and_message()),
        AppEventKind::UserProfileLoaded => AppEventMetadata::mutating_effect(SnapshotAreas::navigation_and_message()),
        AppEventKind::GuildMemberAdd
        | AppEventKind::GuildMemberUpsert
        | AppEventKind::RelationshipsLoaded
        | AppEventKind::RelationshipUpsert
        | AppEventKind::UserIdentityUpdate
        | AppEventKind::RelationshipRemove => AppEventMetadata::mutating(SnapshotAreas::navigation_and_message()),
        AppEventKind::SelectedGuildChanged
        | AppEventKind::GuildRolesUpdate
        | AppEventKind::GuildRoleUpsert
        | AppEventKind::GuildRoleDelete
        | AppEventKind::GuildEmojisUpdate
        | AppEventKind::GuildMemberListUpdate
        | AppEventKind::GuildMembersChunk
        | AppEventKind::GuildMemberRemove
        | AppEventKind::PresenceUpdate
        | AppEventKind::VoiceStateUpdate
        | AppEventKind::VoiceSpeakingUpdate
        | AppEventKind::CallDelete
        | AppEventKind::TypingStart
        | AppEventKind::UserSettingsUpdate
        | AppEventKind::UserNoteLoaded
        | AppEventKind::UserGuildSettingsInit
        | AppEventKind::UserGuildSettingsUpdate => AppEventMetadata::mutating(SnapshotAreas::navigation()),
        AppEventKind::ReadStateInit
        | AppEventKind::MessageAck => AppEventMetadata::mutating(SnapshotAreas::navigation_and_detail()),
        AppEventKind::GatewayError
        | AppEventKind::CaptchaRequired
        | AppEventKind::GatewayDispatchReceived
        | AppEventKind::SignedOut
        | AppEventKind::MediaPlaybackWindowReady
        | AppEventKind::ApplicationCommandsLoaded
        | AppEventKind::AttachmentDownloadStarted
        | AppEventKind::AttachmentDownloadProgress
        | AppEventKind::AttachmentDownloadCompleted
        | AppEventKind::AttachmentDownloadFailed
        | AppEventKind::UpdateAvailable
        | AppEventKind::ReactionUsersLoaded
        | AppEventKind::ReactionUsersLoadFailed
        | AppEventKind::AttachmentPreviewLoaded
        | AppEventKind::AttachmentPreviewLoadFailed
        | AppEventKind::ThreadPreviewLoadFailed
        | AppEventKind::ForumPostsLoadFailed
        | AppEventKind::MessageSearchLoadFailed
        | AppEventKind::MessageHistoryLoadFailed
        | AppEventKind::InboxMentionsLoaded
        | AppEventKind::InboxMentionsLoadFailed
        | AppEventKind::InboxChannelMessagesLoaded
        | AppEventKind::InboxChannelMessagesLoadFailed
        | AppEventKind::PinnedMessagesLoadFailed
        | AppEventKind::UserProfileLoadFailed
        | AppEventKind::UserProfileUpdateFailed
        | AppEventKind::VoiceConnectionStatusChanged
        | AppEventKind::VoiceSound
        | AppEventKind::ActivateChannel
        | AppEventKind::RichPresenceDetected
        | AppEventKind::GatewayResumed
        | AppEventKind::GatewayReidentified
        | AppEventKind::GatewayClosed
        | AppEventKind::DmEstablished => AppEventMetadata::effect_only(),
        AppEventKind::VoiceServerUpdate => AppEventMetadata::inert(),
        AppEventKind::CurrentUserCapabilities => AppEventMetadata::mutating_effect(SnapshotAreas::navigation()),
        AppEventKind::ThreadNotificationLevelUpdate => AppEventMetadata::mutating(SnapshotAreas::navigation()),
        }
    }
}

/// Whether an upserted channel is a thread under a parent, whose upsert the
/// UI must also see.
pub open spec fn channel_upsert_needs_effect_spec(channel: ChannelInfo) -> bool {
    channel.parent_id is Some && is_thread_kind_spec(channel.kind@)
}

pub fn channel_upsert_needs_effect_delivery(channel: &ChannelInfo) -> (r: bool)
    ensures
        r == channel_upsert_needs_effect_spec(*channel),
{
    channel.parent_id.is_some() && is_thread_kind(channel.kind.as_str())
}

/// How a channel upsert is published: a thread with a parent also reaches
/// the UI; any other channel is published as its kind says.
pub fn channel_upsert_metadata(channel: &ChannelInfo) -> (r: AppEventMetadata)
    ensures
        r == (if channel_upsert_needs_effect_spec(*channel) {
            metadata_mutating_effect(areas_all())
        } else {
            metadata_spec(AppEventKind::ChannelUpsert)
        }),
{
    if channel_upsert_needs_effect_delivery(channel) {
        AppEventMetadata::mutating_effect(SnapshotAreas::all())
    } else {
        AppEventKind::ChannelUpsert.metadata()
    }
}

/// Every event that changes the client's state names the snapshot areas it
/// touches, and no other event names any.
pub proof fn lemma_areas_exactly_when_mutating(kind: AppEventKind)
    ensures
        metadata_spec(kind).snapshot_areas is Some <==> metadata_spec(kind).mutates_discord_state,
{
}

/// Every event is published somewhere, to the state or to the UI, except a
/// voice server update, which the voice runtime consumes on its own.
pub proof fn lemma_only_voice_server_update_is_inert(kind: AppEventKind)
    ensures
        (!metadata_spec(kind).mutates_discord_state && !metadata_spec(kind).needs_effect_delivery)
            <==> kind == AppEventKind::VoiceServerUpdate,
{
}

} // verus!
