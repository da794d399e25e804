//! Which handler family serves each command the interface sends.
use vstd::prelude::*;

use crate::commands::AppCommand;

verus! {

/// At most this many attachment previews load at once.
pub const MAX_CONCURRENT_ATTACHMENT_PREVIEWS: usize = 4;

/// At most this many attachment downloads run at once.
pub const MAX_CONCURRENT_ATTACHMENT_DOWNLOADS: usize = 2;

/// The handler family a command is routed to.
#[derive(Clone, Copy, Debug, PartialEq, Eq, Structural)]
pub enum CommandRoute {
    History,
    Gateway,
    Voice,
    Media,
    Message,
    User,
    ReadState,
    Notification,
    Session,
}

/// The routing table: each command variant and the family that serves it.
pub open spec fn route_spec(command: AppCommand) -> CommandRoute {
    match command {
        AppCommand::LoadMessageHistory { .. }
        | AppCommand::RefreshMessageHistory { .. }
        | AppCommand::LoadMessageHistoryAfter { .. }
        | AppCommand::LoadMessageHistoryAround { .. }
        | AppCommand::LoadThreadPreview { .. }
        | AppCommand::LoadForumPosts { .. }
        | AppCommand::LoadInboxMentions { .. }
        | AppCommand::LoadInboxChannelHistory { .. }
        | AppCommand::SearchMessages { .. } => CommandRoute::History,
        AppCommand::LoadGuildMembers { .. }
        | AppCommand::LoadGuildMembersByIds { .. }
        | AppCommand::SearchGuildMembers { .. }
        | AppCommand::SetSelectedGuild { .. }
        | AppCommand::SetSelectedMessageChannel { .. }
        | AppCommand::SubscribeDirectMessage { .. }
        | AppCommand::SubscribeGuildChannel { .. }
        | AppCommand::UpdateMemberListSubscription { .. } => CommandRoute::Gateway,
        AppCommand::JoinVoiceChannel { .. }
        | AppCommand::UpdateVoiceState { .. }
        | AppCommand::UpdateVoiceCapturePermission { .. }
        | AppCommand::LeaveVoiceChannel { .. } => CommandRoute::Voice,
        AppCommand::LoadAttachmentPreview { .. }
        | AppCommand::LoadProfileAvatarPreview { .. }
        | AppCommand::OpenUrl { .. }
        | AppCommand::PlayMedia { .. }
        | AppCommand::DownloadAttachment { .. } => CommandRoute::Media,
        AppCommand::LoadUserProfile { .. }
        | AppCommand::LoadUserNote { .. }
        | AppCommand::UpdateUserProfile { .. }
        | AppCommand::UpdateCurrentUserStatus { .. }
        | AppCommand::UpdateGuildFolderSettings { .. }
        | AppCommand::UpdateCurrentUserActivity { .. } => CommandRoute::User,
        AppCommand::AckChannel { .. }
        | AppCommand::ScheduleAckChannel { .. }
        | AppCommand::AckChannels { .. } => CommandRoute::ReadState,
        AppCommand::SetGuildMuted { .. }
        | AppCommand::SetChannelMuted { .. }
        | AppCommand::SetThreadMuted { .. }
        | AppCommand::SetThreadFollowed { .. }
        | AppCommand::SetThreadNotificationLevel { .. } => CommandRoute::Notification,
        AppCommand::SignOut => CommandRoute::Session,
        _ => CommandRoute::Message,
    }
}

/// The handler family that serves `command`.
pub fn command_route(command: &AppCommand) -> (r: CommandRoute)
    ensures
        r == route_spec(*command),
{
    match command {
        AppCommand::LoadMessageHistory { .. }
        | AppCommand::RefreshMessageHistory { .. }
        | AppCommand::LoadMessageHistoryAfter { .. }
        | AppCommand::LoadMessageHistoryAround { .. }
        | AppCommand::LoadThreadPreview { .. }
        | AppCommand::LoadForumPosts { .. }
        | AppCommand::LoadInboxMentions { .. }
        | AppCommand::LoadInboxChannelHistory { .. }
        | AppCommand::SearchMessages { .. } => CommandRoute::History,
        AppCommand::LoadGuildMembers { .. }
        | AppCommand::LoadGuildMembersByIds { .. }
        | AppCommand::SearchGuildMembers { .. }
        | AppCommand::SetSelectedGuild { .. }
        | AppCommand::SetSelectedMessageChannel { .. }
        | AppCommand::SubscribeDirectMessage { .. }
        | AppCommand::SubscribeGuildChannel { .. }
        | AppCommand::UpdateMemberListSubscription { .. } => CommandRoute::Gateway,
        AppCommand::JoinVoiceChannel { .. }
        | AppCommand::UpdateVoiceState { .. }
        | AppCommand::UpdateVoiceCapturePermission { .. }
        | AppCommand::LeaveVoiceChannel { .. } => CommandRoute::Voice,
        AppCommand::LoadAttachmentPreview { .. }
        | AppCommand::LoadProfileAvatarPreview { .. }
        | AppCommand::OpenUrl { .. }
        | AppCommand::PlayMedia { .. }
        | AppCommand::DownloadAttachment { .. } => CommandRoute::Media,
        AppCommand::SendMessage { .. }
        | AppCommand::CreateForumPost { .. }
        | AppCommand::SetThreadArchived { .. }
        | AppCommand::SetThreadLocked { .. }
        | AppCommand::SetThreadPinned { .. }
        | AppCommand::DeleteThread { .. }
        | AppCommand::EditThread { .. }
        | AppCommand::SendTtsMessage { .. }
        | AppCommand::LoadApplicationCommands { .. }
        | AppCommand::RunApplicationCommand { .. }
        | AppCommand::EditMessage { .. }
        | AppCommand::DeleteMessage { .. }
        | AppCommand::RemoveMessageEmbeds { .. }
        | AppCommand::LeaveGuild { .. }
        | AppCommand::AddReaction { .. }
        | AppCommand::RemoveReaction { .. }
        | AppCommand::LoadReactionUsers { .. }
        | AppCommand::LoadPinnedMessages { .. }
        | AppCommand::SetMessagePinned { .. }
        | AppCommand::VotePoll { .. } => CommandRoute::Message,
        AppCommand::LoadUserProfile { .. }
        | AppCommand::LoadUserNote { .. }
        | AppCommand::UpdateUserProfile { .. }
        | AppCommand::UpdateCurrentUserStatus { .. }
        | AppCommand::UpdateGuildFolderSettings { .. }
        | AppCommand::UpdateCurrentUserActivity { .. } => CommandRoute::User,
        AppCommand::AckChannel { .. }
        | AppCommand::ScheduleAckChannel { .. }
        | AppCommand::AckChannels { .. } => CommandRoute::ReadState,
        AppCommand::SetGuildMuted { .. }
        | AppCommand::SetChannelMuted { .. }
        | AppCommand::SetThreadMuted { .. }
        | AppCommand::SetThreadFollowed { .. }
        | AppCommand::SetThreadNotificationLevel { .. } => CommandRoute::Notification,
        AppCommand::SignOut => CommandRoute::Session,
    }
}

/// A command that runs inline, ordered with the interface's own state, is
/// always one served by the gateway or the voice family, never one that
/// waits on a network request.
pub proof fn lemma_inline_commands_are_control_commands(command: AppCommand)
    requires
        command is SetSelectedGuild || command is SetSelectedMessageChannel
            || command is UpdateVoiceCapturePermission,
    ensures
        route_spec(command) == CommandRoute::Gateway || route_spec(command) == CommandRoute::Voice,
{
}

} // verus!
