//! Notification levels and per-guild notification settings.
use vstd::prelude::*;

use crate::ids::{ChannelMarker, GuildMarker, Id};

verus! {

#[derive(Clone, Copy, Debug, Eq, PartialEq, Structural)]
pub enum NotificationLevel {
    AllMessages,
    OnlyMentions,
    NoMessages,
    ParentDefault,
}

pub open spec fn notification_level_spec(code: u64) -> Option<NotificationLevel> {
    if code == 0 {
        Some(NotificationLevel::AllMessages)
    } else if code == 1 {
        Some(NotificationLevel::OnlyMentions)
    } else if code == 2 {
        Some(NotificationLevel::NoMessages)
    } else if code == 3 {
        Some(NotificationLevel::ParentDefault)
    } else {
        None
    }
}

impl NotificationLevel {
    /// Discord's `message_notifications` code; unknown codes give `None`.
    pub fn from_code(code: u64) -> (r: Option<Self>)
        ensures
            r == notification_level_spec(code),
    {
        match code {
            0 => Some(NotificationLevel::AllMessages),
            1 => Some(NotificationLevel::OnlyMentions),
            2 => Some(NotificationLevel::NoMessages),
            3 => Some(NotificationLevel::ParentDefault),
            _ => None,
        }
    }
}

#[derive(Clone, Debug, Eq, PartialEq)]
pub struct ChannelNotificationOverrideInfo {
    pub channel_id: Id<ChannelMarker>,
    pub message_notifications: Option<NotificationLevel>,
    pub muted: bool,
    pub mute_end_time: Option<String>,
}

#[derive(Clone, Debug, Eq, PartialEq)]
pub struct GuildNotificationSettingsInfo {
    pub guild_id: Option<Id<GuildMarker>>,
    pub message_notifications: Option<NotificationLevel>,
    pub muted: bool,
    pub mute_end_time: Option<String>,
    pub suppress_everyone: bool,
    pub suppress_roles: bool,
    pub channel_overrides: Vec<ChannelNotificationOverrideInfo>,
}

/// The number Discord uses for each level in `message_notifications`.
pub open spec fn notification_code(level: NotificationLevel) -> u64 {
    match level {
        NotificationLevel::AllMessages => 0,
        NotificationLevel::OnlyMentions => 1,
        NotificationLevel::NoMessages => 2,
        NotificationLevel::ParentDefault => 3,
    }
}

/// Reading a code gives the level Discord numbers with it, and every level
/// reads back from its own number: codes 0 to 3 name four different levels
/// (0 all messages, 1 only mentions, 2 none, 3 the parent's default), and
/// no other code names one.
pub proof fn lemma_codes_name_their_levels(code: u64, other: u64, level: NotificationLevel)
    ensures
        notification_level_spec(code) matches Some(l) ==> notification_code(l) == code,
        notification_level_spec(notification_code(level)) == Some(level),
        notification_level_spec(code) is Some <==> code <= 3,
        notification_level_spec(code) is Some && notification_level_spec(code) == notification_level_spec(other)
            ==> code == other,
{
}

} // verus!
