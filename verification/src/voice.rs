//! Voice-call scopes and the user's voice settings.
use vstd::prelude::*;

use crate::ids::{ChannelMarker, GuildMarker, Id};

verus! {

/// Where a voice call lives: a guild, or a DM / group-DM channel (which has
/// no guild).
#[derive(Clone, Copy, Debug, Eq, PartialEq)]
pub enum VoiceScope {
    Guild(Id<GuildMarker>),
    Private(Id<ChannelMarker>),
}

impl VoiceScope {
    /// The guild of a guild call; `None` for DM calls.
    pub fn guild_id(self) -> (r: Option<Id<GuildMarker>>)
        ensures
            match self {
                VoiceScope::Guild(g) => r == Some(g),
                VoiceScope::Private(_) => r is None,
            },
    {
        match self {
            VoiceScope::Guild(g) => Some(g),
            VoiceScope::Private(_) => None,
        }
    }
}

/// Microphone activation threshold in decibels.
#[derive(Clone, Copy, Debug, Eq, PartialEq, Structural)]
pub struct MicrophoneSensitivityDb {
    pub db: i16,
}

impl Default for MicrophoneSensitivityDb {
    fn default() -> (r: Self)
        ensures
            r.db == -50,
    {
        MicrophoneSensitivityDb { db: -50 }
    }
}

/// A volume as a percentage of the nominal level.
#[derive(Clone, Copy, Debug, Eq, PartialEq, Structural)]
pub struct VoiceVolumePercent {
    pub percent: u16,
}

impl Default for VoiceVolumePercent {
    fn default() -> (r: Self)
        ensures
            r.percent == 100,
    {
        VoiceVolumePercent { percent: 100 }
    }
}

} // verus!
