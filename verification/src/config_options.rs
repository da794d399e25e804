//! User options read from the configuration files, with their defaults and the
//! rules that interpret them.
use std::collections::BTreeMap;
use std::path::PathBuf;
use vstd::prelude::*;
use vstd::string::*;

use crate::commands::ReactionEmoji;
use crate::ids::{ChannelMarker, GuildMarker, Id};
use crate::text::{str_trim, trim_spec};
use crate::voice::{MicrophoneSensitivityDb, VoiceVolumePercent};

verus! {

pub const DEFAULT_SERVER_WIDTH: u16 = 20;

pub const DEFAULT_CHANNEL_LIST_WIDTH: u16 = 24;

pub const DEFAULT_MEMBER_LIST_WIDTH: u16 = 26;

#[derive(Clone, Copy, Debug, Eq, PartialEq, Structural)]
pub enum ImagePreviewQualityPreset {
    Efficient,
    Balanced,
    High,
    Original,
}

impl Default for ImagePreviewQualityPreset {
    fn default() -> (r: Self)
        ensures
            r == ImagePreviewQualityPreset::Balanced,
    {
        ImagePreviewQualityPreset::Balanced
    }
}

pub open spec fn preset_next_spec(p: ImagePreviewQualityPreset) -> ImagePreviewQualityPreset {
    match p {
        ImagePreviewQualityPreset::Efficient => ImagePreviewQualityPreset::Balanced,
        ImagePreviewQualityPreset::Balanced => ImagePreviewQualityPreset::High,
        ImagePreviewQualityPreset::High => ImagePreviewQualityPreset::Original,
        ImagePreviewQualityPreset::Original => ImagePreviewQualityPreset::Efficient,
    }
}

impl ImagePreviewQualityPreset {
    pub fn label(self) -> (r: &'static str)
        ensures
            r == (match self {
                ImagePreviewQualityPreset::Efficient => "efficient",
                ImagePreviewQualityPreset::Balanced => "balanced",
                ImagePreviewQualityPreset::High => "high",
                ImagePreviewQualityPreset::Original => "original",
            }),
    {
        match self {
            ImagePreviewQualityPreset::Efficient => "efficient",
            ImagePreviewQualityPreset::Balanced => "balanced",
            ImagePreviewQualityPreset::High => "high",
            ImagePreviewQualityPreset::Original => "original",
        }
    }

    /// The next preset in the cycle efficient, balanced, high, original.
    pub fn next(self) -> (r: Self)
        ensures
            r == preset_next_spec(self),
    {
        match self {
            ImagePreviewQualityPreset::Efficient => ImagePreviewQualityPreset::Balanced,
            ImagePreviewQualityPreset::Balanced => ImagePreviewQualityPreset::High,
            ImagePreviewQualityPreset::High => ImagePreviewQualityPreset::Original,
            ImagePreviewQualityPreset::Original => ImagePreviewQualityPreset::Efficient,
        }
    }
}

/// Stepping through the presets comes back to the start after four steps,
/// and every preset is reached on the way.
pub proof fn lemma_preset_cycle(p: ImagePreviewQualityPreset)
    ensures
        preset_next_spec(preset_next_spec(preset_next_spec(preset_next_spec(p)))) == p,
        preset_next_spec(p) != p,
{
}

#[derive(Clone, Copy, Debug, Eq, PartialEq, Structural)]
pub enum ImageProtocolPreference {
    Auto,
    Iterm2,
    Kitty,
    Sixel,
    Halfblocks,
}

impl Default for ImageProtocolPreference {
    fn default() -> (r: Self)
        ensures
            r == ImageProtocolPreference::Auto,
    {
        ImageProtocolPreference::Auto
    }
}

#[derive(Clone, Copy, Debug, Eq, PartialEq)]
pub struct DisplayOptions {
    pub disable_image_preview: bool,
    pub show_avatars: bool,
    pub show_images: bool,
    pub media_playback: bool,
    pub image_preview_quality: ImagePreviewQualityPreset,
    pub attachment_viewer_quality: ImagePreviewQualityPreset,
    pub image_protocol: ImageProtocolPreference,
    pub show_custom_emoji: bool,
    pub circular_avatars: bool,
}

impl Default for DisplayOptions {
    fn default() -> (r: Self)
        ensures
            !r.disable_image_preview,
            r.show_avatars,
            r.show_images,
            !r.media_playback,
            r.image_preview_quality == ImagePreviewQualityPreset::Balanced,
            r.attachment_viewer_quality == ImagePreviewQualityPreset::Original,
            r.image_protocol == ImageProtocolPreference::Auto,
            r.show_custom_emoji,
            !r.circular_avatars,
    {
        DisplayOptions {
            disable_image_preview: false,
            show_avatars: true,
            show_images: true,
            media_playback: false,
            image_preview_quality: ImagePreviewQualityPreset::Balanced,
            attachment_viewer_quality: ImagePreviewQualityPreset::Original,
            image_protocol: ImageProtocolPreference::Auto,
            show_custom_emoji: true,
            circular_avatars: false,
        }
    }
}

impl DisplayOptions {
    /// Avatars show unless image previews are disabled as a whole.
    pub fn avatars_visible(self) -> (r: bool)
        ensures
            r == (!self.disable_image_preview && self.show_avatars),
    {
        !self.disable_image_preview && self.show_avatars
    }

    pub fn images_visible(self) -> (r: bool)
        ensures
            r == (!self.disable_image_preview && self.show_images),
    {
        !self.disable_image_preview && self.show_images
    }

    pub fn media_playback_enabled(self) -> (r: bool)
        ensures
            r == self.media_playback,
    {
        self.media_playback
    }

    pub fn custom_emoji_visible(self) -> (r: bool)
        ensures
            r == (!self.disable_image_preview && self.show_custom_emoji),
    {
        !self.disable_image_preview && self.show_custom_emoji
    }
}

#[derive(Clone, Copy, Debug, Eq, PartialEq)]
pub struct ComposerOptions {
    pub emojis_as_links: bool,
    pub ping_on_reply: bool,
}

impl Default for ComposerOptions {
    fn default() -> (r: Self)
        ensures
            !r.emojis_as_links,
            r.ping_on_reply,
    {
        ComposerOptions { emojis_as_links: false, ping_on_reply: true }
    }
}

#[derive(Clone, Copy, Debug, Eq, PartialEq, Structural)]
pub enum CredentialStoreMode {
    Auto,
    Keychain,
    Plain,
}

impl Default for CredentialStoreMode {
    fn default() -> (r: Self)
        ensures
            r == CredentialStoreMode::Auto,
    {
        CredentialStoreMode::Auto
    }
}

#[derive(Clone, Copy, Debug, Eq, PartialEq)]
pub struct CredentialOptions {
    pub store: CredentialStoreMode,
}

impl Default for CredentialOptions {
    fn default() -> (r: Self)
        ensures
            r.store == CredentialStoreMode::Auto,
    {
        CredentialOptions { store: CredentialStoreMode::Auto }
    }
}

#[derive(Clone, Debug)]
pub struct NotificationOptions {
    pub desktop_notifications: bool,
    pub notification_icon: Option<String>,
    pub notification_sound: Option<PathBuf>,
    pub voice_join_sound: Option<PathBuf>,
    pub voice_leave_sound: Option<PathBuf>,
}

impl Default for NotificationOptions {
    fn default() -> (r: Self)
        ensures
            r.desktop_notifications,
            r.notification_icon is None,
            r.notification_sound is None,
            r.voice_join_sound is None,
            r.voice_leave_sound is None,
    {
        NotificationOptions {
            desktop_notifications: true,
            notification_icon: None,
            notification_sound: None,
            voice_join_sound: None,
            voice_leave_sound: None,
        }
    }
}

#[derive(Clone, Copy, Debug, Eq, PartialEq)]
pub struct VoiceOptions {
    pub self_mute: bool,
    pub self_deaf: bool,
    pub allow_microphone_transmit: bool,
    pub microphone_sensitivity: MicrophoneSensitivityDb,
    pub microphone_volume: VoiceVolumePercent,
    pub voice_output_volume: VoiceVolumePercent,
}

impl Default for VoiceOptions {
    fn default() -> (r: Self)
        ensures
            !r.self_mute,
            !r.self_deaf,
            !r.allow_microphone_transmit,
    {
        VoiceOptions {
            self_mute: false,
            self_deaf: false,
            allow_microphone_transmit: false,
            microphone_sensitivity: MicrophoneSensitivityDb::default(),
            microphone_volume: VoiceVolumePercent::default(),
            voice_output_volume: VoiceVolumePercent::default(),
        }
    }
}

#[derive(Clone, Copy, Debug, Eq, PartialEq)]
pub struct PresenceOptions {
    pub share_rich_presence: bool,
}

impl Default for PresenceOptions {
    fn default() -> (r: Self)
        ensures
            r.share_rich_presence,
    {
        PresenceOptions { share_rich_presence: true }
    }
}

#[derive(Clone, Debug)]
pub struct AppOptions {
    pub display: DisplayOptions,
    pub composer: ComposerOptions,
    pub credentials: CredentialOptions,
    pub notifications: NotificationOptions,
    pub voice: VoiceOptions,
    pub presence: PresenceOptions,
}

/// A key binding: the keys that trigger an action and an optional
/// description. No keys means the action is disabled.
#[derive(Clone, Debug, Eq, PartialEq)]
pub struct KeymapBinding {
    pub keys: Vec<String>,
    pub description: Option<String>,
}

impl KeymapBinding {
    pub fn one(key: String) -> (r: Self)
        ensures
            r.keys@ == seq![key],
            r.description is None,
    {
        let mut keys = Vec::new();
        keys.push(key);
        KeymapBinding { keys, description: None }
    }

    pub fn disabled() -> (r: Self)
        ensures
            r.keys@.len() == 0,
            r.description is None,
    {
        KeymapBinding { keys: Vec::new(), description: None }
    }

    pub fn is_disabled(&self) -> (r: bool)
        ensures
            r == (self.keys@.len() == 0),
    {
        self.keys.len() == 0
    }
}

/// The shapes a binding's keys may be written in: one key or a list.
pub enum KeymapKeysInput {
    One(String),
    Many(Vec<String>),
}

/// The shapes a binding may be written in: `false` to disable it, its keys,
/// or a table of keys and description.
pub enum KeymapBindingInput {
    Disabled(bool),
    Keys(KeymapKeysInput),
    Structured { keys: KeymapKeysInput, description: Option<String> },
}

/// Why a written binding was refused.
#[derive(Clone, Copy, Debug, Eq, PartialEq, Structural)]
pub enum KeymapBindingError {
    /// `true` was written where only `false` (disable) is meaningful.
    TrueIsNotABinding,
}

pub open spec fn blank(s: Seq<char>) -> bool {
    trim_spec(s).len() == 0
}

pub open spec fn keys_of_input(input: KeymapKeysInput) -> Seq<String> {
    match input {
        KeymapKeysInput::One(k) => if blank(k@) {
            Seq::empty()
        } else {
            seq![k]
        },
        KeymapKeysInput::Many(keys) => if forall|i: int| 0 <= i < keys@.len() ==> blank(#[trigger] keys@[i]@) {
            Seq::empty()
        } else {
            keys@
        },
    }
}

impl KeymapKeysInput {
    /// A blank key, or a list of only blank keys, binds nothing.
    pub fn into_keys(self) -> (r: Vec<String>)
        ensures
            r@ == keys_of_input(self),
    {
        match self {
            KeymapKeysInput::One(key) => {
                if str_trim(key.as_str()).is_empty() {
                    Vec::new()
                } else {
                    let mut v = Vec::new();
                    v.push(key);
                    v
                }
            },
            KeymapKeysInput::Many(keys) => {
                let n = keys.len();
                let mut i: usize = 0;
                let mut all_blank = true;
                while i < n
                    invariant
                        n == keys@.len(),
                        i <= n,
                        all_blank == forall|j: int| 0 <= j < i ==> blank(#[trigger] keys@[j]@),
                    decreases n - i,
                {
                    if !str_trim(keys[i].as_str()).is_empty() {
                        all_blank = false;
                    }
                    i = i + 1;
                }
                if all_blank {
                    Vec::new()
                } else {
                    keys
                }
            },
        }
    }
}

impl KeymapBinding {
    /// Interprets a written binding: `false` disables, `true` is refused,
    /// and a binding whose keys are all blank is disabled too.
    pub fn from_input(input: KeymapBindingInput) -> (r: Result<KeymapBinding, KeymapBindingError>)
        ensures
            match input {
                KeymapBindingInput::Disabled(b) => if b {
                    r == Err::<KeymapBinding, KeymapBindingError>(KeymapBindingError::TrueIsNotABinding)
                } else {
                    r matches Ok(k) && k.keys@.len() == 0 && k.description is None
                },
                KeymapBindingInput::Keys(keys) => r matches Ok(k) && k.keys@ == keys_of_input(keys)
                    && k.description is None,
                KeymapBindingInput::Structured { keys, description } => r matches Ok(k)
                    && k.keys@ == keys_of_input(keys) && (if keys_of_input(keys).len() == 0 {
                    k.description is None
                } else {
                    k.description == description
                }),
            },
    {
        let (keys, description) = match input {
            KeymapBindingInput::Disabled(b) => {
                if b {
                    return Err(KeymapBindingError::TrueIsNotABinding);
                }
                return Ok(KeymapBinding::disabled());
            },
            KeymapBindingInput::Keys(keys) => (keys.into_keys(), None),
            KeymapBindingInput::Structured { keys, description } => (keys.into_keys(), description),
        };
        if keys.len() == 0 {
            Ok(KeymapBinding::disabled())
        } else {
            Ok(KeymapBinding { keys, description })
        }
    }
}

#[derive(Clone, Debug)]
pub struct KeymapOptions {
    pub leader: Option<String>,
    pub groups: BTreeMap<String, String>,
    pub guild_actions: BTreeMap<String, KeymapBinding>,
    pub channel_actions: BTreeMap<String, KeymapBinding>,
    pub message_actions: BTreeMap<String, KeymapBinding>,
    pub member_actions: BTreeMap<String, KeymapBinding>,
    pub thread_actions: BTreeMap<String, KeymapBinding>,
    pub composer: BTreeMap<String, KeymapBinding>,
    pub mappings: BTreeMap<String, KeymapBinding>,
}

/// Pane layout and per-user interface state persisted between sessions.
#[derive(Clone, Debug)]
pub struct UiStateOptions {
    pub guild_pane_visible: bool,
    pub channel_pane_visible: bool,
    pub member_pane_visible: bool,
    pub server_width: u16,
    pub channel_list_width: u16,
    pub member_list_width: u16,
    pub collapsed_channel_categories: Vec<Id<ChannelMarker>>,
    pub collapsed_server_folder_ids: Vec<u64>,
    pub collapsed_server_folder_guilds: Vec<Vec<Id<GuildMarker>>>,
    /// One-to-one DMs confirmed to contain a message from the current user.
    pub established_dms: Vec<Id<ChannelMarker>>,
    /// Channels pinned for quick access, most recently pinned first.
    pub pinned_channel_ids: Vec<Id<ChannelMarker>>,
    /// Emoji reactions pinned for quick access, most recently pinned first.
    pub pinned_emojis: Vec<ReactionEmoji>,
}

impl Default for UiStateOptions {
    fn default() -> (r: Self)
        ensures
            r.guild_pane_visible && r.channel_pane_visible && r.member_pane_visible,
            r.server_width == DEFAULT_SERVER_WIDTH,
            r.channel_list_width == DEFAULT_CHANNEL_LIST_WIDTH,
            r.member_list_width == DEFAULT_MEMBER_LIST_WIDTH,
            r.collapsed_channel_categories@.len() == 0,
            r.collapsed_server_folder_ids@.len() == 0,
            r.collapsed_server_folder_guilds@.len() == 0,
            r.established_dms@.len() == 0,
            r.pinned_channel_ids@.len() == 0,
            r.pinned_emojis@.len() == 0,
    {
        UiStateOptions {
            guild_pane_visible: true,
            channel_pane_visible: true,
            member_pane_visible: true,
            server_width: DEFAULT_SERVER_WIDTH,
            channel_list_width: DEFAULT_CHANNEL_LIST_WIDTH,
            member_list_width: DEFAULT_MEMBER_LIST_WIDTH,
            collapsed_channel_categories: Vec::new(),
            collapsed_server_folder_ids: Vec::new(),
            collapsed_server_folder_guilds: Vec::new(),
            established_dms: Vec::new(),
            pinned_channel_ids: Vec::new(),
            pinned_emojis: Vec::new(),
        }
    }
}

} // verus!
