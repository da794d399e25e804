//! Commands the interface sends to the client, and the small value types and
//! rules attached to them.
use std::path::PathBuf;
use vstd::prelude::*;
use vstd::string::*;
use vstd::utf8::encode_utf8;

use crate::ids::{
    id_eq, ApplicationMarker, ChannelMarker, EmojiMarker, ForumTagMarker, GuildMarker, Id,
    MessageMarker, UserMarker,
};
use crate::message_info::{opt_string_view, MessageInfo};
use crate::presence::{ActivityInfo, PresenceStatus};
use crate::text::{
    ascii_lower_seq, concat3, decimal, digit_char, push_decimal, str_eq, str_to_ascii_lowercase,
    leading_char, leading_ws, str_trim, str_trim_start_char, string_push, trailing_ws, trim_spec,
    trim_start_char_spec,
};
use crate::voice::{MicrophoneSensitivityDb, VoiceScope, VoiceVolumePercent};

verus! {

#[verifier::external_type_specification]
#[verifier::external_body]
pub struct ExPathBuf(PathBuf);

/// std's `PathBuf::clone`; nothing is stated of the copy.
pub assume_specification[ <PathBuf as Clone>::clone ](p: &PathBuf) -> PathBuf;

pub const MAX_UPLOAD_ATTACHMENT_COUNT: usize = 10;

pub const MAX_PROFILE_AVATAR_BYTES: u64 = 10485760;

/// Memory bound for decoding a local attachment preview thumbnail, kept
/// separate from the upload limit so a preview of a huge file is skipped.
pub const MAX_UPLOAD_PREVIEW_BYTES: u64 = 10485760;

#[derive(Clone, Copy, Debug, Eq, Hash, Ord, PartialEq, PartialOrd)]
pub struct AttachmentDownloadId(pub u64);

impl AttachmentDownloadId {
    pub fn new(value: u64) -> (r: Self)
        ensures
            r.0 == value,
    {
        AttachmentDownloadId(value)
    }

    pub fn get(self) -> (r: u64)
        ensures
            r == self.0,
    {
        self.0
    }
}

/// Where the bytes of an upload come from.
#[derive(Clone, Debug)]
pub enum UploadSource {
    File(PathBuf),
    Bytes(Vec<u8>),
}

impl UploadSource {
    pub fn path(&self) -> (r: Option<&PathBuf>)
        ensures
            match self {
                UploadSource::File(p) => r == Some(p),
                UploadSource::Bytes(_) => r is None,
            },
    {
        match self {
            UploadSource::File(path) => Some(path),
            UploadSource::Bytes(_) => None,
        }
    }

    pub fn bytes(&self) -> (r: Option<&[u8]>)
        ensures
            match self {
                UploadSource::File(_) => r is None,
                UploadSource::Bytes(b) => r matches Some(s) && s@ == b@,
            },
    {
        match self {
            UploadSource::File(_) => None,
            UploadSource::Bytes(bytes) => Some(bytes.as_slice()),
        }
    }
}

/// The last component of a path, when there is one and it is valid Unicode.
pub uninterp spec fn file_name_of(path: PathBuf) -> Option<Seq<char>>;

/// std's `Path::file_name` then `OsStr::to_str`, copied to a `String`: the
/// result is the path's last component as text, named `file_name_of`; a
/// function of the path alone.
#[verifier::external_body]
fn path_file_name(path: &PathBuf) -> (r: Option<String>)
    ensures
        opt_string_view(r) == file_name_of(*path),
{
    path.file_name().and_then(|name| name.to_str()).map(|name| name.to_owned())
}

/// A file attached to an outgoing message.
#[derive(Clone, Debug)]
pub struct MessageAttachmentUpload {
    pub source: UploadSource,
    pub filename: String,
    pub size_bytes: u64,
}

impl MessageAttachmentUpload {
    pub fn from_path(path: PathBuf, filename: String, size_bytes: u64) -> (r: Self)
        ensures
            r.source == UploadSource::File(path),
            r.filename == filename,
            r.size_bytes == size_bytes,
    {
        MessageAttachmentUpload { source: UploadSource::File(path), filename, size_bytes }
    }

    /// An upload of a file that exists, `size_bytes` long: its name is the
    /// path's last component, or `attachment` when that is not valid Unicode.
    pub fn from_existing_path(path: PathBuf, size_bytes: u64) -> (r: Self)
        ensures
            r.source == UploadSource::File(path),
            r.size_bytes == size_bytes,
            r.filename@ == match file_name_of(path) {
                Some(name) => name,
                None => "attachment"@,
            },
    {
        let filename = match path_file_name(&path) {
            Some(name) => name,
            None => "attachment".to_owned(),
        };
        MessageAttachmentUpload::from_path(path, filename, size_bytes)
    }

    pub fn from_bytes(filename: String, bytes: Vec<u8>) -> (r: Self)
        ensures
            r.source matches UploadSource::Bytes(b) && b@ == bytes@,
            r.filename == filename,
            r.size_bytes == bytes@.len(),
    {
        let size_bytes = bytes.len() as u64;
        MessageAttachmentUpload { size_bytes, source: UploadSource::Bytes(bytes), filename }
    }

    pub fn path(&self) -> (r: Option<&PathBuf>)
        ensures
            match self.source {
                UploadSource::File(p) => r == Some(&p),
                UploadSource::Bytes(_) => r is None,
            },
    {
        self.source.path()
    }

    pub fn bytes(&self) -> (r: Option<&[u8]>)
        ensures
            match self.source {
                UploadSource::File(_) => r is None,
                UploadSource::Bytes(b) => r matches Some(s) && s@ == b@,
            },
    {
        self.source.bytes()
    }
}

#[derive(Clone, Debug)]
pub struct ForumPostCreate {
    pub channel_id: Id<ChannelMarker>,
    pub title: String,
    pub content: String,
    pub applied_tags: Vec<Id<ForumTagMarker>>,
    pub attachments: Vec<MessageAttachmentUpload>,
}

/// A new avatar image for the user's profile.
#[derive(Clone, Debug)]
pub struct ProfileAvatarUpload {
    pub source: UploadSource,
    pub filename: String,
    pub size_bytes: u64,
}

impl ProfileAvatarUpload {
    /// An avatar read from a file; its name is the path's last component, or
    /// `avatar` when that is not valid Unicode. The size is learned later.
    pub fn from_path(path: PathBuf) -> (r: Self)
        ensures
            r.source == UploadSource::File(path),
            r.size_bytes == 0,
            r.filename@ == match file_name_of(path) {
                Some(name) => name,
                None => "avatar"@,
            },
    {
        let filename = match path_file_name(&path) {
            Some(name) => name,
            None => "avatar".to_owned(),
        };
        ProfileAvatarUpload { source: UploadSource::File(path), filename, size_bytes: 0 }
    }

    pub fn from_bytes(filename: String, bytes: Vec<u8>) -> (r: Self)
        ensures
            r.source matches UploadSource::Bytes(b) && b@ == bytes@,
            r.filename == filename,
            r.size_bytes == bytes@.len(),
    {
        let size_bytes = bytes.len() as u64;
        ProfileAvatarUpload { size_bytes, source: UploadSource::Bytes(bytes), filename }
    }

    pub fn from_message_attachment(upload: MessageAttachmentUpload) -> (r: Self)
        ensures
            r.source == upload.source,
            r.filename == upload.filename,
            r.size_bytes == upload.size_bytes,
    {
        ProfileAvatarUpload {
            source: upload.source,
            filename: upload.filename,
            size_bytes: upload.size_bytes,
        }
    }

    pub fn path(&self) -> (r: Option<&PathBuf>)
        ensures
            match self.source {
                UploadSource::File(p) => r == Some(&p),
                UploadSource::Bytes(_) => r is None,
            },
    {
        self.source.path()
    }

    pub fn bytes(&self) -> (r: Option<&[u8]>)
        ensures
            match self.source {
                UploadSource::File(_) => r is None,
                UploadSource::Bytes(b) => r matches Some(s) && s@ == b@,
            },
    {
        self.source.bytes()
    }
}

#[derive(Clone, Debug)]
pub struct GlobalUserProfileUpdate {
    pub display_name: Option<String>,
    pub pronouns: Option<String>,
    pub avatar: Option<ProfileAvatarUpload>,
}

impl GlobalUserProfileUpdate {
    pub fn is_empty(&self) -> (r: bool)
        ensures
            r == (self.display_name is None && self.pronouns is None && self.avatar is None),
    {
        self.display_name.is_none() && self.pronouns.is_none() && self.avatar.is_none()
    }
}

#[derive(Clone, Debug, Eq, PartialEq)]
pub struct GuildUserProfileUpdate {
    pub guild_id: Id<GuildMarker>,
    pub nickname: Option<String>,
    pub pronouns: Option<String>,
}

impl GuildUserProfileUpdate {
    pub fn is_empty(&self) -> (r: bool)
        ensures
            r == (self.nickname is None && self.pronouns is None),
    {
        self.nickname.is_none() && self.pronouns.is_none()
    }
}

#[derive(Clone, Debug)]
pub struct UserProfileUpdate {
    pub user_id: Id<UserMarker>,
    pub guild_id: Option<Id<GuildMarker>>,
    pub global: GlobalUserProfileUpdate,
    pub guild: Option<GuildUserProfileUpdate>,
}

impl UserProfileUpdate {
    /// Nothing changes: the global part is empty and the guild part is
    /// absent or empty.
    pub fn is_empty(&self) -> (r: bool)
        ensures
            r == ((self.global.display_name is None && self.global.pronouns is None
                && self.global.avatar is None) && match self.guild {
                Some(g) => g.nickname is None && g.pronouns is None,
                None => true,
            }),
    {
        self.global.is_empty() && match &self.guild {
            Some(g) => g.is_empty(),
            None => true,
        }
    }
}

/// A reaction emoji: a Unicode emoji, or a guild's custom emoji.
#[derive(Clone, Debug, Eq, PartialEq)]
pub enum ReactionEmoji {
    Unicode(String),
    Custom { id: Id<EmojiMarker>, name: Option<String>, animated: bool },
}

/// Two reaction emojis name the same emoji: equal text, or equal custom id,
/// name and animation flag.
pub open spec fn same_emoji(a: ReactionEmoji, b: ReactionEmoji) -> bool {
    match (a, b) {
        (ReactionEmoji::Unicode(x), ReactionEmoji::Unicode(y)) => x@ == y@,
        (
            ReactionEmoji::Custom { id: i1, name: n1, animated: a1 },
            ReactionEmoji::Custom { id: i2, name: n2, animated: a2 },
        ) => i1@ == i2@ && a1 == a2 && match (n1, n2) {
            (Some(x), Some(y)) => x@ == y@,
            (None, None) => true,
            _ => false,
        },
        _ => false,
    }
}

/// Whether two reaction emojis are the same emoji.
pub fn reaction_emoji_eq(a: &ReactionEmoji, b: &ReactionEmoji) -> (r: bool)
    ensures
        r == same_emoji(*a, *b),
{
    match (a, b) {
        (ReactionEmoji::Unicode(x), ReactionEmoji::Unicode(y)) => str_eq(x.as_str(), y.as_str()),
        (
            ReactionEmoji::Custom { id: i1, name: n1, animated: a1 },
            ReactionEmoji::Custom { id: i2, name: n2, animated: a2 },
        ) => {
            let names = match (n1, n2) {
                (Some(x), Some(y)) => str_eq(x.as_str(), y.as_str()),
                (None, None) => true,
                _ => false,
            };
            id_eq(*i1, *i2) && names && *a1 == *a2
        },
        _ => false,
    }
}

pub open spec fn hex_upper(d: nat) -> char {
    if d < 10 {
        digit_char(d)
    } else if d == 10 {
        'A'
    } else if d == 11 {
        'B'
    } else if d == 12 {
        'C'
    } else if d == 13 {
        'D'
    } else if d == 14 {
        'E'
    } else {
        'F'
    }
}

/// Bytes that stand for themselves in a URL path segment.
pub open spec fn is_unreserved(b: u8) -> bool {
    (0x41 <= b && b <= 0x5a) || (0x61 <= b && b <= 0x7a) || (0x30 <= b && b <= 0x39) || b == 0x2d
        || b == 0x2e || b == 0x5f || b == 0x7e
}

pub open spec fn encode_byte(b: u8) -> Seq<char> {
    if is_unreserved(b) {
        seq![b as char]
    } else {
        seq!['%', hex_upper((b / 16) as nat), hex_upper((b % 16) as nat)]
    }
}

/// Percent-encoding of a byte string for a URL path segment: unreserved bytes
/// are kept, every other byte becomes `%XX` with upper-case hex digits.
pub open spec fn percent_encode_spec(bytes: Seq<u8>) -> Seq<char>
    decreases bytes.len(),
{
    if bytes.len() == 0 {
        seq![]
    } else {
        percent_encode_spec(bytes.drop_last()) + encode_byte(bytes.last())
    }
}

fn hex_char(d: u8) -> (r: char)
    requires
        d < 16,
    ensures
        r == hex_upper(d as nat),
{
    if d < 10 {
        let c = (0x30u8 + d) as char;
        proof {
            assert(c == digit_char(d as nat));
        }
        c
    } else if d == 10 {
        'A'
    } else if d == 11 {
        'B'
    } else if d == 12 {
        'C'
    } else if d == 13 {
        'D'
    } else if d == 14 {
        'E'
    } else {
        'F'
    }
}

/// Appends the percent-encoding of a byte string to `out`.
fn push_percent_encoded(out: &mut String, bytes: &[u8])
    ensures
        final(out)@ == old(out)@ + percent_encode_spec(bytes@),
{
    let n = bytes.len();
    let mut i: usize = 0;
    while i < n
        invariant
            n == bytes@.len(),
            i <= n,
            out@ == old(out)@ + percent_encode_spec(bytes@.subrange(0, i as int)),
        decreases n - i,
    {
        let b = bytes[i];
        let ghost before = out@;
        if (0x41 <= b && b <= 0x5a) || (0x61 <= b && b <= 0x7a) || (0x30 <= b && b <= 0x39)
            || b == 0x2d || b == 0x2e || b == 0x5f || b == 0x7e {
            string_push(out, b as char);
        } else {
            string_push(out, '%');
            string_push(out, hex_char(b / 16));
            string_push(out, hex_char(b % 16));
        }
        proof {
            assert(bytes@.subrange(0, i + 1).drop_last() =~= bytes@.subrange(0, i as int));
            assert(out@ =~= old(out)@ + percent_encode_spec(bytes@.subrange(0, i + 1)));
        }
        i = i + 1;
    }
    proof {
        assert(bytes@.subrange(0, n as int) =~= bytes@);
    }
}

pub open spec fn status_label_of(e: ReactionEmoji) -> Seq<char> {
    match e {
        ReactionEmoji::Unicode(s) => s@,
        ReactionEmoji::Custom { name, .. } => match name {
            Some(n) => ":"@ + n@ + ":"@,
            None => ":custom:"@,
        },
    }
}

impl ReactionEmoji {
    /// How the emoji is named in status lines: the emoji itself, `:name:`, or
    /// `:custom:` for an unnamed custom emoji.
    pub fn status_label(&self) -> (r: String)
        ensures
            r@ == status_label_of(*self),
    {
        match self {
            ReactionEmoji::Unicode(emoji) => emoji.clone(),
            ReactionEmoji::Custom { name, .. } => match name {
                Some(n) => concat3(":", n.as_str(), ":"),
                None => ":custom:".to_owned(),
            },
        }
    }

    /// CDN image of a custom emoji (GIF when animated, PNG otherwise).
    pub fn custom_image_url(&self) -> (r: Option<String>)
        ensures
            match *self {
                ReactionEmoji::Unicode(_) => r is None,
                ReactionEmoji::Custom { id, animated, .. } => r matches Some(u) && u@
                    == "https://cdn.discordapp.com/emojis/"@ + decimal(id@ as nat) + "."@ + (if animated {
                    "gif"@
                } else {
                    "png"@
                }),
            },
    {
        match self {
            ReactionEmoji::Unicode(_) => None,
            ReactionEmoji::Custom { id, animated, .. } => {
                let extension = if *animated {
                    "gif"
                } else {
                    "png"
                };
                let mut url = "https://cdn.discordapp.com/emojis/".to_owned();
                push_decimal(&mut url, id.get());
                url.append(".");
                url.append(extension);
                Some(url)
            },
        }
    }

    /// The emoji as one percent-encoded URL path segment: the Unicode emoji,
    /// or `name:id` for a custom emoji.
    pub fn route_component(&self) -> (r: String)
        ensures
            match *self {
                ReactionEmoji::Unicode(s) => r@ == percent_encode_spec(encode_utf8(s@)),
                ReactionEmoji::Custom { id, name, .. } => r@ == percent_encode_spec(match name {
                    Some(n) => encode_utf8(n@),
                    None => Seq::<u8>::empty(),
                }) + "%3A"@ + decimal(id@ as nat),
            },
    {
        let mut out = String::new();
        match self {
            ReactionEmoji::Unicode(name) => {
                push_percent_encoded(&mut out, name.as_str().as_bytes());
                proof {
                    assert(out@ =~= percent_encode_spec(encode_utf8(name@)));
                }
            },
            ReactionEmoji::Custom { id, name, .. } => {
                match name {
                    Some(n) => push_percent_encoded(&mut out, n.as_str().as_bytes()),
                    None => {
                        proof {
                            assert(percent_encode_spec(Seq::<u8>::empty()) =~= Seq::<char>::empty());
                        }
                    },
                }
                out.append("%3A");
                push_decimal(&mut out, id.get());
                proof {
                    assert(out@ =~= percent_encode_spec(match name {
                        Some(n) => encode_utf8(n@),
                        None => Seq::<u8>::empty(),
                    }) + "%3A"@ + decimal(id@ as nat));
                }
            },
        }
        out
    }
}

#[derive(Clone, Copy, Debug, Eq, PartialEq, Structural)]
pub enum ForumPostArchiveState {
    Active,
    Archived,
}

impl Default for ForumPostArchiveState {
    fn default() -> (r: Self)
        ensures
            r == ForumPostArchiveState::Active,
    {
        ForumPostArchiveState::Active
    }
}

impl ForumPostArchiveState {
    /// The `archived` query flag for forum-post listings.
    pub fn as_query_value(self) -> (r: &'static str)
        ensures
            r == (match self {
                ForumPostArchiveState::Active => "false",
                ForumPostArchiveState::Archived => "true",
            }),
    {
        match self {
            ForumPostArchiveState::Active => "false",
            ForumPostArchiveState::Archived => "true",
        }
    }

    pub fn as_log_label(self) -> (r: &'static str)
        ensures
            r == (match self {
                ForumPostArchiveState::Active => "active",
                ForumPostArchiveState::Archived => "archived",
            }),
    {
        match self {
            ForumPostArchiveState::Active => "active",
            ForumPostArchiveState::Archived => "archived",
        }
    }
}

#[derive(Clone, Copy, Debug, Eq, PartialEq, Structural)]
pub enum MuteDuration {
    Minutes(u64),
    Permanent,
}

pub open spec fn time_window_spec(d: MuteDuration) -> i64 {
    match d {
        MuteDuration::Minutes(m) => if m * 60 > i64::MAX {
            i64::MAX
        } else {
            (m * 60) as i64
        },
        MuteDuration::Permanent => -1i64,
    }
}

impl MuteDuration {
    pub fn minutes(self) -> (r: Option<u64>)
        ensures
            match self {
                MuteDuration::Minutes(m) => r == Some(m),
                MuteDuration::Permanent => r is None,
            },
    {
        match self {
            MuteDuration::Minutes(minutes) => Some(minutes),
            MuteDuration::Permanent => None,
        }
    }

    /// The mute window in seconds, saturated at `i64::MAX`; `-1` means
    /// "until unmuted".
    pub fn selected_time_window_seconds(self) -> (r: i64)
        ensures
            r == time_window_spec(self),
    {
        match self {
            MuteDuration::Minutes(minutes) => {
                let seconds: u64 = if minutes > 307445734561825860u64 {
                    u64::MAX
                } else {
                    minutes * 60
                };
                if seconds > 9223372036854775807u64 {
                    i64::MAX
                } else {
                    seconds as i64
                }
            },
            MuteDuration::Permanent => -1,
        }
    }
}

/// The normalised form of a search filter word: trimmed, leading colons
/// removed, ASCII lower-cased.
pub open spec fn normalized_search_token_spec(value: Seq<char>) -> Seq<char> {
    ascii_lower_seq(trim_start_char_spec(trim_spec(value), ':'))
}

pub fn normalized_search_token(value: &str) -> (r: String)
    ensures
        r@ == normalized_search_token_spec(value@),
{
    let trimmed = str_trim(value);
    let stripped = str_trim_start_char(trimmed, ':');
    str_to_ascii_lowercase(stripped)
}

#[derive(Clone, Copy, Debug, Eq, PartialEq, Structural)]
pub enum MessageSearchHas {
    Link,
    Embed,
    File,
    Video,
    Image,
    Sound,
    Sticker,
}

pub open spec fn search_has_spec(t: Seq<char>) -> Option<MessageSearchHas> {
    if t == "link"@ || t == "links"@ {
        Some(MessageSearchHas::Link)
    } else if t == "embed"@ || t == "embeds"@ {
        Some(MessageSearchHas::Embed)
    } else if t == "file"@ || t == "files"@ || t == "attachment"@ || t == "attachments"@ {
        Some(MessageSearchHas::File)
    } else if t == "video"@ || t == "videos"@ {
        Some(MessageSearchHas::Video)
    } else if t == "image"@ || t == "images"@ || t == "img"@ {
        Some(MessageSearchHas::Image)
    } else if t == "sound"@ || t == "sounds"@ || t == "audio"@ {
        Some(MessageSearchHas::Sound)
    } else if t == "sticker"@ || t == "stickers"@ {
        Some(MessageSearchHas::Sticker)
    } else {
        None
    }
}

impl MessageSearchHas {
    /// Parses a `has:` filter word, accepting singular, plural and a few
    /// synonyms.
    pub fn from_input(value: &str) -> (r: Option<Self>)
        ensures
            r == search_has_spec(normalized_search_token_spec(value@)),
    {
        let token = normalized_search_token(value);
        let t = token.as_str();
        if str_eq(t, "link") || str_eq(t, "links") {
            Some(MessageSearchHas::Link)
        } else if str_eq(t, "embed") || str_eq(t, "embeds") {
            Some(MessageSearchHas::Embed)
        } else if str_eq(t, "file") || str_eq(t, "files") || str_eq(t, "attachment") || str_eq(
            t,
            "attachments",
        ) {
            Some(MessageSearchHas::File)
        } else if str_eq(t, "video") || str_eq(t, "videos") {
            Some(MessageSearchHas::Video)
        } else if str_eq(t, "image") || str_eq(t, "images") || str_eq(t, "img") {
            Some(MessageSearchHas::Image)
        } else if str_eq(t, "sound") || str_eq(t, "sounds") || str_eq(t, "audio") {
            Some(MessageSearchHas::Sound)
        } else if str_eq(t, "sticker") || str_eq(t, "stickers") {
            Some(MessageSearchHas::Sticker)
        } else {
            None
        }
    }

    pub fn as_query_value(self) -> (r: &'static str)
        ensures
            r@ == search_has_query_word(self),
            r == (match self {
                MessageSearchHas::Link => "link",
                MessageSearchHas::Embed => "embed",
                MessageSearchHas::File => "file",
                MessageSearchHas::Video => "video",
                MessageSearchHas::Image => "image",
                MessageSearchHas::Sound => "sound",
                MessageSearchHas::Sticker => "sticker",
            }),
    {
        match self {
            MessageSearchHas::Link => "link",
            MessageSearchHas::Embed => "embed",
            MessageSearchHas::File => "file",
            MessageSearchHas::Video => "video",
            MessageSearchHas::Image => "image",
            MessageSearchHas::Sound => "sound",
            MessageSearchHas::Sticker => "sticker",
        }
    }
}

#[derive(Clone, Copy, Debug, Eq, PartialEq, Structural)]
pub enum MessageSearchAuthorType {
    User,
    Bot,
    Webhook,
}

pub open spec fn author_type_spec(t: Seq<char>) -> Option<MessageSearchAuthorType> {
    if t == "user"@ || t == "person"@ || t == "people"@ {
        Some(MessageSearchAuthorType::User)
    } else if t == "bot"@ || t == "bots"@ {
        Some(MessageSearchAuthorType::Bot)
    } else if t == "webhook"@ || t == "webhooks"@ {
        Some(MessageSearchAuthorType::Webhook)
    } else {
        None
    }
}

impl MessageSearchAuthorType {
    pub fn from_input(value: &str) -> (r: Option<Self>)
        ensures
            r == author_type_spec(normalized_search_token_spec(value@)),
    {
        let token = normalized_search_token(value);
        let t = token.as_str();
        if str_eq(t, "user") || str_eq(t, "person") || str_eq(t, "people") {
            Some(MessageSearchAuthorType::User)
        } else if str_eq(t, "bot") || str_eq(t, "bots") {
            Some(MessageSearchAuthorType::Bot)
        } else if str_eq(t, "webhook") || str_eq(t, "webhooks") {
            Some(MessageSearchAuthorType::Webhook)
        } else {
            None
        }
    }

    pub fn as_query_value(self) -> (r: &'static str)
        ensures
            r@ == author_type_query_word(self),
            r == (match self {
                MessageSearchAuthorType::User => "user",
                MessageSearchAuthorType::Bot => "bot",
                MessageSearchAuthorType::Webhook => "webhook",
            }),
    {
        match self {
            MessageSearchAuthorType::User => "user",
            MessageSearchAuthorType::Bot => "bot",
            MessageSearchAuthorType::Webhook => "webhook",
        }
    }
}

/// A filter's query word: the word that the search API takes for it.
pub open spec fn search_has_query_word(h: MessageSearchHas) -> Seq<char> {
    match h {
        MessageSearchHas::Link => "link"@,
        MessageSearchHas::Embed => "embed"@,
        MessageSearchHas::File => "file"@,
        MessageSearchHas::Video => "video"@,
        MessageSearchHas::Image => "image"@,
        MessageSearchHas::Sound => "sound"@,
        MessageSearchHas::Sticker => "sticker"@,
    }
}

pub open spec fn author_type_query_word(t: MessageSearchAuthorType) -> Seq<char> {
    match t {
        MessageSearchAuthorType::User => "user"@,
        MessageSearchAuthorType::Bot => "bot"@,
        MessageSearchAuthorType::Webhook => "webhook"@,
    }
}

/// A word of lower-case ASCII letters.
pub open spec fn lowercase_word(s: Seq<char>) -> bool {
    &&& s.len() > 0
    &&& forall|i: int| 0 <= i < s.len() ==> 'a' <= #[trigger] s[i] && s[i] <= 'z'
}

/// Normalising a word of lower-case letters leaves it as it is.
proof fn lemma_lowercase_word_normalized(s: Seq<char>)
    requires
        lowercase_word(s),
    ensures
        normalized_search_token_spec(s) == s,
{
    assert(leading_ws(s) == 0);
    assert(s.subrange(0, s.len() as int) =~= s);
    assert(trailing_ws(s) == 0);
    assert(leading_char(s, ':') == 0);
    assert(ascii_lower_seq(s) =~= s);
}

/// Parsing a filter's own query word gives that filter back.
pub proof fn lemma_search_has_round_trip(h: MessageSearchHas)
    ensures
        search_has_spec(normalized_search_token_spec(search_has_query_word(h))) == Some(h),
{
    reveal_strlit("link");
    reveal_strlit("links");
    reveal_strlit("embed");
    reveal_strlit("embeds");
    reveal_strlit("file");
    reveal_strlit("files");
    reveal_strlit("attachment");
    reveal_strlit("attachments");
    reveal_strlit("video");
    reveal_strlit("videos");
    reveal_strlit("image");
    reveal_strlit("images");
    reveal_strlit("img");
    reveal_strlit("sound");
    reveal_strlit("sounds");
    reveal_strlit("audio");
    reveal_strlit("sticker");
    reveal_strlit("stickers");
    let w = search_has_query_word(h);
    lemma_lowercase_word_normalized(w);
}

/// Parsing an author type's own query word gives that author type back.
pub proof fn lemma_author_type_round_trip(t: MessageSearchAuthorType)
    ensures
        author_type_spec(normalized_search_token_spec(author_type_query_word(t))) == Some(t),
{
    reveal_strlit("user");
    reveal_strlit("person");
    reveal_strlit("people");
    reveal_strlit("bot");
    reveal_strlit("bots");
    reveal_strlit("webhook");
    reveal_strlit("webhooks");
    let w = author_type_query_word(t);
    lemma_lowercase_word_normalized(w);
}

#[derive(Clone, Debug, Eq, PartialEq)]
pub struct MessageSearchQuery {
    pub guild_id: Option<Id<GuildMarker>>,
    pub channel_id: Option<Id<ChannelMarker>>,
    pub author_id: Option<Id<UserMarker>>,
    pub mentions_user_id: Option<Id<UserMarker>>,
    pub content: Option<String>,
    pub has: Vec<MessageSearchHas>,
    pub date: Option<String>,
    pub author_type: Vec<MessageSearchAuthorType>,
    pub pinned: Option<bool>,
    pub offset: usize,
}

pub open spec fn empty_text(s: Option<String>) -> bool {
    match s {
        Some(v) => v@.len() == 0,
        None => true,
    }
}

impl MessageSearchQuery {
    /// No filter is set. The guild scope and the page offset alone do not
    /// make a search.
    pub fn is_empty(&self) -> (r: bool)
        ensures
            r == (self.channel_id is None && self.author_id is None && self.mentions_user_id is None
                && empty_text(self.content) && self.has@.len() == 0 && empty_text(self.date)
                && self.author_type@.len() == 0 && self.pinned is None),
    {
        let content_empty = match &self.content {
            Some(c) => c.as_str().is_empty(),
            None => true,
        };
        let date_empty = match &self.date {
            Some(d) => d.as_str().is_empty(),
            None => true,
        };
        self.channel_id.is_none() && self.author_id.is_none() && self.mentions_user_id.is_none()
            && content_empty && self.has.len() == 0 && date_empty && self.author_type.len() == 0
            && self.pinned.is_none()
    }
}

#[derive(Clone, Debug, Eq, PartialEq)]
pub struct MessageSearchPage {
    pub query: MessageSearchQuery,
    pub messages: Vec<MessageInfo>,
    pub total_results: Option<usize>,
    pub has_more: bool,
}

#[derive(Clone, Copy, Debug, Eq, PartialEq, Structural)]
pub enum MessageHistoryAfterMode {
    GapFill,
    CatchUp,
}

impl MessageHistoryAfterMode {
    /// An empty gap-fill page means the gap is closed.
    pub fn exhausts_on_empty(self) -> (r: bool)
        ensures
            r == (self == MessageHistoryAfterMode::GapFill),
    {
        matches!(self, MessageHistoryAfterMode::GapFill)
    }

    pub fn is_catch_up(self) -> (r: bool)
        ensures
            r == (self == MessageHistoryAfterMode::CatchUp),
    {
        matches!(self, MessageHistoryAfterMode::CatchUp)
    }
}

/// A reply target paired with whether it should ping the referenced author.
#[derive(Clone, Copy, Debug, Eq, PartialEq)]
pub struct ReplyReference {
    pub message_id: Id<MessageMarker>,
    pub mention_author: bool,
}

/// Which application command to run, in which channel.
#[derive(Clone, Debug, Eq, PartialEq)]
pub struct ApplicationCommandInvocation {
    pub application_id: Id<ApplicationMarker>,
    pub guild_id: Option<Id<GuildMarker>>,
    pub channel_id: Id<ChannelMarker>,
    pub command_name: String,
    pub content: String,
}

#[derive(Clone, Copy, Debug, Eq, PartialEq, Structural)]
pub enum DownloadAttachmentSource {
    AttachmentViewer,
}

#[derive(Clone, Copy, Debug, Eq, PartialEq, Structural)]
pub enum MediaPlaybackSource {
    Message,
    AttachmentViewer,
}

#[derive(Clone, Copy, Debug, Eq, PartialEq, Structural)]
pub struct MediaPlaybackRequestId(pub u64);

impl MediaPlaybackRequestId {
    pub fn new(value: u64) -> (r: Self)
        ensures
            r.0 == value,
    {
        MediaPlaybackRequestId(value)
    }
}

#[derive(Clone, Debug, Eq, PartialEq)]
pub struct MediaPlaybackTarget {
    pub url: String,
    pub label: String,
    pub source: MediaPlaybackSource,
}

/// Everything the interface can ask the client to do.
#[allow(inconsistent_fields)]
#[derive(Clone, Debug)]
pub enum AppCommand {
    SignOut,
    LoadMessageHistory { channel_id: Id<ChannelMarker>, before: Option<Id<MessageMarker>> },
    RefreshMessageHistory { channel_id: Id<ChannelMarker> },
    LoadMessageHistoryAfter {
        channel_id: Id<ChannelMarker>,
        after: Id<MessageMarker>,
        mode: MessageHistoryAfterMode,
    },
    LoadMessageHistoryAround { channel_id: Id<ChannelMarker>, message_id: Id<MessageMarker> },
    LoadThreadPreview { channel_id: Id<ChannelMarker>, message_id: Id<MessageMarker> },
    LoadForumPosts {
        guild_id: Id<GuildMarker>,
        channel_id: Id<ChannelMarker>,
        archive_state: ForumPostArchiveState,
        offset: usize,
    },
    SearchMessages { query: MessageSearchQuery },
    LoadGuildMembers { guild_id: Id<GuildMarker> },
    LoadGuildMembersByIds { guild_id: Id<GuildMarker>, user_ids: Vec<Id<UserMarker>> },
    SearchGuildMembers { guild_id: Id<GuildMarker>, query: String },
    SetSelectedGuild { guild_id: Option<Id<GuildMarker>> },
    LeaveGuild { guild_id: Id<GuildMarker>, label: String },
    SetSelectedMessageChannel { channel_id: Option<Id<ChannelMarker>> },
    SubscribeDirectMessage { channel_id: Id<ChannelMarker> },
    SubscribeGuildChannel { guild_id: Id<GuildMarker>, channel_id: Id<ChannelMarker> },
    /// Resubscribe an active channel subscription with a wider set of
    /// member-list ranges as the user scrolls through the member sidebar.
    UpdateMemberListSubscription {
        guild_id: Id<GuildMarker>,
        channel_id: Id<ChannelMarker>,
        ranges: Vec<(u32, u32)>,
    },
    JoinVoiceChannel {
        scope: VoiceScope,
        channel_id: Id<ChannelMarker>,
        self_mute: bool,
        self_deaf: bool,
        allow_microphone_transmit: bool,
        microphone_sensitivity: MicrophoneSensitivityDb,
        microphone_volume: VoiceVolumePercent,
        voice_output_volume: VoiceVolumePercent,
    },
    UpdateVoiceState {
        scope: VoiceScope,
        channel_id: Id<ChannelMarker>,
        self_mute: bool,
        self_deaf: bool,
    },
    UpdateVoiceCapturePermission {
        scope: VoiceScope,
        channel_id: Id<ChannelMarker>,
        allow_microphone_transmit: bool,
        microphone_sensitivity: MicrophoneSensitivityDb,
        microphone_volume: VoiceVolumePercent,
        voice_output_volume: VoiceVolumePercent,
    },
    LeaveVoiceChannel { scope: VoiceScope, self_mute: bool, self_deaf: bool },
    LoadAttachmentPreview { url: String },
    LoadProfileAvatarPreview { key: String, upload: ProfileAvatarUpload },
    SendMessage {
        channel_id: Id<ChannelMarker>,
        content: String,
        reply_to: Option<ReplyReference>,
        attachments: Vec<MessageAttachmentUpload>,
    },
    CreateForumPost { post: ForumPostCreate },
    SendTtsMessage { channel_id: Id<ChannelMarker>, content: String },
    LoadApplicationCommands { guild_id: Option<Id<GuildMarker>> },
    RunApplicationCommand { invocation: ApplicationCommandInvocation },
    EditMessage { channel_id: Id<ChannelMarker>, message_id: Id<MessageMarker>, content: String },
    DeleteMessage { channel_id: Id<ChannelMarker>, message_id: Id<MessageMarker> },
    RemoveMessageEmbeds { channel_id: Id<ChannelMarker>, message_id: Id<MessageMarker> },
    OpenUrl { url: String },
    PlayMedia { target: MediaPlaybackTarget, request_id: Option<MediaPlaybackRequestId> },
    DownloadAttachment {
        id: AttachmentDownloadId,
        url: String,
        filename: String,
        source: DownloadAttachmentSource,
    },
    AddReaction {
        channel_id: Id<ChannelMarker>,
        message_id: Id<MessageMarker>,
        emoji: ReactionEmoji,
    },
    RemoveReaction {
        channel_id: Id<ChannelMarker>,
        message_id: Id<MessageMarker>,
        emoji: ReactionEmoji,
    },
    LoadReactionUsers {
        channel_id: Id<ChannelMarker>,
        message_id: Id<MessageMarker>,
        reactions: Vec<ReactionEmoji>,
    },
    LoadPinnedMessages { channel_id: Id<ChannelMarker> },
    SetMessagePinned {
        channel_id: Id<ChannelMarker>,
        message_id: Id<MessageMarker>,
        pinned: bool,
    },
    VotePoll {
        channel_id: Id<ChannelMarker>,
        message_id: Id<MessageMarker>,
        answer_ids: Vec<u8>,
    },
    LoadUserProfile { user_id: Id<UserMarker>, guild_id: Option<Id<GuildMarker>> },
    LoadUserNote { user_id: Id<UserMarker> },
    UpdateUserProfile { update: UserProfileUpdate },
    UpdateCurrentUserStatus { status: PresenceStatus },
    UpdateGuildFolderSettings { folder_id: u64, name: Option<String>, color: Option<u32> },
    UpdateCurrentUserActivity { status: PresenceStatus, activities: Vec<ActivityInfo> },
    AckChannel { channel_id: Id<ChannelMarker>, message_id: Id<MessageMarker> },
    ScheduleAckChannel { channel_id: Id<ChannelMarker>, message_id: Id<MessageMarker> },
    SetGuildMuted {
        guild_id: Id<GuildMarker>,
        muted: bool,
        duration: Option<MuteDuration>,
        label: String,
    },
    SetChannelMuted {
        guild_id: Option<Id<GuildMarker>>,
        channel_id: Id<ChannelMarker>,
        muted: bool,
        duration: Option<MuteDuration>,
        label: String,
    },
    /// Mute a forum post (thread) through the thread-member settings.
    SetThreadMuted {
        guild_id: Option<Id<GuildMarker>>,
        channel_id: Id<ChannelMarker>,
        muted: bool,
        duration: Option<MuteDuration>,
        label: String,
    },
    /// Follow (join) or unfollow (leave) a forum post thread.
    SetThreadFollowed { channel_id: Id<ChannelMarker>, followed: bool, label: String },
    /// Thread notification level flags: 2 = all messages, 4 = only mentions,
    /// 8 = nothing.
    SetThreadNotificationLevel { channel_id: Id<ChannelMarker>, flags: u64, label: String },
    /// Archive ("close") or reopen a thread.
    SetThreadArchived { channel_id: Id<ChannelMarker>, archived: bool, label: String },
    SetThreadLocked { channel_id: Id<ChannelMarker>, locked: bool, label: String },
    /// Pin or unpin a forum post; `current_flags` lets the handler flip only
    /// the PINNED bit.
    SetThreadPinned {
        channel_id: Id<ChannelMarker>,
        pinned: bool,
        current_flags: u64,
        label: String,
    },
    DeleteThread { channel_id: Id<ChannelMarker>, label: String },
    EditThread {
        channel_id: Id<ChannelMarker>,
        name: String,
        applied_tags: Vec<Id<ForumTagMarker>>,
        rate_limit_per_user: u64,
        auto_archive_duration: u64,
        label: String,
    },
    AckChannels { targets: Vec<(Id<ChannelMarker>, Id<MessageMarker>)> },
    LoadInboxMentions { request_id: u64 },
    LoadInboxChannelHistory { channel_id: Id<ChannelMarker>, request_id: u64 },
}

/// Commands whose effect must be ordered with the interface's own state run
/// on the dispatcher itself instead of a spawned task.
pub fn runs_inline(command: &AppCommand) -> (r: bool)
    ensures
        r == (command is SetSelectedGuild || command is SetSelectedMessageChannel
            || command is UpdateVoiceCapturePermission),
{
    matches!(
        command,
        AppCommand::SetSelectedGuild { .. } | AppCommand::SetSelectedMessageChannel { .. }
            | AppCommand::UpdateVoiceCapturePermission { .. }
    )
}

} // verus!
