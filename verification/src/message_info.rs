//! Message payload types as they arrive from Discord, and the media and
//! preview classification that rendering relies on.
use vstd::prelude::*;
use vstd::string::*;

use crate::commands::ReactionEmoji;
use crate::ids::{
    AttachmentMarker, ChannelMarker, GuildMarker, Id, MessageMarker, RoleMarker, UserMarker,
};
use crate::text::{
    eq_ignore_ascii_case_spec, parse_u64, parse_u8, parse_unsigned_spec, seq_starts_with, str_eq,
    str_eq_ignore_ascii_case, str_starts_with,
};

verus! {

#[derive(Clone, Debug, Eq, PartialEq)]
pub struct MentionInfo {
    pub user_id: Id<UserMarker>,
    /// Per-server nickname carried by this message's mention payload.
    pub guild_nick: Option<String>,
    pub display_name: String,
}

#[derive(Clone, Debug, Eq, PartialEq)]
pub struct AttachmentInfo {
    pub id: Id<AttachmentMarker>,
    pub filename: String,
    pub url: String,
    pub proxy_url: String,
    pub content_type: Option<String>,
    pub size: u64,
    pub width: Option<u64>,
    pub height: Option<u64>,
    pub description: Option<String>,
}

#[derive(Clone, Debug, Eq, PartialEq)]
pub struct EmbedFieldInfo {
    pub name: String,
    pub value: String,
}

#[derive(Clone, Debug, Eq, PartialEq)]
pub struct EmbedInfo {
    pub color: Option<u32>,
    pub provider_name: Option<String>,
    pub author_name: Option<String>,
    pub title: Option<String>,
    pub description: Option<String>,
    pub timestamp: Option<String>,
    pub fields: Vec<EmbedFieldInfo>,
    pub footer_text: Option<String>,
    pub url: Option<String>,
    pub thumbnail_url: Option<String>,
    pub thumbnail_proxy_url: Option<String>,
    pub thumbnail_width: Option<u64>,
    pub thumbnail_height: Option<u64>,
    pub image_url: Option<String>,
    pub image_proxy_url: Option<String>,
    pub image_width: Option<u64>,
    pub image_height: Option<u64>,
    pub video_url: Option<String>,
}

/// What a renderer needs to show one inline image preview. `proxy_preview_only`
/// marks a preview whose only renderable source is Discord's media proxy
/// (a still frame of a video).
#[derive(Clone, Copy, Debug, Eq, PartialEq)]
pub struct InlinePreviewInfo<'a> {
    pub url: &'a str,
    pub proxy_url: Option<&'a str>,
    pub filename: &'a str,
    pub width: Option<u64>,
    pub height: Option<u64>,
    pub accent_color: Option<u32>,
    pub proxy_preview_only: bool,
}

/// An inline preview as plain values.
pub struct PreviewView {
    pub url: Seq<char>,
    pub proxy_url: Option<Seq<char>>,
    pub filename: Seq<char>,
    pub width: Option<u64>,
    pub height: Option<u64>,
    pub accent_color: Option<u32>,
    pub proxy_preview_only: bool,
}

pub open spec fn preview_view<'a>(p: InlinePreviewInfo<'a>) -> PreviewView {
    PreviewView {
        url: p.url@,
        proxy_url: opt_str_view(p.proxy_url),
        filename: p.filename@,
        width: p.width,
        height: p.height,
        accent_color: p.accent_color,
        proxy_preview_only: p.proxy_preview_only,
    }
}

pub open spec fn opt_preview_view<'a>(p: Option<InlinePreviewInfo<'a>>) -> Option<PreviewView> {
    match p {
        Some(info) => Some(preview_view(info)),
        None => None,
    }
}

/// The preview of an attachment: an image at its preferred URL, or a video's
/// still frame through the media proxy; nothing for other attachments or for
/// a video without a proxy URL.
pub open spec fn attachment_preview(a: AttachmentInfo) -> Option<PreviewView> {
    match a.media_type_view() {
        Some(AttachmentMediaType::Image) => match preferred_url_spec(a.url@, a.proxy_url@) {
            Some(u) => Some(
                PreviewView {
                    url: u,
                    proxy_url: if a.proxy_url@.len() == 0 {
                        None
                    } else {
                        Some(a.proxy_url@)
                    },
                    filename: a.filename@,
                    width: a.width,
                    height: a.height,
                    accent_color: None,
                    proxy_preview_only: false,
                },
            ),
            None => None,
        },
        Some(AttachmentMediaType::Video) => if a.proxy_url@.len() > 0 {
            Some(
                PreviewView {
                    url: a.proxy_url@,
                    proxy_url: Some(a.proxy_url@),
                    filename: a.filename@,
                    width: a.width,
                    height: a.height,
                    accent_color: None,
                    proxy_preview_only: true,
                },
            )
        } else {
            None
        },
        _ => None,
    }
}

/// The preview of an embed: its thumbnail, else its image, tinted with the
/// embed colour.
pub open spec fn embed_preview(e: EmbedInfo) -> Option<PreviewView> {
    match e.thumbnail_url {
        Some(t) => Some(
            PreviewView {
                url: t@,
                proxy_url: opt_string_view(e.thumbnail_proxy_url),
                filename: "embed-thumbnail"@,
                width: e.thumbnail_width,
                height: e.thumbnail_height,
                accent_color: Some(accent_spec(e.color)),
                proxy_preview_only: false,
            },
        ),
        None => match e.image_url {
            Some(i) => Some(
                PreviewView {
                    url: i@,
                    proxy_url: opt_string_view(e.image_proxy_url),
                    filename: "embed-image"@,
                    width: e.image_width,
                    height: e.image_height,
                    accent_color: Some(accent_spec(e.color)),
                    proxy_preview_only: false,
                },
            ),
            None => None,
        },
    }
}

/// The media class of an attachment.
#[derive(Clone, Copy, Debug, Eq, PartialEq, Structural)]
pub enum AttachmentMediaType {
    Image,
    Video,
    Audio,
}

/// Discord's message `type` code.
#[derive(Clone, Copy, Debug, Eq, PartialEq, Ord, PartialOrd, Hash, Structural)]
pub struct MessageKind {
    code: u8,
}

pub open spec fn known_label_spec(code: u8) -> Option<&'static str> {
    if code == 0 { Some("Default") }
    else if code == 1 { Some("Recipient add") }
    else if code == 2 { Some("Recipient remove") }
    else if code == 3 { Some("Call") }
    else if code == 4 { Some("Channel name change") }
    else if code == 5 { Some("Channel icon change") }
    else if code == 6 { Some("Pinned message") }
    else if code == 7 { Some("User join") }
    else if code == 8 { Some("Guild boost") }
    else if code == 9 { Some("Guild boost tier 1") }
    else if code == 10 { Some("Guild boost tier 2") }
    else if code == 11 { Some("Guild boost tier 3") }
    else if code == 12 { Some("Channel follow add") }
    else if code == 14 { Some("Guild discovery disqualified") }
    else if code == 15 { Some("Guild discovery requalified") }
    else if code == 16 { Some("Guild discovery initial warning") }
    else if code == 17 { Some("Guild discovery final warning") }
    else if code == 18 { Some("Thread created") }
    else if code == 19 { Some("Reply") }
    else if code == 20 { Some("Chat input command") }
    else if code == 21 { Some("Thread starter message") }
    else if code == 22 { Some("Guild invite reminder") }
    else if code == 23 { Some("Context menu command") }
    else if code == 24 { Some("Auto moderation action") }
    else if code == 25 { Some("Role subscription purchase") }
    else if code == 26 { Some("Premium upsell") }
    else if code == 27 { Some("Stage start") }
    else if code == 28 { Some("Stage end") }
    else if code == 29 { Some("Stage speaker") }
    else if code == 31 { Some("Stage topic") }
    else if code == 32 { Some("Application premium subscription") }
    else if code == 36 { Some("Incident alert mode enabled") }
    else if code == 37 { Some("Incident alert mode disabled") }
    else if code == 38 { Some("Incident raid report") }
    else if code == 39 { Some("Incident false alarm report") }
    else if code == 44 { Some("Purchase notification") }
    else if code == 46 { Some("Poll result") }
    else { None }
}

impl View for MessageKind {
    type V = u8;

    closed spec fn view(&self) -> u8 {
        self.code
    }
}

impl MessageKind {
    pub fn new(code: u8) -> (r: Self)
        ensures
            r@ == code,
    {
        MessageKind { code }
    }

    pub fn regular() -> (r: Self)
        ensures
            r@ == 0,
    {
        MessageKind::new(0)
    }

    pub fn code(self) -> (r: u8)
        ensures
            r == self@,
    {
        self.code
    }

    pub fn is_regular(self) -> (r: bool)
        ensures
            r == (self@ == 0),
    {
        self.code == 0
    }

    /// A plain message, or a reply to one.
    pub fn is_regular_or_reply(self) -> (r: bool)
        ensures
            r == (self@ == 0 || self@ == 19),
    {
        self.code == 0 || self.code == 19
    }

    pub fn known_label(self) -> (r: Option<&'static str>)
        ensures
            r == known_label_spec(self@),
    {
        match self.code {
            0 => Some("Default"),
            1 => Some("Recipient add"),
            2 => Some("Recipient remove"),
            3 => Some("Call"),
            4 => Some("Channel name change"),
            5 => Some("Channel icon change"),
            6 => Some("Pinned message"),
            7 => Some("User join"),
            8 => Some("Guild boost"),
            9 => Some("Guild boost tier 1"),
            10 => Some("Guild boost tier 2"),
            11 => Some("Guild boost tier 3"),
            12 => Some("Channel follow add"),
            14 => Some("Guild discovery disqualified"),
            15 => Some("Guild discovery requalified"),
            16 => Some("Guild discovery initial warning"),
            17 => Some("Guild discovery final warning"),
            18 => Some("Thread created"),
            19 => Some("Reply"),
            20 => Some("Chat input command"),
            21 => Some("Thread starter message"),
            22 => Some("Guild invite reminder"),
            23 => Some("Context menu command"),
            24 => Some("Auto moderation action"),
            25 => Some("Role subscription purchase"),
            26 => Some("Premium upsell"),
            27 => Some("Stage start"),
            28 => Some("Stage end"),
            29 => Some("Stage speaker"),
            31 => Some("Stage topic"),
            32 => Some("Application premium subscription"),
            36 => Some("Incident alert mode enabled"),
            37 => Some("Incident alert mode disabled"),
            38 => Some("Incident raid report"),
            39 => Some("Incident false alarm report"),
            44 => Some("Purchase notification"),
            46 => Some("Poll result"),
            _ => None,
        }
    }

    /// The known label, or "Unknown message type".
    pub fn label(self) -> (r: &'static str)
        ensures
            known_label_spec(self@) matches Some(l) ==> r == l,
            known_label_spec(self@) is None ==> r == "Unknown message type",
    {
        match self.known_label() {
            Some(label) => label,
            None => "Unknown message type",
        }
    }
}

impl Default for MessageKind {
    fn default() -> (r: Self)
        ensures
            r@ == 0,
    {
        MessageKind::regular()
    }
}

#[derive(Clone, Debug, Eq, PartialEq)]
pub struct MessageSnapshotInfo {
    pub content: Option<String>,
    pub sticker_names: Vec<String>,
    pub mentions: Vec<MentionInfo>,
    pub attachments: Vec<AttachmentInfo>,
    pub embeds: Vec<EmbedInfo>,
    pub source_channel_id: Option<Id<ChannelMarker>>,
    pub timestamp: Option<String>,
}

#[derive(Clone, Debug, Eq, PartialEq)]
pub struct ReplyInfo {
    pub author_id: Option<Id<UserMarker>>,
    pub author: String,
    pub content: Option<String>,
    pub sticker_names: Vec<String>,
    pub mentions: Vec<MentionInfo>,
}

#[derive(Clone, Debug, Eq, PartialEq)]
pub struct MessageInteractionInfo {
    pub user_id: Option<Id<UserMarker>>,
    pub user: String,
    pub command_name: Option<String>,
}

#[derive(Clone, Debug, Eq, PartialEq)]
pub struct MessageReferenceInfo {
    pub guild_id: Option<Id<GuildMarker>>,
    pub channel_id: Option<Id<ChannelMarker>>,
    pub message_id: Option<Id<MessageMarker>>,
}

#[derive(Clone, Debug, Eq, PartialEq)]
pub struct PollInfo {
    pub question: String,
    pub answers: Vec<PollAnswerInfo>,
    pub allow_multiselect: bool,
    pub results_finalized: Option<bool>,
    pub total_votes: Option<u64>,
}

#[derive(Clone, Debug, Eq, PartialEq)]
pub struct PollAnswerInfo {
    pub answer_id: u8,
    pub text: String,
    pub vote_count: Option<u64>,
    pub me_voted: bool,
}

#[derive(Clone, Debug, Eq, PartialEq)]
pub struct ReactionInfo {
    pub emoji: ReactionEmoji,
    pub count: u64,
    pub me: bool,
}

#[derive(Clone, Debug, Eq, PartialEq)]
pub struct ReactionUserInfo {
    pub user_id: Id<UserMarker>,
    pub display_name: String,
}

#[derive(Clone, Debug, Eq, PartialEq)]
pub struct ReactionUsersInfo {
    pub emoji: ReactionEmoji,
    pub users: Vec<ReactionUserInfo>,
}

/// One message as delivered by the gateway or REST.
#[derive(Clone, Debug, Eq, PartialEq)]
pub struct MessageInfo {
    pub guild_id: Option<Id<GuildMarker>>,
    pub channel_id: Id<ChannelMarker>,
    pub message_id: Id<MessageMarker>,
    pub author_id: Id<UserMarker>,
    pub author: String,
    pub author_avatar_url: Option<String>,
    pub author_is_bot: bool,
    pub author_role_ids: Vec<Id<RoleMarker>>,
    pub message_kind: MessageKind,
    pub interaction: Option<MessageInteractionInfo>,
    pub reference: Option<MessageReferenceInfo>,
    pub reply: Option<ReplyInfo>,
    pub poll: Option<PollInfo>,
    pub pinned: bool,
    pub reactions: Vec<ReactionInfo>,
    pub content: Option<String>,
    pub sticker_names: Vec<String>,
    pub mentions: Vec<MentionInfo>,
    pub mention_everyone: bool,
    pub mention_roles: Vec<Id<RoleMarker>>,
    pub flags: u64,
    pub attachments: Vec<AttachmentInfo>,
    pub embeds: Vec<EmbedInfo>,
    pub forwarded_snapshots: Vec<MessageSnapshotInfo>,
    pub edited_timestamp: Option<String>,
}

#[derive(Clone, Debug, Eq, PartialEq)]
pub enum AttachmentUpdate {
    Unchanged,
    Replace(Vec<AttachmentInfo>),
}

impl AttachmentUpdate {
    /// The new attachment list when the update replaces it.
    pub fn replacement(&self) -> (r: Option<&Vec<AttachmentInfo>>)
        ensures
            match self {
                AttachmentUpdate::Unchanged => r is None,
                AttachmentUpdate::Replace(v) => r == Some(v),
            },
    {
        match self {
            AttachmentUpdate::Unchanged => None,
            AttachmentUpdate::Replace(v) => Some(v),
        }
    }
}

// ---------------------------------------------------------------------------
// File extensions and media classification
// ---------------------------------------------------------------------------

/// Index of the last `.` among the first `n` characters, or -1.
pub open spec fn last_dot_before(s: Seq<char>, n: int) -> int
    decreases n,
{
    if n <= 0 {
        -1
    } else if s[n - 1] == '.' {
        n - 1
    } else {
        last_dot_before(s, n - 1)
    }
}

/// The text after the last `.` of a filename, if it has one.
pub open spec fn extension_spec(filename: Seq<char>) -> Option<Seq<char>> {
    let i = last_dot_before(filename, filename.len() as int);
    if i < 0 {
        None
    } else {
        Some(filename.subrange(i + 1, filename.len() as int))
    }
}

proof fn lemma_last_dot_bounds(s: Seq<char>, n: int)
    requires
        0 <= n <= s.len(),
    ensures
        -1 <= last_dot_before(s, n) < n,
        last_dot_before(s, n) >= 0 ==> s[last_dot_before(s, n)] == '.',
    decreases n,
{
    if n > 0 && s[n - 1] != '.' {
        lemma_last_dot_bounds(s, n - 1);
    }
}

/// The extension of a filename (the text after its last `.`).
pub fn filename_extension(filename: &str) -> (r: Option<&str>)
    ensures
        match r {
            Some(e) => extension_spec(filename@) == Some(e@),
            None => extension_spec(filename@) is None,
        },
{
    let n = filename.unicode_len();
    let mut i: usize = n;
    while i > 0
        invariant
            n == filename@.len(),
            i <= n,
            last_dot_before(filename@, n as int) == last_dot_before(filename@, i as int),
        decreases i,
    {
        if filename.get_char(i - 1) == '.' {
            let ext = filename.substring_char(i, n);
            return Some(ext);
        }
        i = i - 1;
    }
    None
}

pub open spec fn image_extension_spec(e: Seq<char>) -> bool {
    eq_ignore_ascii_case_spec(e, "avif"@) || eq_ignore_ascii_case_spec(e, "gif"@)
        || eq_ignore_ascii_case_spec(e, "jpeg"@) || eq_ignore_ascii_case_spec(e, "jpg"@)
        || eq_ignore_ascii_case_spec(e, "png"@) || eq_ignore_ascii_case_spec(e, "webp"@)
}

pub open spec fn video_extension_spec(e: Seq<char>) -> bool {
    eq_ignore_ascii_case_spec(e, "m4v"@) || eq_ignore_ascii_case_spec(e, "mov"@)
        || eq_ignore_ascii_case_spec(e, "mp4"@) || eq_ignore_ascii_case_spec(e, "webm"@)
}

pub open spec fn audio_extension_spec(e: Seq<char>) -> bool {
    eq_ignore_ascii_case_spec(e, "aac"@) || eq_ignore_ascii_case_spec(e, "flac"@)
        || eq_ignore_ascii_case_spec(e, "m4a"@) || eq_ignore_ascii_case_spec(e, "mp3"@)
        || eq_ignore_ascii_case_spec(e, "oga"@) || eq_ignore_ascii_case_spec(e, "ogg"@)
        || eq_ignore_ascii_case_spec(e, "opus"@) || eq_ignore_ascii_case_spec(e, "wav"@)
}

fn is_image_extension(e: &str) -> (r: bool)
    ensures
        r == image_extension_spec(e@),
{
    str_eq_ignore_ascii_case(e, "avif") || str_eq_ignore_ascii_case(e, "gif")
        || str_eq_ignore_ascii_case(e, "jpeg") || str_eq_ignore_ascii_case(e, "jpg")
        || str_eq_ignore_ascii_case(e, "png") || str_eq_ignore_ascii_case(e, "webp")
}

fn is_video_extension(e: &str) -> (r: bool)
    ensures
        r == video_extension_spec(e@),
{
    str_eq_ignore_ascii_case(e, "m4v") || str_eq_ignore_ascii_case(e, "mov")
        || str_eq_ignore_ascii_case(e, "mp4") || str_eq_ignore_ascii_case(e, "webm")
}

fn is_audio_extension(e: &str) -> (r: bool)
    ensures
        r == audio_extension_spec(e@),
{
    str_eq_ignore_ascii_case(e, "aac") || str_eq_ignore_ascii_case(e, "flac")
        || str_eq_ignore_ascii_case(e, "m4a") || str_eq_ignore_ascii_case(e, "mp3")
        || str_eq_ignore_ascii_case(e, "oga") || str_eq_ignore_ascii_case(e, "ogg")
        || str_eq_ignore_ascii_case(e, "opus") || str_eq_ignore_ascii_case(e, "wav")
}

/// Media class of an attachment: a declared content type decides by its
/// `image/`, `video/` or `audio/` prefix; without one, the filename
/// extension decides.
pub open spec fn media_type_spec(content_type: Option<Seq<char>>, filename: Seq<char>) -> Option<AttachmentMediaType> {
    match content_type {
        Some(ct) => {
            if seq_starts_with(ct, "image/"@) {
                Some(AttachmentMediaType::Image)
            } else if seq_starts_with(ct, "video/"@) {
                Some(AttachmentMediaType::Video)
            } else if seq_starts_with(ct, "audio/"@) {
                Some(AttachmentMediaType::Audio)
            } else {
                None
            }
        },
        None => match extension_spec(filename) {
            Some(e) => {
                if image_extension_spec(e) {
                    Some(AttachmentMediaType::Image)
                } else if video_extension_spec(e) {
                    Some(AttachmentMediaType::Video)
                } else if audio_extension_spec(e) {
                    Some(AttachmentMediaType::Audio)
                } else {
                    None
                }
            },
            None => None,
        },
    }
}

pub open spec fn opt_string_view(s: Option<String>) -> Option<Seq<char>> {
    match s {
        Some(v) => Some(v@),
        None => None,
    }
}

pub open spec fn opt_str_view(s: Option<&str>) -> Option<Seq<char>> {
    match s {
        Some(v) => Some(v@),
        None => None,
    }
}

/// The preferred link of an attachment: its URL, or the proxy URL when the
/// URL is empty, or nothing when both are empty.
pub open spec fn preferred_url_spec(url: Seq<char>, proxy_url: Seq<char>) -> Option<Seq<char>> {
    if url.len() == 0 {
        if proxy_url.len() == 0 {
            None
        } else {
            Some(proxy_url)
        }
    } else {
        Some(url)
    }
}

impl AttachmentInfo {
    pub open spec fn media_type_view(&self) -> Option<AttachmentMediaType> {
        media_type_spec(opt_string_view(self.content_type), self.filename@)
    }

    pub fn media_type(&self) -> (r: Option<AttachmentMediaType>)
        ensures
            r == self.media_type_view(),
    {
        match &self.content_type {
            Some(ct) => {
                if str_starts_with(ct.as_str(), "image/") {
                    Some(AttachmentMediaType::Image)
                } else if str_starts_with(ct.as_str(), "video/") {
                    Some(AttachmentMediaType::Video)
                } else if str_starts_with(ct.as_str(), "audio/") {
                    Some(AttachmentMediaType::Audio)
                } else {
                    None
                }
            },
            None => match filename_extension(self.filename.as_str()) {
                Some(e) => {
                    if is_image_extension(e) {
                        Some(AttachmentMediaType::Image)
                    } else if is_video_extension(e) {
                        Some(AttachmentMediaType::Video)
                    } else if is_audio_extension(e) {
                        Some(AttachmentMediaType::Audio)
                    } else {
                        None
                    }
                },
                None => None,
            },
        }
    }

    pub fn preferred_url(&self) -> (r: Option<&str>)
        ensures
            opt_str_view(r) == preferred_url_spec(self.url@, self.proxy_url@),
    {
        if self.url.as_str().is_empty() {
            if self.proxy_url.as_str().is_empty() {
                None
            } else {
                Some(self.proxy_url.as_str())
            }
        } else {
            Some(self.url.as_str())
        }
    }

    pub fn is_image(&self) -> (r: bool)
        ensures
            r == (self.media_type_view() == Some(AttachmentMediaType::Image)),
    {
        match self.media_type() {
            Some(AttachmentMediaType::Image) => true,
            _ => false,
        }
    }

    pub fn is_video(&self) -> (r: bool)
        ensures
            r == (self.media_type_view() == Some(AttachmentMediaType::Video)),
    {
        match self.media_type() {
            Some(AttachmentMediaType::Video) => true,
            _ => false,
        }
    }

    /// The link to render inline: only images have one.
    pub fn inline_preview_url(&self) -> (r: Option<&str>)
        ensures
            opt_str_view(r) == if self.media_type_view() == Some(AttachmentMediaType::Image) {
                preferred_url_spec(self.url@, self.proxy_url@)
            } else {
                None
            },
    {
        if self.is_image() {
            self.preferred_url()
        } else {
            None
        }
    }

    /// Preview of an image (at its preferred URL), or of a video's still
    /// frame through the media proxy (then `proxy_preview_only` is set).
    /// Other attachments, and videos without a proxy URL, have none.
    pub fn inline_preview_info(&self) -> (r: Option<InlinePreviewInfo<'_>>)
        ensures
            opt_preview_view(r) == attachment_preview(*self),
    {
        let proxy: Option<&str> = if self.proxy_url.as_str().is_empty() {
            None
        } else {
            Some(self.proxy_url.as_str())
        };
        match self.media_type() {
            Some(AttachmentMediaType::Image) => match self.preferred_url() {
                Some(url) => Some(
                    InlinePreviewInfo {
                        url,
                        proxy_url: proxy,
                        filename: self.filename.as_str(),
                        width: self.width,
                        height: self.height,
                        accent_color: None,
                        proxy_preview_only: false,
                    },
                ),
                None => None,
            },
            Some(AttachmentMediaType::Video) => match proxy {
                Some(p) => Some(
                    InlinePreviewInfo {
                        url: p,
                        proxy_url: Some(p),
                        filename: self.filename.as_str(),
                        width: self.width,
                        height: self.height,
                        accent_color: None,
                        proxy_preview_only: true,
                    },
                ),
                None => None,
            },
            _ => None,
        }
    }
}

pub open spec fn accent_spec(color: Option<u32>) -> u32 {
    match color {
        Some(c) => c,
        None => 0xff0000,
    }
}

impl EmbedInfo {
    /// Preview of the embed's thumbnail, or else of its image, tinted with the
    /// embed colour (red when the embed has none).
    pub fn inline_preview_info(&self) -> (r: Option<InlinePreviewInfo<'_>>)
        ensures
            opt_preview_view(r) == embed_preview(*self),
    {
        let accent = match self.color {
            Some(c) => c,
            None => 0xff0000,
        };
        if let Some(url) = &self.thumbnail_url {
            let proxy = match &self.thumbnail_proxy_url {
                Some(p) => Some(p.as_str()),
                None => None,
            };
            return Some(
                InlinePreviewInfo {
                    url: url.as_str(),
                    proxy_url: proxy,
                    filename: "embed-thumbnail",
                    width: self.thumbnail_width,
                    height: self.thumbnail_height,
                    accent_color: Some(accent),
                    proxy_preview_only: false,
                },
            );
        }
        match &self.image_url {
            Some(url) => {
                let proxy = match &self.image_proxy_url {
                    Some(p) => Some(p.as_str()),
                    None => None,
                };
                Some(
                    InlinePreviewInfo {
                        url: url.as_str(),
                        proxy_url: proxy,
                        filename: "embed-image",
                        width: self.image_width,
                        height: self.image_height,
                        accent_color: Some(accent),
                        proxy_preview_only: false,
                    },
                )
            },
            None => None,
        }
    }
}

// ---------------------------------------------------------------------------
// Poll result summaries
// ---------------------------------------------------------------------------

/// The value of the last field named `key`, if any.
pub open spec fn last_field_value(fields: Seq<(&str, &str)>, key: Seq<char>) -> Option<Seq<char>>
    decreases fields.len(),
{
    if fields.len() == 0 {
        None
    } else if fields.last().0@ == key {
        Some(fields.last().1@)
    } else {
        last_field_value(fields.drop_last(), key)
    }
}

pub open spec fn parse_field(v: Option<Seq<char>>, max: nat) -> Option<nat> {
    match v {
        Some(s) => parse_unsigned_spec(s, max),
        None => None,
    }
}

pub open spec fn opt_u64_nat(o: Option<u64>) -> Option<nat> {
    match o {
        Some(x) => Some(x as nat),
        None => None,
    }
}

/// What a poll-result system message says, read from its embed fields
/// (`poll_question_text`, `victor_answer_id`, `victor_answer_text`,
/// `victor_answer_votes`, `total_votes`; the last occurrence of a field
/// counts). The summary is final; its one answer is the winner, present
/// when the winner's text is given.
pub open spec fn poll_result_matches(fields: Seq<(&str, &str)>, p: PollInfo) -> bool {
    &&& p.question@ == (match last_field_value(fields, "poll_question_text"@) {
        Some(q) => q,
        None => "Poll results"@,
    })
    &&& !p.allow_multiselect
    &&& p.results_finalized == Some(true)
    &&& opt_u64_nat(p.total_votes) == parse_field(last_field_value(fields, "total_votes"@), u64::MAX as nat)
    &&& match last_field_value(fields, "victor_answer_text"@) {
        Some(t) => {
            &&& p.answers@.len() == 1
            &&& p.answers@[0].text@ == t
            &&& p.answers@[0].answer_id as nat == (match parse_field(last_field_value(fields, "victor_answer_id"@), 255) {
                Some(id) => id,
                None => 1,
            })
            &&& opt_u64_nat(p.answers@[0].vote_count) == parse_field(last_field_value(fields, "victor_answer_votes"@), u64::MAX as nat)
            &&& !p.answers@[0].me_voted
        },
        None => p.answers@.len() == 0,
    }
}

fn opt_parse_u64(v: Option<&str>) -> (r: Option<u64>)
    ensures
        opt_u64_nat(r) == parse_field(match v { Some(x) => Some(x@), None => None }, u64::MAX as nat),
{
    match v {
        Some(x) => parse_u64(x),
        None => None,
    }
}

/// Summarises a poll-result message from its embed fields.
pub fn poll_result_info_from_fields(fields: &[(&str, &str)]) -> (r: Option<PollInfo>)
    ensures
        r matches Some(p) && poll_result_matches(fields@, p),
{
    let mut question: Option<&str> = None;
    let mut winner_id: Option<&str> = None;
    let mut winner_text: Option<&str> = None;
    let mut winner_votes: Option<&str> = None;
    let mut total_votes: Option<&str> = None;
    let n = fields.len();
    let mut i: usize = 0;
    proof {
        reveal_strlit("poll_question_text");
        reveal_strlit("victor_answer_id");
        reveal_strlit("victor_answer_text");
        reveal_strlit("victor_answer_votes");
        reveal_strlit("total_votes");
        assert("poll_question_text"@[0] != "victor_answer_text"@[0]);
        assert("victor_answer_id"@.len() != "poll_question_text"@.len());
        assert("victor_answer_votes"@.len() != "poll_question_text"@.len());
        assert("total_votes"@.len() != "poll_question_text"@.len());
        assert("victor_answer_id"@.len() != "victor_answer_text"@.len());
        assert("victor_answer_id"@.len() != "victor_answer_votes"@.len());
        assert("victor_answer_id"@.len() != "total_votes"@.len());
        assert("victor_answer_text"@.len() != "victor_answer_votes"@.len());
        assert("victor_answer_text"@.len() != "total_votes"@.len());
        assert("victor_answer_votes"@.len() != "total_votes"@.len());
    }
    while i < n
        invariant
            "poll_question_text"@ != "victor_answer_text"@,
            "poll_question_text"@ != "victor_answer_id"@,
            "poll_question_text"@ != "victor_answer_votes"@,
            "poll_question_text"@ != "total_votes"@,
            "victor_answer_id"@ != "victor_answer_text"@,
            "victor_answer_id"@ != "victor_answer_votes"@,
            "victor_answer_id"@ != "total_votes"@,
            "victor_answer_text"@ != "victor_answer_votes"@,
            "victor_answer_text"@ != "total_votes"@,
            "victor_answer_votes"@ != "total_votes"@,
            n == fields@.len(),
            i <= n,
            opt_str_view(question) == last_field_value(fields@.subrange(0, i as int), "poll_question_text"@),
            opt_str_view(winner_id) == last_field_value(fields@.subrange(0, i as int), "victor_answer_id"@),
            opt_str_view(winner_text) == last_field_value(fields@.subrange(0, i as int), "victor_answer_text"@),
            opt_str_view(winner_votes) == last_field_value(fields@.subrange(0, i as int), "victor_answer_votes"@),
            opt_str_view(total_votes) == last_field_value(fields@.subrange(0, i as int), "total_votes"@),
        decreases n - i,
    {
        let (name, value) = fields[i];
        proof {
            assert(fields@.subrange(0, i + 1).drop_last() =~= fields@.subrange(0, i as int));
            assert(fields@.subrange(0, i + 1).last() == fields@[i as int]);
        }
        if str_eq(name, "poll_question_text") {
            question = Some(value);
        } else if str_eq(name, "victor_answer_id") {
            winner_id = Some(value);
        } else if str_eq(name, "victor_answer_text") {
            winner_text = Some(value);
        } else if str_eq(name, "victor_answer_votes") {
            winner_votes = Some(value);
        } else if str_eq(name, "total_votes") {
            total_votes = Some(value);
        }
        i = i + 1;
    }
    proof {
        assert(fields@.subrange(0, n as int) =~= fields@);
    }
    let question_text = match question {
        Some(q) => q.to_owned(),
        None => "Poll results".to_owned(),
    };
    let answers = match winner_text {
        Some(text) => {
            let answer_id: u8 = match winner_id {
                Some(v) => match parse_u8(v) {
                    Some(id) => id,
                    None => 1,
                },
                None => 1,
            };
            let mut v: Vec<PollAnswerInfo> = Vec::new();
            v.push(
                PollAnswerInfo {
                    answer_id,
                    text: text.to_owned(),
                    vote_count: opt_parse_u64(winner_votes),
                    me_voted: false,
                },
            );
            v
        },
        None => Vec::new(),
    };
    Some(
        PollInfo {
            question: question_text,
            answers,
            allow_multiselect: false,
            results_finalized: Some(true),
            total_votes: opt_parse_u64(total_votes),
        },
    )
}

} // verus!
