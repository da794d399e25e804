//! Presence statuses and activities, as the client shows and publishes them.
use vstd::prelude::*;

use crate::ids::{EmojiMarker, Id};
use crate::message_info::opt_string_view;
use crate::text::{concat2, seq_starts_with, str_starts_with};

verus! {

/// A user's online status. `Unknown` stands for a status the client has
/// not learned yet.
#[derive(Clone, Copy, Debug, Eq, PartialEq, Structural)]
pub enum PresenceStatus {
    Online,
    Idle,
    DoNotDisturb,
    Offline,
    Unknown,
}

pub open spec fn gateway_status_spec(status: PresenceStatus) -> &'static str {
    match status {
        PresenceStatus::Online => "online",
        PresenceStatus::Idle => "idle",
        PresenceStatus::DoNotDisturb => "dnd",
        PresenceStatus::Offline => "invisible",
        PresenceStatus::Unknown => "online",
    }
}

pub open spec fn status_label_spec(status: PresenceStatus) -> &'static str {
    match status {
        PresenceStatus::Online => "online",
        PresenceStatus::Idle => "idle",
        PresenceStatus::DoNotDisturb => "dnd",
        PresenceStatus::Offline => "offline",
        PresenceStatus::Unknown => "unknown",
    }
}

impl PresenceStatus {
    /// The status string sent in gateway presence updates. Appearing offline
    /// is requested as `invisible`; an unknown status is sent as `online`.
    pub fn gateway_status(self) -> (r: &'static str)
        ensures
            r == gateway_status_spec(self),
    {
        match self {
            PresenceStatus::Online => "online",
            PresenceStatus::Idle => "idle",
            PresenceStatus::DoNotDisturb => "dnd",
            PresenceStatus::Offline => "invisible",
            PresenceStatus::Unknown => "online",
        }
    }

    /// A short lowercase label for logs.
    pub fn label(self) -> (r: &'static str)
        ensures
            r == status_label_spec(self),
    {
        match self {
            PresenceStatus::Online => "online",
            PresenceStatus::Idle => "idle",
            PresenceStatus::DoNotDisturb => "dnd",
            PresenceStatus::Offline => "offline",
            PresenceStatus::Unknown => "unknown",
        }
    }
}

/// The kind of a rich-presence activity, with Discord's activity type code.
#[derive(Clone, Copy, Debug, Eq, PartialEq, Structural)]
pub enum ActivityKind {
    Playing,
    Streaming,
    Listening,
    Watching,
    Custom,
    Competing,
}

pub open spec fn activity_code_spec(kind: ActivityKind) -> u64 {
    match kind {
        ActivityKind::Playing => 0,
        ActivityKind::Streaming => 1,
        ActivityKind::Listening => 2,
        ActivityKind::Watching => 3,
        ActivityKind::Custom => 4,
        ActivityKind::Competing => 5,
    }
}

impl ActivityKind {
    pub fn gateway_code(self) -> (r: u64)
        ensures
            r == activity_code_spec(self),
    {
        match self {
            ActivityKind::Playing => 0,
            ActivityKind::Streaming => 1,
            ActivityKind::Listening => 2,
            ActivityKind::Watching => 3,
            ActivityKind::Custom => 4,
            ActivityKind::Competing => 5,
        }
    }
}

#[derive(Clone, Debug, Eq, PartialEq)]
pub struct ActivityEmoji {
    pub name: String,
    pub id: Option<Id<EmojiMarker>>,
    pub animated: bool,
}

#[derive(Clone, Copy, Debug, Eq, PartialEq)]
pub struct ActivityTimestamps {
    pub start: Option<u64>,
    pub end: Option<u64>,
}

#[derive(Clone, Debug, Eq, PartialEq)]
pub struct ActivityAssets {
    pub large_image: Option<String>,
    pub large_text: Option<String>,
    pub small_image: Option<String>,
    pub small_text: Option<String>,
}

#[derive(Clone, Debug, Eq, PartialEq)]
pub struct ActivityParty {
    pub id: Option<String>,
    pub size: Option<(u64, u64)>,
}

#[derive(Clone, Debug, Eq, PartialEq)]
pub struct ActivityButton {
    pub label: String,
    pub url: String,
}

/// One rich-presence activity.
#[derive(Clone, Debug, Eq, PartialEq)]
pub struct ActivityInfo {
    pub name: String,
    pub kind: ActivityKind,
    pub details: Option<String>,
    pub state: Option<String>,
    pub url: Option<String>,
    pub emoji: Option<ActivityEmoji>,
    pub application_id: Option<String>,
    pub timestamps: Option<ActivityTimestamps>,
    pub assets: Option<ActivityAssets>,
    pub party: Option<ActivityParty>,
    pub buttons: Vec<ActivityButton>,
}

/// An activity image given as a web address, which the gateway cannot show
/// as it is: it must first be registered for a media-proxy path.
pub open spec fn is_external_image(url: Seq<char>) -> bool {
    seq_starts_with(url, "https://"@) || seq_starts_with(url, "http://"@)
}

/// The image of a slot when it is external.
pub open spec fn external_image(image: Option<String>) -> Option<Seq<char>> {
    match image {
        Some(u) => if is_external_image(u@) {
            Some(u@)
        } else {
            None
        },
        None => None,
    }
}

fn external_image_of(image: &Option<String>) -> (r: Option<String>)
    ensures
        opt_string_view(r) == external_image(*image),
{
    match image {
        Some(u) => if str_starts_with(u.as_str(), "https://") || str_starts_with(u.as_str(), "http://") {
            Some(u.clone())
        } else {
            None
        },
        None => None,
    }
}

/// The external images of an activity that must be registered before the
/// activity is published, large image first: none without an application or
/// assets.
pub fn external_activity_images(activity: &ActivityInfo) -> (r: (Option<String>, Option<String>))
    ensures
        activity.application_id is None ==> r.0 is None && r.1 is None,
        activity.application_id is Some ==> match activity.assets {
            Some(a) => opt_string_view(r.0) == external_image(a.large_image) && opt_string_view(r.1) == external_image(
                a.small_image,
            ),
            None => r.0 is None && r.1 is None,
        },
{
    if activity.application_id.is_none() {
        return (None, None);
    }
    match &activity.assets {
        Some(a) => (external_image_of(&a.large_image), external_image_of(&a.small_image)),
        None => (None, None),
    }
}

/// The media-proxy reference of a registered image.
pub open spec fn media_proxy_ref(path: Seq<char>) -> Seq<char> {
    "mp:"@ + path
}

/// Points an activity's images at the media-proxy paths they were
/// registered under: each slot with a path becomes `mp:<path>`, the others
/// and everything else stay.
pub fn apply_registered_images(activity: &mut ActivityInfo, large_path: Option<String>, small_path: Option<String>)
    ensures
        final(activity).name == old(activity).name,
        final(activity).kind == old(activity).kind,
        final(activity).details == old(activity).details,
        final(activity).state == old(activity).state,
        final(activity).url == old(activity).url,
        final(activity).emoji == old(activity).emoji,
        final(activity).application_id == old(activity).application_id,
        final(activity).timestamps == old(activity).timestamps,
        final(activity).party == old(activity).party,
        final(activity).buttons == old(activity).buttons,
        match old(activity).assets {
            None => final(activity).assets is None,
            Some(a) => final(activity).assets matches Some(b) && {
                &&& b.large_text == a.large_text
                &&& b.small_text == a.small_text
                &&& opt_string_view(b.large_image) == match large_path {
                    Some(p) => Some(media_proxy_ref(p@)),
                    None => opt_string_view(a.large_image),
                }
                &&& opt_string_view(b.small_image) == match small_path {
                    Some(p) => Some(media_proxy_ref(p@)),
                    None => opt_string_view(a.small_image),
                }
            },
        },
{
    proof {
        reveal_strlit("mp:");
    }
    match activity.assets.take() {
        Some(mut a) => {
            if let Some(p) = large_path {
                a.large_image = Some(concat2("mp:", p.as_str()));
            }
            if let Some(p) = small_path {
                a.small_image = Some(concat2("mp:", p.as_str()));
            }
            activity.assets = Some(a);
        },
        None => {},
    }
}

} // verus!
