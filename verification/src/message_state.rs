//! Cached messages: what the client keeps of each, what the UI can offer on
//! it, and how reactions and poll votes change it.
use vstd::prelude::*;

use crate::commands::{reaction_emoji_eq, same_emoji, ReactionEmoji};
use crate::ids::{ChannelMarker, GuildMarker, Id, MessageMarker, RoleMarker, UserMarker};
use crate::message_info::{
    attachment_preview, embed_preview, opt_preview_view, opt_string_view, preview_view, AttachmentInfo, AttachmentMediaType, EmbedInfo, InlinePreviewInfo,
    MentionInfo, MessageInteractionInfo, MessageKind, MessageReferenceInfo, MessageSnapshotInfo, PollInfo,
    PreviewView, ReactionInfo, ReplyInfo,
};

verus! {

/// One cached message.
#[derive(Clone, Debug)]
pub struct MessageState {
    pub id: Id<MessageMarker>,
    pub guild_id: Option<Id<GuildMarker>>,
    pub channel_id: Id<ChannelMarker>,
    pub author_id: Id<UserMarker>,
    pub author: String,
    pub author_avatar_url: Option<String>,
    pub author_is_bot: bool,
    pub message_kind: MessageKind,
    pub interaction: Option<MessageInteractionInfo>,
    pub reference: Option<MessageReferenceInfo>,
    pub reply: Option<ReplyInfo>,
    pub poll: Option<PollInfo>,
    pub pinned: bool,
    pub reactions: Vec<ReactionInfo>,
    pub content: Option<String>,
    pub sticker_names: Vec<String>,
    pub mentions: Vec<MentionInfo>,
    pub mention_everyone: bool,
    pub mention_roles: Vec<Id<RoleMarker>>,
    pub flags: u64,
    pub attachments: Vec<AttachmentInfo>,
    pub embeds: Vec<EmbedInfo>,
    pub forwarded_snapshots: Vec<MessageSnapshotInfo>,
    pub edited_timestamp: Option<String>,
}

/// What the UI can offer on a message.
#[derive(Clone, Copy, Debug, Eq, PartialEq, Structural)]
pub struct MessageCapabilities {
    pub is_reply: bool,
    pub is_forwarded: bool,
    pub has_poll: bool,
    pub has_image: bool,
    pub has_video: bool,
    pub has_audio: bool,
    pub has_file: bool,
}

impl Default for MessageCapabilities {
    fn default() -> (r: Self)
        ensures
            !r.is_reply && !r.is_forwarded && !r.has_poll && !r.has_image && !r.has_video && !r.has_audio
                && !r.has_file,
    {
        MessageCapabilities {
            is_reply: false,
            is_forwarded: false,
            has_poll: false,
            has_image: false,
            has_video: false,
            has_audio: false,
            has_file: false,
        }
    }
}

/// The attachments of the forwarded snapshots, in order.
pub open spec fn snapshot_attachments(snapshots: Seq<MessageSnapshotInfo>) -> Seq<AttachmentInfo>
    decreases snapshots.len(),
{
    if snapshots.len() == 0 {
        Seq::empty()
    } else {
        snapshot_attachments(snapshots.drop_last()) + snapshots.last().attachments@
    }
}

/// The embeds of the forwarded snapshots, in order.
pub open spec fn snapshot_embeds(snapshots: Seq<MessageSnapshotInfo>) -> Seq<EmbedInfo>
    decreases snapshots.len(),
{
    if snapshots.len() == 0 {
        Seq::empty()
    } else {
        snapshot_embeds(snapshots.drop_last()) + snapshots.last().embeds@
    }
}

/// The previews of the attachments that have one, in order.
pub open spec fn attachment_previews(atts: Seq<AttachmentInfo>) -> Seq<PreviewView>
    decreases atts.len(),
{
    if atts.len() == 0 {
        Seq::empty()
    } else {
        let rest = attachment_previews(atts.drop_last());
        match attachment_preview(atts.last()) {
            Some(p) => rest.push(p),
            None => rest,
        }
    }
}

/// The previews of the embeds that have one, in order.
pub open spec fn embed_previews(embeds: Seq<EmbedInfo>) -> Seq<PreviewView>
    decreases embeds.len(),
{
    if embeds.len() == 0 {
        Seq::empty()
    } else {
        let rest = embed_previews(embeds.drop_last());
        match embed_preview(embeds.last()) {
            Some(p) => rest.push(p),
            None => rest,
        }
    }
}

impl MessageState {
    /// The message's own attachments, then those of its forwarded snapshots.
    pub open spec fn display_attachments(&self) -> Seq<AttachmentInfo> {
        self.attachments@ + snapshot_attachments(self.forwarded_snapshots@)
    }

    /// The message's own embeds, then those of its forwarded snapshots.
    pub open spec fn display_embeds(&self) -> Seq<EmbedInfo> {
        self.embeds@ + snapshot_embeds(self.forwarded_snapshots@)
    }

    /// Every inline preview, attachments first, each part in display order.
    pub open spec fn previews(&self) -> Seq<PreviewView> {
        attachment_previews(self.display_attachments()) + embed_previews(self.display_embeds())
    }

    /// The attachments in display order: the message's own, then those of
    /// its forwarded snapshots.
    pub fn attachments_in_display_order(&self) -> (r: Vec<&AttachmentInfo>)
        ensures
            r@.len() == self.display_attachments().len(),
            forall|i: int| 0 <= i < r@.len() ==> *(#[trigger] r@[i]) == self.display_attachments()[i],
    {
        let mut out: Vec<&AttachmentInfo> = Vec::new();
        let n = self.attachments.len();
        let mut i: usize = 0;
        while i < n
            invariant
                n == self.attachments@.len(),
                i <= n,
                out@.len() == i,
                forall|j: int| 0 <= j < i ==> *(#[trigger] out@[j]) == self.attachments@[j],
            decreases n - i,
        {
            out.push(&self.attachments[i]);
            i = i + 1;
        }
        let m = self.forwarded_snapshots.len();
        let mut s: usize = 0;
        while s < m
            invariant
                m == self.forwarded_snapshots@.len(),
                s <= m,
                out@.len() == self.attachments@.len() + snapshot_attachments(self.forwarded_snapshots@.subrange(0, s as int)).len(),
                forall|j: int| 0 <= j < out@.len() ==> *(#[trigger] out@[j]) == (self.attachments@ + snapshot_attachments(
                    self.forwarded_snapshots@.subrange(0, s as int),
                ))[j],
            decreases m - s,
        {
            let snapshot = &self.forwarded_snapshots[s];
            let ghost before = self.attachments@ + snapshot_attachments(self.forwarded_snapshots@.subrange(0, s as int));
            proof {
                let sub = self.forwarded_snapshots@.subrange(0, s + 1);
                assert(sub.drop_last() =~= self.forwarded_snapshots@.subrange(0, s as int));
                assert(sub.last() == *snapshot);
            }
            let k = snapshot.attachments.len();
            let mut t: usize = 0;
            while t < k
                invariant
                    k == snapshot.attachments@.len(),
                    t <= k,
                    out@.len() == before.len() + t,
                    forall|j: int| 0 <= j < out@.len() ==> *(#[trigger] out@[j]) == (before + snapshot.attachments@)[j],
                decreases k - t,
            {
                out.push(&snapshot.attachments[t]);
                t = t + 1;
            }
            proof {
                assert(before + snapshot.attachments@ =~= self.attachments@ + snapshot_attachments(
                    self.forwarded_snapshots@.subrange(0, s + 1),
                ));
            }
            s = s + 1;
        }
        proof {
            assert(self.forwarded_snapshots@.subrange(0, m as int) =~= self.forwarded_snapshots@);
        }
        out
    }

    /// The embeds in display order: the message's own, then those of its
    /// forwarded snapshots.
    pub fn embeds_in_display_order(&self) -> (r: Vec<&EmbedInfo>)
        ensures
            r@.len() == self.display_embeds().len(),
            forall|i: int| 0 <= i < r@.len() ==> *(#[trigger] r@[i]) == self.display_embeds()[i],
    {
        let mut out: Vec<&EmbedInfo> = Vec::new();
        let n = self.embeds.len();
        let mut i: usize = 0;
        while i < n
            invariant
                n == self.embeds@.len(),
                i <= n,
                out@.len() == i,
                forall|j: int| 0 <= j < i ==> *(#[trigger] out@[j]) == self.embeds@[j],
            decreases n - i,
        {
            out.push(&self.embeds[i]);
            i = i + 1;
        }
        let m = self.forwarded_snapshots.len();
        let mut s: usize = 0;
        while s < m
            invariant
                m == self.forwarded_snapshots@.len(),
                s <= m,
                out@.len() == self.embeds@.len() + snapshot_embeds(self.forwarded_snapshots@.subrange(0, s as int)).len(),
                forall|j: int| 0 <= j < out@.len() ==> *(#[trigger] out@[j]) == (self.embeds@ + snapshot_embeds(
                    self.forwarded_snapshots@.subrange(0, s as int),
                ))[j],
            decreases m - s,
        {
            let snapshot = &self.forwarded_snapshots[s];
            let ghost before = self.embeds@ + snapshot_embeds(self.forwarded_snapshots@.subrange(0, s as int));
            proof {
                let sub = self.forwarded_snapshots@.subrange(0, s + 1);
                assert(sub.drop_last() =~= self.forwarded_snapshots@.subrange(0, s as int));
                assert(sub.last() == *snapshot);
            }
            let k = snapshot.embeds.len();
            let mut t: usize = 0;
            while t < k
                invariant
                    k == snapshot.embeds@.len(),
                    t <= k,
                    out@.len() == before.len() + t,
                    forall|j: int| 0 <= j < out@.len() ==> *(#[trigger] out@[j]) == (before + snapshot.embeds@)[j],
                decreases k - t,
            {
                out.push(&snapshot.embeds[t]);
                t = t + 1;
            }
            proof {
                assert(before + snapshot.embeds@ =~= self.embeds@ + snapshot_embeds(
                    self.forwarded_snapshots@.subrange(0, s + 1),
                ));
            }
            s = s + 1;
        }
        proof {
            assert(self.forwarded_snapshots@.subrange(0, m as int) =~= self.forwarded_snapshots@);
        }
        out
    }

    /// Every inline preview: those of the attachments in display order, then
    /// those of the embeds in display order.
    pub fn inline_previews(&self) -> (r: Vec<InlinePreviewInfo<'_>>)
        ensures
            r@.map_values(|p: InlinePreviewInfo<'_>| preview_view(p)) == self.previews(),
    {
        let atts = self.attachments_in_display_order();
        let embeds = self.embeds_in_display_order();
        let mut out: Vec<InlinePreviewInfo<'_>> = Vec::new();
        let n = atts.len();
        let mut i: usize = 0;
        while i < n
            invariant
                n == atts@.len(),
                atts@.len() == self.display_attachments().len(),
                forall|j: int| 0 <= j < atts@.len() ==> *(#[trigger] atts@[j]) == self.display_attachments()[j],
                i <= n,
                out@.map_values(|p: InlinePreviewInfo<'_>| preview_view(p)) == attachment_previews(
                    self.display_attachments().subrange(0, i as int),
                ),
            decreases n - i,
        {
            let a: &AttachmentInfo = atts[i];
            let ghost before = out@;
            proof {
                let sub = self.display_attachments().subrange(0, i + 1);
                assert(sub.drop_last() =~= self.display_attachments().subrange(0, i as int));
                assert(sub.last() == *a);
            }
            match a.inline_preview_info() {
                Some(info) => {
                    out.push(info);
                    proof {
                        assert(out@.map_values(|p: InlinePreviewInfo<'_>| preview_view(p)) =~= before.map_values(
                            |p: InlinePreviewInfo<'_>| preview_view(p),
                        ).push(preview_view(info)));
                    }
                },
                None => {},
            }
            i = i + 1;
        }
        proof {
            assert(self.display_attachments().subrange(0, n as int) =~= self.display_attachments());
        }
        let ghost head = attachment_previews(self.display_attachments());
        let m = embeds.len();
        let mut e: usize = 0;
        while e < m
            invariant
                m == embeds@.len(),
                embeds@.len() == self.display_embeds().len(),
                forall|j: int| 0 <= j < embeds@.len() ==> *(#[trigger] embeds@[j]) == self.display_embeds()[j],
                e <= m,
                head == attachment_previews(self.display_attachments()),
                out@.map_values(|p: InlinePreviewInfo<'_>| preview_view(p)) == head + embed_previews(
                    self.display_embeds().subrange(0, e as int),
                ),
            decreases m - e,
        {
            let emb: &EmbedInfo = embeds[e];
            let ghost before = out@;
            proof {
                let sub = self.display_embeds().subrange(0, e + 1);
                assert(sub.drop_last() =~= self.display_embeds().subrange(0, e as int));
                assert(sub.last() == *emb);
            }
            match emb.inline_preview_info() {
                Some(info) => {
                    out.push(info);
                    proof {
                        assert(out@.map_values(|p: InlinePreviewInfo<'_>| preview_view(p)) =~= before.map_values(
                            |p: InlinePreviewInfo<'_>| preview_view(p),
                        ).push(preview_view(info)));
                        assert(head + embed_previews(self.display_embeds().subrange(0, e + 1)) =~= (head
                            + embed_previews(self.display_embeds().subrange(0, e as int))).push(preview_view(info)));
                    }
                },
                None => {},
            }
            e = e + 1;
        }
        proof {
            assert(self.display_embeds().subrange(0, m as int) =~= self.display_embeds());
        }
        out
    }

    /// The first inline preview, attachments before embeds.
    pub fn first_inline_preview(&self) -> (r: Option<InlinePreviewInfo<'_>>)
        ensures
            opt_preview_view(r) == if self.previews().len() > 0 {
                Some(self.previews()[0])
            } else {
                None
            },
    {
        let previews = self.inline_previews();
        proof {
            assert(previews@.len() == previews@.map_values(|p: InlinePreviewInfo<'_>| preview_view(p)).len());
        }
        if previews.len() == 0 {
            None
        } else {
            proof {
                assert(previews@.map_values(|p: InlinePreviewInfo<'_>| preview_view(p))[0] == preview_view(previews@[0]));
            }
            Some(previews[0])
        }
    }

    /// Drops the parts of a message that make up its body, keeping who sent
    /// it, when, its reactions and its pin.
    pub fn redact_body(&mut self)
        ensures
            final(self).reference is None,
            final(self).reply is None,
            final(self).poll is None,
            final(self).content is None,
            final(self).sticker_names@.len() == 0,
            final(self).mentions@.len() == 0,
            final(self).attachments@.len() == 0,
            final(self).embeds@.len() == 0,
            final(self).forwarded_snapshots@.len() == 0,
            final(self).edited_timestamp is None,
            final(self).id == old(self).id,
            final(self).channel_id == old(self).channel_id,
            final(self).guild_id == old(self).guild_id,
            final(self).author_id == old(self).author_id,
            final(self).author == old(self).author,
            final(self).reactions == old(self).reactions,
            final(self).pinned == old(self).pinned,
            final(self).message_kind == old(self).message_kind,
    {
        self.reference = None;
        self.reply = None;
        self.poll = None;
        self.content = None;
        self.sticker_names.clear();
        self.mentions.clear();
        self.attachments.clear();
        self.embeds.clear();
        self.forwarded_snapshots.clear();
        self.edited_timestamp = None;
    }

    /// What the UI can offer on the message. Replies and forwards are
    /// flagged for any message; poll and media facets only for chat messages
    /// (regular ones and replies): a poll, each attachment's media class (a
    /// file when it has none), and an image when anything previews inline.
    pub open spec fn capabilities_spec(&self) -> MessageCapabilities {
        let atts = self.display_attachments();
        let chat = self.message_kind@ == 0 || self.message_kind@ == 19;
        MessageCapabilities {
            is_reply: self.reply is Some,
            is_forwarded: self.forwarded_snapshots@.len() > 0,
            has_poll: chat && self.poll is Some,
            has_image: chat && ((exists|i: int| 0 <= i < atts.len() && (#[trigger] atts[i]).media_type_view() == Some(AttachmentMediaType::Image))
                || self.previews().len() > 0),
            has_video: chat && exists|i: int| 0 <= i < atts.len() && (#[trigger] atts[i]).media_type_view() == Some(AttachmentMediaType::Video),
            has_audio: chat && exists|i: int| 0 <= i < atts.len() && (#[trigger] atts[i]).media_type_view() == Some(AttachmentMediaType::Audio),
            has_file: chat && exists|i: int| 0 <= i < atts.len() && (#[trigger] atts[i]).media_type_view() is None,
        }
    }

    pub fn capabilities(&self) -> (r: MessageCapabilities)
        ensures
            r == self.capabilities_spec(),
    {
        let mut capabilities = MessageCapabilities {
            is_reply: self.reply.is_some(),
            is_forwarded: self.forwarded_snapshots.len() > 0,
            has_poll: false,
            has_image: false,
            has_video: false,
            has_audio: false,
            has_file: false,
        };
        if !self.message_kind.is_regular_or_reply() {
            return capabilities;
        }
        capabilities.has_poll = self.poll.is_some();
        let atts = self.attachments_in_display_order();
        let ghost all = self.display_attachments();
        let n = atts.len();
        let mut i: usize = 0;
        while i < n
            invariant
                n == atts@.len(),
                atts@.len() == all.len(),
                all == self.display_attachments(),
                forall|j: int| 0 <= j < atts@.len() ==> *(#[trigger] atts@[j]) == all[j],
                i <= n,
                capabilities.is_reply == self.reply is Some,
                capabilities.is_forwarded == (self.forwarded_snapshots@.len() > 0),
                capabilities.has_poll == self.poll is Some,
                capabilities.has_image == exists|j: int| 0 <= j < i && (#[trigger] all[j]).media_type_view() == Some(AttachmentMediaType::Image),
                capabilities.has_video == exists|j: int| 0 <= j < i && (#[trigger] all[j]).media_type_view() == Some(AttachmentMediaType::Video),
                capabilities.has_audio == exists|j: int| 0 <= j < i && (#[trigger] all[j]).media_type_view() == Some(AttachmentMediaType::Audio),
                capabilities.has_file == exists|j: int| 0 <= j < i && (#[trigger] all[j]).media_type_view() is None,
            decreases n - i,
        {
            let a: &AttachmentInfo = atts[i];
            match a.media_type() {
                Some(AttachmentMediaType::Image) => capabilities.has_image = true,
                Some(AttachmentMediaType::Video) => capabilities.has_video = true,
                Some(AttachmentMediaType::Audio) => capabilities.has_audio = true,
                None => capabilities.has_file = true,
            }
            proof {
                assert(all[i as int] == *a);
            }
            i = i + 1;
        }
        if self.first_inline_preview().is_some() {
            capabilities.has_image = true;
        }
        capabilities
    }
}

} // verus!
