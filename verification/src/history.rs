//! The decisions of the history loader: which REST endpoint a load names,
//! what a finished load reports, and the scan that decides whether a DM is
//! established.
use vstd::prelude::*;

use crate::commands::MessageHistoryAfterMode;
use crate::events::MessageHistoryLoadTarget;
use crate::ids::{ChannelMarker, Id, MessageMarker, UserMarker};
use crate::message_info::MessageInfo;
use crate::text::{concat2, decimal, push_decimal};

verus! {

/// Messages asked for per history page.
pub const MESSAGE_HISTORY_LIMIT: u16 = 50;

/// Messages the current user must have sent for a DM to count as
/// established.
pub const DM_ESTABLISHED_MESSAGE_THRESHOLD: usize = 5;

/// History pages scanned at most when deciding whether a DM is established.
pub const DM_ESTABLISHED_SCAN_PAGES: usize = 2;

/// Messages asked for when previewing a thread.
pub const THREAD_PREVIEW_LIMIT: u16 = 1;

/// Mentions asked for by the inbox.
pub const INBOX_MENTIONS_LIMIT: u16 = 25;

/// Messages asked for per channel by the inbox.
pub const INBOX_CHANNEL_HISTORY_LIMIT: u16 = 5;

/// `GET /channels/<channel>/messages?limit=<limit>`, with `&before=<id>` for
/// an older page.
pub open spec fn history_endpoint_spec(channel_id: u64, before: Option<u64>, limit: u16) -> Seq<char> {
    let head = "GET /channels/"@ + decimal(channel_id as nat) + "/messages?limit="@ + decimal(limit as nat);
    match before {
        Some(b) => head + "&before="@ + decimal(b as nat),
        None => head,
    }
}

/// The REST endpoint of a history request, as logs name it.
pub fn format_message_history_endpoint(channel_id: Id<ChannelMarker>, before: Option<Id<MessageMarker>>, limit: u16) -> (r:
    String)
    ensures
        r@ == history_endpoint_spec(
            channel_id@,
            match before {
                Some(b) => Some(b@),
                None => None,
            },
            limit,
        ),
{
    let mut out = "GET /channels/".to_owned();
    push_decimal(&mut out, channel_id.get());
    out.append("/messages?limit=");
    push_decimal(&mut out, limit as u64);
    match before {
        Some(b) => {
            out.append("&before=");
            push_decimal(&mut out, b.get());
        },
        None => {},
    }
    out
}

/// `GET /channels/<channel>/messages?limit=<limit>&<anchor>=<id>`.
pub open spec fn anchor_endpoint_spec(channel_id: u64, anchor_name: Seq<char>, message_id: u64, limit: u16) -> Seq<char> {
    "GET /channels/"@ + decimal(channel_id as nat) + "/messages?limit="@ + decimal(limit as nat) + "&"@ + anchor_name
        + "="@ + decimal(message_id as nat)
}

/// The REST endpoint of a history request anchored at a message (`after`
/// or `around`).
pub fn format_message_history_anchor_endpoint(
    channel_id: Id<ChannelMarker>,
    anchor_name: &str,
    message_id: Id<MessageMarker>,
    limit: u16,
) -> (r: String)
    ensures
        r@ == anchor_endpoint_spec(channel_id@, anchor_name@, message_id@, limit),
{
    let mut out = "GET /channels/".to_owned();
    push_decimal(&mut out, channel_id.get());
    out.append("/messages?limit=");
    push_decimal(&mut out, limit as u64);
    out.append("&");
    out.append(anchor_name);
    out.append("=");
    push_decimal(&mut out, message_id.get());
    out
}

/// How a newer-history load is logged and reported on failure: filling a
/// gap is a plain load; catching up has its own name.
pub open spec fn after_mode_labels_spec(mode: MessageHistoryAfterMode) -> (&'static str, &'static str) {
    match mode {
        MessageHistoryAfterMode::GapFill => ("load_message_history_after", "load message history failed"),
        MessageHistoryAfterMode::CatchUp => ("catch_up_message_history_after", "catch up message history failed"),
    }
}

pub fn after_mode_labels(mode: MessageHistoryAfterMode) -> (r: (&'static str, &'static str))
    ensures
        r == after_mode_labels_spec(mode),
{
    match mode {
        MessageHistoryAfterMode::GapFill => ("load_message_history_after", "load message history failed"),
        MessageHistoryAfterMode::CatchUp => ("catch_up_message_history_after", "catch up message history failed"),
    }
}

/// A full page of newer history means more may follow.
pub fn history_after_has_more(loaded: usize) -> (r: bool)
    ensures
        r == (loaded >= MESSAGE_HISTORY_LIMIT),
{
    loaded >= MESSAGE_HISTORY_LIMIT as usize
}

/// The window a failed channel-history load was for: older history before
/// a message, else the latest page.
pub fn history_load_target(before: Option<Id<MessageMarker>>) -> (r: MessageHistoryLoadTarget)
    ensures
        match before {
            Some(b) => r == MessageHistoryLoadTarget::Older { before: b },
            None => r == MessageHistoryLoadTarget::Latest,
        },
{
    match before {
        Some(b) => MessageHistoryLoadTarget::Older { before: b },
        None => MessageHistoryLoadTarget::Latest,
    }
}

/// The thread preview in a loaded page: its first message, when that is
/// the requested one.
pub fn thread_preview_message(messages: Vec<MessageInfo>, message_id: Id<MessageMarker>) -> (r: Option<MessageInfo>)
    ensures
        match r {
            Some(m) => messages@.len() > 0 && m == messages@[0] && m.message_id@ == message_id@,
            None => messages@.len() == 0 || messages@[0].message_id@ != message_id@,
        },
{
    let mut messages = messages;
    if messages.len() == 0 {
        return None;
    }
    let first = messages.remove(0);
    if first.message_id.get() == message_id.get() {
        Some(first)
    } else {
        None
    }
}

/// Where the check whether a DM is established stands: how many messages
/// by the current user were seen, how many pages were read, and which page
/// comes next.
#[derive(Clone, Copy, Debug)]
pub struct DmScanState {
    pub sent: usize,
    pub pages: usize,
    pub before: Option<Id<MessageMarker>>,
}

/// What the DM check does next.
#[derive(Clone, Copy, Debug)]
pub enum DmScanAction {
    /// Load the page of history before the given message (the latest page
    /// for `None`).
    LoadPage { before: Option<Id<MessageMarker>> },
    /// Enough messages were found: report the DM as established.
    PublishEstablished,
    /// Stop without reporting.
    Finish,
}

/// The start of the DM check: nothing seen, the latest page next.
pub fn dm_scan_start() -> (r: (DmScanState, DmScanAction))
    ensures
        r.0.sent == 0,
        r.0.pages == 0,
        r.0.before is None,
        r.1 == (DmScanAction::LoadPage { before: None }),
{
    (DmScanState { sent: 0, pages: 0, before: None }, DmScanAction::LoadPage { before: None })
}

/// Messages of a page written by the user.
pub open spec fn count_by(messages: Seq<MessageInfo>, user: u64) -> nat
    decreases messages.len(),
{
    if messages.len() == 0 {
        0
    } else {
        count_by(messages.drop_last(), user) + if messages.last().author_id@ == user {
            1nat
        } else {
            0nat
        }
    }
}

/// The smallest message id of a page.
pub open spec fn min_message_id(messages: Seq<MessageInfo>) -> Option<Id<MessageMarker>>
    decreases messages.len(),
{
    if messages.len() == 0 {
        None
    } else {
        match min_message_id(messages.drop_last()) {
            Some(m) => if messages.last().message_id@ < m@ {
                Some(messages.last().message_id)
            } else {
                Some(m)
            },
            None => Some(messages.last().message_id),
        }
    }
}

/// One page of the DM check: the user's messages in it are counted; at
/// the threshold the DM is established; an empty or short page ends the
/// history; after the last allowed page the check ends; otherwise the page
/// before the oldest message seen is next.
pub open spec fn dm_scan_step_spec(
    scan: DmScanState,
    messages: Seq<MessageInfo>,
    current_user: u64,
    next: DmScanState,
    action: DmScanAction,
) -> bool {
    let sent = scan.sent + count_by(messages, current_user);
    &&& next.sent == sent
    &&& if sent >= DM_ESTABLISHED_MESSAGE_THRESHOLD {
        action == DmScanAction::PublishEstablished
    } else if messages.len() == 0 || messages.len() < MESSAGE_HISTORY_LIMIT {
        action == DmScanAction::Finish
    } else {
        &&& next.before == min_message_id(messages)
        &&& next.pages == scan.pages + 1
        &&& action == if scan.pages + 1 >= DM_ESTABLISHED_SCAN_PAGES {
            DmScanAction::Finish
        } else {
            DmScanAction::LoadPage { before: min_message_id(messages) }
        }
    }
}

/// Takes one loaded page into the DM check.
pub fn dm_scan_step(scan: DmScanState, messages: &Vec<MessageInfo>, current_user: Id<UserMarker>) -> (r: (
    DmScanState,
    DmScanAction,
))
    requires
        scan.sent <= DM_ESTABLISHED_MESSAGE_THRESHOLD,
        scan.pages < DM_ESTABLISHED_SCAN_PAGES,
        messages@.len() <= usize::MAX - DM_ESTABLISHED_MESSAGE_THRESHOLD,
    ensures
        dm_scan_step_spec(scan, messages@, current_user@, r.0, r.1),
        r.0.sent <= scan.sent + messages@.len(),
{
    let n = messages.len();
    let mut count: usize = 0;
    let mut oldest: Option<Id<MessageMarker>> = None;
    let mut i: usize = 0;
    while i < n
        invariant
            n == messages@.len(),
            i <= n,
            count == count_by(messages@.subrange(0, i as int), current_user@),
            count <= i,
            oldest == min_message_id(messages@.subrange(0, i as int)),
        decreases n - i,
    {
        let m = &messages[i];
        proof {
            let sub = messages@.subrange(0, i + 1);
            assert(sub.drop_last() =~= messages@.subrange(0, i as int));
            assert(sub.last() == *m);
        }
        if m.author_id.get() == current_user.get() {
            count = count + 1;
        }
        oldest = match oldest {
            Some(o) => if m.message_id.get() < o.get() {
                Some(m.message_id)
            } else {
                Some(o)
            },
            None => Some(m.message_id),
        };
        i = i + 1;
    }
    proof {
        assert(messages@.subrange(0, n as int) =~= messages@);
    }
    let sent = scan.sent + count;
    if sent >= DM_ESTABLISHED_MESSAGE_THRESHOLD {
        return (DmScanState { sent, pages: scan.pages, before: scan.before }, DmScanAction::PublishEstablished);
    }
    if n == 0 || n < MESSAGE_HISTORY_LIMIT as usize {
        return (DmScanState { sent, pages: scan.pages, before: scan.before }, DmScanAction::Finish);
    }
    let pages = scan.pages + 1;
    let action = if pages >= DM_ESTABLISHED_SCAN_PAGES {
        DmScanAction::Finish
    } else {
        DmScanAction::LoadPage { before: oldest }
    };
    (DmScanState { sent, pages, before: oldest }, action)
}

/// The DM check never reads more than its page budget: a step taken with
/// pages left either stops or asks for a page within the budget.
pub proof fn lemma_dm_scan_bounded(
    scan: DmScanState,
    messages: Seq<MessageInfo>,
    current_user: u64,
    next: DmScanState,
    action: DmScanAction,
)
    requires
        scan.pages < DM_ESTABLISHED_SCAN_PAGES,
        dm_scan_step_spec(scan, messages, current_user, next, action),
    ensures
        action is LoadPage ==> next.pages < DM_ESTABLISHED_SCAN_PAGES && next.pages == scan.pages + 1,
        next.sent >= scan.sent,
{
}

} // verus!
