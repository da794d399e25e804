//! The gateway protocol's decisions: what each incoming frame does to the
//! session, when a closed connection is resumed, re-identified or given up,
//! the reconnect back-off, the heartbeat bookkeeping and the de-duplication
//! of channel subscriptions. The websocket itself is driven elsewhere.
use rand::Rng;
use vstd::prelude::*;
use vstd::string::*;

use crate::json::{
    empty_object, field_bool, field_str, field_u64, get_bool, get_nested_string, get_nested_u64, get_string, get_u64,
    has_keys, insert_member, jget, json_u64, nested_str, nested_u64, JsonNumber, JsonValue,
};
use crate::message_info::opt_string_view;
use crate::ids::{id_eq, ChannelMarker, GuildMarker, Id, UserMarker};
use crate::presence::{ActivityInfo, PresenceStatus};
use crate::text::{concat2, decimal, push_decimal, str_eq};

verus! {

/// A command for the gateway connection.
#[derive(Clone, Debug)]
#[allow(inconsistent_fields)]
pub enum GatewayCommand {
    RequestGuildMembers {
        guild_id: Id<GuildMarker>,
        query: String,
        limit: u16,
        presences: bool,
        nonce: Option<String>,
    },
    RequestGuildMembersByIds { guild_id: Id<GuildMarker>, user_ids: Vec<Id<UserMarker>>, presences: bool },
    SubscribeDirectMessage { channel_id: Id<ChannelMarker> },
    SubscribeGuildChannel { guild_id: Id<GuildMarker>, channel_id: Id<ChannelMarker> },
    UpdateMemberListSubscription {
        guild_id: Id<GuildMarker>,
        channel_id: Id<ChannelMarker>,
        ranges: Vec<(u32, u32)>,
    },
    /// `guild_id` is `None` for DM and group-DM calls.
    UpdateVoiceState {
        guild_id: Option<Id<GuildMarker>>,
        channel_id: Option<Id<ChannelMarker>>,
        self_mute: bool,
        self_deaf: bool,
    },
    UpdatePresence { status: PresenceStatus, activities: Vec<ActivityInfo> },
    Shutdown,
}

/// Discord user-account gateway endpoint (API v9, JSON encoding).
pub const GATEWAY_URL: &'static str = "wss://gateway.discord.gg/?v=9&encoding=json";

/// Capability bits announced in IDENTIFY so Discord streams user-account
/// payloads (friend presences and the like).
pub const USER_ACCOUNT_CAPABILITIES: u64 = 253;

/// Largest websocket message and frame accepted: 64 MiB.
pub const GATEWAY_WEBSOCKET_LIMIT: usize = 67108864;

pub const RECONNECT_BASE_DELAY_MS: u64 = 500;

pub const RECONNECT_MAX_DELAY_MS: u64 = 30000;

/// Heartbeat interval assumed when HELLO does not carry one.
pub const DEFAULT_HEARTBEAT_INTERVAL_MS: u64 = 41250;

/// What to do after one connection lifecycle ends.
#[derive(Clone, Copy, Debug, Eq, PartialEq, Structural)]
pub enum ConnectionOutcome {
    /// Reconnect and RESUME with the saved session id and sequence.
    Resume,
    /// Throw the saved session away and IDENTIFY afresh.
    Reidentify,
    /// The consumers went away: stop.
    Stop,
    /// Discord refused the session in a way retrying cannot fix.
    Fatal,
}

pub open spec fn close_code_outcome_spec(code: u16) -> ConnectionOutcome {
    if code == 4004 || (4010 <= code && code <= 4014) {
        ConnectionOutcome::Fatal
    } else if code == 4007 || code == 4009 {
        ConnectionOutcome::Reidentify
    } else if (4000 <= code && code <= 4003) || code == 4005 || code == 4008 {
        ConnectionOutcome::Resume
    } else {
        ConnectionOutcome::Reidentify
    }
}

/// Authentication and configuration failures (4004, 4010-4014) are fatal;
/// an invalid sequence or timed-out session (4007, 4009) needs a fresh
/// IDENTIFY; transient errors (4000-4003, 4005, 4008) resume; any other code
/// re-identifies.
pub fn close_code_outcome(code: u16) -> (r: ConnectionOutcome)
    ensures
        r == close_code_outcome_spec(code),
{
    if code == 4004 || (4010 <= code && code <= 4014) {
        ConnectionOutcome::Fatal
    } else if code == 4007 || code == 4009 {
        ConnectionOutcome::Reidentify
    } else if (4000 <= code && code <= 4003) || code == 4005 || code == 4008 {
        ConnectionOutcome::Resume
    } else {
        ConnectionOutcome::Reidentify
    }
}

/// A close frame without a code resumes; one with a code is judged by it.
pub fn close_outcome(code: Option<u16>) -> (r: ConnectionOutcome)
    ensures
        match code {
            Some(c) => r == close_code_outcome_spec(c),
            None => r == ConnectionOutcome::Resume,
        },
{
    match code {
        Some(c) => close_code_outcome(c),
        None => ConnectionOutcome::Resume,
    }
}

/// The text that `format!("{:?}", s)` writes for a string: the string
/// quoted, with its special characters escaped.
pub uninterp spec fn debug_quoted_of(s: Seq<char>) -> Seq<char>;

/// A string in quotes, escaped as std's `Debug` for `str` writes it.
#[verifier::external_body]
fn debug_quoted(s: &str) -> (r: String)
    ensures
        r@ == debug_quoted_of(s@),
{
    format!("{:?}", s)
}

/// The message logged when the gateway closes: the context, and the close
/// frame's code and quoted reason when there is a frame.
pub open spec fn websocket_close_message_spec(context: Seq<char>, frame: Option<(u16, Seq<char>)>) -> Seq<char> {
    match frame {
        Some((code, reason)) => context + ": code="@ + decimal(code as nat) + " reason="@ + debug_quoted_of(reason),
        None => context,
    }
}

/// Describes a gateway close for the log.
pub fn websocket_close_message(context: &str, frame: Option<(u16, &str)>) -> (r: String)
    ensures
        r@ == websocket_close_message_spec(context@, match frame {
            Some((c, reason)) => Some((c, reason@)),
            None => None,
        }),
{
    match frame {
        Some((code, reason)) => {
            let mut out = context.to_owned();
            out.append(": code=");
            push_decimal(&mut out, code as u64);
            out.append(" reason=");
            let quoted = debug_quoted(reason);
            out.append(quoted.as_str());
            proof {
                reveal_strlit(": code=");
                reveal_strlit(" reason=");
            }
            out
        },
        None => context.to_owned(),
    }
}

/// Whether a heartbeat is waiting for its ACK.
#[derive(Clone, Copy, Debug, Eq, PartialEq)]
pub struct HeartbeatAckState {
    pub awaiting_ack: bool,
}

impl Default for HeartbeatAckState {
    fn default() -> (r: Self)
        ensures
            !r.awaiting_ack,
    {
        HeartbeatAckState { awaiting_ack: false }
    }
}

impl HeartbeatAckState {
    /// Records a heartbeat about to be sent. Returns `false`, changing
    /// nothing, when the previous heartbeat was never acknowledged: the
    /// connection is then considered dead.
    pub fn mark_heartbeat_sent(&mut self) -> (r: bool)
        ensures
            (r, *final(self)) == heartbeat_sent_spec(*old(self)),
    {
        if self.awaiting_ack {
            return false;
        }
        self.awaiting_ack = true;
        true
    }

    pub fn mark_ack_received(&mut self)
        ensures
            *final(self) == ack_received_spec(*old(self)),
    {
        self.awaiting_ack = false;
    }
}

/// Sending a heartbeat: accepted (and then pending) unless one is already
/// waiting for its ACK.
pub open spec fn heartbeat_sent_spec(state: HeartbeatAckState) -> (bool, HeartbeatAckState) {
    (!state.awaiting_ack, HeartbeatAckState { awaiting_ack: true })
}

/// Receiving an ACK clears the pending heartbeat.
pub open spec fn ack_received_spec(state: HeartbeatAckState) -> HeartbeatAckState {
    HeartbeatAckState { awaiting_ack: false }
}

/// Between two heartbeats an ACK must arrive: from any state, a second
/// heartbeat without an ACK in between is refused, while one that follows an
/// ACK is accepted.
pub proof fn lemma_heartbeat_needs_ack(state: HeartbeatAckState)
    ensures
        !heartbeat_sent_spec(heartbeat_sent_spec(state).1).0,
        heartbeat_sent_spec(ack_received_spec(heartbeat_sent_spec(state).1)).0,
{
}

/// Session bookkeeping that survives reconnects: what RESUME needs, the
/// resume URL from READY, and whether the current connection got healthy.
#[derive(Clone, Debug)]
pub struct SessionState {
    pub session_id: Option<String>,
    pub resume_url: Option<String>,
    pub last_sequence: Option<u64>,
    pub has_received_ready: bool,
    /// Whether the current connection reached READY or RESUMED.
    pub established: bool,
}

impl Default for SessionState {
    fn default() -> (r: Self)
        ensures
            r.session_id is None,
            r.resume_url is None,
            r.last_sequence is None,
            !r.has_received_ready,
            !r.established,
    {
        SessionState {
            session_id: None,
            resume_url: None,
            last_sequence: None,
            has_received_ready: false,
            established: false,
        }
    }
}

pub open spec fn next_url_spec(resume_url: Option<String>) -> Seq<char> {
    match resume_url {
        Some(u) => if u@.len() > 0 {
            u@ + "/?v=9&encoding=json"@
        } else {
            GATEWAY_URL@
        },
        None => GATEWAY_URL@,
    }
}

impl SessionState {
    /// Forgets what RESUME would need.
    pub fn clear(&mut self)
        ensures
            final(self).session_id is None,
            final(self).resume_url is None,
            final(self).last_sequence is None,
            final(self).has_received_ready == old(self).has_received_ready,
            final(self).established == old(self).established,
    {
        self.session_id = None;
        self.resume_url = None;
        self.last_sequence = None;
    }

    pub fn can_resume(&self) -> (r: bool)
        ensures
            r == self.session_id is Some,
    {
        self.session_id.is_some()
    }

    /// The URL of the next connection: the resume URL when Discord gave a
    /// non-empty one, else the default gateway.
    pub fn next_url(&self) -> (r: String)
        ensures
            r@ == next_url_spec(self.resume_url),
    {
        match &self.resume_url {
            Some(url) => if !url.as_str().is_empty() {
                concat2(url.as_str(), "/?v=9&encoding=json")
            } else {
                GATEWAY_URL.to_owned()
            },
            None => GATEWAY_URL.to_owned(),
        }
    }
}

/// The fields of one incoming gateway frame that the protocol reads. A
/// missing or non-numeric `op` reads as 0; a missing dispatch type reads as
/// empty.
#[derive(Clone, Debug)]
pub struct GatewayFrame {
    pub op: u64,
    pub sequence: Option<u64>,
    pub dispatch_type: String,
    /// For a READY dispatch: whether it carried a `d` object, and its
    /// `session_id` and `resume_gateway_url`.
    pub has_data: bool,
    pub ready_session_id: Option<String>,
    pub ready_resume_url: Option<String>,
    /// For INVALID_SESSION (op 9): its boolean `d`, false when absent.
    pub resumable: bool,
}

/// The fields that the read loop takes from a frame's JSON.
pub open spec fn gateway_frame_spec(v: JsonValue, r: GatewayFrame) -> bool {
    &&& r.op == match field_u64(v, "op"@) {
        Some(n) => n,
        None => 0,
    }
    &&& r.sequence == field_u64(v, "s"@)
    &&& r.dispatch_type@ == match field_str(v, "t"@) {
        Some(t) => t,
        None => Seq::<char>::empty(),
    }
    &&& r.has_data == jget(v, "d"@) is Some
    &&& opt_string_view(r.ready_session_id) == nested_str(v, "d"@, "session_id"@)
    &&& opt_string_view(r.ready_resume_url) == nested_str(v, "d"@, "resume_gateway_url"@)
    &&& r.resumable == (field_bool(v, "d"@) == Some(true))
}

/// Reads a frame's fields: `op` (0 when missing), `s`, `t` (empty when
/// missing), whether `d` is there, READY's session id and resume URL under
/// `d`, and INVALID_SESSION's boolean `d` (false when missing).
pub fn gateway_frame_from_json(v: &JsonValue) -> (r: GatewayFrame)
    ensures
        gateway_frame_spec(*v, r),
{
    let op = match get_u64(v, "op") {
        Some(n) => n,
        None => 0,
    };
    let dispatch_type = match get_string(v, "t") {
        Some(t) => t,
        None => String::new(),
    };
    let resumable = match get_bool(v, "d") {
        Some(b) => b,
        None => false,
    };
    GatewayFrame {
        op,
        sequence: get_u64(v, "s"),
        dispatch_type,
        has_data: v.get("d").is_some(),
        ready_session_id: get_nested_string(v, "d", "session_id"),
        ready_resume_url: get_nested_string(v, "d", "resume_gateway_url"),
        resumable,
    }
}

/// The first frame must be HELLO (op 10): then the heartbeat interval it
/// announces under `d`, if any; otherwise the op it carried (0 when none).
pub fn hello_heartbeat_announcement(v: &JsonValue) -> (r: Result<Option<u64>, u64>)
    ensures
        field_u64(*v, "op"@) == Some(10u64) ==> r == Ok::<Option<u64>, u64>(nested_u64(*v, "d"@, "heartbeat_interval"@)),
        field_u64(*v, "op"@) != Some(10u64) ==> r == Err::<Option<u64>, u64>(
            match field_u64(*v, "op"@) {
                Some(n) => n,
                None => 0,
            },
        ),
{
    match get_u64(v, "op") {
        Some(10) => Ok(get_nested_u64(v, "d", "heartbeat_interval")),
        Some(n) => Err(n),
        None => Err(0),
    }
}

/// How the read loop goes on after a frame.
#[derive(Clone, Copy, Debug, Eq, PartialEq, Structural)]
pub enum FrameOutcome {
    Continue,
    Resume,
    Reidentify,
}

/// What the driver must do after a frame, besides the session changes.
#[derive(Clone, Copy, Debug, Eq, PartialEq)]
pub struct FrameActions {
    pub outcome: FrameOutcome,
    /// Hand the dispatch to the event parser and publish what it yields.
    pub parse_dispatch: bool,
    /// Publish that the session resumed (before the dispatch's events).
    pub publish_resumed: bool,
    /// Publish that the session was re-identified (after the dispatch's
    /// events): a READY that was not the first one.
    pub publish_reidentified: bool,
    /// Answer a heartbeat request at once with the last sequence.
    pub send_heartbeat: bool,
}

pub open spec fn is_dispatch_ready(frame: GatewayFrame) -> bool {
    frame.op == 0 && frame.dispatch_type@ == "READY"@ && frame.has_data
}

pub open spec fn is_dispatch_resumed(frame: GatewayFrame) -> bool {
    frame.op == 0 && frame.dispatch_type@ == "RESUMED"@ && !is_dispatch_ready(frame)
}

/// The effect of one frame on the session and the heartbeat state, and what
/// the driver must do: a dispatch (op 0) records its sequence number, a READY
/// saves the session id and resume URL, RESUMED marks the connection healthy;
/// a heartbeat request (op 1) is answered; RECONNECT (op 7) resumes;
/// INVALID_SESSION (op 9) resumes only when marked resumable; a heartbeat ACK
/// (op 11) clears the pending heartbeat; other ops are ignored.
pub open spec fn frame_effect(
    session: SessionState,
    heartbeat: HeartbeatAckState,
    frame: GatewayFrame,
    new_session: SessionState,
    new_heartbeat: HeartbeatAckState,
    r: FrameActions,
) -> bool {
    if frame.op == 0 {
        &&& new_session.last_sequence == (match frame.sequence {
            Some(s) => Some(s),
            None => session.last_sequence,
        })
        &&& if is_dispatch_ready(frame) {
            &&& new_session.session_id == frame.ready_session_id
            &&& new_session.resume_url == frame.ready_resume_url
            &&& new_session.has_received_ready
            &&& new_session.established
            &&& r.publish_reidentified == session.has_received_ready
        } else {
            &&& new_session.session_id == session.session_id
            &&& new_session.resume_url == session.resume_url
            &&& new_session.has_received_ready == session.has_received_ready
            &&& new_session.established == (session.established || is_dispatch_resumed(frame))
            &&& !r.publish_reidentified
        }
        &&& r.publish_resumed == is_dispatch_resumed(frame)
        &&& r.parse_dispatch
        &&& !r.send_heartbeat
        &&& r.outcome == FrameOutcome::Continue
        &&& new_heartbeat == heartbeat
    } else {
        &&& new_session.session_id == session.session_id
        &&& new_session.resume_url == session.resume_url
        &&& new_session.last_sequence == session.last_sequence
        &&& new_session.has_received_ready == session.has_received_ready
        &&& new_session.established == session.established
        &&& !r.parse_dispatch
        &&& !r.publish_resumed
        &&& !r.publish_reidentified
        &&& r.send_heartbeat == (frame.op == 1)
        &&& new_heartbeat.awaiting_ack == (if frame.op == 1 {
            true
        } else if frame.op == 11 {
            false
        } else {
            heartbeat.awaiting_ack
        })
        &&& r.outcome == (if frame.op == 7 {
            FrameOutcome::Resume
        } else if frame.op == 9 {
            if frame.resumable {
                FrameOutcome::Resume
            } else {
                FrameOutcome::Reidentify
            }
        } else {
            FrameOutcome::Continue
        })
    }
}

/// Applies one incoming frame to the session and heartbeat state.
pub fn handle_frame(session: &mut SessionState, heartbeat: &mut HeartbeatAckState, frame: GatewayFrame) -> (r: FrameActions)
    ensures
        frame_effect(*old(session), *old(heartbeat), frame, *final(session), *final(heartbeat), r),
{
    let mut actions = FrameActions {
        outcome: FrameOutcome::Continue,
        parse_dispatch: false,
        publish_resumed: false,
        publish_reidentified: false,
        send_heartbeat: false,
    };
    if frame.op == 0 {
        if let Some(seq) = frame.sequence {
            session.last_sequence = Some(seq);
        }
        let is_ready = str_eq(frame.dispatch_type.as_str(), "READY") && frame.has_data;
        if is_ready {
            let was_reidentify = session.has_received_ready;
            session.session_id = frame.ready_session_id;
            session.resume_url = frame.ready_resume_url;
            actions.publish_reidentified = was_reidentify;
            session.has_received_ready = true;
            session.established = true;
        } else if str_eq(frame.dispatch_type.as_str(), "RESUMED") {
            session.established = true;
            actions.publish_resumed = true;
        }
        actions.parse_dispatch = true;
        actions
    } else if frame.op == 1 {
        heartbeat.mark_heartbeat_sent();
        actions.send_heartbeat = true;
        actions
    } else if frame.op == 7 {
        actions.outcome = FrameOutcome::Resume;
        actions
    } else if frame.op == 9 {
        actions.outcome = if frame.resumable {
            FrameOutcome::Resume
        } else {
            FrameOutcome::Reidentify
        };
        actions
    } else if frame.op == 11 {
        heartbeat.mark_ack_received();
        actions
    } else {
        actions
    }
}

/// The heartbeat interval announced by HELLO, or the default when HELLO
/// carries none.
pub fn heartbeat_interval_ms(announced: Option<u64>) -> (r: u64)
    ensures
        r == (match announced {
            Some(v) => v,
            None => DEFAULT_HEARTBEAT_INTERVAL_MS,
        }),
{
    match announced {
        Some(v) => v,
        None => DEFAULT_HEARTBEAT_INTERVAL_MS,
    }
}

/// What happened while a connection was open, as the read loop sees it.
#[derive(Clone, Copy, Debug, Eq, PartialEq)]
pub enum ConnectionEvent {
    /// The user asked for the connection to shut down.
    ShutdownRequested,
    /// A user command went out.
    CommandSent,
    /// A user command could not be sent.
    CommandSendFailed,
    /// Nobody can send commands any more.
    CommandChannelClosed,
    /// A JSON text frame was handled, with this outcome.
    FrameHandled(FrameOutcome),
    /// A frame that is not acted on: text that is not JSON, a binary frame,
    /// a pong or a raw frame.
    FrameIgnored,
    /// A ping's pong could not be sent.
    PongSendFailed,
    /// Discord closed the socket, with this close code if it gave one.
    Closed(Option<u16>),
    /// Reading from the socket failed.
    ReadFailed,
    /// The socket ended without a close frame.
    StreamEnded,
    /// The heartbeat went unanswered, or could not be sent.
    HeartbeatFailed,
}

/// What the read loop does next.
#[derive(Clone, Copy, Debug, Eq, PartialEq)]
pub enum LoopStep {
    /// Keep reading frames and commands.
    KeepReading,
    /// Close the socket cleanly, then stop.
    CloseAndStop,
    /// Leave the loop with this outcome.
    Finish(ConnectionOutcome),
}

pub open spec fn connection_step_spec(e: ConnectionEvent) -> LoopStep {
    match e {
        ConnectionEvent::ShutdownRequested => LoopStep::CloseAndStop,
        ConnectionEvent::CommandSent => LoopStep::KeepReading,
        ConnectionEvent::CommandSendFailed => LoopStep::Finish(ConnectionOutcome::Resume),
        ConnectionEvent::CommandChannelClosed => LoopStep::Finish(ConnectionOutcome::Stop),
        ConnectionEvent::FrameHandled(o) => match o {
            FrameOutcome::Continue => LoopStep::KeepReading,
            FrameOutcome::Resume => LoopStep::Finish(ConnectionOutcome::Resume),
            FrameOutcome::Reidentify => LoopStep::Finish(ConnectionOutcome::Reidentify),
        },
        ConnectionEvent::FrameIgnored => LoopStep::KeepReading,
        ConnectionEvent::PongSendFailed => LoopStep::Finish(ConnectionOutcome::Resume),
        ConnectionEvent::Closed(code) => LoopStep::Finish(
            match code {
                Some(c) => close_code_outcome_spec(c),
                None => ConnectionOutcome::Resume,
            },
        ),
        ConnectionEvent::ReadFailed => LoopStep::Finish(ConnectionOutcome::Resume),
        ConnectionEvent::StreamEnded => LoopStep::Finish(ConnectionOutcome::Resume),
        ConnectionEvent::HeartbeatFailed => LoopStep::Finish(ConnectionOutcome::Resume),
    }
}

/// The read loop's decision after one event: a shutdown closes the socket
/// and stops; a closed command channel stops; a handled frame goes on or
/// ends the connection as it says; a close frame ends it as its code says;
/// every failure (a command or pong that could not be sent, a read error, an
/// ended stream, a missed heartbeat) ends it for a resume; anything else
/// keeps reading.
pub fn connection_step(e: ConnectionEvent) -> (r: LoopStep)
    ensures
        r == connection_step_spec(e),
{
    match e {
        ConnectionEvent::ShutdownRequested => LoopStep::CloseAndStop,
        ConnectionEvent::CommandSent => LoopStep::KeepReading,
        ConnectionEvent::CommandSendFailed => LoopStep::Finish(ConnectionOutcome::Resume),
        ConnectionEvent::CommandChannelClosed => LoopStep::Finish(ConnectionOutcome::Stop),
        ConnectionEvent::FrameHandled(o) => match o {
            FrameOutcome::Continue => LoopStep::KeepReading,
            FrameOutcome::Resume => LoopStep::Finish(ConnectionOutcome::Resume),
            FrameOutcome::Reidentify => LoopStep::Finish(ConnectionOutcome::Reidentify),
        },
        ConnectionEvent::FrameIgnored => LoopStep::KeepReading,
        ConnectionEvent::PongSendFailed => LoopStep::Finish(ConnectionOutcome::Resume),
        ConnectionEvent::Closed(code) => LoopStep::Finish(close_outcome(code)),
        ConnectionEvent::ReadFailed => LoopStep::Finish(ConnectionOutcome::Resume),
        ConnectionEvent::StreamEnded => LoopStep::Finish(ConnectionOutcome::Resume),
        ConnectionEvent::HeartbeatFailed => LoopStep::Finish(ConnectionOutcome::Resume),
    }
}

pub const FIRST_HEARTBEAT_MAX_JITTER_MS: u64 = 2000;

/// The first heartbeat waits a random time up to the interval, but at most
/// two seconds.
pub open spec fn first_heartbeat_jitter_bound_spec(interval_ms: u64) -> u64 {
    if interval_ms < FIRST_HEARTBEAT_MAX_JITTER_MS {
        interval_ms
    } else {
        FIRST_HEARTBEAT_MAX_JITTER_MS
    }
}

pub fn first_heartbeat_jitter_bound(interval_ms: u64) -> (r: u64)
    ensures
        r == first_heartbeat_jitter_bound_spec(interval_ms),
{
    if interval_ms < FIRST_HEARTBEAT_MAX_JITTER_MS {
        interval_ms
    } else {
        FIRST_HEARTBEAT_MAX_JITTER_MS
    }
}

/// The random wait before the first heartbeat, in `0..=bound`; the draw
/// itself is chance.
pub fn first_heartbeat_delay(interval_ms: u64) -> (r: u64)
    ensures
        r <= first_heartbeat_jitter_bound_spec(interval_ms),
{
    random_millis_up_to(first_heartbeat_jitter_bound(interval_ms))
}

/// The heartbeat frame: op 1 with the last sequence number seen, or null.
pub open spec fn heartbeat_payload_ok(v: JsonValue, sequence: Option<u64>) -> bool {
    &&& has_keys(v, set!["op"@, "d"@])
    &&& field_u64(v, "op"@) == Some(1u64)
    &&& jget(v, "d"@) == Some(
        match sequence {
            Some(n) => JsonValue::Number(JsonNumber::Unsigned(n)),
            None => JsonValue::Null,
        },
    )
}

pub fn heartbeat_payload(sequence: Option<u64>) -> (r: JsonValue)
    ensures
        heartbeat_payload_ok(r, sequence),
{
    proof {
        reveal_strlit("op");
        assert("op"@ =~= seq!['o', 'p']);
        reveal_strlit("d");
        assert("d"@ =~= seq!['d']);
    }
    let d = match sequence {
        Some(n) => json_u64(n),
        None => JsonValue::Null,
    };
    let e = empty_object();
    let one = json_u64(1);
    let v1 = insert_member(e, "op", one);
    let v = insert_member(v1, "d", d);
    proof {
        assert forall|k: Seq<char>| #[trigger] jget(v, k) is Some <==> set!["op"@, "d"@].contains(k) by {
            assert(jget(e, k) is Some <==> Set::<Seq<char>>::empty().contains(k));
            assert(jget(v, k) == if k == "d"@ { Some(d) } else { jget(v1, k) });
            assert(jget(v1, k) == if k == "op"@ { Some(one) } else { jget(e, k) });
        }
    }
    v
}

/// What the reconnect loop does after a connection ends.
#[derive(Clone, Copy, Debug, Eq, PartialEq, Structural)]
pub enum ReconnectAction {
    /// Stop the loop; publish "gateway closed" when `publish_closed`.
    Stop { publish_closed: bool },
    /// Wait, then connect again (resuming when the session allows).
    Retry,
}

/// Stop ends the loop and reports the closed gateway; a fatal refusal ends
/// it silently (the error was already reported); a re-identify forgets the
/// session; a resume keeps it.
pub fn after_connection(session: &mut SessionState, outcome: ConnectionOutcome) -> (r: ReconnectAction)
    ensures
        match outcome {
            ConnectionOutcome::Stop => r == ReconnectAction::Stop { publish_closed: true }
                && *final(session) == *old(session),
            ConnectionOutcome::Fatal => r == ReconnectAction::Stop { publish_closed: false }
                && *final(session) == *old(session),
            ConnectionOutcome::Resume => r == ReconnectAction::Retry && *final(session) == *old(session),
            ConnectionOutcome::Reidentify => r == ReconnectAction::Retry
                && final(session).session_id is None && final(session).resume_url is None
                && final(session).last_sequence is None
                && final(session).has_received_ready == old(session).has_received_ready
                && final(session).established == old(session).established,
        },
{
    match outcome {
        ConnectionOutcome::Stop => ReconnectAction::Stop { publish_closed: true },
        ConnectionOutcome::Fatal => ReconnectAction::Stop { publish_closed: false },
        ConnectionOutcome::Resume => ReconnectAction::Retry,
        ConnectionOutcome::Reidentify => {
            session.clear();
            ReconnectAction::Retry
        },
    }
}

/// The back-off bound used for this retry: a connection that got healthy
/// restarts from the base delay.
pub open spec fn backoff_bound_spec(backoff_ms: u64, established: bool) -> u64 {
    if established {
        RECONNECT_BASE_DELAY_MS
    } else {
        backoff_ms
    }
}

/// The back-off after a retry: doubled, at most the maximum delay.
pub open spec fn next_backoff_spec(bound_ms: u64) -> u64 {
    if bound_ms * 2 > RECONNECT_MAX_DELAY_MS {
        RECONNECT_MAX_DELAY_MS
    } else {
        (bound_ms * 2) as u64
    }
}

/// A uniformly random number of milliseconds in `0..=max_ms`
/// (rand's `gen_range` on the thread-local generator).
#[verifier::external_body]
fn random_millis_up_to(max_ms: u64) -> (r: u64)
    ensures
        r <= max_ms,
{
    rand::thread_rng().gen_range(0..=max_ms)
}

/// The delay before the next connection attempt and the back-off after it.
#[derive(Clone, Copy, Debug, Eq, PartialEq)]
pub struct ReconnectDelay {
    /// The upper end of the range the delay was drawn from.
    pub jitter_bound_ms: u64,
    pub delay_ms: u64,
    pub next_backoff_ms: u64,
}

/// Exponential back-off with full jitter: the delay is random in
/// `0..=bound`, where the bound restarts at the base after a healthy
/// connection; the back-off then doubles up to 30 seconds. Consumes the
/// session's `established` flag.
pub fn reconnect_delay(session: &mut SessionState, backoff_ms: u64) -> (r: ReconnectDelay)
    requires
        backoff_ms <= RECONNECT_MAX_DELAY_MS,
    ensures
        r.jitter_bound_ms == backoff_bound_spec(backoff_ms, old(session).established),
        r.delay_ms <= r.jitter_bound_ms,
        r.next_backoff_ms == next_backoff_spec(backoff_bound_spec(backoff_ms, old(session).established)),
        r.next_backoff_ms <= RECONNECT_MAX_DELAY_MS,
        !final(session).established,
        final(session).session_id == old(session).session_id,
        final(session).resume_url == old(session).resume_url,
        final(session).last_sequence == old(session).last_sequence,
        final(session).has_received_ready == old(session).has_received_ready,
{
    let bound = if session.established {
        RECONNECT_BASE_DELAY_MS
    } else {
        backoff_ms
    };
    session.established = false;
    let delay_ms = random_millis_up_to(bound);
    let next_backoff_ms = if bound * 2 > RECONNECT_MAX_DELAY_MS {
        RECONNECT_MAX_DELAY_MS
    } else {
        bound * 2
    };
    ReconnectDelay { jitter_bound_ms: bound, delay_ms, next_backoff_ms }
}

/// The back-off never exceeds 30 seconds and, from the base, doubles until it
/// reaches it.
pub proof fn lemma_backoff_bounded(backoff_ms: u64, established: bool)
    requires
        backoff_ms <= RECONNECT_MAX_DELAY_MS,
    ensures
        next_backoff_spec(backoff_bound_spec(backoff_ms, established)) <= RECONNECT_MAX_DELAY_MS,
        next_backoff_spec(backoff_bound_spec(backoff_ms, established)) >= backoff_bound_spec(backoff_ms, established),
{
}

/// One guild-channel subscription last sent, with its member-list ranges.
#[derive(Clone, Debug)]
pub struct GuildChannelSubscription {
    pub guild_id: Id<GuildMarker>,
    pub channel_id: Id<ChannelMarker>,
    pub ranges: Vec<(u32, u32)>,
}

/// Remembers what channel subscriptions were sent on this connection so an
/// exact repeat is not sent again.
#[derive(Clone, Debug)]
pub struct SubscriptionDeduper {
    direct_messages: Vec<Id<ChannelMarker>>,
    guild_channels: Vec<GuildChannelSubscription>,
}

/// The direct-message channels already subscribed.
pub open spec fn dm_set(dms: Seq<Id<ChannelMarker>>) -> Set<u64> {
    Set::new(|c: u64| exists|i: int| 0 <= i < dms.len() && (#[trigger] dms[i])@ == c)
}

/// The last ranges sent for each (guild, channel).
pub open spec fn ranges_of(subs: Seq<GuildChannelSubscription>, g: u64, c: u64) -> Option<Seq<(u32, u32)>>
    decreases subs.len(),
{
    if subs.len() == 0 {
        None
    } else if subs.last().guild_id@ == g && subs.last().channel_id@ == c {
        Some(subs.last().ranges@)
    } else {
        ranges_of(subs.drop_last(), g, c)
    }
}

/// The member-list ranges a plain channel subscription asks for.
pub open spec fn default_ranges() -> Seq<(u32, u32)> {
    seq![(0u32, 99u32)]
}

/// The ranges a subscription command carries, if it is one.
pub open spec fn command_ranges(command: GatewayCommand) -> Option<(u64, u64, Seq<(u32, u32)>)> {
    match command {
        GatewayCommand::SubscribeGuildChannel { guild_id, channel_id } => Some(
            (guild_id@, channel_id@, default_ranges()),
        ),
        GatewayCommand::UpdateMemberListSubscription { guild_id, channel_id, ranges } => Some(
            (guild_id@, channel_id@, ranges@),
        ),
        _ => None,
    }
}

/// What one `should_send` call does: a DM subscription goes out the first
/// time per channel; a guild-channel subscription (plain, or with member-list
/// ranges) goes out unless the same ranges were the last ones sent for that
/// channel, and those ranges become the last ones; every other command goes
/// out and changes nothing.
pub open spec fn should_send_effect(
    before: SubscriptionDeduper,
    command: GatewayCommand,
    after: SubscriptionDeduper,
    r: bool,
) -> bool {
    match command {
        GatewayCommand::SubscribeDirectMessage { channel_id } => {
            &&& r == !before.dms().contains(channel_id@)
            &&& after.dms() == before.dms().insert(channel_id@)
            &&& forall|g: u64, c: u64| #[trigger] after.guild_ranges(g, c) == before.guild_ranges(g, c)
        },
        GatewayCommand::SubscribeGuildChannel { .. } | GatewayCommand::UpdateMemberListSubscription { .. } => {
            let (gk, ck, ranges) = command_ranges(command)->0;
            &&& r == (before.guild_ranges(gk, ck) != Some(ranges))
            &&& after.dms() == before.dms()
            &&& after.guild_ranges(gk, ck) == Some(ranges)
            &&& forall|g: u64, c: u64| !(g == gk && c == ck) ==> #[trigger] after.guild_ranges(g, c)
                == before.guild_ranges(g, c)
        },
        _ => {
            &&& r
            &&& after.dms() == before.dms()
            &&& forall|g: u64, c: u64| #[trigger] after.guild_ranges(g, c) == before.guild_ranges(g, c)
        },
    }
}

/// Whether a command is a channel subscription that the deduper tracks.
pub open spec fn is_subscription(command: GatewayCommand) -> bool {
    ||| command is SubscribeDirectMessage
    ||| command is SubscribeGuildChannel
    ||| command is UpdateMemberListSubscription
}

/// An exact repeat of a subscription is never sent: whatever the deduper
/// held, offering the same subscription twice in a row skips the second and
/// leaves the deduper as the first left it.
pub proof fn lemma_repeated_subscription_skipped(
    d0: SubscriptionDeduper,
    d1: SubscriptionDeduper,
    d2: SubscriptionDeduper,
    command: GatewayCommand,
    r1: bool,
    r2: bool,
)
    requires
        is_subscription(command),
        should_send_effect(d0, command, d1, r1),
        should_send_effect(d1, command, d2, r2),
    ensures
        !r2,
        d2.dms() == d1.dms(),
        forall|g: u64, c: u64| #[trigger] d2.guild_ranges(g, c) == d1.guild_ranges(g, c),
{
    match command {
        GatewayCommand::SubscribeDirectMessage { channel_id } => {
            assert(d1.dms().insert(channel_id@) =~= d1.dms());
        },
        _ => {
            let (gk, ck, ranges) = command_ranges(command)->0;
            assert forall|g: u64, c: u64| #[trigger] d2.guild_ranges(g, c) == d1.guild_ranges(g, c) by {
                if g == gk && c == ck {
                } else {
                }
            }
        },
    }
}

impl Default for SubscriptionDeduper {
    fn default() -> (r: Self)
        ensures
            r.dms() == Set::<u64>::empty(),
            forall|g: u64, c: u64| #[trigger] r.guild_ranges(g, c) is None,
    {
        SubscriptionDeduper::new()
    }
}

impl SubscriptionDeduper {
    pub closed spec fn dms(&self) -> Set<u64> {
        dm_set(self.direct_messages@)
    }

    pub closed spec fn guild_ranges(&self, g: u64, c: u64) -> Option<Seq<(u32, u32)>> {
        ranges_of(self.guild_channels@, g, c)
    }

    pub fn new() -> (r: Self)
        ensures
            r.dms() == Set::<u64>::empty(),
            forall|g: u64, c: u64| #[trigger] r.guild_ranges(g, c) is None,
    {
        let r = SubscriptionDeduper { direct_messages: Vec::new(), guild_channels: Vec::new() };
        proof {
            assert(r.dms() =~= Set::<u64>::empty());
        }
        r
    }

    /// Whether a command should go out. A DM subscription goes out the first
    /// time per channel; a guild-channel subscription (plain, or with
    /// member-list ranges) goes out unless the same ranges were the last
    /// ones sent for that channel. Every other command goes out.
    pub fn should_send(&mut self, command: &GatewayCommand) -> (r: bool)
        ensures
            should_send_effect(*old(self), *command, *final(self), r),
    {
        match command {
            GatewayCommand::SubscribeDirectMessage { channel_id } => {
                if self.has_direct_message(*channel_id) {
                    proof {
                        assert(dm_set(self.direct_messages@).insert(channel_id@) =~= dm_set(self.direct_messages@));
                    }
                    return false;
                }
                let ghost before = self.direct_messages@;
                self.direct_messages.push(*channel_id);
                proof {
                    assert(!dm_set(before).contains(channel_id@));
                    assert forall|c: u64| dm_set(self.direct_messages@).contains(c) <==> dm_set(before).insert(channel_id@).contains(c) by {
                        if dm_set(before).contains(c) {
                            let k = choose|k: int| 0 <= k < before.len() && (#[trigger] before[k])@ == c;
                            assert(self.direct_messages@[k] == before[k]);
                        }
                        if c == channel_id@ {
                            assert(self.direct_messages@[before.len() as int]@ == c);
                        }
                        if dm_set(self.direct_messages@).contains(c) && c != channel_id@ {
                            let k = choose|k: int| 0 <= k < self.direct_messages@.len() && (#[trigger] self.direct_messages@[k])@ == c;
                            assert(k < before.len());
                            assert(before[k]@ == c);
                        }
                    }
                    assert(dm_set(self.direct_messages@) =~= dm_set(before).insert(channel_id@));
                }
                true
            },
            GatewayCommand::SubscribeGuildChannel { guild_id, channel_id } => {
                let mut ranges: Vec<(u32, u32)> = Vec::new();
                ranges.push((0, 99));
                proof {
                    assert(ranges@ =~= default_ranges());
                }
                self.should_send_guild_channel(*guild_id, *channel_id, ranges)
            },
            GatewayCommand::UpdateMemberListSubscription { guild_id, channel_id, ranges } => {
                let copied = copy_ranges(ranges);
                self.should_send_guild_channel(*guild_id, *channel_id, copied)
            },
            _ => true,
        }
    }

    fn has_direct_message(&self, channel_id: Id<ChannelMarker>) -> (r: bool)
        ensures
            r == self.dms().contains(channel_id@),
    {
        let n = self.direct_messages.len();
        let mut i: usize = 0;
        while i < n
            invariant
                n == self.direct_messages@.len(),
                i <= n,
                forall|j: int| 0 <= j < i ==> (#[trigger] self.direct_messages@[j])@ != channel_id@,
            decreases n - i,
        {
            if id_eq(self.direct_messages[i], channel_id) {
                proof {
                    assert(self.direct_messages@[i as int]@ == channel_id@);
                }
                return true;
            }
            i = i + 1;
        }
        false
    }

    fn should_send_guild_channel(
        &mut self,
        guild_id: Id<GuildMarker>,
        channel_id: Id<ChannelMarker>,
        ranges: Vec<(u32, u32)>,
    ) -> (r: bool)
        ensures
            r == (old(self).guild_ranges(guild_id@, channel_id@) != Some(ranges@)),
            final(self).dms() == old(self).dms(),
            final(self).guild_ranges(guild_id@, channel_id@) == Some(ranges@),
            forall|g: u64, c: u64| !(g == guild_id@ && c == channel_id@) ==> #[trigger] final(self).guild_ranges(g, c)
                == old(self).guild_ranges(g, c),
    {
        let last = self.last_ranges(guild_id, channel_id);
        let same = match last {
            Some(previous) => ranges_eq(previous, &ranges),
            None => false,
        };
        if same {
            return false;
        }
        let ghost before = self.guild_channels@;
        let ghost ranges_view = ranges@;
        self.guild_channels.push(GuildChannelSubscription { guild_id, channel_id, ranges });
        proof {
            assert(self.guild_channels@.drop_last() =~= before);
            assert forall|g: u64, c: u64| !(g == guild_id@ && c == channel_id@) implies #[trigger] ranges_of(self.guild_channels@, g, c)
                == ranges_of(before, g, c) by {
            }
        }
        true
    }

    fn last_ranges(&self, guild_id: Id<GuildMarker>, channel_id: Id<ChannelMarker>) -> (r: Option<&Vec<(u32, u32)>>)
        ensures
            match r {
                Some(v) => self.guild_ranges(guild_id@, channel_id@) == Some(v@),
                None => self.guild_ranges(guild_id@, channel_id@) is None,
            },
    {
        let mut i: usize = self.guild_channels.len();
        proof {
            assert(self.guild_channels@.subrange(0, i as int) =~= self.guild_channels@);
        }
        while i > 0
            invariant
                i <= self.guild_channels@.len(),
                ranges_of(self.guild_channels@, guild_id@, channel_id@) == ranges_of(
                    self.guild_channels@.subrange(0, i as int),
                    guild_id@,
                    channel_id@,
                ),
            decreases i,
        {
            let entry = &self.guild_channels[i - 1];
            proof {
                assert(self.guild_channels@.subrange(0, i as int).last() == self.guild_channels@[i - 1]);
                assert(self.guild_channels@.subrange(0, i as int).drop_last() =~= self.guild_channels@.subrange(0, i - 1));
            }
            if id_eq(entry.guild_id, guild_id) && id_eq(entry.channel_id, channel_id) {
                return Some(&entry.ranges);
            }
            i = i - 1;
        }
        None
    }
}

/// Equality of two range lists.
pub fn ranges_eq(a: &Vec<(u32, u32)>, b: &Vec<(u32, u32)>) -> (r: bool)
    ensures
        r == (a@ == b@),
{
    if a.len() != b.len() {
        return false;
    }
    let n = a.len();
    let mut i: usize = 0;
    while i < n
        invariant
            n == a@.len(),
            n == b@.len(),
            i <= n,
            forall|j: int| 0 <= j < i ==> a@[j] == b@[j],
        decreases n - i,
    {
        if a[i].0 != b[i].0 || a[i].1 != b[i].1 {
            return false;
        }
        i = i + 1;
    }
    proof {
        assert(a@ =~= b@);
    }
    true
}

fn copy_ranges(ranges: &Vec<(u32, u32)>) -> (r: Vec<(u32, u32)>)
    ensures
        r@ == ranges@,
{
    let mut out: Vec<(u32, u32)> = Vec::new();
    let n = ranges.len();
    let mut i: usize = 0;
    while i < n
        invariant
            n == ranges@.len(),
            i <= n,
            out@ == ranges@.subrange(0, i as int),
        decreases n - i,
    {
        out.push(ranges[i]);
        proof {
            assert(out@ =~= ranges@.subrange(0, i + 1));
        }
        i = i + 1;
    }
    proof {
        assert(ranges@.subrange(0, n as int) =~= ranges@);
    }
    out
}

/// Reconnecting goes to the resume URL that READY gave, with the gateway's
/// query appended, whenever there is a non-empty one; only without one does
/// it go to the default gateway. Different resume URLs lead to different
/// addresses.
pub proof fn lemma_next_url_follows_resume_url(s: SessionState, t: SessionState)
    ensures
        s.resume_url is Some && s.resume_url->0@.len() > 0 ==> {
            let u = s.resume_url->0@;
            &&& next_url_spec(s.resume_url).len() == u.len() + 19
            &&& next_url_spec(s.resume_url).subrange(0, u.len() as int) == u
            &&& next_url_spec(s.resume_url).subrange(u.len() as int, (u.len() + 19) as int) == "/?v=9&encoding=json"@
        },
        (s.resume_url is None || s.resume_url->0@.len() == 0) ==> next_url_spec(s.resume_url) == GATEWAY_URL@,
        s.resume_url is Some && s.resume_url->0@.len() > 0 && t.resume_url is Some && t.resume_url->0@.len() > 0
            && s.resume_url->0@ != t.resume_url->0@ ==> next_url_spec(s.resume_url) != next_url_spec(t.resume_url),
{
    reveal_strlit("/?v=9&encoding=json");
    if let Some(u) = s.resume_url {
        if u@.len() > 0 {
            let full = u@ + "/?v=9&encoding=json"@;
            assert(full.subrange(0, u@.len() as int) =~= u@);
            assert(full.subrange(u@.len() as int, (u@.len() + 19) as int) =~= "/?v=9&encoding=json"@);
            if let Some(v) = t.resume_url {
                if v@.len() > 0 {
                    let other = v@ + "/?v=9&encoding=json"@;
                    if full == other {
                        assert(other.subrange(0, v@.len() as int) =~= v@);
                        assert(full.subrange(0, v@.len() as int) =~= u@);
                    }
                }
            }
        }
    }
}

} // verus!
