//! The decisions of the WebSocket connection manager, as a state machine
//! that the I/O loop drives: connecting, authentication, heartbeats,
//! reconnection with exponential backoff, classification of incoming frames,
//! and the per-request serial reply queues.

use vstd::prelude::*;
use vstd::string::*;

use crate::error::AiBotError;
use crate::text::{has_prefix, opt_text, str_equal, str_starts_with};
use crate::types::api::WsCmd;
use crate::text::all_lower_hex;
use crate::utils::{generate_req_id, lemma_req_id_has_prefix, req_id_text};

verus! {

/// The WebSocket address used when none is configured.
pub const DEFAULT_WS_URL: &'static str = "wss://openws.work.weixin.qq.com";

/// Upper bound of the reconnection delay, in milliseconds.
pub const RECONNECT_MAX_DELAY_MS: u64 = 30000;

/// How long a reply waits for its acknowledgement, in milliseconds.
pub const REPLY_ACK_TIMEOUT_MS: u64 = 5000;

/// Most replies that may wait in the queue of one request id.
pub const MAX_REPLY_QUEUE_SIZE: usize = 100;

/// Heartbeats that may go unanswered before the connection counts as dead.
pub const MAX_MISSED_PONG: u64 = 2;

/// The fixed and configured parameters of a connection manager.
pub struct ConnectionSettings {
    pub ws_url: String,
    pub heartbeat_interval_ms: u64,
    pub reconnect_base_delay_ms: u64,
    pub reconnect_max_delay_ms: u64,
    pub max_reconnect_attempts: i64,
    pub reply_ack_timeout_ms: u64,
    pub max_reply_queue_size: usize,
    pub max_missed_pong: u64,
}

/// The settings of a connection manager made with the given heartbeat
/// interval, reconnection base delay, reconnection limit (`-1` for no
/// limit) and optional address.
pub fn connection_settings(
    heartbeat_interval_ms: u64,
    reconnect_base_delay_ms: u64,
    max_reconnect_attempts: i64,
    ws_url: Option<String>,
) -> (s: ConnectionSettings)
    ensures
        s.ws_url@ == match ws_url {
            Some(u) => u@,
            None => DEFAULT_WS_URL@,
        },
        s.heartbeat_interval_ms == heartbeat_interval_ms,
        s.reconnect_base_delay_ms == reconnect_base_delay_ms,
        s.reconnect_max_delay_ms == RECONNECT_MAX_DELAY_MS,
        s.max_reconnect_attempts == max_reconnect_attempts,
        s.reply_ack_timeout_ms == REPLY_ACK_TIMEOUT_MS,
        s.max_reply_queue_size == MAX_REPLY_QUEUE_SIZE,
        s.max_missed_pong == MAX_MISSED_PONG,
{
    let url = match ws_url {
        Some(u) => u,
        None => String::from_str(DEFAULT_WS_URL),
    };
    ConnectionSettings {
        ws_url: url,
        heartbeat_interval_ms,
        reconnect_base_delay_ms,
        reconnect_max_delay_ms: RECONNECT_MAX_DELAY_MS,
        max_reconnect_attempts,
        reply_ack_timeout_ms: REPLY_ACK_TIMEOUT_MS,
        max_reply_queue_size: MAX_REPLY_QUEUE_SIZE,
        max_missed_pong: MAX_MISSED_PONG,
    }
}

// ---------------------------------------------------------------------
// Exponential backoff

/// `2` to the power `k`.
pub open spec fn pow2(k: nat) -> nat
    decreases k,
{
    if k == 0 { 1 } else { 2 * pow2((k - 1) as nat) }
}

/// The delay before reconnection attempt number `attempt` (counted from 1):
/// the base delay doubled for each earlier attempt, capped at `cap`.
pub open spec fn backoff_delay(base: nat, attempt: nat, cap: nat) -> nat {
    let d = base * pow2((attempt - 1) as nat);
    if d < cap { d } else { cap }
}

proof fn lemma_pow2_positive(k: nat)
    ensures
        pow2(k) >= 1,
    decreases k,
{
    if k > 0 {
        lemma_pow2_positive((k - 1) as nat);
    }
}

proof fn lemma_pow2_monotone(i: nat, j: nat)
    requires
        i <= j,
    ensures
        pow2(i) <= pow2(j),
    decreases j - i,
{
    if i < j {
        lemma_pow2_monotone(i, (j - 1) as nat);
        lemma_pow2_positive((j - 1) as nat);
    }
}

proof fn lemma_scaled_pow2_monotone(base: nat, i: nat, j: nat)
    requires
        i <= j,
    ensures
        base * pow2(i) <= base * pow2(j),
{
    lemma_pow2_monotone(i, j);
    let a = pow2(i);
    let b = pow2(j);
    assert(base * a <= base * b) by (nonlinear_arith)
        requires
            a <= b,
    ;
}

/// The delay in milliseconds before reconnection attempt `attempt`
/// (counted from 1), computed in integers.
pub fn reconnect_delay_ms(base: u64, attempt: u64, cap: u64) -> (d: u64)
    requires
        attempt >= 1,
    ensures
        d == backoff_delay(base as nat, attempt as nat, cap as nat),
{
    proof {
        lemma_pow2_positive((attempt - 1) as nat);
    }
    if base == 0 {
        assert(0 * pow2((attempt - 1) as nat) == 0) by (nonlinear_arith);
        return 0;
    }
    assert(pow2(0nat) == 1);
    assert(base as nat * pow2(0nat) == base) by (nonlinear_arith)
        requires
            pow2(0nat) == 1,
    ;
    if base >= cap {
        proof {
            lemma_scaled_pow2_monotone(base as nat, 0, (attempt - 1) as nat);
        }
        return cap;
    }
    let mut d: u64 = base;
    let mut i: u64 = 1;
    while i < attempt
        invariant
            1 <= i <= attempt,
            d as nat == base * pow2((i - 1) as nat),
            d < cap,
            base >= 1,
        decreases attempt - i,
    {
        if d >= cap - d {
            proof {
                assert(pow2(i as nat) == 2 * pow2((i - 1) as nat));
                assert(base * pow2(i as nat) == 2 * (base * pow2((i - 1) as nat))) by (nonlinear_arith)
                    requires
                        pow2(i as nat) == 2 * pow2((i - 1) as nat),
                ;
                lemma_scaled_pow2_monotone(base as nat, i as nat, (attempt - 1) as nat);
            }
            return cap;
        }
        proof {
            assert(pow2(i as nat) == 2 * pow2((i - 1) as nat));
            assert(base * pow2(i as nat) == 2 * (base * pow2((i - 1) as nat))) by (nonlinear_arith)
                requires
                    pow2(i as nat) == 2 * pow2((i - 1) as nat),
            ;
        }
        d = d * 2;
        i = i + 1;
    }
    d
}

// ---------------------------------------------------------------------
// Connection state machine

/// The mutable state of a connection manager that its decisions read.
#[derive(Clone, Copy, Debug, PartialEq, Eq, Structural)]
pub struct ConnectionState {
    /// `connect` has been called.
    pub started: bool,
    /// `disconnect` has been called.
    pub manual_close: bool,
    /// A WebSocket connection is open.
    pub connected: bool,
    /// The server accepted the credentials on the current connection.
    pub auth_ok: bool,
    /// Heartbeats sent and not yet acknowledged.
    pub missed_pong_count: u64,
    /// Reconnection attempts since the last successful connection.
    pub attempts: i64,
}

/// What to do on a heartbeat tick.
#[derive(Clone, Copy, Debug, PartialEq, Eq, Structural)]
pub enum HeartbeatAction {
    /// Not authenticated yet: do nothing.
    Idle,
    /// Send a heartbeat frame.
    SendPing,
    /// Too many heartbeats went unanswered: drop the connection.
    ConnectionDead,
}

/// What to do after a connection ended or could not be opened.
#[derive(Clone, Copy, Debug, PartialEq, Eq, Structural)]
pub enum ReconnectAction {
    /// The connection was closed on purpose: stop.
    Stop,
    /// The reconnection limit is reached: report and stop.
    GiveUp,
    /// Wait `delay_ms`, then make attempt number `attempt`.
    RetryAfter { attempt: u32, delay_ms: u64 },
}

/// Where an incoming frame goes.
#[derive(Clone, Debug, PartialEq, Eq)]
pub enum IncomingRoute {
    /// A message or event callback: hand it to the message handler.
    Callback,
    /// A response that carries this request id.
    Response(String),
    /// Neither: log and ignore it.
    Unknown,
}

/// What a response frame means.
#[derive(Clone, Copy, Debug, PartialEq, Eq, Structural)]
pub enum ResponseAction {
    /// It acknowledges a reply that waits for it: deliver it there.
    AckDelivered,
    /// The server refused the credentials.
    AuthFailed,
    /// The server accepted the credentials.
    Authenticated,
    /// The server answered a heartbeat with an error.
    HeartbeatAckError,
    /// The server acknowledged a heartbeat.
    HeartbeatAck,
    /// Nothing waits for it: log and ignore it.
    Unknown,
}

/// The state of a manager that has just been made.
pub open spec fn initial_state() -> ConnectionState {
    ConnectionState {
        started: false,
        manual_close: false,
        connected: false,
        auth_ok: false,
        missed_pong_count: 0,
        attempts: 0,
    }
}

/// `connect`: the loop starts only on the first call.
pub open spec fn start_step(s: ConnectionState) -> (ConnectionState, bool) {
    (ConnectionState { started: true, ..s }, !s.started)
}

/// A connection was opened: counters reset, authentication pending.
pub open spec fn open_step(s: ConnectionState) -> ConnectionState {
    ConnectionState { connected: true, auth_ok: false, missed_pong_count: 0, attempts: 0, ..s }
}

/// The connection ended.
pub open spec fn close_step(s: ConnectionState) -> ConnectionState {
    ConnectionState { connected: false, ..s }
}

/// `disconnect`.
pub open spec fn disconnect_step(s: ConnectionState) -> ConnectionState {
    ConnectionState { manual_close: true, connected: false, ..s }
}

/// A heartbeat tick, with `max_missed` heartbeats allowed to go unanswered.
pub open spec fn heartbeat_step(s: ConnectionState, max_missed: u64) -> (ConnectionState, HeartbeatAction) {
    if !s.auth_ok {
        (s, HeartbeatAction::Idle)
    } else if s.missed_pong_count >= max_missed {
        (s, HeartbeatAction::ConnectionDead)
    } else {
        (
            ConnectionState { missed_pong_count: (s.missed_pong_count + 1) as u64, ..s },
            HeartbeatAction::SendPing,
        )
    }
}

/// Whether the reconnection limit is reached (`-1` means no limit).
pub open spec fn attempts_exhausted(attempts: i64, max_attempts: i64) -> bool {
    max_attempts != -1 && attempts >= max_attempts
}

/// The decision after a connection ended or failed.
pub open spec fn reconnect_step(
    s: ConnectionState,
    max_attempts: i64,
    base_delay_ms: u64,
    max_delay_ms: u64,
) -> (ConnectionState, ReconnectAction) {
    if s.manual_close {
        (s, ReconnectAction::Stop)
    } else if attempts_exhausted(s.attempts, max_attempts) {
        (s, ReconnectAction::GiveUp)
    } else {
        let n = s.attempts + 1;
        (
            ConnectionState { attempts: n as i64, ..s },
            ReconnectAction::RetryAfter {
                attempt: n as u32,
                delay_ms: backoff_delay(base_delay_ms as nat, n as nat, max_delay_ms as nat) as u64,
            },
        )
    }
}

/// Whether the command is one of the two callback commands.
pub open spec fn is_callback_cmd(cmd: Option<Seq<char>>) -> bool {
    cmd == Some(WsCmd::CALLBACK@) || cmd == Some(WsCmd::EVENT_CALLBACK@)
}

/// What a response with this request id and error code means, given whether
/// a reply waits for its acknowledgement; and the state after it.
pub open spec fn response_step(
    s: ConnectionState,
    req_id: Seq<char>,
    ack_pending: bool,
    errcode: Option<i64>,
) -> (ConnectionState, ResponseAction) {
    let failed = match errcode {
        Some(c) => c != 0,
        None => false,
    };
    if ack_pending {
        (s, ResponseAction::AckDelivered)
    } else if has_prefix(req_id, WsCmd::SUBSCRIBE@) {
        if failed {
            (s, ResponseAction::AuthFailed)
        } else {
            (ConnectionState { missed_pong_count: 0, auth_ok: true, ..s }, ResponseAction::Authenticated)
        }
    } else if has_prefix(req_id, WsCmd::HEARTBEAT@) {
        if failed {
            (s, ResponseAction::HeartbeatAckError)
        } else {
            (ConnectionState { missed_pong_count: 0, ..s }, ResponseAction::HeartbeatAck)
        }
    } else {
        (s, ResponseAction::Unknown)
    }
}

impl ConnectionState {
    /// The state of a manager that has just been made.
    pub fn new() -> (s: Self)
        ensures
            s == initial_state(),
    {
        ConnectionState {
            started: false,
            manual_close: false,
            connected: false,
            auth_ok: false,
            missed_pong_count: 0,
            attempts: 0,
        }
    }

    /// Marks the manager started; true when the connection loop must be
    /// started, false when it already runs.
    pub fn start(&mut self) -> (first: bool)
        ensures
            (*final(self), first) == start_step(*old(self)),
    {
        let first = !self.started;
        self.started = true;
        first
    }

    /// Whether the connection loop goes on to (re)connect.
    pub fn should_connect(&self) -> (b: bool)
        ensures
            b == !self.manual_close,
    {
        !self.manual_close
    }

    /// A connection was opened.
    pub fn on_open(&mut self)
        ensures
            *final(self) == open_step(*old(self)),
    {
        self.connected = true;
        self.auth_ok = false;
        self.missed_pong_count = 0;
        self.attempts = 0;
    }

    /// The connection ended.
    pub fn on_closed(&mut self)
        ensures
            *final(self) == close_step(*old(self)),
    {
        self.connected = false;
    }

    /// `disconnect` was called: the replies that wait fail with the reason
    /// `Connection manually closed`, and a close frame is sent when a
    /// connection was open.
    pub fn on_disconnect(&mut self) -> (r: DisconnectReaction)
        ensures
            *final(self) == disconnect_step(*old(self)),
            r.fail_pending@ == "Connection manually closed"@,
            r.send_close == old(self).connected,
    {
        let send_close = self.connected;
        self.manual_close = true;
        self.connected = false;
        DisconnectReaction { fail_pending: String::from_str("Connection manually closed"), send_close }
    }

    /// A heartbeat tick.
    pub fn on_heartbeat_tick(&mut self, max_missed: u64) -> (a: HeartbeatAction)
        ensures
            (*final(self), a) == heartbeat_step(*old(self), max_missed),
    {
        if !self.auth_ok {
            HeartbeatAction::Idle
        } else if self.missed_pong_count >= max_missed {
            HeartbeatAction::ConnectionDead
        } else {
            self.missed_pong_count = self.missed_pong_count + 1;
            HeartbeatAction::SendPing
        }
    }

    /// The decision after a connection ended or could not be opened.
    pub fn next_attempt(&mut self, max_attempts: i64, base_delay_ms: u64, max_delay_ms: u64) -> (a: ReconnectAction)
        requires
            0 <= old(self).attempts < i64::MAX,
        ensures
            (*final(self), a) == reconnect_step(*old(self), max_attempts, base_delay_ms, max_delay_ms),
    {
        if self.manual_close {
            return ReconnectAction::Stop;
        }
        if max_attempts != -1 && self.attempts >= max_attempts {
            return ReconnectAction::GiveUp;
        }
        self.attempts = self.attempts + 1;
        let n = self.attempts;
        let delay = reconnect_delay_ms(base_delay_ms, n as u64, max_delay_ms);
        proof {
            assert(backoff_delay(base_delay_ms as nat, n as nat, max_delay_ms as nat) <= max_delay_ms);
        }
        ReconnectAction::RetryAfter { attempt: n as u32, delay_ms: delay }
    }

    /// What a response frame means, given whether a reply waits for an
    /// acknowledgement with this request id.
    pub fn on_response(&mut self, req_id: &str, ack_pending: bool, errcode: Option<i64>) -> (a: ResponseAction)
        ensures
            (*final(self), a) == response_step(*old(self), req_id@, ack_pending, errcode),
    {
        let failed = match errcode {
            Some(c) => c != 0,
            None => false,
        };
        if ack_pending {
            ResponseAction::AckDelivered
        } else if str_starts_with(req_id, WsCmd::SUBSCRIBE) {
            if failed {
                ResponseAction::AuthFailed
            } else {
                self.missed_pong_count = 0;
                self.auth_ok = true;
                ResponseAction::Authenticated
            }
        } else if str_starts_with(req_id, WsCmd::HEARTBEAT) {
            if failed {
                ResponseAction::HeartbeatAckError
            } else {
                self.missed_pong_count = 0;
                ResponseAction::HeartbeatAck
            }
        } else {
            ResponseAction::Unknown
        }
    }
}



/// How a connection ended, or failed to open.
#[derive(Clone, Debug, PartialEq, Eq)]
pub enum ConnectionEnd {
    /// The server sent a close frame, with its reason when it gave one.
    CloseFrame(Option<String>),
    /// Reading from the connection failed, with this error text.
    ReadError(String),
    /// The stream of incoming frames ended.
    StreamEnded,
    /// Writing a frame to the connection failed.
    WriteFailed,
    /// No heartbeat was acknowledged in time.
    HeartbeatDead,
    /// The connection could not be opened, with this error text.
    ConnectFailed(String),
}

/// What follows the end of a connection, before reconnection is decided.
#[derive(Clone, Debug, PartialEq, Eq)]
pub struct EndReaction {
    /// Fail the replies that wait for an acknowledgement, with this reason.
    pub fail_pending: Option<String>,
    /// Tell the `disconnected` callback, with this reason.
    pub disconnected: Option<String>,
    /// Tell the `error` callback, with this text.
    pub error: Option<String>,
}

/// What follows a call of `disconnect`.
#[derive(Clone, Debug, PartialEq, Eq)]
pub struct DisconnectReaction {
    /// Fail the replies that wait for an acknowledgement, with this reason.
    pub fail_pending: String,
    /// Send a close frame on the open connection.
    pub send_close: bool,
}

/// The frame that authenticates the bot: command `aibot_subscribe`, a
/// fresh request id, and the bot id and secret as its body.
#[derive(Clone, Debug, PartialEq, Eq)]
pub struct AuthRequest {
    pub cmd: String,
    pub req_id: String,
    pub bot_id: String,
    pub secret: String,
}

/// The heartbeat frame: command `ping` and a fresh request id, no body.
#[derive(Clone, Debug, PartialEq, Eq)]
pub struct HeartbeatRequest {
    pub cmd: String,
    pub req_id: String,
}

/// A request id made by `generate_req_id` for the prefix.
pub open spec fn fresh_req_id(prefix: Seq<char>, id: Seq<char>) -> bool {
    exists|t: i64, r: Seq<char>| r.len() == 8 && all_lower_hex(r) && #[trigger] req_id_text(prefix, t as int, r) == id
}

/// The authentication frame for the credentials, sent right after a
/// connection opens.
pub fn auth_request(bot_id: &str, secret: &str) -> (a: AuthRequest)
    ensures
        a.cmd@ == WsCmd::SUBSCRIBE@,
        fresh_req_id(WsCmd::SUBSCRIBE@, a.req_id@),
        a.bot_id@ == bot_id@,
        a.secret@ == secret@,
{
    AuthRequest {
        cmd: String::from_str(WsCmd::SUBSCRIBE),
        req_id: generate_req_id(WsCmd::SUBSCRIBE),
        bot_id: String::from_str(bot_id),
        secret: String::from_str(secret),
    }
}

/// The heartbeat frame.
pub fn heartbeat_request() -> (h: HeartbeatRequest)
    ensures
        h.cmd@ == WsCmd::HEARTBEAT@,
        fresh_req_id(WsCmd::HEARTBEAT@, h.req_id@),
{
    HeartbeatRequest { cmd: String::from_str(WsCmd::HEARTBEAT), req_id: generate_req_id(WsCmd::HEARTBEAT) }
}

/// The reason of a close frame: the one it gives, else `closed`.
pub open spec fn close_reason(reason: Option<String>) -> Seq<char> {
    match reason {
        Some(r) => r@,
        None => "closed"@,
    }
}

/// The reason with which a lost connection is reported as a disconnection:
/// a close frame's reason (`closed` when it gives none), a read error's
/// text, or a fixed text for an ended stream, a failed write and a dead
/// heartbeat. A connection that never opened is not reported as one.
pub open spec fn disconnect_reason(end: ConnectionEnd) -> Option<Seq<char>> {
    match end {
        ConnectionEnd::CloseFrame(reason) => Some(close_reason(reason)),
        ConnectionEnd::ReadError(e) => Some(e@),
        ConnectionEnd::StreamEnded => Some("stream ended"@),
        ConnectionEnd::WriteFailed => Some("send failed"@),
        ConnectionEnd::HeartbeatDead => Some("heartbeat timeout"@),
        ConnectionEnd::ConnectFailed(_) => None,
    }
}

/// Reacts to the end of a connection: every lost connection is reported as
/// a disconnection, with its reason; a close frame also fails the replies
/// that wait for an acknowledgement; a read error, or a failure to open the
/// connection, is reported as an error too.
pub fn on_connection_end(end: ConnectionEnd) -> (r: EndReaction)
    ensures
        opt_text(r.disconnected) == disconnect_reason(end),
        match end {
            ConnectionEnd::CloseFrame(reason) => r.fail_pending matches Some(m) && m@
                == "WebSocket connection closed ("@ + close_reason(reason) + ")"@,
            _ => r.fail_pending is None,
        },
        match end {
            ConnectionEnd::ReadError(e) => r.error matches Some(x) && x@ == e@,
            ConnectionEnd::ConnectFailed(e) => r.error matches Some(x) && x@ == e@,
            _ => r.error is None,
        },
{
    match end {
        ConnectionEnd::CloseFrame(reason) => {
            let reason = match reason {
                Some(r) => r,
                None => String::from_str("closed"),
            };
            let mut m = String::from_str("WebSocket connection closed (");
            m.append(reason.as_str());
            m.append(")");
            EndReaction { fail_pending: Some(m), disconnected: Some(reason), error: None }
        },
        ConnectionEnd::ReadError(e) => {
            let d = e.clone();
            EndReaction { fail_pending: None, disconnected: Some(d), error: Some(e) }
        },
        ConnectionEnd::StreamEnded => EndReaction {
            fail_pending: None,
            disconnected: Some(String::from_str("stream ended")),
            error: None,
        },
        ConnectionEnd::WriteFailed => EndReaction {
            fail_pending: None,
            disconnected: Some(String::from_str("send failed")),
            error: None,
        },
        ConnectionEnd::HeartbeatDead => EndReaction {
            fail_pending: None,
            disconnected: Some(String::from_str("heartbeat timeout")),
            error: None,
        },
        ConnectionEnd::ConnectFailed(e) => EndReaction { fail_pending: None, disconnected: None, error: Some(e) },
    }
}

/// Where an incoming frame goes: callbacks to the message handler,
/// anything else with a request id to the response handling.
pub fn route_incoming(cmd: &Option<String>, req_id: &Option<String>) -> (r: IncomingRoute)
    ensures
        is_callback_cmd(opt_text(*cmd)) ==> r == IncomingRoute::Callback,
        !is_callback_cmd(opt_text(*cmd)) ==> match req_id {
            Some(id) => r matches IncomingRoute::Response(x) && x@ == id@,
            None => r == IncomingRoute::Unknown,
        },
{
    let callback = match cmd {
        Some(c) => str_equal(c.as_str(), WsCmd::CALLBACK) || str_equal(c.as_str(), WsCmd::EVENT_CALLBACK),
        None => false,
    };
    if callback {
        return IncomingRoute::Callback;
    }
    match req_id {
        Some(id) => IncomingRoute::Response(id.clone()),
        None => IncomingRoute::Unknown,
    }
}

/// The server's error message, or `"unknown"` when it gave none.
pub fn errmsg_or_unknown(errmsg: Option<String>) -> (m: String)
    ensures
        m@ == match errmsg {
            Some(t) => t@,
            None => "unknown"@,
        },
{
    match errmsg {
        Some(t) => t,
        None => String::from_str("unknown"),
    }
}

/// How the wait for a reply's acknowledgement ended.
#[derive(Clone, Debug, PartialEq, Eq)]
pub enum AckOutcome {
    /// The acknowledgement frame arrived with this error code and message.
    Received { errcode: Option<i64>, errmsg: Option<String> },
    /// The waiting side was dropped.
    Cancelled,
    /// No acknowledgement arrived in time.
    TimedOut,
}

/// What the sender of a reply is told: success, or the error that the
/// acknowledgement (or its absence) amounts to.
pub fn reply_outcome(req_id: &str, outcome: AckOutcome, timeout_ms: u64) -> (r: Result<(), AiBotError>)
    ensures
        match outcome {
            AckOutcome::Received { errcode, errmsg } => match errcode {
                Some(c) if c != 0 => r matches Err(AiBotError::ReplyAckError { req_id: id, errcode: code, errmsg: m })
                    && id@ == req_id@ && code == c && m@ == match errmsg {
                        Some(t) => t@,
                        None => "unknown"@,
                    },
                _ => r is Ok,
            },
            AckOutcome::Cancelled => r matches Err(AiBotError::Internal(m)) && m@ == "Reply cancelled"@,
            AckOutcome::TimedOut => r matches Err(AiBotError::ReplyAckTimeout(ms, id)) && ms == timeout_ms
                && id@ == req_id@,
        },
{
    match outcome {
        AckOutcome::Received { errcode, errmsg } => {
            let code = match errcode {
                Some(c) => c,
                None => 0,
            };
            if code != 0 {
                Err(AiBotError::ReplyAckError {
                    req_id: String::from_str(req_id),
                    errcode: code,
                    errmsg: errmsg_or_unknown(errmsg),
                })
            } else {
                Ok(())
            }
        },
        AckOutcome::Cancelled => Err(AiBotError::Internal(String::from_str("Reply cancelled"))),
        AckOutcome::TimedOut => Err(AiBotError::ReplyAckTimeout(timeout_ms, String::from_str(req_id))),
    }
}

/// The command of an outgoing reply frame: the given one, or the plain
/// reply command.
pub fn reply_cmd(cmd: Option<&str>) -> (c: String)
    ensures
        c@ == match cmd {
            Some(x) => x@,
            None => WsCmd::RESPONSE@,
        },
{
    match cmd {
        Some(x) => String::from_str(x),
        None => String::from_str(WsCmd::RESPONSE),
    }
}

// ---------------------------------------------------------------------
// Laws

/// The reconnection delay never exceeds its cap.
pub proof fn lemma_backoff_capped(base: nat, attempt: nat, cap: nat)
    ensures
        backoff_delay(base, attempt, cap) <= cap,
{
}

/// The first reconnection waits the base delay (capped).
pub proof fn lemma_backoff_first_attempt(base: nat, cap: nat)
    ensures
        backoff_delay(base, 1, cap) == if base < cap { base } else { cap },
{
    assert(pow2(0) == 1);
    assert(base * 1 == base);
}

/// Each reconnection waits at least as long as the one before.
pub proof fn lemma_backoff_monotone(base: nat, a: nat, b: nat, cap: nat)
    requires
        1 <= a <= b,
    ensures
        backoff_delay(base, a, cap) <= backoff_delay(base, b, cap),
{
    lemma_scaled_pow2_monotone(base, (a - 1) as nat, (b - 1) as nat);
}

/// Until the cap is reached, each reconnection waits twice as long as the
/// one before.
pub proof fn lemma_backoff_doubles(base: nat, a: nat, cap: nat)
    requires
        a >= 1,
        base * pow2(a) < cap,
    ensures
        backoff_delay(base, a + 1, cap) == 2 * backoff_delay(base, a, cap),
{
    assert(pow2(a) == 2 * pow2((a - 1) as nat));
    let p = pow2((a - 1) as nat);
    assert(base * pow2(a) == 2 * (base * p)) by (nonlinear_arith)
        requires
            pow2(a) == 2 * p,
    ;
}

/// Whatever the reconnection limit, `-1` (none) included: a retry after
/// `k` failed attempts is attempt `k + 1` and waits the base delay doubled
/// once for each of the `k` earlier attempts, capped at `cap`; and the limit
/// changes nothing in it.
pub proof fn lemma_retry_delay_for_any_limit(s: ConnectionState, max_attempts: i64, base: u64, cap: u64)
    requires
        !s.manual_close,
        0 <= s.attempts < u32::MAX,
        max_attempts == -1 || s.attempts < max_attempts,
    ensures
        reconnect_step(s, max_attempts, base, cap).0.attempts == s.attempts + 1,
        reconnect_step(s, max_attempts, base, cap).1 matches ReconnectAction::RetryAfter { attempt, delay_ms }
            && attempt == s.attempts + 1
            && delay_ms == (if base * pow2(s.attempts as nat) < cap { base * pow2(s.attempts as nat) } else { cap as int }),
        reconnect_step(s, max_attempts, base, cap).1 == reconnect_step(s, -1i64, base, cap).1,
{
    lemma_backoff_capped(base as nat, (s.attempts + 1) as nat, cap as nat);
    assert(((s.attempts + 1) as nat - 1) as nat == s.attempts as nat);
}

/// Two retries in a row, whatever the limit: the first waits the base
/// delay (capped) when nothing failed before, and each later one waits
/// twice the one before, capped at `cap`.
pub proof fn lemma_retry_delays_double(s: ConnectionState, max_attempts: i64, base: u64, cap: u64)
    requires
        !s.manual_close,
        0 <= s.attempts,
        s.attempts + 1 < u32::MAX,
        max_attempts == -1 || s.attempts + 1 < max_attempts,
    ensures
        ({
            let (t, first) = reconnect_step(s, max_attempts, base, cap);
            let (_, second) = reconnect_step(t, max_attempts, base, cap);
            &&& first matches ReconnectAction::RetryAfter { attempt: a1, delay_ms: d1 }
            &&& second matches ReconnectAction::RetryAfter { attempt: a2, delay_ms: d2 }
            &&& a2 == a1 + 1
            &&& s.attempts == 0 ==> d1 == (if base < cap { base } else { cap })
            &&& d2 == (if 2 * d1 < cap { 2 * d1 } else { cap as int })
        }),
{
    let t = reconnect_step(s, max_attempts, base, cap).0;
    lemma_retry_delay_for_any_limit(s, max_attempts, base, cap);
    lemma_retry_delay_for_any_limit(t, max_attempts, base, cap);
    let k = s.attempts as nat;
    let p = pow2(k);
    assert(pow2(k + 1) == 2 * p);
    assert(base * pow2(k + 1) == 2 * (base * p)) by (nonlinear_arith)
        requires
            pow2(k + 1) == 2 * p,
    ;
    assert(pow2(0) == 1);
    assert(base * pow2(0) == base) by (nonlinear_arith)
        requires
            pow2(0) == 1,
    ;
}

/// At most `max_missed` heartbeats are ever outstanding: every transition
/// keeps the count within the limit.
pub proof fn lemma_missed_pongs_bounded(
    s: ConnectionState,
    max_missed: u64,
    req_id: Seq<char>,
    ack_pending: bool,
    errcode: Option<i64>,
    max_attempts: i64,
    base: u64,
    cap: u64,
)
    requires
        s.missed_pong_count <= max_missed,
    ensures
        heartbeat_step(s, max_missed).0.missed_pong_count <= max_missed,
        response_step(s, req_id, ack_pending, errcode).0.missed_pong_count <= max_missed,
        open_step(s).missed_pong_count <= max_missed,
        close_step(s).missed_pong_count <= max_missed,
        disconnect_step(s).missed_pong_count <= max_missed,
        reconnect_step(s, max_attempts, base, cap).0.missed_pong_count <= max_missed,
        start_step(s).0.missed_pong_count <= max_missed,
{
}

/// The actions of `n` heartbeat ticks in a row, with no frame in between.
pub open spec fn heartbeat_run(s: ConnectionState, max_missed: u64, n: nat) -> Seq<HeartbeatAction>
    decreases n,
{
    if n == 0 {
        Seq::empty()
    } else {
        let (t, a) = heartbeat_step(s, max_missed);
        seq![a] + heartbeat_run(t, max_missed, (n - 1) as nat)
    }
}

/// Once authenticated, a connection on which heartbeats go unanswered
/// sends heartbeats until `max_missed` of them are outstanding, and is
/// declared dead on the next tick.
pub proof fn lemma_dead_after_unanswered_heartbeats(s: ConnectionState, max_missed: u64)
    requires
        s.auth_ok,
        s.missed_pong_count <= max_missed,
    ensures
        heartbeat_run(s, max_missed, (max_missed - s.missed_pong_count + 1) as nat) == Seq::new(
            (max_missed - s.missed_pong_count) as nat,
            |i: int| HeartbeatAction::SendPing,
        ).push(HeartbeatAction::ConnectionDead),
    decreases max_missed - s.missed_pong_count,
{
    let n = (max_missed - s.missed_pong_count + 1) as nat;
    let (t, a) = heartbeat_step(s, max_missed);
    if s.missed_pong_count == max_missed {
        assert(heartbeat_run(t, max_missed, 0) == Seq::<HeartbeatAction>::empty());
        assert(heartbeat_run(s, max_missed, n) =~= Seq::new(0, |i: int| HeartbeatAction::SendPing).push(
            HeartbeatAction::ConnectionDead,
        ));
    } else {
        lemma_dead_after_unanswered_heartbeats(t, max_missed);
        assert(heartbeat_run(s, max_missed, n) =~= Seq::new(
            (max_missed - s.missed_pong_count) as nat,
            |i: int| HeartbeatAction::SendPing,
        ).push(HeartbeatAction::ConnectionDead));
    }
}

/// Before authentication no heartbeat is sent.
pub proof fn lemma_no_heartbeat_before_auth(s: ConnectionState, max_missed: u64)
    requires
        !s.auth_ok,
    ensures
        heartbeat_step(s, max_missed) == (s, HeartbeatAction::Idle),
{
}

/// A successful authentication or heartbeat acknowledgement clears the
/// count of outstanding heartbeats; authentication enables heartbeats.
pub proof fn lemma_ack_resets_missed(s: ConnectionState, req_id: Seq<char>, errcode: Option<i64>)
    requires
        errcode is None || errcode == Some(0i64),
        has_prefix(req_id, WsCmd::SUBSCRIBE@) || has_prefix(req_id, WsCmd::HEARTBEAT@),
    ensures
        response_step(s, req_id, false, errcode).0.missed_pong_count == 0,
        has_prefix(req_id, WsCmd::SUBSCRIBE@) ==> response_step(s, req_id, false, errcode).0.auth_ok,
{
}

/// A successful connection resets the reconnection count.
pub proof fn lemma_open_resets_attempts(s: ConnectionState)
    ensures
        open_step(s).attempts == 0,
        open_step(s).connected,
        !open_step(s).auth_ok,
{
}

/// After `disconnect` the manager never reconnects.
pub proof fn lemma_disconnect_is_final(s: ConnectionState, max_attempts: i64, base: u64, cap: u64)
    ensures
        reconnect_step(disconnect_step(s), max_attempts, base, cap).1 == ReconnectAction::Stop,
        !disconnect_step(s).connected,
{
}

/// `connect` starts the connection loop once, however often it is called.
pub proof fn lemma_start_once(s: ConnectionState)
    ensures
        start_step(start_step(s).0).1 == false,
        start_step(s).1 == !s.started,
{
}

/// With no limit (`-1`), the manager always tries again unless it was
/// disconnected.
pub proof fn lemma_unlimited_reconnects(s: ConnectionState, base: u64, cap: u64)
    requires
        !s.manual_close,
    ensures
        reconnect_step(s, -1i64, base, cap).1 is RetryAfter,
{
}

/// The actions after `n` failed connections in a row.
pub open spec fn reconnect_run(s: ConnectionState, max_attempts: i64, base: u64, cap: u64, n: nat) -> Seq<ReconnectAction>
    decreases n,
{
    if n == 0 {
        Seq::empty()
    } else {
        let (t, a) = reconnect_step(s, max_attempts, base, cap);
        seq![a] + reconnect_run(t, max_attempts, base, cap, (n - 1) as nat)
    }
}

/// With a limit of `max_attempts`, failures in a row lead to the remaining
/// attempts, numbered on from the current count and each waiting the
/// backoff delay for its number, and then to giving up.
pub proof fn lemma_gives_up_after_limit(s: ConnectionState, max_attempts: i64, base: u64, cap: u64)
    requires
        !s.manual_close,
        0 <= s.attempts <= max_attempts,
    ensures
        reconnect_run(s, max_attempts, base, cap, (max_attempts - s.attempts + 1) as nat) == Seq::new(
            (max_attempts - s.attempts) as nat,
            |i: int| ReconnectAction::RetryAfter {
                attempt: (s.attempts + i + 1) as u32,
                delay_ms: backoff_delay(base as nat, (s.attempts + i + 1) as nat, cap as nat) as u64,
            },
        ).push(ReconnectAction::GiveUp),
    decreases max_attempts - s.attempts,
{
    let n = (max_attempts - s.attempts + 1) as nat;
    let (t, a) = reconnect_step(s, max_attempts, base, cap);
    let expected = Seq::new(
        (max_attempts - s.attempts) as nat,
        |i: int| ReconnectAction::RetryAfter {
            attempt: (s.attempts + i + 1) as u32,
            delay_ms: backoff_delay(base as nat, (s.attempts + i + 1) as nat, cap as nat) as u64,
        },
    ).push(ReconnectAction::GiveUp);
    if s.attempts == max_attempts {
        assert(reconnect_run(t, max_attempts, base, cap, 0) == Seq::<ReconnectAction>::empty());
        assert(reconnect_run(s, max_attempts, base, cap, n) =~= expected);
    } else {
        lemma_gives_up_after_limit(t, max_attempts, base, cap);
        assert(t.attempts == s.attempts + 1);
        assert(reconnect_run(s, max_attempts, base, cap, n) =~= expected);
    }
}

/// The acknowledgement of the authentication frame, whose request id is
/// made from the subscription command, is recognised as the outcome of the
/// authentication; that of a heartbeat as a heartbeat acknowledgement.
pub proof fn lemma_own_request_ids_recognised(
    s: ConnectionState,
    timestamp: int,
    random: Seq<char>,
    errcode: Option<i64>,
)
    ensures
        response_step(s, req_id_text(WsCmd::SUBSCRIBE@, timestamp, random), false, errcode).1
            == if errcode is Some && errcode != Some(0i64) {
            ResponseAction::AuthFailed
        } else {
            ResponseAction::Authenticated
        },
        response_step(s, req_id_text(WsCmd::HEARTBEAT@, timestamp, random), false, errcode).1
            == if errcode is Some && errcode != Some(0i64) {
            ResponseAction::HeartbeatAckError
        } else {
            ResponseAction::HeartbeatAck
        },
{
    lemma_req_id_has_prefix(WsCmd::SUBSCRIBE@, timestamp, random);
    lemma_req_id_has_prefix(WsCmd::HEARTBEAT@, timestamp, random);
    reveal_strlit("aibot_subscribe");
    reveal_strlit("ping");
    let ping_id = req_id_text(WsCmd::HEARTBEAT@, timestamp, random);
    assert(ping_id[0] == 'p');
    assert(!has_prefix(ping_id, WsCmd::SUBSCRIBE@)) by {
        if has_prefix(ping_id, WsCmd::SUBSCRIBE@) {
            assert(ping_id.subrange(0, WsCmd::SUBSCRIBE@.len() as int)[0] == 'a');
        }
    }
}

} // verus!
