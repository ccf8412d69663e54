use aibot_rust_sdk::ws::{
    auth_request, connection_settings, errmsg_or_unknown, heartbeat_request, on_connection_end, reconnect_delay_ms, reply_cmd, reply_outcome,
    route_incoming, AckOutcome, ConnectionEnd, ConnectionState, EndReaction, HeartbeatAction, IncomingRoute, ReconnectAction, ResponseAction,
    DEFAULT_WS_URL, MAX_MISSED_PONG, MAX_REPLY_QUEUE_SIZE, RECONNECT_MAX_DELAY_MS, REPLY_ACK_TIMEOUT_MS,
};
use aibot_rust_sdk::{AiBotError, WsCmd};

#[test]
fn backoff_doubles_until_cap() {
    assert_eq!(reconnect_delay_ms(1000, 1, 30000), 1000);
    assert_eq!(reconnect_delay_ms(1000, 2, 30000), 2000);
    assert_eq!(reconnect_delay_ms(1000, 3, 30000), 4000);
    assert_eq!(reconnect_delay_ms(1000, 5, 30000), 16000);
    assert_eq!(reconnect_delay_ms(1000, 6, 30000), 30000);
    assert_eq!(reconnect_delay_ms(1000, 1_000_000, 30000), 30000);
    assert_eq!(reconnect_delay_ms(40000, 1, 30000), 30000);
    assert_eq!(reconnect_delay_ms(0, 70, 30000), 0);
    assert_eq!(reconnect_delay_ms(3, 4, u64::MAX), 24);
}

#[test]
fn settings_defaults() {
    let s = connection_settings(30000, 1000, 10, None);
    assert_eq!(s.ws_url, DEFAULT_WS_URL);
    assert_eq!(s.ws_url, "wss://openws.work.weixin.qq.com");
    assert_eq!(s.reconnect_max_delay_ms, RECONNECT_MAX_DELAY_MS);
    assert_eq!(s.reply_ack_timeout_ms, REPLY_ACK_TIMEOUT_MS);
    assert_eq!(s.max_reply_queue_size, MAX_REPLY_QUEUE_SIZE);
    assert_eq!(s.max_missed_pong, MAX_MISSED_PONG);
    let t = connection_settings(1, 2, -1, Some("wss://example.test".to_string()));
    assert_eq!(t.ws_url, "wss://example.test");
    assert_eq!(t.max_reconnect_attempts, -1);
}

#[test]
fn start_only_once() {
    let mut s = ConnectionState::new();
    assert!(s.start());
    assert!(!s.start());
    assert!(s.started);
}

#[test]
fn heartbeat_dead_after_two_missed() {
    let mut s = ConnectionState::new();
    s.on_open();
    assert_eq!(s.on_heartbeat_tick(MAX_MISSED_PONG), HeartbeatAction::Idle);
    assert_eq!(s.on_response("aibot_subscribe_1_abcd", false, Some(0)), ResponseAction::Authenticated);
    assert!(s.auth_ok);
    assert_eq!(s.on_heartbeat_tick(MAX_MISSED_PONG), HeartbeatAction::SendPing);
    assert_eq!(s.on_heartbeat_tick(MAX_MISSED_PONG), HeartbeatAction::SendPing);
    assert_eq!(s.missed_pong_count, 2);
    assert_eq!(s.on_heartbeat_tick(MAX_MISSED_PONG), HeartbeatAction::ConnectionDead);
}

#[test]
fn heartbeat_ack_resets() {
    let mut s = ConnectionState::new();
    s.on_open();
    s.on_response("aibot_subscribe_1_abcd", false, None);
    s.on_heartbeat_tick(2);
    s.on_heartbeat_tick(2);
    assert_eq!(s.on_response("ping_5_ffff", false, None), ResponseAction::HeartbeatAck);
    assert_eq!(s.missed_pong_count, 0);
    assert_eq!(s.on_response("ping_5_ffff", false, Some(7)), ResponseAction::HeartbeatAckError);
}

#[test]
fn auth_failure_and_unknown() {
    let mut s = ConnectionState::new();
    s.on_open();
    assert_eq!(s.on_response("aibot_subscribe_1_x", false, Some(40001)), ResponseAction::AuthFailed);
    assert!(!s.auth_ok);
    assert_eq!(s.on_response("other_1", false, None), ResponseAction::Unknown);
    assert_eq!(s.on_response("aibot_subscribe_1_x", true, Some(1)), ResponseAction::AckDelivered);
    assert_eq!(errmsg_or_unknown(None), "unknown");
    assert_eq!(errmsg_or_unknown(Some("bad secret".to_string())), "bad secret");
}

#[test]
fn reconnect_gives_up_after_limit() {
    let mut s = ConnectionState::new();
    assert_eq!(
        s.next_attempt(3, 1000, 30000),
        ReconnectAction::RetryAfter { attempt: 1, delay_ms: 1000 }
    );
    assert_eq!(
        s.next_attempt(3, 1000, 30000),
        ReconnectAction::RetryAfter { attempt: 2, delay_ms: 2000 }
    );
    assert_eq!(
        s.next_attempt(3, 1000, 30000),
        ReconnectAction::RetryAfter { attempt: 3, delay_ms: 4000 }
    );
    assert_eq!(s.next_attempt(3, 1000, 30000), ReconnectAction::GiveUp);
    s.on_open();
    assert_eq!(s.attempts, 0);
    assert_eq!(
        s.next_attempt(3, 1000, 30000),
        ReconnectAction::RetryAfter { attempt: 1, delay_ms: 1000 }
    );
}

#[test]
fn reconnect_unlimited_and_manual_close() {
    let mut s = ConnectionState::new();
    for i in 1..=20u32 {
        match s.next_attempt(-1, 1000, 30000) {
            ReconnectAction::RetryAfter { attempt, delay_ms } => {
                assert_eq!(attempt, i);
                assert!(delay_ms <= 30000);
            }
            other => panic!("unexpected {:?}", other),
        }
    }
    let d = s.on_disconnect();
    assert_eq!(d.fail_pending, "Connection manually closed");
    assert!(!d.send_close);
    assert!(!s.should_connect());
    assert_eq!(s.next_attempt(-1, 1000, 30000), ReconnectAction::Stop);
    let mut z = ConnectionState::new();
    assert_eq!(z.next_attempt(0, 1000, 30000), ReconnectAction::GiveUp);
}

#[test]
fn incoming_routes() {
    assert_eq!(
        route_incoming(&Some(WsCmd::CALLBACK.to_string()), &Some("r1".to_string())),
        IncomingRoute::Callback
    );
    assert_eq!(route_incoming(&Some(WsCmd::EVENT_CALLBACK.to_string()), &None), IncomingRoute::Callback);
    assert_eq!(
        route_incoming(&None, &Some("ping_1".to_string())),
        IncomingRoute::Response("ping_1".to_string())
    );
    assert_eq!(route_incoming(&Some("x".to_string()), &None), IncomingRoute::Unknown);
}

#[test]
fn reply_outcomes() {
    assert_eq!(reply_outcome("r", AckOutcome::Received { errcode: Some(0), errmsg: None }, 5000), Ok(()));
    assert_eq!(reply_outcome("r", AckOutcome::Received { errcode: None, errmsg: None }, 5000), Ok(()));
    assert_eq!(
        reply_outcome("r", AckOutcome::Received { errcode: Some(93000), errmsg: None }, 5000),
        Err(AiBotError::ReplyAckError { req_id: "r".to_string(), errcode: 93000, errmsg: "unknown".to_string() })
    );
    assert_eq!(
        reply_outcome("r", AckOutcome::Received { errcode: Some(-2), errmsg: Some("m".to_string()) }, 5000),
        Err(AiBotError::ReplyAckError { req_id: "r".to_string(), errcode: -2, errmsg: "m".to_string() })
    );
    assert_eq!(reply_outcome("r", AckOutcome::Cancelled, 5000), Err(AiBotError::Internal("Reply cancelled".to_string())));
    assert_eq!(reply_outcome("r", AckOutcome::TimedOut, 5000), Err(AiBotError::ReplyAckTimeout(5000, "r".to_string())));
}

#[test]
fn reply_commands() {
    assert_eq!(reply_cmd(None), "aibot_respond_msg");
    assert_eq!(reply_cmd(Some(WsCmd::RESPONSE_WELCOME)), "aibot_respond_welcome_msg");
}

#[test]
fn connection_end_reactions() {
    let r = on_connection_end(ConnectionEnd::CloseFrame(None));
    assert_eq!(r.fail_pending, Some("WebSocket connection closed (closed)".to_string()));
    assert_eq!(r.disconnected, Some("closed".to_string()));
    assert_eq!(r.error, None);
    let r = on_connection_end(ConnectionEnd::CloseFrame(Some("bye".to_string())));
    assert_eq!(r.fail_pending, Some("WebSocket connection closed (bye)".to_string()));
    assert_eq!(r.disconnected, Some("bye".to_string()));
    let r = on_connection_end(ConnectionEnd::ReadError("reset".to_string()));
    assert_eq!(
        (r.fail_pending, r.disconnected, r.error),
        (None, Some("reset".to_string()), Some("reset".to_string()))
    );
    let r = on_connection_end(ConnectionEnd::ConnectFailed("refused".to_string()));
    assert_eq!((r.fail_pending, r.disconnected, r.error), (None, None, Some("refused".to_string())));
    for (end, reason) in [
        (ConnectionEnd::StreamEnded, "stream ended"),
        (ConnectionEnd::WriteFailed, "send failed"),
        (ConnectionEnd::HeartbeatDead, "heartbeat timeout"),
    ] {
        assert_eq!(
            on_connection_end(end),
            EndReaction { fail_pending: None, disconnected: Some(reason.to_string()), error: None }
        );
    }
}

#[test]
fn disconnect_closes_an_open_connection() {
    let mut s = ConnectionState::new();
    s.on_open();
    let d = s.on_disconnect();
    assert!(d.send_close);
    assert_eq!(d.fail_pending, "Connection manually closed");
    assert!(!s.connected);
}

#[test]
fn auth_and_heartbeat_frames() {
    let a = auth_request("bot", "sec");
    assert_eq!((a.cmd.as_str(), a.bot_id.as_str(), a.secret.as_str()), ("aibot_subscribe", "bot", "sec"));
    assert!(a.req_id.starts_with("aibot_subscribe_"));
    let h = heartbeat_request();
    assert_eq!(h.cmd, "ping");
    assert!(h.req_id.starts_with("ping_"));
    assert_eq!(h.req_id.rsplit('_').next().unwrap().len(), 8);
}
