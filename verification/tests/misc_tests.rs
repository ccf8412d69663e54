use aibot_rust_sdk::message_handler::{
    event_type_of, event_type_wire_name, message_type_of, message_type_wire_name, route_callback, CallbackRoute,
};
use aibot_rust_sdk::text::{i64_to_decimal, str_starts_with, u64_to_decimal};
use aibot_rust_sdk::types::config::{resolve_options, ResolvedOptions};
use aibot_rust_sdk::utils::{format_req_id, random_string_from_bytes};
use aibot_rust_sdk::{
    generate_random_string, generate_req_id, AiBotError, DefaultLogger, EventType, MessageHandler, MessageType,
    WSClientOptions, WsCmd,
};
use aibot_rust_sdk::{EnterChatEvent, EventContent, FeedbackEventData, TemplateCardEventData};
use std::sync::Arc;

#[test]
fn random_strings_are_hex_of_requested_length() {
    for len in [0usize, 1, 7, 8, 33] {
        let s = generate_random_string(len);
        assert_eq!(s.len(), len);
        assert!(s.chars().all(|c| c.is_ascii_hexdigit() && !c.is_ascii_uppercase()));
    }
    assert_eq!(random_string_from_bytes(&[0xab, 0x01, 0xff], 5), "ab01f");
    assert_eq!(random_string_from_bytes(&[0x0f], 2), "0f");
}

#[test]
fn req_ids_have_prefix_time_and_random() {
    assert_eq!(format_req_id("ping", 1700000000123, "deadbeef"), "ping_1700000000123_deadbeef");
    assert_eq!(format_req_id("x", -5, "r"), "x_-5_r");
    let id = generate_req_id(WsCmd::SUBSCRIBE);
    assert!(str_starts_with(&id, "aibot_subscribe_"));
    let parts: Vec<&str> = id.rsplitn(3, '_').collect();
    assert_eq!(parts[0].len(), 8);
    assert!(parts[0].chars().all(|c| c.is_ascii_digit() || ('a'..='f').contains(&c)));
    assert!(parts[1].parse::<i64>().is_ok());
}

#[test]
fn decimal_rendering() {
    assert_eq!(u64_to_decimal(0), "0");
    assert_eq!(u64_to_decimal(u64::MAX), u64::MAX.to_string());
    assert_eq!(i64_to_decimal(i64::MIN), i64::MIN.to_string());
    assert_eq!(i64_to_decimal(-42), "-42");
}

#[test]
fn error_messages() {
    assert_eq!(AiBotError::WebSocketNotConnected.message(), "WebSocket not connected");
    assert_eq!(AiBotError::WebSocketSendFailed("x".to_string()).message(), "WebSocket send failed: x");
    assert_eq!(AiBotError::ReplyAckTimeout(5000, "r1".to_string()).message(), "Reply ack timeout (5000ms) for reqId: r1");
    assert_eq!(
        AiBotError::ReplyAckError { req_id: "r".to_string(), errcode: -3, errmsg: "bad".to_string() }.message(),
        "Reply ack error: reqId=r, errcode=-3, errmsg=bad"
    );
    assert_eq!(AiBotError::UploadFailed("u".to_string()).message(), "Upload failed: u");
    assert_eq!(AiBotError::CryptoError("c".to_string()).message(), "Crypto error: c");
    assert_eq!(AiBotError::HttpError("h".to_string()).message(), "HTTP error: h");
    assert_eq!(AiBotError::Internal("i".to_string()).message(), "Internal error: i");
}

#[test]
fn callback_routing() {
    let ev = Some(WsCmd::EVENT_CALLBACK.to_string());
    assert_eq!(route_callback(false, true, &ev), CallbackRoute::MissingBody);
    assert_eq!(route_callback(true, false, &ev), CallbackRoute::MissingMsgtype);
    assert_eq!(route_callback(true, true, &ev), CallbackRoute::Event);
    assert_eq!(route_callback(true, true, &Some(WsCmd::CALLBACK.to_string())), CallbackRoute::Message);
    assert_eq!(route_callback(true, true, &None), CallbackRoute::Message);
}

#[test]
fn message_and_event_kinds() {
    for t in [MessageType::Text, MessageType::Image, MessageType::Mixed, MessageType::Voice, MessageType::File] {
        assert_eq!(message_type_of(message_type_wire_name(t)), Some(t));
    }
    assert_eq!(message_type_of("stream"), None);
    for t in [EventType::EnterChat, EventType::TemplateCardEvent, EventType::FeedbackEvent] {
        assert_eq!(event_type_of(Some(event_type_wire_name(t))), Some(t));
    }
    assert_eq!(event_type_of(Some("other")), None);
    assert_eq!(event_type_of(None), None);
}

#[test]
fn logger_lines() {
    let l = DefaultLogger::new("Bot");
    assert_eq!(l.format_at("T", "INFO", "hi"), "[T] [Bot] [INFO] hi");
    let line = l.format("WARN", "m");
    assert!(line.starts_with('['));
    assert!(line.ends_with("] [Bot] [WARN] m"));
    let time = &line[1..line.len() - "] [Bot] [WARN] m".len()];
    assert!(log_time_is_utc_rfc3339(time), "{}", time);
    assert!(log_time_is_utc_rfc3339("2024-01-01T00:00:00.123+00:00"));
    assert!(!log_time_is_utc_rfc3339("2024-01-01T00:00:00Z"));
    assert_eq!(DefaultLogger::default().prefix(), "AiBotSDK");
    let h = MessageHandler::new(Arc::new(DefaultLogger::new("H")));
    assert_eq!(h.logger.prefix(), "H");
}

#[test]
fn option_defaults() {
    let o = WSClientOptions {
        bot_id: "b".to_string(),
        secret: "s".to_string(),
        reconnect_interval: None,
        max_reconnect_attempts: None,
        heartbeat_interval: None,
        request_timeout: None,
        ws_url: None,
        logger: None,
    };
    assert_eq!(
        resolve_options(&o),
        ResolvedOptions {
            bot_id: "b".to_string(),
            secret: "s".to_string(),
            reconnect_interval: 1000,
            max_reconnect_attempts: 10,
            heartbeat_interval: 30000,
            request_timeout: 10000,
            ws_url: None,
        }
    );
    let o2 = WSClientOptions { reconnect_interval: Some(5), max_reconnect_attempts: Some(-1), ws_url: Some("u".to_string()), ..o };
    let r = resolve_options(&o2);
    assert_eq!((r.reconnect_interval, r.max_reconnect_attempts, r.ws_url), (5, -1, Some("u".to_string())));
}

/// `YYYY-MM-DDTHH:MM:SS[.fff|.ffffff|.fffffffff]+00:00`, for a four-digit year.
fn log_time_is_utc_rfc3339(s: &str) -> bool {
    let b = s.as_bytes();
    if b.len() < 25 || !s.ends_with("+00:00") {
        return false;
    }
    let digits = |r: std::ops::Range<usize>| b[r].iter().all(|c| c.is_ascii_digit());
    let head = digits(0..4) && b[4] == b'-' && digits(5..7) && b[7] == b'-' && digits(8..10) && b[10] == b'T'
        && digits(11..13) && b[13] == b':' && digits(14..16) && b[16] == b':' && digits(17..19);
    let frac = &b[19..b.len() - 6];
    let frac_ok = frac.is_empty()
        || ([4usize, 7, 10].contains(&frac.len()) && frac[0] == b'.' && frac[1..].iter().all(|c| c.is_ascii_digit()));
    head && frac_ok
}

#[test]
fn event_content_follows_event_type() {
    assert_eq!(
        EventContent::from_parts(EventType::TemplateCardEvent, Some("k".to_string()), Some("t".to_string())),
        EventContent::TemplateCardEvent(TemplateCardEventData {
            eventtype: EventType::TemplateCardEvent,
            event_key: Some("k".to_string()),
            task_id: Some("t".to_string()),
        })
    );
    assert_eq!(
        EventContent::from_parts(EventType::EnterChat, None, None),
        EventContent::EnterChat(EnterChatEvent { eventtype: EventType::EnterChat })
    );
    assert_eq!(
        EventContent::from_parts(EventType::FeedbackEvent, Some("k".to_string()), None),
        EventContent::FeedbackEvent(FeedbackEventData { eventtype: EventType::FeedbackEvent })
    );
}
