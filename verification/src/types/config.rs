//! Client options.

use std::sync::Arc;
use vstd::prelude::*;

use crate::types::common::Logger;

verus! {

/// Options of a client.
#[derive(Clone)]
pub struct WSClientOptions {
    /// The bot's id (from the WeCom console).
    pub bot_id: String,
    /// The bot's secret (from the WeCom console).
    pub secret: String,
    /// Base reconnection delay in milliseconds, doubled on each attempt; 1000 by default.
    pub reconnect_interval: Option<u64>,
    /// Most reconnection attempts, `-1` for no limit; 10 by default.
    pub max_reconnect_attempts: Option<i64>,
    /// Heartbeat interval in milliseconds; 30000 by default.
    pub heartbeat_interval: Option<u64>,
    /// HTTP request timeout in milliseconds; 10000 by default.
    pub request_timeout: Option<u64>,
    /// WebSocket address; `wss://openws.work.weixin.qq.com` by default.
    pub ws_url: Option<String>,
    /// Logger; a `DefaultLogger` by default.
    pub logger: Option<Arc<dyn Logger>>,
}

/// The options with their defaults filled in (the logger aside).
#[derive(Debug, Clone, PartialEq, Eq)]
pub struct ResolvedOptions {
    pub bot_id: String,
    pub secret: String,
    pub reconnect_interval: u64,
    pub max_reconnect_attempts: i64,
    pub heartbeat_interval: u64,
    pub request_timeout: u64,
    pub ws_url: Option<String>,
}

/// Default base reconnection delay, in milliseconds.
pub const DEFAULT_RECONNECT_INTERVAL_MS: u64 = 1000;
/// Default reconnection limit.
pub const DEFAULT_MAX_RECONNECT_ATTEMPTS: i64 = 10;
/// Default heartbeat interval, in milliseconds.
pub const DEFAULT_HEARTBEAT_INTERVAL_MS: u64 = 30000;
/// Default HTTP timeout, in milliseconds.
pub const DEFAULT_REQUEST_TIMEOUT_MS: u64 = 10000;

/// Fills in the defaults of the numeric options.
pub fn resolve_options(options: &WSClientOptions) -> (r: ResolvedOptions)
    ensures
        r.bot_id == options.bot_id,
        r.secret == options.secret,
        r.reconnect_interval == match options.reconnect_interval {
            Some(v) => v,
            None => DEFAULT_RECONNECT_INTERVAL_MS,
        },
        r.max_reconnect_attempts == match options.max_reconnect_attempts {
            Some(v) => v,
            None => DEFAULT_MAX_RECONNECT_ATTEMPTS,
        },
        r.heartbeat_interval == match options.heartbeat_interval {
            Some(v) => v,
            None => DEFAULT_HEARTBEAT_INTERVAL_MS,
        },
        r.request_timeout == match options.request_timeout {
            Some(v) => v,
            None => DEFAULT_REQUEST_TIMEOUT_MS,
        },
        r.ws_url == options.ws_url,
{
    ResolvedOptions {
        bot_id: options.bot_id.clone(),
        secret: options.secret.clone(),
        reconnect_interval: match options.reconnect_interval {
            Some(v) => v,
            None => DEFAULT_RECONNECT_INTERVAL_MS,
        },
        max_reconnect_attempts: match options.max_reconnect_attempts {
            Some(v) => v,
            None => DEFAULT_MAX_RECONNECT_ATTEMPTS,
        },
        heartbeat_interval: match options.heartbeat_interval {
            Some(v) => v,
            None => DEFAULT_HEARTBEAT_INTERVAL_MS,
        },
        request_timeout: match options.request_timeout {
            Some(v) => v,
            None => DEFAULT_REQUEST_TIMEOUT_MS,
        },
        ws_url: match &options.ws_url {
            Some(u) => Some(u.clone()),
            None => None,
        },
    }
}

} // verus!
