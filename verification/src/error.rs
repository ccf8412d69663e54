//! The error type of the client.

use vstd::prelude::*;
use vstd::string::*;

use crate::text::{decimal_int, decimal_nat, i64_to_decimal, u64_to_decimal};

verus! {

/// Errors reported by the client.
#[derive(Debug, Clone, PartialEq, Eq)]
pub enum AiBotError {
    /// No WebSocket connection is open.
    WebSocketNotConnected,
    /// Writing a frame to the connection failed.
    WebSocketSendFailed(String),
    /// No acknowledgement arrived in time (milliseconds, request id).
    ReplyAckTimeout(u64, String),
    /// The server acknowledged a reply with a non-zero error code.
    ReplyAckError { req_id: String, errcode: i64, errmsg: String },
    /// A media upload failed.
    UploadFailed(String),
    /// File decryption failed.
    CryptoError(String),
    /// An HTTP request failed.
    HttpError(String),
    /// Any other failure.
    Internal(String),
}

/// The human-readable text of an error.
pub open spec fn error_message(e: AiBotError) -> Seq<char> {
    match e {
        AiBotError::WebSocketNotConnected => "WebSocket not connected"@,
        AiBotError::WebSocketSendFailed(s) => "WebSocket send failed: "@ + s@,
        AiBotError::ReplyAckTimeout(ms, id) => "Reply ack timeout ("@ + decimal_nat(ms as nat)
            + "ms) for reqId: "@ + id@,
        AiBotError::ReplyAckError { req_id, errcode, errmsg } => "Reply ack error: reqId="@
            + req_id@ + ", errcode="@ + decimal_int(errcode as int) + ", errmsg="@ + errmsg@,
        AiBotError::UploadFailed(s) => "Upload failed: "@ + s@,
        AiBotError::CryptoError(s) => "Crypto error: "@ + s@,
        AiBotError::HttpError(s) => "HTTP error: "@ + s@,
        AiBotError::Internal(s) => "Internal error: "@ + s@,
    }
}

fn prefixed(prefix: &str, rest: &str) -> (s: String)
    ensures
        s@ == prefix@ + rest@,
{
    let mut s = String::from_str(prefix);
    s.append(rest);
    s
}

impl AiBotError {
    /// The human-readable text of the error.
    pub fn message(&self) -> (s: String)
        ensures
            s@ == error_message(*self),
    {
        match self {
            AiBotError::WebSocketNotConnected => String::from_str("WebSocket not connected"),
            AiBotError::WebSocketSendFailed(m) => prefixed("WebSocket send failed: ", m.as_str()),
            AiBotError::ReplyAckTimeout(ms, id) => {
                let mut s = String::from_str("Reply ack timeout (");
                let d = u64_to_decimal(*ms);
                s.append(d.as_str());
                s.append("ms) for reqId: ");
                s.append(id.as_str());
                s
            },
            AiBotError::ReplyAckError { req_id, errcode, errmsg } => {
                let mut s = String::from_str("Reply ack error: reqId=");
                s.append(req_id.as_str());
                s.append(", errcode=");
                let d = i64_to_decimal(*errcode);
                s.append(d.as_str());
                s.append(", errmsg=");
                s.append(errmsg.as_str());
                s
            },
            AiBotError::UploadFailed(m) => prefixed("Upload failed: ", m.as_str()),
            AiBotError::CryptoError(m) => prefixed("Crypto error: ", m.as_str()),
            AiBotError::HttpError(m) => prefixed("HTTP error: ", m.as_str()),
            AiBotError::Internal(m) => prefixed("Internal error: ", m.as_str()),
        }
    }
}

} // verus!
