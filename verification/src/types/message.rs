//! Incoming message content types.

use vstd::prelude::*;

verus! {

/// Kinds of incoming messages.
#[derive(Debug, Clone, Copy, PartialEq, Eq, Structural)]
pub enum MessageType {
    /// Text message.
    Text,
    /// Image message.
    Image,
    /// Mixed text and images.
    Mixed,
    /// Voice message (already turned into text).
    Voice,
    /// File message.
    File,
}

/// Sender of a message.
#[derive(Debug, Clone, PartialEq, Eq)]
pub struct MessageFrom {
    /// The sender's userid.
    pub userid: String,
}

/// Text of a message.
#[derive(Debug, Clone, PartialEq, Eq)]
pub struct TextContent {
    pub content: String,
}

/// Image of a message: an encrypted download URL and its key.
#[derive(Debug, Clone, PartialEq, Eq)]
pub struct ImageContent {
    pub url: String,
    pub aeskey: Option<String>,
}

/// Voice message turned into text.
#[derive(Debug, Clone, PartialEq, Eq)]
pub struct VoiceContent {
    pub content: String,
}

/// File of a message: an encrypted download URL and its key.
#[derive(Debug, Clone, PartialEq, Eq)]
pub struct FileContent {
    pub url: String,
    pub aeskey: Option<String>,
}

/// An item of a mixed message.
#[derive(Debug, Clone, PartialEq, Eq)]
pub struct MixedMsgItem {
    /// `text` or `image`.
    pub msgtype: String,
    pub text: Option<TextContent>,
    pub image: Option<ImageContent>,
}

/// A mixed message.
#[derive(Debug, Clone, PartialEq, Eq)]
pub struct MixedContent {
    pub msg_item: Vec<MixedMsgItem>,
}

/// A quoted message.
#[derive(Debug, Clone, PartialEq, Eq)]
pub struct QuoteContent {
    /// `text`, `image`, `mixed`, `voice` or `file`.
    pub msgtype: String,
    pub text: Option<TextContent>,
    pub image: Option<ImageContent>,
    pub mixed: Option<MixedContent>,
    pub voice: Option<VoiceContent>,
    pub file: Option<FileContent>,
}

/// Options of a reply.
#[derive(Debug, Clone, PartialEq, Eq)]
pub struct ReplyOptions {
    pub msgid: String,
    pub chatid: String,
}

/// Parameters of a text message.
#[derive(Debug, Clone, PartialEq, Eq)]
pub struct SendTextParams {
    pub msgid: String,
    pub chatid: String,
    pub content: String,
}

/// Parameters of a Markdown message.
#[derive(Debug, Clone, PartialEq, Eq)]
pub struct SendMarkdownParams {
    pub msgid: String,
    pub chatid: String,
    pub content: String,
}

} // verus!
