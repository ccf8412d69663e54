//! WeCom AI bot SDK: the verified core of a WebSocket long-connection
//! client. The library holds the protocol's data types, the decisions of
//! the connection manager (authentication, heartbeats, reconnection with
//! exponential backoff, serial reply queues), the bodies of replies and
//! messages, the plan of chunked media uploads, the parsing of download
//! headers and the decryption of downloaded files.

pub mod api;
pub mod client;
pub mod crypto;
pub mod error;
pub mod logger;
pub mod message_handler;
pub mod reply_queue;
pub mod text;
pub mod types;
pub mod upload;
pub mod utils;
pub mod ws;

pub use client::{ReplyStreamWithCardOptions, VideoOptions};
pub use crypto::decrypt_file;
pub use error::AiBotError;
pub use logger::DefaultLogger;
pub use message_handler::MessageHandler;
pub use utils::{generate_random_string, generate_req_id};

pub use types::api::{
    MediaContent, ReplyFeedback, ReplyMsgItem, ReplyMsgItemImage, SendMarkdownContent, SendMarkdownMsgBody,
    SendMediaMsgBody, SendMsgBody, SendTemplateCardMsgBody, StreamReplyBody, StreamReplyBodyStream,
    StreamWithTemplateCardReplyBody, TemplateCard, TemplateCardAction, TemplateCardActionMenu,
    TemplateCardActionMenuItem, TemplateCardButton, TemplateCardCheckbox, TemplateCardCheckboxOption,
    TemplateCardEmphasisContent, TemplateCardHorizontalContent, TemplateCardImage, TemplateCardImageTextArea,
    TemplateCardJumpAction, TemplateCardMainTitle, TemplateCardQuoteArea, TemplateCardReplyBody,
    TemplateCardSelectionItem, TemplateCardSelectionOption, TemplateCardSource, TemplateCardSubmitButton,
    TemplateCardType, TemplateCardVerticalContent, UpdateTemplateCardBody, UploadMediaChunkBody,
    UploadMediaFinishBody, UploadMediaFinishResult, UploadMediaInitBody, UploadMediaInitResult, UploadMediaOptions,
    VideoMediaContent, WeComMediaType, WelcomeReplyBody, WelcomeTemplateCardReplyBody, WelcomeTextContent,
    WelcomeTextReplyBody, WsCmd,
};

pub use types::message::{
    FileContent, ImageContent, MessageFrom, MessageType, MixedContent, MixedMsgItem, QuoteContent, ReplyOptions,
    SendMarkdownParams, SendTextParams, TextContent, VoiceContent,
};

pub use types::event::{
    EnterChatEvent, EventContent, EventFrom, EventMessage, EventMessageWith, EventType, FeedbackEventData,
    TemplateCardEventData, WSClientEventMap,
};

pub use types::common::Logger;
pub use types::config::WSClientOptions;
