//! Frames, reply bodies, template cards and media types.

use vstd::prelude::*;

verus! {

/// Command names of the WebSocket protocol.
pub struct WsCmd;

impl WsCmd {
    /// Authentication subscription (client to server).
    pub const SUBSCRIBE: &'static str = "aibot_subscribe";
    /// Heartbeat (client to server).
    pub const HEARTBEAT: &'static str = "ping";
    /// Reply to a message (client to server).
    pub const RESPONSE: &'static str = "aibot_respond_msg";
    /// Welcome reply (client to server).
    pub const RESPONSE_WELCOME: &'static str = "aibot_respond_welcome_msg";
    /// Template card update (client to server).
    pub const RESPONSE_UPDATE: &'static str = "aibot_respond_update_msg";
    /// Proactive message (client to server).
    pub const SEND_MSG: &'static str = "aibot_send_msg";
    /// Media upload, first step (client to server).
    pub const UPLOAD_MEDIA_INIT: &'static str = "aibot_upload_media_init";
    /// Media upload, one chunk (client to server).
    pub const UPLOAD_MEDIA_CHUNK: &'static str = "aibot_upload_media_chunk";
    /// Media upload, last step (client to server).
    pub const UPLOAD_MEDIA_FINISH: &'static str = "aibot_upload_media_finish";
    /// Message callback (server to client).
    pub const CALLBACK: &'static str = "aibot_msg_callback";
    /// Event callback (server to client).
    pub const EVENT_CALLBACK: &'static str = "aibot_event_callback";
}

} // verus!

verus! {

// ========== Shared parts of replies ==========

/// An image item of a mixed reply.
#[derive(Debug, Clone, PartialEq, Eq)]
pub struct ReplyMsgItem {
    /// Kind of the item: `image`.
    pub msgtype: String,
    /// The image.
    pub image: ReplyMsgItemImage,
}

/// An image given inline.
#[derive(Debug, Clone, PartialEq, Eq)]
pub struct ReplyMsgItemImage {
    /// Base64 text of the image data.
    pub base64: String,
    /// MD5 of the image data (before base64).
    pub md5: String,
}

/// Feedback information of a reply.
#[derive(Debug, Clone, PartialEq, Eq)]
pub struct ReplyFeedback {
    /// Feedback id, at most 256 bytes.
    pub id: String,
}

// ========== Streamed replies ==========

/// Body of a streamed reply.
#[derive(Debug, Clone, PartialEq, Eq)]
pub struct StreamReplyBody {
    pub msgtype: String,
    pub stream: StreamReplyBodyStream,
}

/// The stream part of a streamed reply.
#[derive(Debug, Clone, PartialEq, Eq)]
pub struct StreamReplyBodyStream {
    pub id: String,
    pub finish: Option<bool>,
    pub content: Option<String>,
    pub msg_item: Option<Vec<ReplyMsgItem>>,
    pub feedback: Option<ReplyFeedback>,
}

// ========== Welcome replies ==========

/// Body of a text welcome reply.
#[derive(Debug, Clone, PartialEq, Eq)]
pub struct WelcomeTextReplyBody {
    pub msgtype: String,
    pub text: WelcomeTextContent,
}

/// Text of a welcome reply.
#[derive(Debug, Clone, PartialEq, Eq)]
pub struct WelcomeTextContent {
    pub content: String,
}

/// Body of a template-card welcome reply.
#[derive(Debug, Clone, PartialEq, Eq)]
pub struct WelcomeTemplateCardReplyBody {
    pub msgtype: String,
    pub template_card: TemplateCard,
}

/// Body of a welcome reply.
#[derive(Debug, Clone, PartialEq, Eq)]
pub enum WelcomeReplyBody {
    Text(WelcomeTextReplyBody),
    TemplateCard(WelcomeTemplateCardReplyBody),
}

// ========== Template card replies ==========

/// Body of a template-card reply.
#[derive(Debug, Clone, PartialEq, Eq)]
pub struct TemplateCardReplyBody {
    pub msgtype: String,
    pub template_card: TemplateCard,
}

/// Body of a streamed reply combined with a template card.
#[derive(Debug, Clone, PartialEq, Eq)]
pub struct StreamWithTemplateCardReplyBody {
    pub msgtype: String,
    pub stream: StreamReplyBodyStream,
    pub template_card: Option<TemplateCard>,
}

/// Body of a template-card update.
#[derive(Debug, Clone, PartialEq, Eq)]
pub struct UpdateTemplateCardBody {
    pub response_type: String,
    pub userids: Option<Vec<String>>,
    pub template_card: TemplateCard,
}

// ========== Template cards ==========

/// Kinds of template cards.
#[derive(Debug, Clone, Copy, PartialEq, Eq, Structural)]
pub enum TemplateCardType {
    TextNotice,
    NewsNotice,
    ButtonInteraction,
    VoteInteraction,
    MultipleInteraction,
}

/// Source line of a card.
#[derive(Debug, Clone, PartialEq, Eq)]
pub struct TemplateCardSource {
    pub icon_url: Option<String>,
    pub desc: Option<String>,
    pub desc_color: Option<i32>,
}

/// The "more" menu at the top right of a card.
#[derive(Debug, Clone, PartialEq, Eq)]
pub struct TemplateCardActionMenu {
    pub desc: String,
    pub action_list: Vec<TemplateCardActionMenuItem>,
}

/// An entry of a card's menu.
#[derive(Debug, Clone, PartialEq, Eq)]
pub struct TemplateCardActionMenuItem {
    pub text: String,
    pub key: String,
}

/// Main title of a card.
#[derive(Debug, Clone, PartialEq, Eq)]
pub struct TemplateCardMainTitle {
    pub title: Option<String>,
    pub desc: Option<String>,
}

/// Emphasised key figure of a card.
#[derive(Debug, Clone, PartialEq, Eq)]
pub struct TemplateCardEmphasisContent {
    pub title: Option<String>,
    pub desc: Option<String>,
}

/// Quoted area of a card.
#[derive(Debug, Clone, PartialEq, Eq)]
pub struct TemplateCardQuoteArea {
    /// The `type` field.
    pub type_: Option<i32>,
    pub url: Option<String>,
    pub appid: Option<String>,
    pub pagepath: Option<String>,
    pub title: Option<String>,
    pub quote_text: Option<String>,
}

/// A key/value line of a card.
#[derive(Debug, Clone, PartialEq, Eq)]
pub struct TemplateCardHorizontalContent {
    /// The `type` field.
    pub type_: Option<i32>,
    pub keyname: String,
    pub value: Option<String>,
    pub url: Option<String>,
    pub userid: Option<String>,
}

/// A jump link of a card.
#[derive(Debug, Clone, PartialEq, Eq)]
pub struct TemplateCardJumpAction {
    /// The `type` field.
    pub type_: Option<i32>,
    pub title: String,
    pub url: Option<String>,
    pub appid: Option<String>,
    pub pagepath: Option<String>,
    pub question: Option<String>,
}

/// What a click on the whole card does.
#[derive(Debug, Clone, PartialEq, Eq)]
pub struct TemplateCardAction {
    /// The `type` field.
    pub type_: i32,
    pub url: Option<String>,
    pub appid: Option<String>,
    pub pagepath: Option<String>,
}

/// A secondary vertical item of a card.
#[derive(Debug, Clone, PartialEq, Eq)]
pub struct TemplateCardVerticalContent {
    pub title: String,
    pub desc: Option<String>,
}

/// The image of a card. The aspect ratio is carried as the bit pattern of
/// its IEEE-754 double (`f64::to_bits`).
#[derive(Debug, Clone, PartialEq, Eq)]
pub struct TemplateCardImage {
    pub url: String,
    pub aspect_ratio_bits: Option<u64>,
}

/// Image-left, text-right area of a card.
#[derive(Debug, Clone, PartialEq, Eq)]
pub struct TemplateCardImageTextArea {
    /// The `type` field.
    pub type_: Option<i32>,
    pub url: Option<String>,
    pub appid: Option<String>,
    pub pagepath: Option<String>,
    pub title: Option<String>,
    pub desc: Option<String>,
    pub image_url: String,
}

/// Submit button of a card.
#[derive(Debug, Clone, PartialEq, Eq)]
pub struct TemplateCardSubmitButton {
    pub text: String,
    pub key: String,
}

/// A drop-down selector of a card.
#[derive(Debug, Clone, PartialEq, Eq)]
pub struct TemplateCardSelectionItem {
    pub question_key: String,
    pub title: Option<String>,
    pub disable: Option<bool>,
    pub selected_id: Option<String>,
    pub option_list: Vec<TemplateCardSelectionOption>,
}

/// An option of a selector.
#[derive(Debug, Clone, PartialEq, Eq)]
pub struct TemplateCardSelectionOption {
    pub id: String,
    pub text: String,
}

/// A button of a card.
#[derive(Debug, Clone, PartialEq, Eq)]
pub struct TemplateCardButton {
    pub text: String,
    pub style: Option<i32>,
    pub key: String,
}

/// A checkbox question of a card (vote).
#[derive(Debug, Clone, PartialEq, Eq)]
pub struct TemplateCardCheckbox {
    pub question_key: String,
    pub disable: Option<bool>,
    pub mode: Option<i32>,
    pub option_list: Vec<TemplateCardCheckboxOption>,
}

/// An option of a checkbox question.
#[derive(Debug, Clone, PartialEq, Eq)]
pub struct TemplateCardCheckboxOption {
    pub id: String,
    pub text: String,
    pub is_checked: Option<bool>,
}

/// A template card, with every field that any card kind may use.
#[derive(Debug, Clone, PartialEq, Eq)]
pub struct TemplateCard {
    pub card_type: String,
    pub source: Option<TemplateCardSource>,
    pub action_menu: Option<TemplateCardActionMenu>,
    pub main_title: Option<TemplateCardMainTitle>,
    pub emphasis_content: Option<TemplateCardEmphasisContent>,
    pub quote_area: Option<TemplateCardQuoteArea>,
    pub sub_title_text: Option<String>,
    pub horizontal_content_list: Option<Vec<TemplateCardHorizontalContent>>,
    pub jump_list: Option<Vec<TemplateCardJumpAction>>,
    pub card_action: Option<TemplateCardAction>,
    pub card_image: Option<TemplateCardImage>,
    pub image_text_area: Option<TemplateCardImageTextArea>,
    pub vertical_content_list: Option<Vec<TemplateCardVerticalContent>>,
    pub button_selection: Option<TemplateCardSelectionItem>,
    pub button_list: Option<Vec<TemplateCardButton>>,
    pub checkbox: Option<TemplateCardCheckbox>,
    pub select_list: Option<Vec<TemplateCardSelectionItem>>,
    pub submit_button: Option<TemplateCardSubmitButton>,
    pub task_id: Option<String>,
    pub feedback: Option<ReplyFeedback>,
}

// ========== Proactive messages ==========

/// Body of a proactive Markdown message.
#[derive(Debug, Clone, PartialEq, Eq)]
pub struct SendMarkdownMsgBody {
    pub msgtype: String,
    pub markdown: SendMarkdownContent,
}

/// Markdown text.
#[derive(Debug, Clone, PartialEq, Eq)]
pub struct SendMarkdownContent {
    pub content: String,
}

/// Body of a proactive template-card message.
#[derive(Debug, Clone, PartialEq, Eq)]
pub struct SendTemplateCardMsgBody {
    pub msgtype: String,
    pub template_card: TemplateCard,
}

/// A WeCom media kind: `file`, `image`, `voice` or `video`.
pub type WeComMediaType = String;

/// Body of a media message (proactive or reply).
#[derive(Debug, Clone, PartialEq, Eq)]
pub struct SendMediaMsgBody {
    pub msgtype: String,
    pub file: Option<MediaContent>,
    pub image: Option<MediaContent>,
    pub voice: Option<MediaContent>,
    pub video: Option<VideoMediaContent>,
}

/// A media reference.
#[derive(Debug, Clone, PartialEq, Eq)]
pub struct MediaContent {
    pub media_id: String,
}

/// A video reference with its optional title and description.
#[derive(Debug, Clone, PartialEq, Eq)]
pub struct VideoMediaContent {
    pub media_id: String,
    pub title: Option<String>,
    pub description: Option<String>,
}

/// Body of a proactive message.
#[derive(Debug, Clone, PartialEq, Eq)]
pub enum SendMsgBody {
    Markdown(SendMarkdownMsgBody),
    TemplateCard(SendTemplateCardMsgBody),
    Media(SendMediaMsgBody),
}

// ========== Media upload ==========

/// Request body of the first upload step.
#[derive(Debug, Clone, PartialEq, Eq)]
pub struct UploadMediaInitBody {
    /// The `type` field (media kind).
    pub type_: String,
    pub filename: String,
    pub total_size: usize,
    pub total_chunks: usize,
    pub md5: Option<String>,
}

/// Response body of the first upload step.
#[derive(Debug, Clone, PartialEq, Eq)]
pub struct UploadMediaInitResult {
    pub upload_id: String,
}

/// Request body of one chunk.
#[derive(Debug, Clone, PartialEq, Eq)]
pub struct UploadMediaChunkBody {
    pub upload_id: String,
    pub chunk_index: usize,
    pub base64_data: String,
}

/// Request body of the last upload step.
#[derive(Debug, Clone, PartialEq, Eq)]
pub struct UploadMediaFinishBody {
    pub upload_id: String,
}

/// Result of a finished upload.
#[derive(Debug, Clone, PartialEq, Eq)]
pub struct UploadMediaFinishResult {
    /// The `type` field (media kind).
    pub type_: String,
    pub media_id: String,
    pub created_at: String,
}

/// Options of a media upload.
#[derive(Debug, Clone, PartialEq, Eq)]
pub struct UploadMediaOptions {
    /// The `type` field (media kind).
    pub type_: String,
    pub filename: String,
}

} // verus!
