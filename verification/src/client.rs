//! The bodies of the client's replies and messages, and the last step of a
//! file download.

use vstd::prelude::*;
use vstd::string::*;

use crate::crypto::{bytes_or_text, decrypt_file, decrypt_file_result};
use crate::error::AiBotError;
use crate::text::str_equal;
use crate::types::api::{
    MediaContent, ReplyFeedback, ReplyMsgItem, SendMediaMsgBody, StreamReplyBody, StreamReplyBodyStream,
    StreamWithTemplateCardReplyBody, TemplateCard, TemplateCardReplyBody, UpdateTemplateCardBody,
    VideoMediaContent,
};

verus! {

/// Options of a streamed reply combined with a template card.
#[derive(Debug, Clone, PartialEq, Eq)]
pub struct ReplyStreamWithCardOptions {
    /// Images sent with the last part of the stream.
    pub msg_item: Option<Vec<ReplyMsgItem>>,
    /// Feedback information of the stream.
    pub stream_feedback: Option<ReplyFeedback>,
    /// The card.
    pub template_card: Option<TemplateCard>,
    /// Feedback information of the card, put on the card.
    pub card_feedback: Option<ReplyFeedback>,
}

/// Title and description of a video message.
#[derive(Debug, Clone, PartialEq, Eq)]
pub struct VideoOptions {
    pub title: Option<String>,
    pub description: Option<String>,
}

/// The images of a stream part: only on the last part, and only when
/// there are some.
pub open spec fn stream_items(finish: bool, msg_item: Option<Vec<ReplyMsgItem>>) -> Option<Vec<ReplyMsgItem>> {
    if finish && (msg_item matches Some(items) && items@.len() > 0) { msg_item } else { None }
}

/// The stream part of a reply.
pub open spec fn stream_part(
    s: StreamReplyBodyStream,
    stream_id: Seq<char>,
    content: Seq<char>,
    finish: bool,
    msg_item: Option<Vec<ReplyMsgItem>>,
    feedback: Option<ReplyFeedback>,
) -> bool {
    &&& s.id@ == stream_id
    &&& s.finish == Some(finish)
    &&& s.content matches Some(c) && c@ == content
    &&& s.msg_item == stream_items(finish, msg_item)
    &&& s.feedback == feedback
}

fn build_stream(
    stream_id: &str,
    content: &str,
    finish: bool,
    msg_item: Option<Vec<ReplyMsgItem>>,
    feedback: Option<ReplyFeedback>,
) -> (s: StreamReplyBodyStream)
    ensures
        stream_part(s, stream_id@, content@, finish, msg_item, feedback),
{
    let items = if finish {
        match msg_item {
            Some(items) => if items.len() > 0 { Some(items) } else { None },
            None => None,
        }
    } else {
        None
    };
    StreamReplyBodyStream {
        id: String::from_str(stream_id),
        finish: Some(finish),
        content: Some(String::from_str(content)),
        msg_item: items,
        feedback,
    }
}

/// The body of a streamed reply (`msgtype` `stream`); images go only with
/// the last part.
pub fn build_stream_reply_body(
    stream_id: &str,
    content: &str,
    finish: bool,
    msg_item: Option<Vec<ReplyMsgItem>>,
    feedback: Option<ReplyFeedback>,
) -> (b: StreamReplyBody)
    ensures
        b.msgtype@ == "stream"@,
        stream_part(b.stream, stream_id@, content@, finish, msg_item, feedback),
{
    StreamReplyBody {
        msgtype: String::from_str("stream"),
        stream: build_stream(stream_id, content, finish, msg_item, feedback),
    }
}

/// The card with its feedback replaced when one is given.
pub open spec fn card_with_feedback(card: TemplateCard, feedback: Option<ReplyFeedback>) -> TemplateCard {
    match feedback {
        Some(f) => TemplateCard { feedback: Some(f), ..card },
        None => card,
    }
}

/// The body of a template-card reply (`msgtype` `template_card`).
pub fn build_template_card_reply_body(template_card: TemplateCard, feedback: Option<ReplyFeedback>) -> (b:
    TemplateCardReplyBody)
    ensures
        b.msgtype@ == "template_card"@,
        b.template_card == card_with_feedback(template_card, feedback),
{
    let mut card = template_card;
    match feedback {
        Some(f) => {
            card.feedback = Some(f);
        },
        None => {},
    }
    TemplateCardReplyBody { msgtype: String::from_str("template_card"), template_card: card }
}

/// The body of a streamed reply with a card (`msgtype`
/// `stream_with_template_card`).
pub fn build_stream_with_card_body(
    stream_id: &str,
    content: &str,
    finish: bool,
    options: Option<ReplyStreamWithCardOptions>,
) -> (b: StreamWithTemplateCardReplyBody)
    ensures
        b.msgtype@ == "stream_with_template_card"@,
        match options {
            Some(o) => {
                &&& stream_part(b.stream, stream_id@, content@, finish, o.msg_item, o.stream_feedback)
                &&& b.template_card == match o.template_card {
                    Some(c) => Some(card_with_feedback(c, o.card_feedback)),
                    None => None::<TemplateCard>,
                }
            },
            None => stream_part(b.stream, stream_id@, content@, finish, None, None) && b.template_card is None,
        },
{
    match options {
        Some(o) => {
            let stream = build_stream(stream_id, content, finish, o.msg_item, o.stream_feedback);
            let card = match o.template_card {
                Some(c) => {
                    let mut c = c;
                    match o.card_feedback {
                        Some(f) => {
                            c.feedback = Some(f);
                        },
                        None => {},
                    }
                    Some(c)
                },
                None => None,
            };
            StreamWithTemplateCardReplyBody {
                msgtype: String::from_str("stream_with_template_card"),
                stream,
                template_card: card,
            }
        },
        None => StreamWithTemplateCardReplyBody {
            msgtype: String::from_str("stream_with_template_card"),
            stream: build_stream(stream_id, content, finish, None, None),
            template_card: None,
        },
    }
}

/// The body of a template-card update (`response_type`
/// `update_template_card`).
pub fn build_update_template_card_body(template_card: TemplateCard, userids: Option<Vec<String>>) -> (b:
    UpdateTemplateCardBody)
    ensures
        b.response_type@ == "update_template_card"@,
        b.userids == userids,
        b.template_card == template_card,
{
    UpdateTemplateCardBody {
        response_type: String::from_str("update_template_card"),
        userids,
        template_card,
    }
}

proof fn lemma_media_names_distinct()
    ensures
        "file"@ != "image"@,
        "file"@ != "voice"@,
        "file"@ != "video"@,
        "image"@ != "voice"@,
        "image"@ != "video"@,
        "voice"@ != "video"@,
{
    broadcast use vstd::string::group_string_axioms;
    reveal_strlit("file");
    reveal_strlit("image");
    reveal_strlit("voice");
    reveal_strlit("video");
    assert("file"@.len() == 4 && "image"@.len() == 5);
    assert("image"@[0] == 'i' && "voice"@[0] == 'v' && "video"@[0] == 'v');
    assert("voice"@[2] == 'i' && "video"@[2] == 'd');
}

/// The body of a media message: `msgtype` is the media type, and the
/// field named after it holds the media id (with title and description for
/// a video); other types fill no field.
pub fn build_media_body(media_type: &str, media_id: &str, video_options: Option<VideoOptions>) -> (b: SendMediaMsgBody)
    ensures
        b.msgtype@ == media_type@,
        media_type@ == "file"@ ==> (b.file matches Some(m) && m.media_id@ == media_id@),
        media_type@ != "file"@ ==> b.file is None,
        media_type@ == "image"@ ==> (b.image matches Some(m) && m.media_id@ == media_id@),
        media_type@ != "image"@ ==> b.image is None,
        media_type@ == "voice"@ ==> (b.voice matches Some(m) && m.media_id@ == media_id@),
        media_type@ != "voice"@ ==> b.voice is None,
        media_type@ == "video"@ ==> (b.video matches Some(v) && v.media_id@ == media_id@ && match video_options {
            Some(o) => v.title == o.title && v.description == o.description,
            None => v.title is None && v.description is None,
        }),
        media_type@ != "video"@ ==> b.video is None,
{
    proof {
        lemma_media_names_distinct();
    }
    let mut body = SendMediaMsgBody {
        msgtype: String::from_str(media_type),
        file: None,
        image: None,
        voice: None,
        video: None,
    };
    if str_equal(media_type, "file") {
        body.file = Some(MediaContent { media_id: String::from_str(media_id) });
    } else if str_equal(media_type, "image") {
        body.image = Some(MediaContent { media_id: String::from_str(media_id) });
    } else if str_equal(media_type, "voice") {
        body.voice = Some(MediaContent { media_id: String::from_str(media_id) });
    } else if str_equal(media_type, "video") {
        let (title, description) = match video_options {
            Some(o) => (o.title, o.description),
            None => (None, None),
        };
        body.video = Some(VideoMediaContent { media_id: String::from_str(media_id), title, description });
    }
    body
}

/// The last step of a download: decrypts the bytes when a key is given
/// (failures become `CryptoError`), else hands them back as they are.
pub fn finish_download(encrypted: Vec<u8>, filename: Option<String>, aes_key: Option<&str>) -> (r: Result<
    (Vec<u8>, Option<String>),
    AiBotError,
>)
    ensures
        match aes_key {
            Some(k) => match decrypt_file_result(encrypted@, k@) {
                Ok(plain) => r matches Ok((data, name)) && data@ == plain && name == filename,
                Err(m) => r matches Err(AiBotError::CryptoError(e)) && e@ == m,
            },
            None => r matches Ok((data, name)) && data == encrypted && name == filename,
        },
{
    match aes_key {
        Some(k) => {
            let res = decrypt_file(encrypted.as_slice(), k);
            proof {
                assert(bytes_or_text(res) == decrypt_file_result(encrypted@, k@));
            }
            match res {
                Ok(d) => Ok((d, filename)),
                Err(e) => Err(AiBotError::CryptoError(e)),
            }
        },
        None => Ok((encrypted, filename)),
    }
}

// ---------------------------------------------------------------------
// Laws

/// A part of a streamed reply carries the caller's feedback whether or not
/// it is the last part; only the images depend on that, going with the
/// last part alone, and only when there are some. Its id, content and
/// `finish` flag are the caller's.
pub proof fn lemma_stream_part_fields(
    s: StreamReplyBodyStream,
    stream_id: Seq<char>,
    content: Seq<char>,
    finish: bool,
    msg_item: Option<Vec<ReplyMsgItem>>,
    feedback: Option<ReplyFeedback>,
)
    requires
        stream_part(s, stream_id, content, finish, msg_item, feedback),
    ensures
        s.feedback == feedback,
        s.id@ == stream_id,
        s.finish == Some(finish),
        s.content matches Some(c) && c@ == content,
        !finish ==> s.msg_item is None,
        finish && (msg_item matches Some(v) && v@.len() > 0) ==> s.msg_item == msg_item,
        msg_item is None ==> s.msg_item is None,
{
}

/// Two parts of one stream, an unfinished one and the last, built with the
/// same feedback, carry that same feedback.
pub proof fn lemma_feedback_on_every_part(
    part: StreamReplyBodyStream,
    last: StreamReplyBodyStream,
    stream_id: Seq<char>,
    content: Seq<char>,
    last_content: Seq<char>,
    msg_item: Option<Vec<ReplyMsgItem>>,
    feedback: Option<ReplyFeedback>,
)
    requires
        stream_part(part, stream_id, content, false, msg_item, feedback),
        stream_part(last, stream_id, last_content, true, msg_item, feedback),
    ensures
        part.feedback == feedback,
        last.feedback == feedback,
        part.feedback == last.feedback,
{
}

} // verus!
