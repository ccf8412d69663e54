use aibot_rust_sdk::client::{
    build_media_body, build_stream_reply_body, build_stream_with_card_body, build_template_card_reply_body,
    build_update_template_card_body, finish_download,
};
use aibot_rust_sdk::{
    AiBotError, MediaContent, ReplyFeedback, ReplyMsgItem, ReplyMsgItemImage, ReplyStreamWithCardOptions,
    TemplateCard, VideoMediaContent, VideoOptions,
};

fn card() -> TemplateCard {
    TemplateCard {
        card_type: "text_notice".to_string(),
        source: None,
        action_menu: None,
        main_title: None,
        emphasis_content: None,
        quote_area: None,
        sub_title_text: Some("sub".to_string()),
        horizontal_content_list: None,
        jump_list: None,
        card_action: None,
        card_image: None,
        image_text_area: None,
        vertical_content_list: None,
        button_selection: None,
        button_list: None,
        checkbox: None,
        select_list: None,
        submit_button: None,
        task_id: Some("t1".to_string()),
        feedback: Some(ReplyFeedback { id: "old".to_string() }),
    }
}

fn item() -> ReplyMsgItem {
    ReplyMsgItem {
        msgtype: "image".to_string(),
        image: ReplyMsgItemImage { base64: "AAAA".to_string(), md5: "00".to_string() },
    }
}

#[test]
fn stream_items_only_when_finished() {
    let b = build_stream_reply_body("s1", "thinking", false, Some(vec![item()]), None);
    assert_eq!(b.msgtype, "stream");
    assert_eq!(b.stream.id, "s1");
    assert_eq!(b.stream.finish, Some(false));
    assert_eq!(b.stream.content, Some("thinking".to_string()));
    assert_eq!(b.stream.msg_item, None);
    let b = build_stream_reply_body("s1", "done", true, Some(vec![item()]), Some(ReplyFeedback { id: "f".to_string() }));
    assert_eq!(b.stream.msg_item, Some(vec![item()]));
    assert_eq!(b.stream.feedback, Some(ReplyFeedback { id: "f".to_string() }));
    let b = build_stream_reply_body("s1", "done", true, Some(vec![]), None);
    assert_eq!(b.stream.msg_item, None);
}

#[test]
fn template_card_feedback_override() {
    let b = build_template_card_reply_body(card(), Some(ReplyFeedback { id: "new".to_string() }));
    assert_eq!(b.msgtype, "template_card");
    assert_eq!(b.template_card.feedback, Some(ReplyFeedback { id: "new".to_string() }));
    assert_eq!(b.template_card.task_id, Some("t1".to_string()));
    let b = build_template_card_reply_body(card(), None);
    assert_eq!(b.template_card, card());
}

#[test]
fn stream_with_card_body() {
    let opts = ReplyStreamWithCardOptions {
        msg_item: Some(vec![item()]),
        stream_feedback: Some(ReplyFeedback { id: "sf".to_string() }),
        template_card: Some(card()),
        card_feedback: Some(ReplyFeedback { id: "cf".to_string() }),
    };
    let b = build_stream_with_card_body("s", "c", true, Some(opts));
    assert_eq!(b.msgtype, "stream_with_template_card");
    assert_eq!(b.stream.msg_item, Some(vec![item()]));
    assert_eq!(b.stream.feedback, Some(ReplyFeedback { id: "sf".to_string() }));
    assert_eq!(b.template_card.unwrap().feedback, Some(ReplyFeedback { id: "cf".to_string() }));
    let b = build_stream_with_card_body("s", "c", false, None);
    assert_eq!(b.template_card, None);
    assert_eq!(b.stream.feedback, None);
}

#[test]
fn update_card_body() {
    let b = build_update_template_card_body(card(), Some(vec!["u1".to_string()]));
    assert_eq!(b.response_type, "update_template_card");
    assert_eq!(b.userids, Some(vec!["u1".to_string()]));
    assert_eq!(b.template_card, card());
}

#[test]
fn media_bodies() {
    let b = build_media_body("file", "m1", None);
    assert_eq!(b.msgtype, "file");
    assert_eq!(b.file, Some(MediaContent { media_id: "m1".to_string() }));
    assert_eq!((b.image.is_none(), b.voice.is_none(), b.video.is_none()), (true, true, true));
    let b = build_media_body("image", "m2", None);
    assert_eq!(b.image, Some(MediaContent { media_id: "m2".to_string() }));
    let b = build_media_body("voice", "m3", None);
    assert_eq!(b.voice, Some(MediaContent { media_id: "m3".to_string() }));
    let b = build_media_body(
        "video",
        "m4",
        Some(VideoOptions { title: Some("T".to_string()), description: None }),
    );
    assert_eq!(
        b.video,
        Some(VideoMediaContent { media_id: "m4".to_string(), title: Some("T".to_string()), description: None })
    );
    let b = build_media_body("gif", "m5", None);
    assert_eq!(b.msgtype, "gif");
    assert!(b.file.is_none() && b.image.is_none() && b.voice.is_none() && b.video.is_none());
}

#[test]
fn download_without_key_is_raw() {
    assert_eq!(
        finish_download(vec![1, 2, 3], Some("a.bin".to_string()), None),
        Ok((vec![1, 2, 3], Some("a.bin".to_string())))
    );
    assert_eq!(
        finish_download(vec![], None, Some("AAAA")),
        Err(AiBotError::CryptoError("decrypt_file: encryptedBuffer is empty or not provided".to_string()))
    );
}
