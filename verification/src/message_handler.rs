//! Routing of callback frames to the client's message and event callbacks.

use std::sync::Arc;
use vstd::prelude::*;

use crate::text::{opt_text, str_equal};
use crate::types::api::WsCmd;
use crate::types::common::Logger;
use crate::types::event::EventType;
use crate::types::message::MessageType;

verus! {

/// Parses callback frames and dispatches them as message and event
/// callbacks; it logs through `logger`.
pub struct MessageHandler<L: ?Sized = dyn Logger> {
    pub logger: Arc<L>,
}

impl<L: ?Sized> MessageHandler<L> {
    /// A handler that logs through `logger`.
    pub fn new(logger: Arc<L>) -> (h: Self)
        ensures
            h.logger == logger,
    {
        MessageHandler { logger }
    }
}

/// Where a callback frame goes.
#[derive(Debug, Clone, Copy, PartialEq, Eq, Structural)]
pub enum CallbackRoute {
    /// The frame has no body: warn and drop it.
    MissingBody,
    /// The body has no `msgtype`: warn and drop it.
    MissingMsgtype,
    /// An event callback.
    Event,
    /// A message callback.
    Message,
}

/// Where a callback frame goes, from whether it has a body, whether the body
/// has a `msgtype`, and its command.
pub open spec fn callback_route(has_body: bool, has_msgtype: bool, cmd: Option<Seq<char>>) -> CallbackRoute {
    if !has_body {
        CallbackRoute::MissingBody
    } else if !has_msgtype {
        CallbackRoute::MissingMsgtype
    } else if cmd == Some(WsCmd::EVENT_CALLBACK@) {
        CallbackRoute::Event
    } else {
        CallbackRoute::Message
    }
}

/// Decides where a callback frame goes.
pub fn route_callback(has_body: bool, has_msgtype: bool, cmd: &Option<String>) -> (r: CallbackRoute)
    ensures
        r == callback_route(has_body, has_msgtype, opt_text(*cmd)),
{
    if !has_body {
        return CallbackRoute::MissingBody;
    }
    if !has_msgtype {
        return CallbackRoute::MissingMsgtype;
    }
    let is_event = match cmd {
        Some(c) => str_equal(c.as_str(), WsCmd::EVENT_CALLBACK),
        None => false,
    };
    if is_event {
        CallbackRoute::Event
    } else {
        CallbackRoute::Message
    }
}

/// The wire name of a message kind.
pub open spec fn message_type_name(t: MessageType) -> Seq<char> {
    match t {
        MessageType::Text => "text"@,
        MessageType::Image => "image"@,
        MessageType::Mixed => "mixed"@,
        MessageType::Voice => "voice"@,
        MessageType::File => "file"@,
    }
}

/// The message kind with this wire name.
pub open spec fn parse_message_type(s: Seq<char>) -> Option<MessageType> {
    if s == "text"@ {
        Some(MessageType::Text)
    } else if s == "image"@ {
        Some(MessageType::Image)
    } else if s == "mixed"@ {
        Some(MessageType::Mixed)
    } else if s == "voice"@ {
        Some(MessageType::Voice)
    } else if s == "file"@ {
        Some(MessageType::File)
    } else {
        None
    }
}

/// The wire name of an event kind.
pub open spec fn event_type_name(t: EventType) -> Seq<char> {
    match t {
        EventType::EnterChat => "enter_chat"@,
        EventType::TemplateCardEvent => "template_card_event"@,
        EventType::FeedbackEvent => "feedback_event"@,
    }
}

/// The event kind with this wire name.
pub open spec fn parse_event_type(s: Seq<char>) -> Option<EventType> {
    if s == "enter_chat"@ {
        Some(EventType::EnterChat)
    } else if s == "template_card_event"@ {
        Some(EventType::TemplateCardEvent)
    } else if s == "feedback_event"@ {
        Some(EventType::FeedbackEvent)
    } else {
        None
    }
}

/// The wire name of a message kind.
pub fn message_type_wire_name(t: MessageType) -> (s: &'static str)
    ensures
        s@ == message_type_name(t),
{
    match t {
        MessageType::Text => "text",
        MessageType::Image => "image",
        MessageType::Mixed => "mixed",
        MessageType::Voice => "voice",
        MessageType::File => "file",
    }
}

/// The message kind of a `msgtype`, or `None` for one without a typed
/// callback.
pub fn message_type_of(msgtype: &str) -> (t: Option<MessageType>)
    ensures
        t == parse_message_type(msgtype@),
{
    if str_equal(msgtype, "text") {
        Some(MessageType::Text)
    } else if str_equal(msgtype, "image") {
        Some(MessageType::Image)
    } else if str_equal(msgtype, "mixed") {
        Some(MessageType::Mixed)
    } else if str_equal(msgtype, "voice") {
        Some(MessageType::Voice)
    } else if str_equal(msgtype, "file") {
        Some(MessageType::File)
    } else {
        None
    }
}

/// The wire name of an event kind.
pub fn event_type_wire_name(t: EventType) -> (s: &'static str)
    ensures
        s@ == event_type_name(t),
{
    match t {
        EventType::EnterChat => "enter_chat",
        EventType::TemplateCardEvent => "template_card_event",
        EventType::FeedbackEvent => "feedback_event",
    }
}

/// The event kind of an `eventtype`, or `None` when it is absent or has no
/// typed callback.
pub fn event_type_of(eventtype: Option<&str>) -> (t: Option<EventType>)
    ensures
        t == match eventtype {
            Some(e) => parse_event_type(e@),
            None => None,
        },
{
    match eventtype {
        Some(e) => {
            if str_equal(e, "enter_chat") {
                Some(EventType::EnterChat)
            } else if str_equal(e, "template_card_event") {
                Some(EventType::TemplateCardEvent)
            } else if str_equal(e, "feedback_event") {
                Some(EventType::FeedbackEvent)
            } else {
                None
            }
        },
        None => None,
    }
}

/// Every message kind is recognised from its own wire name.
pub proof fn lemma_message_type_round_trip(t: MessageType)
    ensures
        parse_message_type(message_type_name(t)) == Some(t),
{
    broadcast use vstd::string::group_string_axioms;
    reveal_strlit("text");
    reveal_strlit("image");
    reveal_strlit("mixed");
    reveal_strlit("voice");
    reveal_strlit("file");
    assert("text"@.len() == 4 && "file"@.len() == 4);
    assert("image"@.len() == 5 && "mixed"@.len() == 5 && "voice"@.len() == 5);
    assert("text"@[0] == 't' && "file"@[0] == 'f');
    assert("image"@[0] == 'i' && "mixed"@[0] == 'm' && "voice"@[0] == 'v');
    assert("image"@ != "text"@);
    assert("mixed"@ != "text"@ && "mixed"@ != "image"@);
    assert("voice"@ != "text"@ && "voice"@ != "image"@ && "voice"@ != "mixed"@);
    assert("file"@ != "text"@ && "file"@ != "image"@ && "file"@ != "mixed"@ && "file"@ != "voice"@);
}

/// Every event kind is recognised from its own wire name.
pub proof fn lemma_event_type_round_trip(t: EventType)
    ensures
        parse_event_type(event_type_name(t)) == Some(t),
{
    broadcast use vstd::string::group_string_axioms;
    reveal_strlit("enter_chat");
    reveal_strlit("template_card_event");
    reveal_strlit("feedback_event");
    assert("enter_chat"@[0] == 'e' && "template_card_event"@[0] == 't' && "feedback_event"@[0] == 'f');
    assert("template_card_event"@ != "enter_chat"@);
    assert("feedback_event"@ != "enter_chat"@ && "feedback_event"@ != "template_card_event"@);
}

/// Each `msgtype` of the protocol leads to its own typed callback: `text`
/// to text messages, `image` to images, `mixed` to mixed messages, `voice`
/// to voice messages and `file` to files; and each kind is written back
/// under that same name.
pub proof fn lemma_message_types_by_name()
    ensures
        parse_message_type("text"@) == Some(MessageType::Text),
        parse_message_type("image"@) == Some(MessageType::Image),
        parse_message_type("mixed"@) == Some(MessageType::Mixed),
        parse_message_type("voice"@) == Some(MessageType::Voice),
        parse_message_type("file"@) == Some(MessageType::File),
        message_type_name(MessageType::Text) == "text"@,
        message_type_name(MessageType::Image) == "image"@,
        message_type_name(MessageType::Mixed) == "mixed"@,
        message_type_name(MessageType::Voice) == "voice"@,
        message_type_name(MessageType::File) == "file"@,
{
    lemma_message_type_round_trip(MessageType::Text);
    lemma_message_type_round_trip(MessageType::Image);
    lemma_message_type_round_trip(MessageType::Mixed);
    lemma_message_type_round_trip(MessageType::Voice);
    lemma_message_type_round_trip(MessageType::File);
}

/// Each `eventtype` of the protocol leads to its own typed callback:
/// `enter_chat` to the enter-chat event, `template_card_event` to the
/// template-card event and `feedback_event` to the feedback event; and each
/// kind is written back under that same name.
pub proof fn lemma_event_types_by_name()
    ensures
        parse_event_type("enter_chat"@) == Some(EventType::EnterChat),
        parse_event_type("template_card_event"@) == Some(EventType::TemplateCardEvent),
        parse_event_type("feedback_event"@) == Some(EventType::FeedbackEvent),
        event_type_name(EventType::EnterChat) == "enter_chat"@,
        event_type_name(EventType::TemplateCardEvent) == "template_card_event"@,
        event_type_name(EventType::FeedbackEvent) == "feedback_event"@,
{
    lemma_event_type_round_trip(EventType::EnterChat);
    lemma_event_type_round_trip(EventType::TemplateCardEvent);
    lemma_event_type_round_trip(EventType::FeedbackEvent);
}

/// Frames without a body or without a `msgtype` are dropped whatever their
/// command; the event command alone leads to the event callbacks.
pub proof fn lemma_callback_routes(has_body: bool, has_msgtype: bool, cmd: Option<Seq<char>>)
    ensures
        !has_body ==> callback_route(has_body, has_msgtype, cmd) == CallbackRoute::MissingBody,
        has_body && !has_msgtype ==> callback_route(has_body, has_msgtype, cmd) == CallbackRoute::MissingMsgtype,
        (callback_route(has_body, has_msgtype, cmd) == CallbackRoute::Event) == (has_body && has_msgtype
            && cmd == Some(WsCmd::EVENT_CALLBACK@)),
{
}

} // verus!
