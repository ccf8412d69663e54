//! Incoming event types.

use vstd::prelude::*;

verus! {

/// Kinds of events.
#[derive(Debug, Clone, Copy, PartialEq, Eq, Structural)]
pub enum EventType {
    /// The user entered the single chat with the bot for the first time that day.
    EnterChat,
    /// The user clicked a template card button.
    TemplateCardEvent,
    /// The user gave feedback on a reply.
    FeedbackEvent,
}

/// Sender of an event.
#[derive(Debug, Clone, PartialEq, Eq)]
pub struct EventFrom {
    pub userid: String,
    /// Absent for bots internal to a company.
    pub corpid: Option<String>,
}

/// The enter-chat event.
#[derive(Debug, Clone, PartialEq, Eq)]
pub struct EnterChatEvent {
    pub eventtype: EventType,
}

/// The template-card event.
#[derive(Debug, Clone, PartialEq, Eq)]
pub struct TemplateCardEventData {
    pub eventtype: EventType,
    pub event_key: Option<String>,
    pub task_id: Option<String>,
}

/// The feedback event.
#[derive(Debug, Clone, PartialEq, Eq)]
pub struct FeedbackEventData {
    pub eventtype: EventType,
}

/// The content of an event.
#[derive(Debug, Clone, PartialEq, Eq)]
pub enum EventContent {
    EnterChat(EnterChatEvent),
    TemplateCardEvent(TemplateCardEventData),
    FeedbackEvent(FeedbackEventData),
}

impl EventContent {
    /// The content of an event of the given type: the template-card event
    /// keeps the clicked button's key and the task id, the other kinds
    /// carry only their type.
    pub fn from_parts(eventtype: EventType, event_key: Option<String>, task_id: Option<String>) -> (c: Self)
        ensures
            eventtype == EventType::EnterChat ==> c == EventContent::EnterChat(EnterChatEvent { eventtype }),
            eventtype == EventType::TemplateCardEvent ==> c == EventContent::TemplateCardEvent(
                TemplateCardEventData { eventtype, event_key, task_id },
            ),
            eventtype == EventType::FeedbackEvent ==> c == EventContent::FeedbackEvent(FeedbackEventData { eventtype }),
    {
        match eventtype {
            EventType::EnterChat => EventContent::EnterChat(EnterChatEvent { eventtype }),
            EventType::TemplateCardEvent => EventContent::TemplateCardEvent(
                TemplateCardEventData { eventtype, event_key, task_id },
            ),
            EventType::FeedbackEvent => EventContent::FeedbackEvent(FeedbackEventData { eventtype }),
        }
    }
}

/// An event callback.
#[derive(Debug, Clone, PartialEq, Eq)]
pub struct EventMessage {
    pub msgid: String,
    pub create_time: i64,
    pub aibotid: String,
    pub chatid: Option<String>,
    pub chattype: Option<String>,
    pub from: EventFrom,
    /// Always `event`.
    pub msgtype: String,
    pub event: EventContent,
}

/// An event message of a given kind (the same type for every kind).
pub type EventMessageWith = EventMessage;

/// Marker for the table of client events (their callbacks are registered on
/// the client itself).
pub struct WSClientEventMap;

} // verus!
