//! The values that a conversation run is made of: messages, events and tool
//! invocations, each with the mathematical model that contracts speak of.

use vstd::prelude::*;

verus! {

/// Who speaks in a message.
#[derive(Clone, Copy, Debug, PartialEq, Eq, Structural)]
pub enum Role {
    System,
    User,
    Assistant,
}

impl Role {
    /// The name of the role as the completion endpoint spells it.
    pub open spec fn label(self) -> Seq<char> {
        match self {
            Role::System => "system"@,
            Role::User => "user"@,
            Role::Assistant => "assistant"@,
        }
    }

    /// The name of the role as the completion endpoint spells it.
    pub fn as_str(&self) -> (r: &'static str)
        ensures
            r@ == self.label(),
    {
        match self {
            Role::System => "system",
            Role::User => "user",
            Role::Assistant => "assistant",
        }
    }
}

/// One entry of a conversation.
#[derive(Clone, Debug)]
pub struct Message {
    pub role: Role,
    pub content: String,
}

/// A message as contracts see it.
pub struct MessageModel {
    pub role: Role,
    pub content: Seq<char>,
}

impl View for Message {
    type V = MessageModel;

    open spec fn view(&self) -> MessageModel {
        MessageModel { role: self.role, content: self.content@ }
    }
}

/// The models of a sequence of messages.
pub open spec fn messages_view(s: Seq<Message>) -> Seq<MessageModel> {
    s.map_values(|m: Message| m@)
}

/// What an event reports.
#[derive(Clone, Copy, Debug, PartialEq, Eq, Structural)]
pub enum EventKind {
    Token,
    ToolStart,
    ToolEnd,
    Done,
    Error,
}

impl EventKind {
    /// The name of the kind as event consumers spell it.
    pub open spec fn label(self) -> Seq<char> {
        match self {
            EventKind::Token => "token"@,
            EventKind::ToolStart => "tool_start"@,
            EventKind::ToolEnd => "tool_end"@,
            EventKind::Done => "done"@,
            EventKind::Error => "error"@,
        }
    }

    /// The name of the kind as event consumers spell it.
    pub fn as_str(&self) -> (r: &'static str)
        ensures
            r@ == self.label(),
    {
        match self {
            EventKind::Token => "token",
            EventKind::ToolStart => "tool_start",
            EventKind::ToolEnd => "tool_end",
            EventKind::Done => "done",
            EventKind::Error => "error",
        }
    }
}

/// One step of a run's progress, as reported to the caller.
#[derive(Clone, Debug)]
pub struct AgentEvent {
    pub kind: EventKind,
    pub content: String,
}

/// An event as contracts see it.
pub struct EventModel {
    pub kind: EventKind,
    pub content: Seq<char>,
}

impl View for AgentEvent {
    type V = EventModel;

    open spec fn view(&self) -> EventModel {
        EventModel { kind: self.kind, content: self.content@ }
    }
}

/// The models of a sequence of events.
pub open spec fn events_view(s: Seq<AgentEvent>) -> Seq<EventModel> {
    s.map_values(|e: AgentEvent| e@)
}

/// A request for one tool, read from one assistant message.
#[derive(Clone, Debug)]
pub struct ToolInvocation {
    pub name: String,
    pub input: String,
}

/// A tool invocation as contracts see it.
pub struct InvocationModel {
    pub name: Seq<char>,
    pub input: Seq<char>,
}

impl View for ToolInvocation {
    type V = InvocationModel;

    open spec fn view(&self) -> InvocationModel {
        InvocationModel { name: self.name@, input: self.input@ }
    }
}

} // verus!
