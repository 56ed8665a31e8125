//! The events exchanged between the chat session and its user interface.

use vstd::prelude::*;

verus! {

/// Who a message is from.
#[derive(Debug, Clone, Copy, PartialEq, Eq, Structural)]
pub enum MessageRole {
    Developer,
    System,
    Assistant,
    User,
    Tool,
}

/// Fields shared by all events.
#[derive(Debug, Clone)]
pub struct BaseEvent {
    pub event_type: String,
    /// Seconds since the Unix epoch.
    pub timestamp: Option<i64>,
    pub raw_event: Option<serde_json::Value>,
}

/// A run started.
#[derive(Debug, Clone)]
pub struct RunStarted {
    pub thread_id: String,
    pub run_id: String,
    pub parent_run_id: Option<String>,
    pub input: Option<serde_json::Value>,
}

/// A run finished.
#[derive(Debug, Clone)]
pub struct RunFinished {
    pub thread_id: String,
    pub run_id: String,
    pub result: Option<serde_json::Value>,
    /// `success` or `interrupt`.
    pub outcome: Option<String>,
    pub interrupt: Option<serde_json::Value>,
}

/// A run failed.
#[derive(Debug, Clone)]
pub struct RunError {
    pub message: String,
    pub code: Option<String>,
}

/// A step started.
#[derive(Debug, Clone)]
pub struct StepStarted {
    pub step_name: String,
}

/// A step finished.
#[derive(Debug, Clone)]
pub struct StepFinished {
    pub step_name: String,
}

/// A text message started.
#[derive(Debug, Clone)]
pub struct TextMessageStart {
    pub message_id: String,
    pub role: MessageRole,
}

/// A piece of a text message.
#[derive(Debug, Clone, Default)]
pub struct TextMessageContent {
    pub message_id: String,
    pub delta: Vec<u8>,
}

/// A text message ended.
#[derive(Debug, Clone)]
pub struct TextMessageEnd {
    pub message_id: String,
}

/// A self-contained piece of a text message.
#[derive(Debug, Clone)]
pub struct TextMessageChunk {
    pub message_id: Option<String>,
    pub role: Option<MessageRole>,
    pub delta: Option<String>,
}

/// A tool call started.
#[derive(Debug, Clone)]
pub struct ToolCallStart {
    pub tool_call_id: String,
    pub tool_call_name: String,
    pub parent_message_id: Option<String>,
    pub mcp_server_name: Option<String>,
    pub is_trusted: bool,
}

/// A piece of a tool call's arguments.
#[derive(Debug, Clone)]
pub struct ToolCallArgs {
    pub tool_call_id: String,
    pub delta: serde_json::Value,
}

/// A tool call ended.
#[derive(Debug, Clone)]
pub struct ToolCallEnd {
    pub tool_call_id: String,
}

/// The result of a tool call.
#[derive(Debug, Clone)]
pub struct ToolCallResult {
    pub message_id: String,
    pub tool_call_id: String,
    pub content: serde_json::Value,
    pub role: Option<MessageRole>,
}

/// A tool call was refused.
#[derive(Debug, Clone)]
pub struct ToolCallRejection {
    pub tool_call_id: String,
    pub name: String,
    pub reason: String,
}

/// A snapshot of the state.
#[derive(Debug, Clone)]
pub struct StateSnapshot {
    pub snapshot: serde_json::Value,
}

/// A change of the state, as JSON Patch operations.
#[derive(Debug, Clone)]
pub struct StateDelta {
    pub delta: Vec<serde_json::Value>,
}

/// A message of a snapshot.
#[derive(Debug, Clone)]
pub struct Message {
    pub id: String,
    pub role: MessageRole,
    pub content: String,
    /// Seconds since the Unix epoch.
    pub timestamp: Option<i64>,
}

/// A snapshot of the messages.
#[derive(Debug, Clone)]
pub struct MessagesSnapshot {
    pub messages: Vec<Message>,
}

/// An event passed through from another system.
#[derive(Debug, Clone)]
pub struct Raw {
    pub event: serde_json::Value,
    pub source: Option<String>,
}

/// An application-defined event.
#[derive(Debug, Clone)]
pub struct Custom {
    pub name: String,
    pub value: serde_json::Value,
}

/// Output of the legacy event loop, passed through.
#[derive(Debug, Clone)]
pub enum LegacyPassThroughOutput {
    Stdout(Vec<u8>),
    Stderr(Vec<u8>),
}

impl Default for LegacyPassThroughOutput {
    fn default() -> (res: Self)
        ensures
            res matches LegacyPassThroughOutput::Stderr(b) && b@.len() == 0,
    {
        LegacyPassThroughOutput::Stderr(Vec::new())
    }
}

/// A snapshot of an activity.
#[derive(Debug, Clone)]
pub struct ActivitySnapshotEvent {
    pub message_id: String,
    /// Such as `PLAN`, `SEARCH` or `SCRAPE`.
    pub activity_type: String,
    pub content: serde_json::Value,
}

/// A change of an activity, as JSON Patch operations.
#[derive(Debug, Clone)]
pub struct ActivityDeltaEvent {
    pub message_id: String,
    pub activity_type: String,
    pub patch: Vec<serde_json::Value>,
}

/// Reasoning started.
#[derive(Debug, Clone)]
pub struct ReasoningStart {
    pub message_id: String,
    pub encrypted_content: Option<String>,
}

/// A reasoning message started.
#[derive(Debug, Clone)]
pub struct ReasoningMessageStart {
    pub message_id: String,
    pub role: MessageRole,
}

/// A piece of a reasoning message.
#[derive(Debug, Clone)]
pub struct ReasoningMessageContent {
    pub message_id: String,
    pub delta: String,
}

/// A reasoning message ended.
#[derive(Debug, Clone)]
pub struct ReasoningMessageEnd {
    pub message_id: String,
}

/// A self-contained piece of a reasoning message.
#[derive(Debug, Clone)]
pub struct ReasoningMessageChunk {
    pub message_id: Option<String>,
    pub delta: Option<String>,
}

/// Reasoning ended.
#[derive(Debug, Clone)]
pub struct ReasoningEnd {
    pub message_id: String,
}

/// An event about an event, such as a thumbs-up or a tag.
#[derive(Debug, Clone)]
pub struct MetaEvent {
    pub meta_type: String,
    pub payload: serde_json::Value,
}

/// An event of the user interface protocol.
#[derive(Debug, Clone)]
pub enum Event {
    RunStarted(RunStarted),
    RunFinished(RunFinished),
    RunError(RunError),
    StepStarted(StepStarted),
    StepFinished(StepFinished),
    TextMessageStart(TextMessageStart),
    TextMessageContent(TextMessageContent),
    TextMessageEnd(TextMessageEnd),
    TextMessageChunk(TextMessageChunk),
    ToolCallStart(ToolCallStart),
    ToolCallArgs(ToolCallArgs),
    ToolCallEnd(ToolCallEnd),
    ToolCallResult(ToolCallResult),
    ToolCallRejection(ToolCallRejection),
    StateSnapshot(StateSnapshot),
    StateDelta(StateDelta),
    MessagesSnapshot(MessagesSnapshot),
    Raw(Raw),
    Custom(Custom),
    LegacyPassThrough(LegacyPassThroughOutput),
    ActivitySnapshotEvent(ActivitySnapshotEvent),
    ActivityDeltaEvent(ActivityDeltaEvent),
    ReasoningStart(ReasoningStart),
    ReasoningMessageStart(ReasoningMessageStart),
    ReasoningMessageContent(ReasoningMessageContent),
    ReasoningMessageEnd(ReasoningMessageEnd),
    ReasoningMessageChunk(ReasoningMessageChunk),
    ReasoningEnd(ReasoningEnd),
    MetaEvent(MetaEvent),
}

/// The type name of an event (camel case).
pub open spec fn event_type_name(e: Event) -> Seq<char> {
    match e {
        Event::RunStarted(_) => "runStarted"@,
        Event::RunFinished(_) => "runFinished"@,
        Event::RunError(_) => "runError"@,
        Event::StepStarted(_) => "stepStarted"@,
        Event::StepFinished(_) => "stepFinished"@,
        Event::TextMessageStart(_) => "textMessageStart"@,
        Event::TextMessageContent(_) => "textMessageContent"@,
        Event::TextMessageEnd(_) => "textMessageEnd"@,
        Event::TextMessageChunk(_) => "textMessageChunk"@,
        Event::ToolCallStart(_) => "toolCallStart"@,
        Event::ToolCallArgs(_) => "toolCallArgs"@,
        Event::ToolCallEnd(_) => "toolCallEnd"@,
        Event::ToolCallResult(_) => "toolCallResult"@,
        Event::ToolCallRejection(_) => "toolCallRejection"@,
        Event::StateSnapshot(_) => "stateSnapshot"@,
        Event::StateDelta(_) => "stateDelta"@,
        Event::MessagesSnapshot(_) => "messagesSnapshot"@,
        Event::Raw(_) => "raw"@,
        Event::Custom(_) => "custom"@,
        Event::LegacyPassThrough(_) => "legacyPassThrough"@,
        Event::ActivitySnapshotEvent(_) => "activitySnapshotEvent"@,
        Event::ActivityDeltaEvent(_) => "activityDeltaEvent"@,
        Event::ReasoningStart(_) => "reasoningStart"@,
        Event::ReasoningMessageStart(_) => "reasoningMessageStart"@,
        Event::ReasoningMessageContent(_) => "reasoningMessageContent"@,
        Event::ReasoningMessageEnd(_) => "reasoningMessageEnd"@,
        Event::ReasoningMessageChunk(_) => "reasoningMessageChunk"@,
        Event::ReasoningEnd(_) => "reasoningEnd"@,
        Event::MetaEvent(_) => "metaEvent"@,
    }
}

/// Whether an event is a lifecycle event.
pub open spec fn spec_is_lifecycle(e: Event) -> bool {
    e is RunStarted || e is RunFinished || e is RunError || e is StepStarted || e is StepFinished
}

/// Whether an event is a text message event.
pub open spec fn spec_is_text(e: Event) -> bool {
    e is TextMessageStart || e is TextMessageContent || e is TextMessageEnd || e is TextMessageChunk
}

/// Whether an event is a tool call event.
pub open spec fn spec_is_tool(e: Event) -> bool {
    e is ToolCallStart || e is ToolCallArgs || e is ToolCallEnd || e is ToolCallResult
}

/// Whether an event is a state management event.
pub open spec fn spec_is_state(e: Event) -> bool {
    e is StateSnapshot || e is StateDelta || e is MessagesSnapshot
}

/// Whether an event is a draft (experimental) event.
pub open spec fn spec_is_draft(e: Event) -> bool {
    e is ActivitySnapshotEvent || e is ActivityDeltaEvent || e is ReasoningStart || e is ReasoningMessageStart || e is ReasoningMessageContent || e is ReasoningMessageEnd || e is ReasoningMessageChunk || e is ReasoningEnd || e is MetaEvent
}

impl Event {
    /// The event's type name.
    pub fn event_type(&self) -> (res: &'static str)
        ensures
            res@ == event_type_name(*self),
    {
        match self {
            Event::RunStarted(_) => "runStarted",
            Event::RunFinished(_) => "runFinished",
            Event::RunError(_) => "runError",
            Event::StepStarted(_) => "stepStarted",
            Event::StepFinished(_) => "stepFinished",
            Event::TextMessageStart(_) => "textMessageStart",
            Event::TextMessageContent(_) => "textMessageContent",
            Event::TextMessageEnd(_) => "textMessageEnd",
            Event::TextMessageChunk(_) => "textMessageChunk",
            Event::ToolCallStart(_) => "toolCallStart",
            Event::ToolCallArgs(_) => "toolCallArgs",
            Event::ToolCallEnd(_) => "toolCallEnd",
            Event::ToolCallResult(_) => "toolCallResult",
            Event::ToolCallRejection(_) => "toolCallRejection",
            Event::StateSnapshot(_) => "stateSnapshot",
            Event::StateDelta(_) => "stateDelta",
            Event::MessagesSnapshot(_) => "messagesSnapshot",
            Event::Raw(_) => "raw",
            Event::Custom(_) => "custom",
            Event::LegacyPassThrough(_) => "legacyPassThrough",
            Event::ActivitySnapshotEvent(_) => "activitySnapshotEvent",
            Event::ActivityDeltaEvent(_) => "activityDeltaEvent",
            Event::ReasoningStart(_) => "reasoningStart",
            Event::ReasoningMessageStart(_) => "reasoningMessageStart",
            Event::ReasoningMessageContent(_) => "reasoningMessageContent",
            Event::ReasoningMessageEnd(_) => "reasoningMessageEnd",
            Event::ReasoningMessageChunk(_) => "reasoningMessageChunk",
            Event::ReasoningEnd(_) => "reasoningEnd",
            Event::MetaEvent(_) => "metaEvent",
        }
    }

    /// Whether the legacy event loop can handle this event: only passed-through output.
    pub fn is_compatible_with_legacy_event_loop(&self) -> (res: bool)
        ensures
            res == (*self is LegacyPassThrough),
    {
        matches!(self, Event::LegacyPassThrough(_))
    }

    /// Whether this is a lifecycle event.
    pub fn is_lifecycle_event(&self) -> (res: bool)
        ensures
            res == spec_is_lifecycle(*self),
    {
        match self {
            Event::RunStarted(_) | Event::RunFinished(_) | Event::RunError(_) | Event::StepStarted(_) | Event::StepFinished(_) => true,
            _ => false,
        }
    }

    /// Whether this is a text message event.
    pub fn is_text_message_event(&self) -> (res: bool)
        ensures
            res == spec_is_text(*self),
    {
        match self {
            Event::TextMessageStart(_) | Event::TextMessageContent(_) | Event::TextMessageEnd(_) | Event::TextMessageChunk(_) => true,
            _ => false,
        }
    }

    /// Whether this is a tool call event.
    pub fn is_tool_call_event(&self) -> (res: bool)
        ensures
            res == spec_is_tool(*self),
    {
        match self {
            Event::ToolCallStart(_) | Event::ToolCallArgs(_) | Event::ToolCallEnd(_) | Event::ToolCallResult(_) => true,
            _ => false,
        }
    }

    /// Whether this is a state management event.
    pub fn is_state_management_event(&self) -> (res: bool)
        ensures
            res == spec_is_state(*self),
    {
        match self {
            Event::StateSnapshot(_) | Event::StateDelta(_) | Event::MessagesSnapshot(_) => true,
            _ => false,
        }
    }

    /// Whether this is a draft (experimental) event.
    pub fn is_draft_event(&self) -> (res: bool)
        ensures
            res == spec_is_draft(*self),
    {
        match self {
            Event::ActivitySnapshotEvent(_) | Event::ActivityDeltaEvent(_) | Event::ReasoningStart(_) | Event::ReasoningMessageStart(_) | Event::ReasoningMessageContent(_) | Event::ReasoningMessageEnd(_) | Event::ReasoningMessageChunk(_) | Event::ReasoningEnd(_) | Event::MetaEvent(_) => true,
            _ => false,
        }
    }

}

/// An event falls in at most one category.
pub proof fn lemma_event_categories_disjoint(e: Event)
    ensures
        !(spec_is_lifecycle(e) && spec_is_text(e)),
        !(spec_is_lifecycle(e) && spec_is_tool(e)),
        !(spec_is_lifecycle(e) && spec_is_state(e)),
        !(spec_is_lifecycle(e) && spec_is_draft(e)),
        !(spec_is_text(e) && spec_is_tool(e)),
        !(spec_is_text(e) && spec_is_state(e)),
        !(spec_is_text(e) && spec_is_draft(e)),
        !(spec_is_tool(e) && spec_is_state(e)),
        !(spec_is_tool(e) && spec_is_draft(e)),
        !(spec_is_state(e) && spec_is_draft(e)),
{
}

/// An action of the user interface.
#[derive(Debug, Clone, Copy, PartialEq, Eq, Structural)]
pub enum Action {
    Quit,
    Tick,
    Noop,
}

/// The user interface application.
pub struct App {
    pub should_quit: bool,
}

} // verus!
