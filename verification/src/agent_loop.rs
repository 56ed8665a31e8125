//! The agent loop's requests, results and errors, and a scripted model for tests.

use vstd::prelude::*;

use crate::messages::{
    ContentBlockDeltaEvent, ContentBlockStartEvent, ContentBlockStopEvent, Message, MessageStartEvent,
    MessageStopEvent, MetadataService, MetadataUsage, ToolUseBlock,
};
use crate::stream_error::{stream_error_text, StreamError};

verus! {

/// The specification of a tool offered to the model.
#[derive(Debug, Clone)]
pub struct ToolSpec {
    pub name: String,
    pub description: String,
    /// The JSON schema object of the tool's input.
    pub input_schema: serde_json::Value,
}

/// A request to send to the model provider.
#[derive(Debug)]
pub struct SendRequestArgs {
    pub messages: Vec<Message>,
    pub tool_specs: Option<Vec<ToolSpec>>,
    pub system_prompt: Option<String>,
}

impl SendRequestArgs {
    pub fn new(messages: Vec<Message>, tool_specs: Option<Vec<ToolSpec>>, system_prompt: Option<String>) -> (res:
        Self)
        ensures
            res == (SendRequestArgs { messages, tool_specs, system_prompt }),
    {
        SendRequestArgs { messages, tool_specs, system_prompt }
    }
}

/// Errors in answering a request to the agent loop.
#[derive(Debug, Clone, PartialEq, Eq)]
pub enum AgentLoopResponseError {
    StreamCurrentlyExecuting,
    AgentLoopExited,
    Custom(String),
}

/// The message of an agent loop response error.
pub open spec fn response_error_text(e: AgentLoopResponseError) -> Seq<char> {
    match e {
        AgentLoopResponseError::StreamCurrentlyExecuting => "A response stream is currently being consumed"@,
        AgentLoopResponseError::AgentLoopExited => "The agent loop has already exited"@,
        AgentLoopResponseError::Custom(s) => s@,
    }
}

impl AgentLoopResponseError {
    /// The error's message.
    pub fn message(&self) -> (res: String)
        ensures
            res@ == response_error_text(*self),
    {
        match self {
            AgentLoopResponseError::StreamCurrentlyExecuting => String::from_str(
                "A response stream is currently being consumed",
            ),
            AgentLoopResponseError::AgentLoopExited => String::from_str("The agent loop has already exited"),
            AgentLoopResponseError::Custom(s) => s.clone(),
        }
    }
}

/// A tool use whose input is not valid JSON.
#[derive(Debug, Clone)]
pub struct InvalidToolUse {
    pub tool_use_id: String,
    pub name: String,
    /// The input as received.
    pub content: String,
}

/// Errors of one request/response stream of the agent loop.
#[derive(Debug, Clone)]
pub enum LoopError {
    /// The response stream produced invalid JSON.
    InvalidJson {
        /// The assistant text received.
        assistant_text: String,
        /// The tool uses whose input is invalid JSON.
        invalid_tools: Vec<InvalidToolUse>,
    },
    /// The underlying response stream failed.
    Stream(StreamError),
}

/// The message of a loop error.
pub open spec fn loop_error_text(e: LoopError) -> Seq<char> {
    match e {
        LoopError::InvalidJson { .. } => "The model produced invalid JSON"@,
        LoopError::Stream(s) => stream_error_text(s),
    }
}

impl LoopError {
    /// The error's message.
    pub fn message(&self) -> (res: String)
        ensures
            res@ == loop_error_text(*self),
    {
        match self {
            LoopError::InvalidJson { .. } => String::from_str("The model produced invalid JSON"),
            LoopError::Stream(s) => s.message(),
        }
    }
}

impl From<StreamError> for LoopError {
    fn from(value: StreamError) -> (res: Self)
        ensures
            res == LoopError::Stream(value),
    {
        LoopError::Stream(value)
    }
}

impl vstd::std_specs::convert::FromSpecImpl<StreamError> for LoopError {
    open spec fn obeys_from_spec() -> bool {
        true
    }

    open spec fn from_spec(v: StreamError) -> Self {
        LoopError::Stream(v)
    }
}

/// An error of the agent loop.
#[derive(Debug, Clone)]
pub struct AgentLoopError {
    pub source: StreamError,
}

impl AgentLoopError {
    /// The error's message: that of its source.
    pub fn message(&self) -> (res: String)
        ensures
            res@ == stream_error_text(self.source),
    {
        self.source.message()
    }
}

/// Why a user turn ended.
#[derive(Debug, Clone, Copy, PartialEq, Eq, Structural)]
pub enum LoopEndReason {
    /// The loop ended before handling any request.
    DidNotRun,
    /// The model responded with no tool uses.
    UserTurnEnd,
    /// The loop was waiting for tool results, which were refused.
    ToolUseRejected,
    /// The loop failed.
    Error,
    /// The loop was cancelled while processing a response stream.
    Cancelled,
}

/// Timing of a response stream.
#[derive(Debug, Clone)]
pub struct MetadataMetrics {
    /// When the request started, in milliseconds since the Unix epoch.
    pub request_start_time_ms: i64,
    /// When the request ended, in milliseconds since the Unix epoch.
    pub request_end_time_ms: i64,
    pub time_to_first_chunk_ms: Option<u64>,
    pub time_between_chunks_ms: Option<Vec<u64>>,
    pub response_stream_len: u32,
}

/// Metadata of a response stream.
#[derive(Debug, Clone)]
pub struct MetadataEvent {
    pub metrics: Option<MetadataMetrics>,
    pub usage: Option<MetadataUsage>,
    pub service: Option<MetadataService>,
}

/// An event of a model's response stream.
#[derive(Debug, Clone)]
pub enum StreamEvent {
    MessageStart(MessageStartEvent),
    MessageStop(MessageStopEvent),
    ContentBlockStart(ContentBlockStartEvent),
    ContentBlockDelta(ContentBlockDeltaEvent),
    ContentBlockStop(ContentBlockStopEvent),
    Metadata(MetadataEvent),
}

/// One item of a response stream: an event or an error.
#[derive(Debug, Clone)]
pub enum StreamResult {
    Event(StreamEvent),
    Error(StreamError),
}

impl StreamResult {
    /// The error; there must be one.
    pub fn unwrap_err(self) -> (res: StreamError)
        requires
            self is Error,
        ensures
            self == StreamResult::Error(res),
    {
        match self {
            StreamResult::Error(e) => e,
            StreamResult::Event(_) => {
                proof {
                    assert(false);
                }
                StreamError::new(crate::stream_error::StreamErrorKind::Interrupted)
            },
        }
    }
}

/// Metadata of a single response stream.
#[derive(Debug, Clone)]
pub struct StreamMetadata {
    /// The tool uses returned by the stream.
    pub tool_uses: Vec<ToolUseBlock>,
    /// The stream's own metadata.
    pub stream: Option<MetadataEvent>,
}

/// The saved state of a model backend.
#[derive(Debug, Clone, PartialEq, Eq)]
pub enum ModelsState {
    Rts { conversation_id: Option<String>, model_id: Option<String> },
    Test,
}

impl Default for ModelsState {
    fn default() -> (res: Self)
        ensures
            res == (ModelsState::Rts { conversation_id: None, model_id: None }),
    {
        ModelsState::Rts { conversation_id: None, model_id: None }
    }
}

/// A scripted response of the test model.
#[derive(Debug, Clone)]
pub struct MockResponse {
    pub items: Vec<StreamResult>,
    /// Delay before sending the first item, in milliseconds.
    pub time_to_first_chunk_delay_ms: Option<u64>,
}

impl MockResponse {
    /// A response of the given items, sent without delay.
    pub fn from_items(items: Vec<StreamResult>) -> (res: Self)
        ensures
            res == (MockResponse { items, time_to_first_chunk_delay_ms: None }),
    {
        MockResponse { items, time_to_first_chunk_delay_ms: None }
    }
}

/// A model for tests that answers each request with the next scripted response and
/// records the requests it received.
#[derive(Debug)]
pub struct MockModel {
    /// The index of the next response.
    pub response_index: usize,
    pub mock_responses: Vec<MockResponse>,
    pub received_requests: Vec<SendRequestArgs>,
}

impl MockModel {
    /// A model with no scripted responses.
    pub fn new() -> (res: Self)
        ensures
            res.response_index == 0,
            res.mock_responses@.len() == 0,
            res.received_requests@.len() == 0,
    {
        MockModel { response_index: 0, mock_responses: Vec::new(), received_requests: Vec::new() }
    }

    /// Adds a scripted response, answered after those added before.
    pub fn with_response(self, response: MockResponse) -> (res: Self)
        ensures
            res.response_index == self.response_index,
            res.mock_responses@ == self.mock_responses@.push(response),
            res.received_requests@ == self.received_requests@,
    {
        let mut s = self;
        s.mock_responses.push(response);
        s
    }

    /// Answers a request: records it and hands out the next scripted response. A request
    /// after the script has run out is not expected.
    pub fn next_response(&mut self, request: SendRequestArgs) -> (res: MockResponse)
        requires
            old(self).response_index < old(self).mock_responses@.len(),
        ensures
            final(self).response_index == old(self).response_index + 1,
            final(self).mock_responses@ == old(self).mock_responses@,
            final(self).received_requests@ == old(self).received_requests@.push(request),
            res.time_to_first_chunk_delay_ms == old(self).mock_responses@[old(self).response_index as int].time_to_first_chunk_delay_ms,
    {
        let r = &self.mock_responses[self.response_index];
        let response = MockResponse { items: r.items.clone(), time_to_first_chunk_delay_ms: r.time_to_first_chunk_delay_ms };
        self.received_requests.push(request);
        assert(self.response_index < self.mock_responses.len());
        self.response_index = self.response_index + 1;
        response
    }
}

} // verus!
