//! Translation of the backend's response stream into the agent's stream events.
//!
//! The backend streams assistant text, code references and tool use pieces. The parser turns
//! them into message start/stop, content block and metadata events. It holds one event of
//! look-ahead so that assistant text immediately followed by a code reference is dropped.
//!
//! Receiving is done by the caller: the parser says whether its next step needs a new event
//! ([ResponseParser::needs_event]), and [ResponseParser::step] takes what was received.

use vstd::prelude::*;

use crate::agent_loop::{MetadataEvent, MetadataMetrics, StreamEvent, StreamResult};
use crate::messages::{
    ContentBlockDelta, ContentBlockDeltaEvent, ContentBlockStart, ContentBlockStartEvent,
    ContentBlockStopEvent, MessageStartEvent, MessageStopEvent, MetadataService, Role, StopReason,
    ToolUseBlockDelta, ToolUseBlockStart,
};
use crate::stream_error::{StreamError, StreamErrorKind, StreamErrorSource};

verus! {

/// An event of the backend's response stream, as far as the parser reads it.
#[derive(Debug, Clone)]
pub enum RtsResponseEvent {
    /// A piece of the assistant's text.
    AssistantResponse { content: String },
    /// A code reference for the preceding text.
    CodeReference,
    /// A piece of a tool use.
    ToolUse { tool_use_id: String, name: String, input: Option<String>, stop: Option<bool> },
    /// Any other event, which the parser skips.
    Other,
}

/// What one receive from the response stream gave.
#[derive(Debug, Clone)]
pub struct ReceivedChunk {
    /// The event, or `None` once the stream has ended.
    pub event: Option<RtsResponseEvent>,
    /// Size of the event in bytes (0 when there is none).
    pub len: usize,
    /// How long the receive took, in milliseconds.
    pub wait_ms: u64,
    /// Time since the request was sent, in milliseconds.
    pub since_request_ms: u64,
    /// Wall-clock time of the receipt, in milliseconds since the Unix epoch.
    pub now_ms: i64,
}

/// Where the parser stands within one fill of its buffer.
#[derive(Debug, Clone)]
pub enum FillPhase {
    /// About to look at the next event.
    Start,
    /// Assistant text was taken; the event after it decides whether it is kept.
    AfterText { content: String },
    /// Reading events until one yields output.
    Body,
}

/// A failure to receive from the response stream.
#[derive(Debug, Clone)]
pub enum RecvError {
    /// The receive took too long.
    Timeout { source: String, duration_ms: u64 },
    /// Any other failure.
    Other { source: String },
}

/// Milliseconds after which a failed receive counts as a timeout.
pub const RECV_TIMEOUT_MS: u64 = 59000;

/// The parser's state.
#[derive(Debug, Clone)]
pub struct ResponseParser {
    /// Events produced and not yet taken by the caller.
    pub buf: Vec<StreamResult>,
    /// Whether the stream has ended.
    pub ended: bool,
    /// The look-ahead event, if one was received and not yet consumed.
    pub peek: Option<RtsResponseEvent>,
    /// Whether the message start event was produced.
    pub message_start_pushed: bool,
    /// The tool use (id and name) whose pieces are being received, if any.
    pub parsing_tool_use: Option<(String, String)>,
    /// Whether the stream contained a tool use.
    pub tool_use_seen: bool,
    /// Position within the current fill.
    pub phase: FillPhase,
    /// Request id of the request, for errors.
    pub request_id: Option<String>,
    /// Request id the response reported, for metadata.
    pub response_request_id: Option<String>,
    /// When the request was sent, in milliseconds since the Unix epoch.
    pub request_start_time_ms: i64,
    /// Time to the first received chunk, in milliseconds.
    pub time_to_first_chunk_ms: Option<u64>,
    /// Time each receive took, in milliseconds.
    pub time_between_chunks_ms: Vec<u64>,
    /// Total size of the response received so far, in bytes.
    pub received_response_size: usize,
}

/// The event that starts the assistant's message.
pub open spec fn message_start_result() -> StreamResult {
    StreamResult::Event(StreamEvent::MessageStart(MessageStartEvent { role: Role::Assistant }))
}

/// A text piece.
pub open spec fn text_delta_result(content: String) -> StreamResult {
    StreamResult::Event(
        StreamEvent::ContentBlockDelta(
            ContentBlockDeltaEvent { delta: ContentBlockDelta::Text(content), content_block_index: None },
        ),
    )
}

/// The start of a tool use block.
pub open spec fn tool_use_start_result(tool_use_id: String, name: String) -> StreamResult {
    StreamResult::Event(
        StreamEvent::ContentBlockStart(
            ContentBlockStartEvent {
                content_block_start: Some(ContentBlockStart::ToolUse(ToolUseBlockStart { tool_use_id, name })),
                content_block_index: None,
            },
        ),
    )
}

/// A piece of a tool use's input.
pub open spec fn tool_use_delta_result(input: String) -> StreamResult {
    StreamResult::Event(
        StreamEvent::ContentBlockDelta(
            ContentBlockDeltaEvent {
                delta: ContentBlockDelta::ToolUse(ToolUseBlockDelta { input }),
                content_block_index: None,
            },
        ),
    )
}

/// The end of a content block.
pub open spec fn block_stop_result() -> StreamResult {
    StreamResult::Event(StreamEvent::ContentBlockStop(ContentBlockStopEvent { content_block_index: None }))
}

/// The end of the message, with why it ended.
pub open spec fn message_stop_result(tool_use_seen: bool) -> StreamResult {
    StreamResult::Event(
        StreamEvent::MessageStop(
            MessageStopEvent {
                stop_reason: if tool_use_seen {
                    StopReason::ToolUse
                } else {
                    StopReason::EndTurn
                },
            },
        ),
    )
}

/// `r` is the metadata event of a stream with the given timings and size, ending at `end_ms`.
pub open spec fn is_metadata(
    r: StreamResult,
    start_ms: i64,
    end_ms: i64,
    ttfc: Option<u64>,
    between: Seq<u64>,
    size: usize,
    response_request_id: Option<String>,
) -> bool {
    match r {
        StreamResult::Event(StreamEvent::Metadata(m)) => {
            &&& m.usage is None
            &&& m.service == Some(MetadataService { request_id: response_request_id, status_code: None })
            &&& match m.metrics {
                Some(x) => {
                    &&& x.request_start_time_ms == start_ms
                    &&& x.request_end_time_ms == end_ms
                    &&& x.time_to_first_chunk_ms == ttfc
                    &&& if between.len() == 0 {
                        x.time_between_chunks_ms is None
                    } else {
                        x.time_between_chunks_ms is Some && x.time_between_chunks_ms.unwrap()@ == between
                    }
                    &&& x.response_stream_len == size as u32
                },
                None => false,
            }
        },
        _ => false,
    }
}

/// `r` is the metadata event of the parser `p` at time `end_ms`.
pub open spec fn is_metadata_of(r: StreamResult, p: ResponseParser, end_ms: i64) -> bool {
    is_metadata(
        r,
        p.request_start_time_ms,
        end_ms,
        p.time_to_first_chunk_ms,
        p.time_between_chunks_ms@,
        p.received_response_size,
        p.response_request_id,
    )
}

/// The event the next look at the stream sees: the look-ahead if there is one, else what was
/// received.
pub open spec fn seen_event(p: ResponseParser, chunk: Option<ReceivedChunk>) -> Option<RtsResponseEvent> {
    if p.peek is Some {
        p.peek
    } else {
        chunk.unwrap().event
    }
}

/// The buffer after the receive (if any) of the next look: a receive starts the message.
pub open spec fn buf_after_receive(p: ResponseParser, chunk: Option<ReceivedChunk>) -> Seq<StreamResult> {
    if chunk is Some && !p.message_start_pushed {
        p.buf@.push(message_start_result())
    } else {
        p.buf@
    }
}

/// The time to the first chunk after the receive (if any) of the next look.
pub open spec fn ttfc_after_receive(p: ResponseParser, chunk: Option<ReceivedChunk>) -> Option<u64> {
    if chunk is Some && p.time_to_first_chunk_ms is None {
        Some(chunk.unwrap().since_request_ms)
    } else {
        p.time_to_first_chunk_ms
    }
}

/// The receive times after the receive (if any) of the next look.
pub open spec fn between_after_receive(p: ResponseParser, chunk: Option<ReceivedChunk>) -> Seq<u64> {
    if chunk is Some {
        p.time_between_chunks_ms@.push(chunk.unwrap().wait_ms)
    } else {
        p.time_between_chunks_ms@
    }
}

/// The response size after the receive (if any) of the next look.
pub open spec fn size_after_receive(p: ResponseParser, chunk: Option<ReceivedChunk>) -> int {
    if chunk is Some {
        p.received_response_size + chunk.unwrap().len
    } else {
        p.received_response_size as int
    }
}

/// The receive bookkeeping of one look at the stream went from `p` to `q`.
pub open spec fn received_into(p: ResponseParser, q: ResponseParser, chunk: Option<ReceivedChunk>) -> bool {
    &&& q.message_start_pushed == (p.message_start_pushed || chunk is Some)
    &&& q.time_to_first_chunk_ms == ttfc_after_receive(p, chunk)
    &&& q.time_between_chunks_ms@ == between_after_receive(p, chunk)
    &&& q.received_response_size == size_after_receive(p, chunk)
    &&& q.request_id == p.request_id
    &&& q.response_request_id == p.response_request_id
    &&& q.request_start_time_ms == p.request_start_time_ms
}

/// What the parser produces for a tool use piece, given the tool use in progress.
pub open spec fn tool_use_results(
    parsing: Option<(String, String)>,
    tool_use_id: String,
    name: String,
    input: Option<String>,
    stop: Option<bool>,
) -> Seq<StreamResult> {
    (if parsing is None {
        seq![tool_use_start_result(tool_use_id, name)]
    } else {
        Seq::empty()
    }) + (match input {
        Some(i) => seq![tool_use_delta_result(i)],
        None => Seq::empty(),
    }) + (if stop == Some(true) {
        seq![block_stop_result()]
    } else {
        Seq::empty()
    })
}

/// The tool use in progress after a tool use piece.
pub open spec fn parsing_after_tool_use(
    parsing: Option<(String, String)>,
    tool_use_id: String,
    name: String,
    stop: Option<bool>,
) -> Option<(String, String)> {
    if stop == Some(true) {
        None
    } else if parsing is None {
        Some((tool_use_id, name))
    } else {
        parsing
    }
}

/// One step of the parser from `p` to `q`, given what was received (if the step needed it);
/// `done` says whether the current fill of the buffer is complete.
pub open spec fn step_spec(p: ResponseParser, q: ResponseParser, chunk: Option<ReceivedChunk>, done: bool) -> bool {
    let seen = seen_event(p, chunk);
    let pre = buf_after_receive(p, chunk);
    &&& received_into(p, q, chunk)
    &&& match p.phase {
        FillPhase::Start => {
            &&& !done
            &&& q.buf@ == pre
            &&& q.ended == p.ended
            &&& q.parsing_tool_use == p.parsing_tool_use
            &&& q.tool_use_seen == p.tool_use_seen
            &&& match seen {
                Some(RtsResponseEvent::AssistantResponse { content }) => {
                    &&& q.peek is None
                    &&& q.phase == FillPhase::AfterText { content }
                },
                _ => {
                    &&& q.peek == seen
                    &&& q.phase == FillPhase::Body
                },
            }
        },
        FillPhase::AfterText { content } => {
            &&& !done
            &&& q.peek == seen
            &&& q.phase == FillPhase::Body
            &&& q.ended == p.ended
            &&& q.parsing_tool_use == p.parsing_tool_use
            &&& q.tool_use_seen == p.tool_use_seen
            &&& q.buf@ == match seen {
                Some(RtsResponseEvent::CodeReference) => pre,
                _ => pre.push(text_delta_result(content)),
            }
        },
        FillPhase::Body => {
            &&& q.peek is None
            &&& match seen {
                Some(RtsResponseEvent::AssistantResponse { content }) => {
                    &&& done
                    &&& q.phase == FillPhase::Start
                    &&& q.buf@ == pre.push(text_delta_result(content))
                    &&& q.ended == p.ended
                    &&& q.parsing_tool_use == p.parsing_tool_use
                    &&& q.tool_use_seen == p.tool_use_seen
                },
                Some(RtsResponseEvent::ToolUse { tool_use_id, name, input, stop }) => {
                    &&& done
                    &&& q.phase == FillPhase::Start
                    &&& q.buf@ == pre + tool_use_results(p.parsing_tool_use, tool_use_id, name, input, stop)
                    &&& q.ended == p.ended
                    &&& q.parsing_tool_use == parsing_after_tool_use(p.parsing_tool_use, tool_use_id, name, stop)
                    &&& q.tool_use_seen
                },
                Some(_) => {
                    &&& !done
                    &&& q.phase == FillPhase::Body
                    &&& q.buf@ == pre
                    &&& q.ended == p.ended
                    &&& q.parsing_tool_use == p.parsing_tool_use
                    &&& q.tool_use_seen == p.tool_use_seen
                },
                None => {
                    &&& done
                    &&& q.ended
                    &&& q.phase == FillPhase::Start
                    &&& q.parsing_tool_use == p.parsing_tool_use
                    &&& q.tool_use_seen == p.tool_use_seen
                    &&& q.buf@.len() == pre.len() + 2
                    &&& q.buf@.subrange(0, pre.len() as int) == pre
                    &&& q.buf@[pre.len() as int] == message_stop_result(p.tool_use_seen)
                    &&& is_metadata_of(q.buf@[pre.len() as int + 1], q, chunk.unwrap().now_ms)
                },
            }
        },
    }
}

/// A copy of an optional string.
fn copy_opt_string(s: &Option<String>) -> (res: Option<String>)
    ensures
        res == *s,
{
    match s {
        Some(x) => Some(x.clone()),
        None => None,
    }
}

/// A copy of a backend event.
fn copy_event(e: &RtsResponseEvent) -> (res: RtsResponseEvent)
    ensures
        res == *e,
{
    match e {
        RtsResponseEvent::AssistantResponse { content } => RtsResponseEvent::AssistantResponse {
            content: content.clone(),
        },
        RtsResponseEvent::CodeReference => RtsResponseEvent::CodeReference,
        RtsResponseEvent::ToolUse { tool_use_id, name, input, stop } => RtsResponseEvent::ToolUse {
            tool_use_id: tool_use_id.clone(),
            name: name.clone(),
            input: copy_opt_string(input),
            stop: *stop,
        },
        RtsResponseEvent::Other => RtsResponseEvent::Other,
    }
}

/// How a failed receive is classified: a timeout when it took at least [RECV_TIMEOUT_MS].
pub fn recv_error(source: String, wait_ms: u64) -> (res: RecvError)
    ensures
        wait_ms >= RECV_TIMEOUT_MS ==> res == (RecvError::Timeout { source, duration_ms: wait_ms }),
        wait_ms < RECV_TIMEOUT_MS ==> res == (RecvError::Other { source }),
{
    if wait_ms >= RECV_TIMEOUT_MS {
        RecvError::Timeout { source, duration_ms: wait_ms }
    } else {
        RecvError::Other { source }
    }
}

/// `e` is the stream error for the failed receive `err` of the request with id `request_id`.
pub open spec fn is_recv_stream_error(e: StreamError, request_id: Option<String>, err: RecvError) -> bool {
    &&& e.original_request_id == request_id
    &&& e.original_status_code is None
    &&& e.original_message is None
    &&& match err {
        RecvError::Timeout { source, duration_ms } => {
            &&& e.kind == StreamErrorKind::StreamTimeout { duration_ms }
            &&& e.source == Some(StreamErrorSource::ApiClient(source))
        },
        RecvError::Other { source } => {
            &&& e.kind is Other
            &&& e.kind->Other_0@ == unexpected_recv_text(source@)
            &&& e.source == Some(StreamErrorSource::ApiClient(source))
        },
    }
}

/// The error of an interrupted stream.
pub open spec fn interrupted_error() -> StreamError {
    StreamError {
        kind: StreamErrorKind::Interrupted,
        original_request_id: None,
        original_status_code: None,
        original_message: None,
        source: None,
    }
}

/// The text of an unexpected receive failure.
pub open spec fn unexpected_recv_text(source: Seq<char>) -> Seq<char> {
    "An unexpected error occurred during the response stream: "@ + source
}

impl ResponseParser {
    /// A parser for a response to the request with the given id, sent at `request_start_time_ms`.
    pub fn new(request_id: Option<String>, response_request_id: Option<String>, request_start_time_ms: i64) -> (res: Self)
        ensures
            res.buf@.len() == 0,
            !res.ended,
            res.peek is None,
            !res.message_start_pushed,
            res.parsing_tool_use is None,
            !res.tool_use_seen,
            res.phase == FillPhase::Start,
            res.request_id == request_id,
            res.response_request_id == response_request_id,
            res.request_start_time_ms == request_start_time_ms,
            res.time_to_first_chunk_ms is None,
            res.time_between_chunks_ms@.len() == 0,
            res.received_response_size == 0,
    {
        ResponseParser {
            buf: Vec::new(),
            ended: false,
            peek: None,
            message_start_pushed: false,
            parsing_tool_use: None,
            tool_use_seen: false,
            phase: FillPhase::Start,
            request_id,
            response_request_id,
            request_start_time_ms,
            time_to_first_chunk_ms: None,
            time_between_chunks_ms: Vec::new(),
            received_response_size: 0,
        }
    }

    /// Whether the parser's next step needs a newly received event: it does unless it holds one
    /// event of look-ahead.
    pub fn needs_event(&self) -> (res: bool)
        ensures
            res == self.peek is None,
    {
        self.peek.is_none()
    }

    /// Records a receive: the message starts on the first one, and the timings and size are
    /// counted. Returns the received event.
    fn receive(&mut self, chunk: ReceivedChunk) -> (res: Option<RtsResponseEvent>)
        requires
            old(self).received_response_size + chunk.len <= usize::MAX,
        ensures
            res == chunk.event,
            received_into(*old(self), *final(self), Some(chunk)),
            final(self).buf@ == buf_after_receive(*old(self), Some(chunk)),
            final(self).ended == old(self).ended,
            final(self).peek == old(self).peek,
            final(self).parsing_tool_use == old(self).parsing_tool_use,
            final(self).tool_use_seen == old(self).tool_use_seen,
            final(self).phase == old(self).phase,
    {
        if !self.message_start_pushed {
            self.buf.push(StreamResult::Event(StreamEvent::MessageStart(MessageStartEvent { role: Role::Assistant })));
            self.message_start_pushed = true;
        }
        if self.time_to_first_chunk_ms.is_none() {
            self.time_to_first_chunk_ms = Some(chunk.since_request_ms);
        }
        self.time_between_chunks_ms.push(chunk.wait_ms);
        self.received_response_size = self.received_response_size + chunk.len;
        chunk.event
    }

    /// Looks at the next event without consuming it; an event received here is kept as the
    /// look-ahead.
    fn peek_event(&mut self, chunk: Option<ReceivedChunk>) -> (res: Option<RtsResponseEvent>)
        requires
            chunk is Some == old(self).peek is None,
            chunk is Some ==> old(self).received_response_size + chunk.unwrap().len <= usize::MAX,
        ensures
            res == seen_event(*old(self), chunk),
            final(self).peek == res,
            received_into(*old(self), *final(self), chunk),
            final(self).buf@ == buf_after_receive(*old(self), chunk),
            final(self).ended == old(self).ended,
            final(self).parsing_tool_use == old(self).parsing_tool_use,
            final(self).tool_use_seen == old(self).tool_use_seen,
            final(self).phase == old(self).phase,
    {
        match &self.peek {
            Some(e) => {
                let r = copy_event(e);
                return Some(r);
            },
            None => {},
        }
        match chunk {
            Some(c) => {
                let ev = self.receive(c);
                match &ev {
                    Some(e) => {
                        self.peek = Some(copy_event(e));
                    },
                    None => {},
                }
                ev
            },
            None => {
                proof {
                    assert(false);
                }
                None
            },
        }
    }

    /// Consumes the next event: the look-ahead if there is one, else the received one.
    fn next_event(&mut self, chunk: Option<ReceivedChunk>) -> (res: Option<RtsResponseEvent>)
        requires
            chunk is Some == old(self).peek is None,
            chunk is Some ==> old(self).received_response_size + chunk.unwrap().len <= usize::MAX,
        ensures
            res == seen_event(*old(self), chunk),
            final(self).peek is None,
            received_into(*old(self), *final(self), chunk),
            final(self).buf@ == buf_after_receive(*old(self), chunk),
            final(self).ended == old(self).ended,
            final(self).parsing_tool_use == old(self).parsing_tool_use,
            final(self).tool_use_seen == old(self).tool_use_seen,
            final(self).phase == old(self).phase,
    {
        let taken = self.peek.take();
        match taken {
            Some(e) => Some(e),
            None => match chunk {
                Some(c) => self.receive(c),
                None => {
                    proof {
                        assert(false);
                    }
                    None
                },
            },
        }
    }

    /// The metadata event of the stream so far, ending at `now_ms`.
    pub fn make_metadata(&self, now_ms: i64) -> (res: StreamEvent)
        ensures
            is_metadata_of(StreamResult::Event(res), *self, now_ms),
    {
        let n = self.time_between_chunks_ms.len();
        let between = if n == 0 {
            None
        } else {
            let mut v: Vec<u64> = Vec::new();
            let mut i: usize = 0;
            while i < n
                invariant
                    n == self.time_between_chunks_ms@.len(),
                    i <= n,
                    v@ == self.time_between_chunks_ms@.subrange(0, i as int),
                decreases n - i,
            {
                v.push(self.time_between_chunks_ms[i]);
                i = i + 1;
                proof {
                    assert(v@ =~= self.time_between_chunks_ms@.subrange(0, i as int));
                }
            }
            proof {
                assert(v@ =~= self.time_between_chunks_ms@);
            }
            Some(v)
        };
        StreamEvent::Metadata(
            MetadataEvent {
                metrics: Some(
                    MetadataMetrics {
                        request_start_time_ms: self.request_start_time_ms,
                        request_end_time_ms: now_ms,
                        time_to_first_chunk_ms: self.time_to_first_chunk_ms,
                        time_between_chunks_ms: between,
                        response_stream_len: self.received_response_size as u32,
                    },
                ),
                usage: None,
                service: Some(
                    MetadataService { request_id: copy_opt_string(&self.response_request_id), status_code: None },
                ),
            },
        )
    }

    /// One step of filling the buffer. It takes the received chunk exactly when
    /// [Self::needs_event] says so, and returns whether the fill is complete, after which the
    /// caller takes the buffered events.
    pub fn step(&mut self, chunk: Option<ReceivedChunk>) -> (done: bool)
        requires
            !old(self).ended,
            chunk is Some == old(self).peek is None,
            chunk is Some ==> old(self).received_response_size + chunk.unwrap().len <= usize::MAX,
        ensures
            step_spec(*old(self), *final(self), chunk, done),
    {
        let now_ms: i64 = match &chunk {
            Some(c) => c.now_ms,
            None => 0,
        };
        let after_text: Option<String> = match &self.phase {
            FillPhase::AfterText { content } => Some(content.clone()),
            _ => None,
        };
        if let FillPhase::Start = self.phase {
            let seen = self.peek_event(chunk);
            match seen {
                Some(RtsResponseEvent::AssistantResponse { content }) => {
                    self.peek = None;
                    self.phase = FillPhase::AfterText { content };
                },
                _ => {
                    self.phase = FillPhase::Body;
                },
            }
            false
        } else if let Some(content) = after_text {
            let seen = self.peek_event(chunk);
            match seen {
                Some(RtsResponseEvent::CodeReference) => {},
                _ => {
                    self.buf.push(
                        StreamResult::Event(
                            StreamEvent::ContentBlockDelta(
                                ContentBlockDeltaEvent {
                                    delta: ContentBlockDelta::Text(content),
                                    content_block_index: None,
                                },
                            ),
                        ),
                    );
                },
            }
            self.phase = FillPhase::Body;
            false
        } else {
            let ev = self.next_event(chunk);
            match ev {
                Some(RtsResponseEvent::AssistantResponse { content }) => {
                    self.buf.push(
                        StreamResult::Event(
                            StreamEvent::ContentBlockDelta(
                                ContentBlockDeltaEvent {
                                    delta: ContentBlockDelta::Text(content),
                                    content_block_index: None,
                                },
                            ),
                        ),
                    );
                    self.phase = FillPhase::Start;
                    true
                },
                Some(RtsResponseEvent::ToolUse { tool_use_id, name, input, stop }) => {
                    self.tool_use_seen = true;
                    if self.parsing_tool_use.is_none() {
                        self.parsing_tool_use = Some((tool_use_id.clone(), name.clone()));
                        self.buf.push(
                            StreamResult::Event(
                                StreamEvent::ContentBlockStart(
                                    ContentBlockStartEvent {
                                        content_block_start: Some(
                                            ContentBlockStart::ToolUse(ToolUseBlockStart { tool_use_id, name }),
                                        ),
                                        content_block_index: None,
                                    },
                                ),
                            ),
                        );
                    }
                    if let Some(input) = input {
                        self.buf.push(
                            StreamResult::Event(
                                StreamEvent::ContentBlockDelta(
                                    ContentBlockDeltaEvent {
                                        delta: ContentBlockDelta::ToolUse(ToolUseBlockDelta { input }),
                                        content_block_index: None,
                                    },
                                ),
                            ),
                        );
                    }
                    if let Some(true) = stop {
                        self.buf.push(
                            StreamResult::Event(
                                StreamEvent::ContentBlockStop(ContentBlockStopEvent { content_block_index: None }),
                            ),
                        );
                        self.parsing_tool_use = None;
                    }
                    self.phase = FillPhase::Start;
                    proof {
                        assert(self.buf@ =~= buf_after_receive(*old(self), chunk) + tool_use_results(
                            old(self).parsing_tool_use,
                            tool_use_id,
                            name,
                            input,
                            stop,
                        ));
                    }
                    true
                },
                Some(_) => false,
                None => {
                    self.ended = true;
                    let stop_reason = if self.tool_use_seen {
                        StopReason::ToolUse
                    } else {
                        StopReason::EndTurn
                    };
                    let ghost pre0 = self.buf@;
                    self.buf.push(StreamResult::Event(StreamEvent::MessageStop(MessageStopEvent { stop_reason })));
                    let meta = self.make_metadata(now_ms);
                    self.buf.push(StreamResult::Event(meta));
                    self.phase = FillPhase::Start;
                    proof {
                        assert(self.buf@.subrange(0, pre0.len() as int) =~= pre0);
                    }
                    true
                },
            }
        }
    }

    /// Takes the buffered events, leaving the buffer empty.
    pub fn take_events(&mut self) -> (res: Vec<StreamResult>)
        ensures
            res@ == old(self).buf@,
            final(self).buf@.len() == 0,
            *final(self) == (ResponseParser { buf: final(self).buf, ..*old(self) }),
    {
        let mut taken: Vec<StreamResult> = Vec::new();
        std::mem::swap(&mut taken, &mut self.buf);
        taken
    }

    /// The stream error for a failed receive, carrying the request id and the failure.
    pub fn recv_error_to_stream_error(&self, err: RecvError) -> (res: StreamError)
        ensures
            is_recv_stream_error(res, self.request_id, err),
    {
        match err {
            RecvError::Timeout { source, duration_ms } => StreamError::new(
                StreamErrorKind::StreamTimeout { duration_ms },
            ).set_original_request_id(copy_opt_string(&self.request_id)).with_source(
                StreamErrorSource::ApiClient(source),
            ),
            RecvError::Other { source } => {
                let mut text = String::from_str("An unexpected error occurred during the response stream: ");
                text.append(source.as_str());
                proof {
                    reveal_strlit("An unexpected error occurred during the response stream: ");
                }
                StreamError::new(StreamErrorKind::Other(text)).set_original_request_id(
                    copy_opt_string(&self.request_id),
                ).with_source(StreamErrorSource::ApiClient(source))
            },
        }
    }

    /// Ends the stream on a failed receive: the metadata, then the error.
    pub fn on_recv_error(&mut self, err: RecvError, now_ms: i64)
        ensures
            final(self).buf@.len() == old(self).buf@.len() + 2,
            final(self).buf@.subrange(0, old(self).buf@.len() as int) == old(self).buf@,
            is_metadata_of(final(self).buf@[old(self).buf@.len() as int], *old(self), now_ms),
            match final(self).buf@[old(self).buf@.len() + 1int] {
                StreamResult::Error(e) => is_recv_stream_error(e, old(self).request_id, err),
                _ => false,
            },
            *final(self) == (ResponseParser { buf: final(self).buf, ..*old(self) }),
    {
        let ghost pre = self.buf@;
        let meta = self.make_metadata(now_ms);
        let e = self.recv_error_to_stream_error(err);
        self.buf.push(StreamResult::Event(meta));
        self.buf.push(StreamResult::Error(e));
        proof {
            assert(self.buf@.subrange(0, pre.len() as int) =~= pre);
        }
    }

    /// Ends the stream on cancellation: the metadata, then an interruption error.
    pub fn on_cancel(&mut self, now_ms: i64)
        ensures
            final(self).buf@.len() == old(self).buf@.len() + 2,
            final(self).buf@.subrange(0, old(self).buf@.len() as int) == old(self).buf@,
            is_metadata_of(final(self).buf@[old(self).buf@.len() as int], *old(self), now_ms),
            final(self).buf@[old(self).buf@.len() + 1int] == StreamResult::Error(interrupted_error()),
            *final(self) == (ResponseParser { buf: final(self).buf, ..*old(self) }),
    {
        let ghost pre = self.buf@;
        let meta = self.make_metadata(now_ms);
        self.buf.push(StreamResult::Event(meta));
        self.buf.push(StreamResult::Error(StreamError::new(StreamErrorKind::Interrupted)));
        proof {
            assert(self.buf@.subrange(0, pre.len() as int) =~= pre);
        }
    }
}

} // verus!
