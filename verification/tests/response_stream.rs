use chat_cli::agent_loop::{LoopEndReason, StreamEvent, StreamResult};
use chat_cli::cli::run_json_output;
use chat_cli::messages::{
    ContentBlock, ContentBlockDelta, ContentBlockStart, Message, Role, StopReason, ToolResultBlock, ToolResultStatus,
    ToolUseBlock,
};
use chat_cli::rts_parser::{recv_error, RecvError, ReceivedChunk, ResponseParser, RtsResponseEvent};
use chat_cli::stream_error::{StreamErrorKind, StreamErrorSource};

fn chunk(event: Option<RtsResponseEvent>, len: usize) -> ReceivedChunk {
    ReceivedChunk { event, len, wait_ms: 5, since_request_ms: 40, now_ms: 1_000 }
}

fn text(s: &str) -> RtsResponseEvent {
    RtsResponseEvent::AssistantResponse { content: s.to_string() }
}

fn tool(input: Option<&str>, stop: Option<bool>) -> RtsResponseEvent {
    RtsResponseEvent::ToolUse {
        tool_use_id: "id1".to_string(),
        name: "fs_read".to_string(),
        input: input.map(|s| s.to_string()),
        stop,
    }
}

/// Runs the parser over the events, then the end of the stream, as a caller would.
fn run(events: Vec<RtsResponseEvent>) -> (Vec<StreamResult>, ResponseParser) {
    let mut parser = ResponseParser::new(Some("req".to_string()), Some("resp".to_string()), 7);
    let mut pending = events.into_iter();
    let mut out = Vec::new();
    let mut steps = 0;
    while !parser.ended {
        steps += 1;
        assert!(steps < 1000, "parser did not end");
        let c = if parser.needs_event() {
            match pending.next() {
                Some(ev) => Some(chunk(Some(ev), 3)),
                None => Some(chunk(None, 0)),
            }
        } else {
            None
        };
        if parser.step(c) {
            out.extend(parser.take_events());
        }
    }
    (out, parser)
}

fn texts(out: &[StreamResult]) -> Vec<String> {
    out.iter()
        .filter_map(|r| match r {
            StreamResult::Event(StreamEvent::ContentBlockDelta(d)) => match &d.delta {
                ContentBlockDelta::Text(t) => Some(t.clone()),
                _ => None,
            },
            _ => None,
        })
        .collect()
}

fn stop_reason(out: &[StreamResult]) -> Option<StopReason> {
    out.iter().find_map(|r| match r {
        StreamResult::Event(StreamEvent::MessageStop(m)) => Some(m.stop_reason),
        _ => None,
    })
}

#[test]
fn text_stream_starts_and_ends_the_message() {
    let (out, parser) = run(vec![text("Hello"), text(" world")]);
    assert!(matches!(&out[0], StreamResult::Event(StreamEvent::MessageStart(m)) if m.role == Role::Assistant));
    assert_eq!(texts(&out), vec!["Hello".to_string(), " world".to_string()]);
    assert_eq!(stop_reason(&out), Some(StopReason::EndTurn));
    match out.last().unwrap() {
        StreamResult::Event(StreamEvent::Metadata(m)) => {
            let metrics = m.metrics.as_ref().unwrap();
            assert_eq!(metrics.request_start_time_ms, 7);
            assert_eq!(metrics.request_end_time_ms, 1_000);
            assert_eq!(metrics.time_to_first_chunk_ms, Some(40));
            assert_eq!(metrics.response_stream_len, 6);
            assert_eq!(m.service.as_ref().unwrap().request_id.as_deref(), Some("resp"));
        },
        other => panic!("expected metadata, got {:?}", other),
    }
    assert!(parser.ended);
    assert_eq!(parser.received_response_size, 6);
}

#[test]
fn text_followed_by_code_reference_is_dropped() {
    let (out, _) = run(vec![text("dropped"), RtsResponseEvent::CodeReference, text("kept")]);
    assert_eq!(texts(&out), vec!["kept".to_string()]);
}

#[test]
fn other_events_are_skipped() {
    let (out, _) = run(vec![RtsResponseEvent::Other, text("a"), RtsResponseEvent::Other]);
    assert_eq!(texts(&out), vec!["a".to_string()]);
    assert_eq!(stop_reason(&out), Some(StopReason::EndTurn));
}

#[test]
fn tool_use_pieces_become_one_block() {
    let (out, parser) = run(vec![tool(Some("{\"path\":"), None), tool(Some("\"a\"}"), Some(true))]);
    let kinds: Vec<&str> = out
        .iter()
        .map(|r| match r {
            StreamResult::Event(StreamEvent::MessageStart(_)) => "start",
            StreamResult::Event(StreamEvent::ContentBlockStart(_)) => "block_start",
            StreamResult::Event(StreamEvent::ContentBlockDelta(_)) => "delta",
            StreamResult::Event(StreamEvent::ContentBlockStop(_)) => "block_stop",
            StreamResult::Event(StreamEvent::MessageStop(_)) => "stop",
            StreamResult::Event(StreamEvent::Metadata(_)) => "metadata",
            StreamResult::Error(_) => "error",
        })
        .collect();
    assert_eq!(kinds, vec!["start", "block_start", "delta", "delta", "block_stop", "stop", "metadata"]);
    match &out[1] {
        StreamResult::Event(StreamEvent::ContentBlockStart(s)) => match &s.content_block_start {
            Some(ContentBlockStart::ToolUse(t)) => {
                assert_eq!(t.tool_use_id, "id1");
                assert_eq!(t.name, "fs_read");
            },
            None => panic!("missing block start"),
        },
        other => panic!("unexpected {:?}", other),
    }
    assert_eq!(stop_reason(&out), Some(StopReason::ToolUse));
    assert!(parser.tool_use_seen);
    assert!(parser.parsing_tool_use.is_none());
}

#[test]
fn empty_stream_still_has_start_stop_and_metadata() {
    let (out, parser) = run(vec![]);
    assert_eq!(out.len(), 3);
    assert!(matches!(out[0], StreamResult::Event(StreamEvent::MessageStart(_))));
    assert_eq!(stop_reason(&out), Some(StopReason::EndTurn));
    assert!(matches!(out[2], StreamResult::Event(StreamEvent::Metadata(_))));
    assert_eq!(parser.time_between_chunks_ms.len(), 2);
}

#[test]
fn receive_failures_are_classified_by_wait() {
    assert!(matches!(recv_error("boom".to_string(), 59_000), RecvError::Timeout { duration_ms: 59_000, .. }));
    assert!(matches!(recv_error("boom".to_string(), 58_999), RecvError::Other { .. }));
}

#[test]
fn receive_failure_ends_with_metadata_and_error() {
    let mut parser = ResponseParser::new(Some("req".to_string()), None, 0);
    parser.on_recv_error(recv_error("boom".to_string(), 10), 5);
    let out = parser.take_events();
    assert_eq!(out.len(), 2);
    assert!(matches!(out[0], StreamResult::Event(StreamEvent::Metadata(_))));
    match &out[1] {
        StreamResult::Error(e) => {
            assert_eq!(
                e.kind,
                StreamErrorKind::Other("An unexpected error occurred during the response stream: boom".to_string())
            );
            assert_eq!(e.original_request_id.as_deref(), Some("req"));
            assert!(matches!(&e.source, Some(StreamErrorSource::ApiClient(s)) if s == "boom"));
        },
        other => panic!("unexpected {:?}", other),
    }
    let timeout = parser.recv_error_to_stream_error(recv_error("slow".to_string(), 60_000));
    assert_eq!(timeout.kind, StreamErrorKind::StreamTimeout { duration_ms: 60_000 });
}

#[test]
fn cancellation_ends_with_metadata_and_interruption() {
    let mut parser = ResponseParser::new(None, None, 0);
    assert!(!parser.step(Some(chunk(Some(text("partial")), 4))));
    parser.on_cancel(9);
    let out = parser.take_events();
    assert!(parser.take_events().is_empty());
    assert_eq!(out.len(), 3);
    assert!(matches!(out[0], StreamResult::Event(StreamEvent::MessageStart(_))));
    assert!(matches!(out[1], StreamResult::Event(StreamEvent::Metadata(_))));
    match &out[2] {
        StreamResult::Error(e) => assert_eq!(e.kind, StreamErrorKind::Interrupted),
        other => panic!("unexpected {:?}", other),
    }
}

#[test]
fn messages_get_fresh_ids_and_list_their_tool_blocks() {
    let use_block = ToolUseBlock {
        tool_use_id: "u1".to_string(),
        name: "fs_read".to_string(),
        input: serde_json::Value::Null,
    };
    let result_block = ToolResultBlock { tool_use_id: "u1".to_string(), content: vec![], status: ToolResultStatus::Success };
    let a = Message::new(
        Role::Assistant,
        vec![ContentBlock::Text("hi".to_string()), ContentBlock::ToolUse(use_block)],
        Some(5),
    );
    let b = Message::new(Role::User, vec![ContentBlock::ToolResult(result_block)], None);
    assert_eq!(a.id.as_ref().unwrap().len(), 36);
    assert_ne!(a.id, b.id);
    assert_eq!(a.timestamp, Some(5));
    assert_eq!(a.tool_uses_iter().len(), 1);
    assert_eq!(a.tool_uses_iter()[0].name, "fs_read");
    assert!(a.tool_results_iter().is_empty());
    assert_eq!(b.tool_results_iter()[0].tool_use_id, "u1");
}

#[test]
fn run_summaries() {
    let done = Some(Ok::<Message, String>(Message::new(
        Role::Assistant,
        vec![ContentBlock::Text("answer".to_string())],
        None,
    )));
    let ok = run_json_output(LoopEndReason::UserTurnEnd, &done, 2, 1, Some(1500));
    assert!(!ok.is_error);
    assert_eq!(ok.result.as_deref(), Some("answer"));
    assert_eq!((ok.number_of_requests, ok.number_of_cycles, ok.duration_ms), (2, 1, 1500));
    let failed = run_json_output(LoopEndReason::Error, &done, 1, 0, None);
    assert!(failed.is_error);
    assert_eq!(failed.duration_ms, 0);
    let errored: Option<Result<Message, String>> = Some(Err("boom".to_string()));
    let e = run_json_output(LoopEndReason::UserTurnEnd, &errored, 1, 0, None);
    assert!(e.is_error);
    assert!(e.result.is_none());
}
