use chat_cli::agent_loop::{MockModel, MockResponse, SendRequestArgs, StreamEvent, StreamResult};
use chat_cli::messages::{ContentBlockDelta, ContentBlockDeltaEvent, MessageStartEvent, MessageStopEvent, Role, StopReason};

fn make_mock_response(input: &str) -> Vec<StreamResult> {
    vec![
        StreamResult::Event(StreamEvent::MessageStart(MessageStartEvent { role: Role::Assistant })),
        StreamResult::Event(StreamEvent::ContentBlockDelta(ContentBlockDeltaEvent {
            delta: ContentBlockDelta::Text(input.to_string()),
            content_block_index: None,
        })),
        StreamResult::Event(StreamEvent::MessageStop(MessageStopEvent {
            stop_reason: StopReason::EndTurn,
        })),
    ]
}

fn assert_contains_text(events: &[StreamResult], expected: &str) {
    assert!(events.iter().any(
        |evt| matches!(evt, StreamResult::Event(StreamEvent::ContentBlockDelta(ContentBlockDeltaEvent {
            delta: ContentBlockDelta::Text(text),
            ..
        })) if text.contains(expected))
    ));
}

#[test]
fn test_mock_model() {
    let mut model = MockModel::new()
        .with_response(MockResponse::from_items(make_mock_response("first")))
        .with_response(MockResponse::from_items(make_mock_response("second")));

    let result = model.next_response(SendRequestArgs::new(vec![], None, None));
    assert_contains_text(&result.items, "first");

    let result = model.next_response(SendRequestArgs::new(vec![], None, None));
    assert_contains_text(&result.items, "second");
    assert_eq!(model.received_requests.len(), 2);
}
