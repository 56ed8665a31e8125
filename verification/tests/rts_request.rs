use chat_cli::agent_loop::ToolSpec;
use chat_cli::messages::{
    ContentBlock, ImageBlock, ImageFormat, ImageSource, Message, Role, ToolResultBlock, ToolResultContentBlock,
    ToolResultStatus, ToolUseBlock,
};
use chat_cli::rts_request::{
    extract_tool_results_and_images, history_entry, make_conversation_state, ChatMessage, RtsToolResultContent,
};

fn message(role: Role, content: Vec<ContentBlock>) -> Message {
    Message { id: Some(format!("{}-id", role.as_str())), role, content, timestamp: None }
}

fn png(bytes: &[u8]) -> ImageBlock {
    ImageBlock { format: ImageFormat::Png, source: ImageSource::Bytes(bytes.to_vec()) }
}

fn image_bytes(i: &ImageBlock) -> Vec<u8> {
    match &i.source {
        ImageSource::Bytes(b) => b.clone(),
    }
}

fn tool_result_message() -> Message {
    let json: serde_json::Value = serde_json::from_str("{\"lines\": 3}").unwrap();
    message(Role::User, vec![
        ContentBlock::Text("here you go".to_string()),
        ContentBlock::ToolResult(ToolResultBlock {
            tool_use_id: "t1".to_string(),
            status: ToolResultStatus::Success,
            content: vec![
                ToolResultContentBlock::Text("read ok".to_string()),
                ToolResultContentBlock::Image(png(b"inner")),
                ToolResultContentBlock::Json(json),
            ],
        }),
        ContentBlock::Image(png(b"outer")),
    ])
}

#[test]
fn images_are_pulled_out_of_tool_results() {
    let (results, images) = extract_tool_results_and_images(&tool_result_message());
    let results = results.unwrap();
    assert_eq!(results.len(), 1);
    assert_eq!(results[0].tool_use_id, "t1");
    assert_eq!(results[0].status, ToolResultStatus::Success);
    assert_eq!(results[0].content.len(), 2);
    assert!(matches!(&results[0].content[0], RtsToolResultContent::Text(t) if t == "read ok"));
    assert!(matches!(&results[0].content[1], RtsToolResultContent::Json(v) if v["lines"] == 3));
    let images = images.unwrap();
    assert_eq!(images.iter().map(image_bytes).collect::<Vec<_>>(), vec![b"inner".to_vec(), b"outer".to_vec()]);
}

#[test]
fn plain_messages_carry_nothing_extra() {
    let (results, images) = extract_tool_results_and_images(&message(Role::User, vec![ContentBlock::Text("hi".to_string())]));
    assert!(results.is_none());
    assert!(images.is_none());
}

#[test]
fn the_last_message_is_the_next_user_message() {
    let tool_use = ToolUseBlock {
        tool_use_id: "t1".to_string(),
        name: "fs_read".to_string(),
        input: serde_json::from_str("{\"path\": \"a.txt\"}").unwrap(),
    };
    let messages = vec![
        message(Role::User, vec![ContentBlock::Text("read a.txt".to_string())]),
        message(Role::Assistant, vec![ContentBlock::Text("sure".to_string()), ContentBlock::ToolUse(tool_use)]),
        tool_result_message(),
    ];
    let spec = ToolSpec {
        name: "fs_read".to_string(),
        description: "reads files".to_string(),
        input_schema: serde_json::from_str("{\"type\": \"object\"}").unwrap(),
    };
    let st = make_conversation_state("conv-1".to_string(), Some("model-x".to_string()), messages, Some(vec![spec]))
        .unwrap();
    assert_eq!(st.conversation_id.as_deref(), Some("conv-1"));
    let next = &st.user_input_message;
    assert_eq!(next.content, "here you go");
    assert_eq!(next.model_id.as_deref(), Some("model-x"));
    assert_eq!(next.images.as_ref().unwrap().len(), 2);
    let ctx = next.user_input_message_context.as_ref().unwrap();
    assert_eq!(ctx.tools.as_ref().unwrap()[0].name, "fs_read");
    assert_eq!(ctx.tool_results.as_ref().unwrap()[0].tool_use_id, "t1");
    let history = st.history.unwrap();
    assert_eq!(history.len(), 2);
    match &history[0] {
        ChatMessage::UserInputMessage(u) => {
            assert_eq!(u.content, "read a.txt");
            assert!(u.user_input_message_context.is_none());
            assert!(u.images.is_none());
            assert!(u.model_id.is_none());
        },
        other => panic!("unexpected {:?}", other),
    }
    match &history[1] {
        ChatMessage::AssistantResponseMessage(a) => {
            assert_eq!(a.message_id.as_deref(), Some("assistant-id"));
            assert_eq!(a.content, "sure");
            assert_eq!(a.tool_uses.as_ref().unwrap()[0].name, "fs_read");
        },
        other => panic!("unexpected {:?}", other),
    }
}

#[test]
fn history_user_messages_keep_their_tool_results() {
    match history_entry(&tool_result_message()) {
        ChatMessage::UserInputMessage(u) => {
            let ctx = u.user_input_message_context.unwrap();
            assert!(ctx.tools.is_none());
            assert_eq!(ctx.tool_results.unwrap().len(), 1);
            assert!(u.images.is_none());
        },
        other => panic!("unexpected {:?}", other),
    }
}

#[test]
fn conversations_must_end_with_the_user() {
    match make_conversation_state("c".to_string(), None, vec![], None) {
        Err(e) => assert_eq!(e, "Empty conversation"),
        Ok(_) => panic!("expected an error"),
    }
    let messages = vec![message(Role::Assistant, vec![ContentBlock::Text("hello".to_string())])];
    match make_conversation_state("c".to_string(), None, messages, None) {
        Err(e) => assert_eq!(e, "Next message must be from the user, instead found: assistant"),
        Ok(_) => panic!("expected an error"),
    }
}
