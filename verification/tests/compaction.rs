use chat_cli::agent_loop::SendRequestArgs;
use chat_cli::compact::CompactStrategy;
use chat_cli::messages::{
    ContentBlock, ImageBlock, ImageFormat, ImageSource, Message, Role, ToolResultBlock, ToolResultContentBlock,
    ToolResultStatus,
};

const TRUNCATED_SUFFIX: &str = "...truncated due to length";
const DIGITS: &str = "01234567890123456789012345678901234567890123456789";

fn image() -> ImageBlock {
    ImageBlock { format: ImageFormat::Jpeg, source: ImageSource::Bytes(DIGITS.as_bytes().to_vec()) }
}

fn message(role: Role, content: Vec<ContentBlock>) -> Message {
    Message { id: None, role, content, timestamp: None }
}

/// The messages of the original test data, built by calls.
fn test_messages() -> Vec<Message> {
    let json: serde_json::Value = serde_json::from_str(&format!("{{\"testkey\": \"{}\"}}", DIGITS)).unwrap();
    vec![
        message(Role::User, vec![ContentBlock::Text(DIGITS.to_string()), ContentBlock::Image(image())]),
        message(Role::Assistant, vec![ContentBlock::Text(DIGITS.to_string())]),
        message(Role::User, vec![ContentBlock::ToolResult(ToolResultBlock {
            tool_use_id: "testid".to_string(),
            status: ToolResultStatus::Success,
            content: vec![
                ToolResultContentBlock::Text(DIGITS.to_string()),
                ToolResultContentBlock::Json(json),
                ToolResultContentBlock::Image(image()),
            ],
        })]),
    ]
}

#[test]
fn test_compact_strategy_truncates_messages() {
    const TRUNCATED_TEXT: &str = "...truncated";

    // GIVEN
    let strategy = CompactStrategy {
        truncate_large_messages: true,
        max_message_length: 40,
    };
    let mut request = SendRequestArgs {
        messages: test_messages(),
        tool_specs: None,
        system_prompt: None,
    };

    // WHEN
    strategy.apply_strategy(&mut request);

    // THEN

    // assertions for first user message
    // text should be truncated, image left alone.
    let user_msg = request.messages.first().unwrap();
    let text = user_msg.content[0].text().unwrap();
    assert!(
        text.len() <= strategy.max_message_length,
        "len should be <= {}, instead found: {}",
        strategy.max_message_length,
        text
    );
    assert!(
        text.ends_with(TRUNCATED_SUFFIX),
        "should end with {}, instead found: {}",
        TRUNCATED_SUFFIX,
        text
    );
    user_msg.content[1].image().expect("should be an image");

    // assertions for second user message
    // multiple items are truncated - standard truncated suffix shouldn't entirely fit.
    let tool_result = request.messages[2].content[0].tool_result().unwrap();
    let tool_result_text = tool_result.content[0].text().unwrap();
    assert!(
        tool_result_text.len() <= strategy.max_message_length,
        "len should be <= {}, instead found: {}",
        strategy.max_message_length,
        tool_result_text
    );
    assert!(
        tool_result_text.contains(TRUNCATED_TEXT),
        "expected to find {}, instead found: {}",
        TRUNCATED_TEXT,
        tool_result_text
    );
    let tool_result_json = tool_result.content[1]
        .text()
        .expect("json should have been converted to text");
    assert!(
        tool_result_json.len() <= strategy.max_message_length,
        "len should be <= {}, instead found: {}",
        strategy.max_message_length,
        tool_result_json
    );
    assert!(
        tool_result_json.contains(TRUNCATED_TEXT),
        "expected to find {}, instead found: {}",
        TRUNCATED_TEXT,
        tool_result_json
    );
}

#[test]
fn summary_prompts_keep_their_text() {
    let default_prompt = "[SYSTEM NOTE: This is an automated summarization request, not from the user]\n\n\
        FORMAT REQUIREMENTS: Create a structured, concise summary in bullet-point format. DO NOT respond conversationally. DO NOT address the user directly.\n\n\
        Your task is to create a structured summary document containing:\n\
        1) A bullet-point list of key topics/questions covered\n\
        2) Bullet points for all significant tools executed and their results\n\
        3) Bullet points for any code or technical information shared\n\
        4) A section of key insights gained\n\n\
        5) REQUIRED: the ID of the currently loaded todo list, if any\n\n\
        FORMAT THE SUMMARY IN THIRD PERSON, NOT AS A DIRECT RESPONSE. Example format:\n\n\
        ## CONVERSATION SUMMARY\n\
        * Topic 1: Key information\n\
        * Topic 2: Key information\n\n\
        ## TOOLS EXECUTED\n\
        * Tool X: Result Y\n\n\
        ## TODO ID\n\
        * <id>\n\n\
        Remember this is a DOCUMENT not a chat response.\n\
        FILTER OUT CHAT CONVENTIONS (greetings, offers to help, etc).";
    assert_eq!(chat_cli::compact::create_summary_prompt(None, None), default_prompt);
    let custom = chat_cli::compact::create_summary_prompt(Some("focus on tests".to_string()), None);
    assert!(custom.starts_with("[SYSTEM NOTE: This is an automated summarization request, not from the user]"));
    assert!(custom.contains("\n\nIMPORTANT CUSTOM INSTRUCTION: focus on tests\n\nYour task"));
    assert!(custom.ends_with(
        "Remember this is a DOCUMENT not a chat response. The custom instruction above modifies what to prioritize.\nFILTER OUT CHAT CONVENTIONS (greetings, offers to help, etc)."
    ));
    let with_summary = chat_cli::compact::create_summary_prompt(None, Some("old"));
    assert!(with_summary.starts_with(default_prompt));
    assert!(with_summary.contains("SUMMARY CONTENT:\nold\n"));
}
