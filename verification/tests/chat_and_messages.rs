use std::str::FromStr;

use chat_cli::chat::{
    approve_tool_uses, classify_user_input, does_input_reference_file, editor_command, process_editor_content, trim,
    ApprovalStep, ChatArgs, ChatState, InputAction, PendingToolUse, ToolVerdict,
};
use chat_cli::messages::ImageFormat;

fn check_ser_deser(variant: ImageFormat, text: &str) {
    let quoted = format!("\"{}\"", text);
    assert_eq!(quoted, serde_json::to_string(variant.as_str()).unwrap());
    let parsed: String = serde_json::from_str(&quoted).unwrap();
    assert_eq!(Some(variant), ImageFormat::from_name(&parsed));
    assert_eq!(variant, ImageFormat::from_str(text).unwrap());
    assert_eq!(text, variant.as_str().to_string());
}

#[test]
fn test_image_format_ser_deser() {
    check_ser_deser(ImageFormat::Gif, "gif");
    check_ser_deser(ImageFormat::Png, "png");
    check_ser_deser(ImageFormat::Webp, "webp");
    check_ser_deser(ImageFormat::Jpeg, "jpeg");
    assert_eq!(
        ImageFormat::from_str("jpg").unwrap(),
        ImageFormat::Jpeg,
        "expected 'jpg' to parse to {}",
        ImageFormat::Jpeg.as_str()
    );
}

#[test]
fn test_editor_content_processing() {
    let cases = vec![
        ("My content", "My content"),
        ("My content with newline\n", "My content with newline"),
        ("", ""),
    ];

    for (input, expected) in cases {
        let processed = process_editor_content(input);
        assert_eq!(processed, expected.trim().to_string(), "Failed for input: {}", input);
    }
}

#[test]
fn test_output_format_default() {
    let args = ChatArgs::default();
    assert_eq!(args.output_format, None);
}

#[test]
fn test_does_input_reference_file() {
    let tests = &[
        (
            r"/Users/user/Desktop/Screenshot\ 2025-06-30\ at\ 2.13.34 PM.png read this image for me",
            true,
        ),
        ("/path/to/file.json", true),
        ("/save output.json", false),
        ("~/does/not/start/with/slash", false),
    ];
    for (input, expected) in tests {
        let actual = does_input_reference_file(input).is_some();
        assert_eq!(actual, *expected, "expected {} for input {}", expected, input);
    }
}

#[test]
fn file_reference_keeps_input_without_slash() {
    match does_input_reference_file("/path/to/file.json") {
        Some(ChatState::HandleInput { input }) => assert_eq!(input, "path/to/file.json"),
        other => panic!("unexpected {:?}", other),
    }
}

#[test]
fn trim_matches_std_trim() {
    for s in ["  a b  ", "\t\n x\r\n", "", "   ", "\u{3000}wide\u{2003}", "no-trim"] {
        assert_eq!(trim(s), s.trim());
    }
}

#[test]
fn editor_command_splits_words() {
    let (bin, args) = editor_command("code --wait").unwrap();
    assert_eq!(bin, "code");
    assert_eq!(args, vec!["--wait".to_string()]);
    assert_eq!(editor_command("").unwrap_err(), "EDITOR environment variable is empty");
    assert_eq!(editor_command("vim \"unclosed").unwrap_err(), "Failed to parse EDITOR command");
}

#[test]
fn user_input_is_classified() {
    match classify_user_input("  /compact --show-summary ", false) {
        InputAction::SlashCommand { args } => assert_eq!(args, vec!["compact".to_string(), "--show-summary".to_string()]),
        other => panic!("unexpected {:?}", other),
    }
    match classify_user_input("/tmp/notes.md summarize", false) {
        InputAction::State(ChatState::HandleInput { input }) => assert_eq!(input, "tmp/notes.md summarize"),
        other => panic!("unexpected {:?}", other),
    }
    match classify_user_input("@review src \"two words\"", false) {
        InputAction::PromptCommand { orig_input, name, arguments } => {
            assert_eq!(orig_input, "review src \"two words\"");
            assert_eq!(name, "review");
            assert_eq!(arguments, Some(vec!["src".to_string(), "two words".to_string()]));
        },
        other => panic!("unexpected {:?}", other),
    }
    match classify_user_input("@solo", false) {
        InputAction::PromptCommand { arguments, .. } => assert_eq!(arguments, None),
        other => panic!("unexpected {:?}", other),
    }
    assert!(matches!(classify_user_input("@", false), InputAction::InputError(m) if m == "Prompt name needs to be specified"));
    assert!(matches!(classify_user_input("@'open", false), InputAction::InputError(m) if m == "Error splitting prompt command"));
    assert!(matches!(classify_user_input("!ls -la", false), InputAction::ShellCommand { command } if command == "ls -la"));
    assert!(matches!(classify_user_input("/'unclosed", false), InputAction::UserMessage { message } if message == "/'unclosed"));
    assert!(matches!(classify_user_input(" hello ", false), InputAction::UserMessage { message } if message == " hello "));
}

#[test]
fn replies_to_a_pending_tool_use() {
    assert!(matches!(classify_user_input("y", true), InputAction::ApproveTool { trust: false }));
    assert!(matches!(classify_user_input(" T ", true), InputAction::ApproveTool { trust: true }));
    assert!(matches!(
        classify_user_input("n", true),
        InputAction::AbandonToolUse { message } if message.starts_with("I deny this tool request")
    ));
    assert!(matches!(classify_user_input("use grep", true), InputAction::AbandonToolUse { message } if message == "use grep"));
    assert!(matches!(classify_user_input("y", false), InputAction::UserMessage { .. }));
}

fn pending(name: &str, accepted: bool) -> PendingToolUse {
    PendingToolUse { id: format!("id-{}", name), name: name.to_string(), trust_name: name.to_string(), accepted }
}

#[test]
fn tool_uses_are_approved_in_order() {
    let mut tools = vec![pending("fs_read", false), pending("grep", true), pending("execute_cmd", false)];
    let verdicts = vec![Some(ToolVerdict::Allow), Some(ToolVerdict::Ask), Some(ToolVerdict::Ask)];
    assert_eq!(approve_tool_uses(&mut tools, &verdicts, false), ApprovalStep::AskUser { index: 2 });
    assert!(tools[0].accepted && tools[1].accepted && !tools[2].accepted);
    let mut all = vec![pending("a", false), pending("b", false)];
    assert_eq!(approve_tool_uses(&mut all, &vec![Some(ToolVerdict::Ask), None], true), ApprovalStep::Execute);
    assert!(all.iter().all(|t| t.accepted));
}

#[test]
fn a_denied_tool_use_is_rejected_even_when_all_are_trusted() {
    let mut tools = vec![pending("fs_read", false), pending("fs_write", false)];
    let verdicts = vec![
        Some(ToolVerdict::Allow),
        Some(ToolVerdict::Deny(vec!["/etc/**".to_string(), "*.key".to_string()])),
    ];
    match approve_tool_uses(&mut tools, &verdicts, true) {
        ApprovalStep::Rejected { index, input, rules } => {
            assert_eq!(index, 1);
            assert_eq!(input, "Tool use with fs_write was rejected because the arguments supplied were forbidden");
            assert_eq!(rules, "\n  - /etc/**\n  - *.key");
        },
        other => panic!("unexpected {:?}", other),
    }
    assert!(tools[0].accepted && !tools[1].accepted);
}
