use chat_cli::chat::{ChatCompactStrategy, ChatState, PendingToolUse, WrapMode};
use chat_cli::chat_flow::{
    can_generate_agent, changelog_announcement, greeting, limits_reset_text, session_greeting, read_step, LineRead, ReadStep,
    pre_tool_hook_failures, prompt_step, retry_compaction, recover_from_error, response_end_state, response_recovery, response_wrap_width,
    tool_check_failures, ChatError, PromptStep, RecoveryStep, ResponseFailure, ResponseRecovery, SendMessageError,
    SendMessageFailure, ToolUseCheck, ToolUseFailure, RESPONSE_TIMEOUT_CONTENT,
};
use chat_cli::cli::{run_step, RunEvent, RunStep};
use chat_cli::constants::{
    get_rotating_tips, popular_shortcuts, resume_text, small_screen_popular_shortcuts, small_screen_welcome,
    trust_all_warning, welcome_text, TROUBLE_RESPONDING,
};

fn failure(id: &str, message: &str) -> ToolUseFailure {
    ToolUseFailure { tool_use_id: id.to_string(), message: message.to_string() }
}

fn send_error(source: SendMessageFailure) -> ChatError {
    ChatError::SendMessage(SendMessageError { source, reason_code: "Reason".to_string(), status_code: Some(429) })
}

#[test]
fn failed_checks_become_error_results_in_order() {
    let ids = vec!["a".to_string(), "b".to_string(), "c".to_string()];
    let checks = vec![
        ToolUseCheck::Valid,
        ToolUseCheck::Invalid("path does not exist".to_string()),
        ToolUseCheck::NotFound("No tool with name 'nope'".to_string()),
    ];
    assert_eq!(
        tool_check_failures(&ids, &checks),
        vec![
            failure("b", "Failed to validate tool parameters: path does not exist"),
            failure("c", "No tool with name 'nope'"),
        ]
    );
}

#[test]
fn valid_checks_give_no_error_results() {
    let ids = vec!["a".to_string(), "b".to_string()];
    let checks = vec![ToolUseCheck::Valid, ToolUseCheck::Valid];
    assert!(tool_check_failures(&ids, &checks).is_empty());
}

#[test]
fn only_exit_code_two_blocks_a_tool() {
    let ids = vec!["a".to_string(), "b".to_string()];
    let runs = vec![
        vec![(0, "fine".to_string()), (2, "dangerous command".to_string())],
        vec![(1, "just a warning".to_string())],
    ];
    assert_eq!(
        pre_tool_hook_failures(&ids, &runs),
        vec![failure("a", "PreToolHook blocked the tool execution: dangerous command")]
    );
    let quiet = vec![vec![(0, "ok".to_string())], vec![]];
    assert!(pre_tool_hook_failures(&ids, &quiet).is_empty());
}

#[test]
fn response_failures_are_recovered_from() {
    assert_eq!(
        response_recovery(ResponseFailure::StreamTimeout),
        ResponseRecovery::SplitWork {
            assistant_reply: RESPONSE_TIMEOUT_CONTENT.to_string(),
            next_user_message: "You took too long to respond - try to split up the work into smaller steps.".to_string(),
        }
    );
    assert_eq!(RESPONSE_TIMEOUT_CONTENT, "Response timed out - message took too long to generate");
    assert_eq!(
        response_recovery(ResponseFailure::UnexpectedToolUseEos { tool_use_id: "t1".to_string() }),
        ResponseRecovery::ToolResult(failure(
            "t1",
            "The generated tool was too large, try again but this time split up the work between multiple tool uses"
        ))
    );
    assert_eq!(
        response_recovery(ResponseFailure::ToolValidationError {
            tool_use_id: "t2".to_string(),
            error_message: "expected value at line 1".to_string(),
        }),
        ResponseRecovery::ToolResult(failure(
            "t2",
            "Tool validation failed: expected value at line 1. Please ensure tool arguments are provided as a valid JSON object."
        ))
    );
    assert_eq!(response_recovery(ResponseFailure::Other), ResponseRecovery::Fail);
}

#[test]
fn wrap_width_follows_the_mode() {
    assert_eq!(response_wrap_width(Some(WrapMode::Never), true, 80), None);
    assert_eq!(response_wrap_width(Some(WrapMode::Always), false, 80), Some(80));
    assert_eq!(response_wrap_width(Some(WrapMode::Auto), true, 100), Some(100));
    assert_eq!(response_wrap_width(None, false, 100), None);
}

#[test]
fn response_end_without_tool_uses_prompts_the_user() {
    assert!(matches!(response_end_state(vec![]), ChatState::PromptUser { skip_printing_tools: false }));
}

#[test]
fn prompt_step_in_each_mode() {
    assert_eq!(prompt_step(true, false), PromptStep::Prompt);
    assert_eq!(prompt_step(false, true), PromptStep::Exit);
    assert_eq!(prompt_step(false, false), PromptStep::NeedsApproval);
}

#[test]
fn interruptions_end_the_turn_quietly() {
    let tools = vec![PendingToolUse {
        id: "t1".to_string(),
        name: "fs_write".to_string(),
        trust_name: "fs_write".to_string(),
        accepted: true,
    }];
    let r = recover_from_error(&ChatError::Interrupted { tool_uses: Some(tools) }, true, false, 4);
    assert!(matches!(r.step, RecoveryStep::EndTurn { ref context, display: false } if context == "Tool use was interrupted"));
    assert!(r.abandon_tool_uses);
    let r = recover_from_error(&ChatError::Interrupted { tool_uses: Some(vec![]) }, true, false, 4);
    assert!(!r.abandon_tool_uses);
    let r = recover_from_error(&ChatError::Interrupted { tool_uses: None }, true, false, 4);
    assert!(!r.abandon_tool_uses);
    assert!(r.transcript.is_none());
}

#[test]
fn overflow_compacts_unless_turned_off() {
    let r = recover_from_error(&send_error(SendMessageFailure::ContextWindowOverflow), true, false, 2);
    match r.step {
        RecoveryStep::Continue(ChatState::CompactHistory { prompt, show_summary, strategy }) => {
            assert!(prompt.is_none());
            assert!(!show_summary);
            assert_eq!(strategy, ChatCompactStrategy {
                messages_to_exclude: 0,
                truncate_large_messages: true,
                max_message_length: 25_000,
            });
        },
        other => panic!("unexpected step {:?}", other),
    }
    let r = recover_from_error(&send_error(SendMessageFailure::ContextWindowOverflow), true, false, 10);
    match r.step {
        RecoveryStep::Continue(ChatState::CompactHistory { strategy, .. }) => assert_eq!(strategy, ChatCompactStrategy::default()),
        other => panic!("unexpected step {:?}", other),
    }
    let r = recover_from_error(&send_error(SendMessageFailure::ContextWindowOverflow), true, true, 10);
    assert!(
        matches!(r.step, RecoveryStep::EndTurn { ref context, display: false } if context == "The conversation history has overflowed")
    );
}

#[test]
fn quota_and_limits() {
    let r = recover_from_error(&send_error(SendMessageFailure::QuotaBreach), true, false, 3);
    assert!(matches!(r.step, RecoveryStep::EndTurn { ref context, display: false } if context == TROUBLE_RESPONDING));
    assert_eq!(r.transcript.as_deref(), Some("Request quota exceeded. Please wait a moment and try again."));
    let r = recover_from_error(&send_error(SendMessageFailure::MonthlyLimitReached), true, false, 3);
    assert!(matches!(r.step, RecoveryStep::Continue(ChatState::PromptUser { skip_printing_tools: false })));
    let r = recover_from_error(&ChatError::CompactHistoryFailure, true, false, 3);
    assert!(
        matches!(r.step, RecoveryStep::EndTurn { ref context, display: true } if context == "Unable to compact the conversation history")
    );
    let r = recover_from_error(&ChatError::Custom("boom".to_string()), true, false, 3);
    assert!(matches!(r.step, RecoveryStep::EndTurn { ref context, display: true } if context == TROUBLE_RESPONDING));
}

#[test]
fn unavailable_model() {
    let overloaded = send_error(SendMessageFailure::ModelOverloaded { request_id: Some("req-7".to_string()) });
    let r = recover_from_error(&overloaded, true, false, 3);
    assert!(matches!(r.step, RecoveryStep::Continue(ChatState::RetryModelOverload)));
    assert_eq!(r.transcript.as_deref(), Some("Model unavailable (Request ID: req-7)"));
    let r = recover_from_error(&overloaded, false, false, 3);
    assert!(matches!(r.step, RecoveryStep::EndTurn { display: false, .. }));
    assert_eq!(
        r.transcript.as_deref(),
        Some(
            "The model you've selected is temporarily unavailable. Please relaunch with '--model <model_id>' to use a different model.\n    Request ID: req-7\n\n"
        )
    );
    let anonymous = send_error(SendMessageFailure::ModelOverloaded { request_id: None });
    assert!(recover_from_error(&anonymous, true, false, 3).transcript.is_none());
}

#[test]
fn error_codes() {
    let e = send_error(SendMessageFailure::QuotaBreach);
    assert_eq!(e.status_code(), Some(429));
    assert_eq!(e.reason_code(), "Reason");
    assert_eq!(ChatError::Std("io".to_string()).reason_code(), "StdIoError");
    assert_eq!(ChatError::Interrupted { tool_uses: None }.reason_code(), "Interrupted");
    assert_eq!(ChatError::NonInteractiveToolApproval.reason_code(), "NonInteractiveToolApproval");
    assert_eq!(ChatError::NonInteractiveToolApproval.status_code(), None);
    let client = ChatError::Client { reason_code: "AccessDenied".to_string(), status_code: Some(403) };
    assert_eq!(client.status_code(), Some(403));
    assert_eq!(client.reason_code(), "AccessDenied");
}

#[test]
fn compaction_retries_leave_out_then_truncate_then_fail() {
    let start = ChatCompactStrategy::default();
    let first = retry_compaction(start, 5).unwrap();
    assert_eq!(first, ChatCompactStrategy { messages_to_exclude: 1, ..start });
    let second = retry_compaction(first, 5).unwrap();
    assert_eq!(second, ChatCompactStrategy {
        messages_to_exclude: 1,
        truncate_large_messages: true,
        max_message_length: 25_000,
    });
    assert_eq!(retry_compaction(second, 5), None);
}

#[test]
fn short_histories_truncate_at_once() {
    let start = ChatCompactStrategy::default();
    let first = retry_compaction(start, 2).unwrap();
    assert_eq!(first, ChatCompactStrategy {
        messages_to_exclude: 0,
        truncate_large_messages: true,
        max_message_length: 25_000,
    });
    assert_eq!(retry_compaction(first, 2), None);
}

#[test]
fn wide_screens_get_the_full_greeting() {
    let g = greeting(false, 120, 23, false);
    assert_eq!(g.welcome, welcome_text());
    assert_eq!(g.tip, get_rotating_tips()[3]);
    assert!(g.tip_boxed);
    assert_eq!(g.shortcuts, popular_shortcuts());
    assert_eq!(g.rule_width, 80);
    assert!(g.trust_all_notice.is_none());
}

#[test]
fn narrow_screens_and_resumed_conversations() {
    let g = greeting(false, 79, 0, true);
    assert_eq!(g.welcome, small_screen_welcome());
    assert_eq!(g.tip, get_rotating_tips()[0]);
    assert!(!g.tip_boxed);
    assert_eq!(g.shortcuts, small_screen_popular_shortcuts());
    assert_eq!(g.rule_width, 0);
    assert_eq!(g.trust_all_notice, Some(format!("{}\n\n", trust_all_warning())));
    let g = greeting(true, 79, 19, true);
    assert_eq!(g.welcome, resume_text());
    assert_eq!(g.tip, get_rotating_tips()[19]);
    let g = greeting(true, 100, 19, true);
    assert_eq!(g.welcome, resume_text());
    assert_eq!(g.trust_all_notice, Some(format!("{}\n\n\n", trust_all_warning())));
}

#[test]
fn agents_need_a_name_and_a_description() {
    assert!(can_generate_agent("diff-helper", "looks at diffs"));
    assert!(!can_generate_agent("  ", "looks at diffs"));
    assert!(!can_generate_agent("bot", "\t\n"));
}

#[test]
fn reading_the_user_line() {
    assert_eq!(read_step(LineRead::Line("  \t".to_string()), false, false), ReadStep::Reprompt);
    assert_eq!(read_step(LineRead::Line("hello".to_string()), true, false), ReadStep::Accept("hello".to_string()));
    assert_eq!(read_step(LineRead::Failed, false, false), ReadStep::Exit);
    assert_eq!(read_step(LineRead::Interrupted, false, true), ReadStep::Exit);
}

#[test]
fn two_interruptions_in_a_row_exit() {
    let first = read_step(LineRead::Interrupted, false, false);
    assert_eq!(first, ReadStep::WarnAndReprompt);
    let second = read_step(LineRead::Interrupted, first == ReadStep::WarnAndReprompt, false);
    assert_eq!(second, ReadStep::Exit);
}

#[test]
fn run_loop_steps() {
    assert_eq!(run_step(RunEvent::EndTurn, false), RunStep::Finish);
    assert_eq!(run_step(RunEvent::Other, false), RunStep::Continue);
    assert_eq!(
        run_step(RunEvent::StopWithError { error: "Throttled".to_string() }, true),
        RunStep::Fail("agent encountered an error: Throttled".to_string())
    );
    let request = RunEvent::ApprovalRequest { id: "a1".to_string(), tool_use: "fs_write".to_string() };
    assert_eq!(run_step(request.clone(), true), RunStep::Approve("a1".to_string()));
    assert_eq!(run_step(request, false), RunStep::Fail("Tool approval is required: fs_write".to_string()));
}

#[test]
fn the_changelog_shows_twice_per_version() {
    let v = "1.16.0";
    let first = changelog_announcement(v, &None, 0);
    assert_eq!(first, Some(1));
    let second = changelog_announcement(v, &Some(v.to_string()), first.unwrap());
    assert_eq!(second, Some(2));
    assert_eq!(changelog_announcement(v, &Some(v.to_string()), second.unwrap()), None);
    assert_eq!(changelog_announcement("1.17.0", &Some(v.to_string()), 2), Some(1));
}

#[test]
fn a_session_greets_with_one_of_the_tips() {
    let g = session_greeting(false, 120, false);
    assert_eq!(g.welcome, welcome_text());
    assert!(get_rotating_tips().contains(&g.tip));
}

#[test]
fn limits_reset_next_month() {
    assert_eq!(limits_reset_text(3), "The limits reset on 04/01.");
    assert_eq!(limits_reset_text(9), "The limits reset on 10/01.");
    assert_eq!(limits_reset_text(12), "The limits reset on 01/01.");
}
