use chat_cli::chat::{approve_tool_uses, ApprovalStep, ChatCompactStrategy, ChatState, InputAction, PendingToolUse, ToolVerdict};
use chat_cli::chat_flow::ChatError;
use chat_cli::messages::ToolResultStatus;
use chat_cli::session::{
    begin_compaction, finish_compaction, ChatSessionState, CompactionOutcome, ConversationAction, SessionStep,
    ToolUseResultBlock,
};

fn tool(id: &str, name: &str, trust_name: &str, accepted: bool) -> PendingToolUse {
    PendingToolUse { id: id.to_string(), name: name.to_string(), trust_name: trust_name.to_string(), accepted }
}

fn session(pending: Option<usize>) -> ChatSessionState {
    ChatSessionState {
        tool_uses: vec![tool("t1", "fs_read", "fs_read", true), tool("t2", "srv___read", "@srv/read", false)],
        pending_tool_index: pending,
        tool_turn_start_ms: Some(5),
    }
}

#[test]
fn trusting_a_pending_tool_accepts_it_and_trusts_its_name() {
    let mut s = session(Some(1));
    let (step, actions) = s.answer_pending_tool(&InputAction::ApproveTool { trust: true }).unwrap();
    assert!(matches!(step, SessionStep::State(ChatState::ExecuteTools)));
    assert!(s.tool_uses[1].accepted);
    assert_eq!(actions.len(), 1);
    assert!(matches!(&actions[0], ConversationAction::TrustTools(names) if names == &vec!["@srv/read".to_string()]));
    let mut s = session(Some(1));
    let (_, actions) = s.answer_pending_tool(&InputAction::ApproveTool { trust: false }).unwrap();
    assert!(s.tool_uses[1].accepted);
    assert!(actions.is_empty());
}

#[test]
fn anything_else_abandons_the_tool_uses() {
    let mut s = session(Some(1));
    let msg = "I deny this tool request. Ask a follow up question clarifying the expected action".to_string();
    let (step, actions) = s.answer_pending_tool(&InputAction::AbandonToolUse { message: msg.clone() }).unwrap();
    assert!(matches!(step, SessionStep::SendRequest));
    assert!(!s.tool_uses[1].accepted);
    match &actions[0] {
        ConversationAction::AbandonToolUses { tool_use_ids, message } => {
            assert_eq!(tool_use_ids, &vec!["t1".to_string(), "t2".to_string()]);
            assert_eq!(message, &msg);
        },
        other => panic!("unexpected {:?}", other),
    }
    let mut none_pending = session(None);
    assert!(none_pending.answer_pending_tool(&InputAction::ApproveTool { trust: true }).is_none());
}

#[test]
fn a_response_without_tool_uses_clears_the_turn() {
    let mut s = session(Some(1));
    let (state, actions) = s.end_response(vec![]);
    assert!(matches!(state, ChatState::PromptUser { skip_printing_tools: false }));
    assert!(s.tool_uses.is_empty());
    assert!(s.pending_tool_index.is_none());
    assert!(s.tool_turn_start_ms.is_none());
    assert_eq!(actions.len(), 1);
    assert!(matches!(actions[0], ConversationAction::PushAssistantMessage));
}

#[test]
fn each_tool_gets_one_result_in_order() {
    let mut s = session(None);
    s.tool_uses[1].accepted = true;
    let actions = s.tool_results(vec![
        Ok(ToolUseResultBlock::Text("contents".to_string())),
        Err("permission denied".to_string()),
    ]);
    match &actions[0] {
        ConversationAction::AddToolResults(results) => {
            assert_eq!(results.len(), 2);
            assert_eq!(results[0].tool_use_id, "t1");
            assert_eq!(results[0].status, ToolResultStatus::Success);
            assert!(matches!(&results[0].content[0], ToolUseResultBlock::Text(t) if t == "contents"));
            assert_eq!(results[1].tool_use_id, "t2");
            assert_eq!(results[1].status, ToolResultStatus::Error);
            assert!(
                matches!(&results[1].content[0], ToolUseResultBlock::Text(t) if t == "An error occurred processing the tool: \npermission denied")
            );
        },
        other => panic!("unexpected {:?}", other),
    }
}

#[test]
fn compacting_an_empty_history_sends_nothing() {
    assert!(matches!(begin_compaction(0), SessionStep::State(ChatState::PromptUser { skip_printing_tools: true })));
    assert!(matches!(begin_compaction(3), SessionStep::SendRequest));
}

#[test]
fn compaction_outcomes() {
    let start = ChatCompactStrategy::default();
    let (step, actions) =
        finish_compaction(None, false, start, 4, false, CompactionOutcome::Summary("sum".to_string())).unwrap();
    assert!(matches!(step, SessionStep::State(ChatState::PromptUser { skip_printing_tools: true })));
    assert!(matches!(&actions[0], ConversationAction::ReplaceHistoryWithSummary(s) if s == "sum"));
    let (step, _) = finish_compaction(None, false, start, 4, true, CompactionOutcome::Summary("sum".to_string())).unwrap();
    assert!(matches!(step, SessionStep::SendRequest));
    let (step, _) =
        finish_compaction(Some("p".to_string()), true, start, 4, false, CompactionOutcome::ContextWindowOverflow).unwrap();
    match step {
        SessionStep::State(ChatState::CompactHistory { prompt, show_summary, strategy }) => {
            assert_eq!(prompt.as_deref(), Some("p"));
            assert!(show_summary);
            assert_eq!(strategy.messages_to_exclude, 1);
        },
        other => panic!("unexpected {:?}", other),
    }
    let strongest = ChatCompactStrategy { messages_to_exclude: 1, truncate_large_messages: true, max_message_length: 25_000 };
    assert!(matches!(
        finish_compaction(None, false, strongest, 4, false, CompactionOutcome::ContextWindowOverflow),
        Err(ChatError::CompactHistoryFailure)
    ));
}

#[test]
fn approved_tool_is_not_asked_about_again() {
    let mut s = session(Some(1));
    let verdicts = vec![Some(ToolVerdict::Ask), Some(ToolVerdict::Ask)];
    let mut before = s.tool_uses.clone();
    assert_eq!(approve_tool_uses(&mut before, &verdicts, false), ApprovalStep::AskUser { index: 1 });
    s.answer_pending_tool(&InputAction::ApproveTool { trust: false }).unwrap();
    let mut after = s.tool_uses.clone();
    assert_eq!(approve_tool_uses(&mut after, &verdicts, false), ApprovalStep::Execute);
    let denied = vec![Some(ToolVerdict::Ask), Some(ToolVerdict::Deny(vec!["rule".to_string()]))];
    let mut again = s.tool_uses.clone();
    assert_eq!(approve_tool_uses(&mut again, &denied, false), ApprovalStep::Execute);
}
