//! The state a chat session keeps between its steps, and the steps that change it: answering a
//! pending tool approval, ending a response, running the approved tools, and compacting the
//! history. Each step returns where the session goes next and what it does to the conversation;
//! the session loop performs those actions and the I/O around them.

use vstd::prelude::*;

use crate::chat::{stops_at, ChatCompactStrategy, ChatState, InputAction, PendingToolUse, ToolVerdict};
use crate::chat_flow::{next_compaction, retry_compaction, ChatError};
use crate::messages::{ToolResultStatus, ToolUseBlock};

verus! {

/// What the session keeps of the tool uses of the current turn.
#[derive(Debug)]
pub struct ChatSessionState {
    /// The tool uses the model asked for, in order.
    pub tool_uses: Vec<PendingToolUse>,
    /// The tool use waiting for the user's approval, if any.
    pub pending_tool_index: Option<usize>,
    /// When the current tool turn started, in milliseconds, if one is running.
    pub tool_turn_start_ms: Option<u64>,
}

/// One piece of a tool's result as the conversation keeps it.
#[derive(Debug, Clone)]
pub enum ToolUseResultBlock {
    Text(String),
    Json(serde_json::Value),
}

/// The result of a tool use as the conversation keeps it.
#[derive(Debug, Clone)]
pub struct ToolUseResult {
    pub tool_use_id: String,
    pub content: Vec<ToolUseResultBlock>,
    pub status: ToolResultStatus,
}

/// What a step does to the conversation.
#[derive(Debug)]
pub enum ConversationAction {
    /// Store the assistant message that ended the response stream.
    PushAssistantMessage,
    /// Abandon the tool uses with these ids, telling the model `message` instead.
    AbandonToolUses { tool_use_ids: Vec<String>, message: String },
    /// Add the results of tool uses.
    AddToolResults(Vec<ToolUseResult>),
    /// Add these names to the agent's trusted tools.
    TrustTools(Vec<String>),
    /// Replace the history with this summary.
    ReplaceHistoryWithSummary(String),
}

/// Where the session goes after a step.
#[derive(Debug)]
pub enum SessionStep {
    /// Move to this state.
    State(ChatState),
    /// Send the conversation to the model and handle its response stream.
    SendRequest,
}

/// The ids of the tool uses, in order.
pub open spec fn tool_use_ids(t: Seq<PendingToolUse>) -> Seq<Seq<char>> {
    t.map_values(|u: PendingToolUse| u.id@)
}

/// The strings' characters, in order.
pub open spec fn ids_view(v: Seq<String>) -> Seq<Seq<char>> {
    v.map_values(|s: String| s@)
}

/// Whether the actions are just trusting the tool `name`.
pub open spec fn trusts_only(actions: Seq<ConversationAction>, name: Seq<char>) -> bool {
    actions.len() == 1 && (actions[0] matches ConversationAction::TrustTools(names) && ids_view(names@) == seq![name])
}

/// Whether the actions are just abandoning the tool uses `ids` with `message`.
pub open spec fn abandons_only(actions: Seq<ConversationAction>, ids: Seq<Seq<char>>, message: Seq<char>) -> bool {
    actions.len() == 1 && (actions[0] matches ConversationAction::AbandonToolUses { tool_use_ids, message: m }
        && ids_view(tool_use_ids@) == ids && m@ == message)
}

fn tool_ids(tools: &Vec<PendingToolUse>) -> (res: Vec<String>)
    ensures
        ids_view(res@) == tool_use_ids(tools@),
{
    let mut res: Vec<String> = Vec::new();
    let mut i: usize = 0;
    while i < tools.len()
        invariant
            i <= tools.len(),
            ids_view(res@) == tool_use_ids(tools@.take(i as int)),
        decreases tools.len() - i,
    {
        let ghost before = res@;
        let id = tools[i].id.clone();
        assert(id@ == tools@[i as int].id@);
        res.push(id);
        proof {
            assert(ids_view(res@) =~= ids_view(before).push(id@));
            assert(tool_use_ids(tools@.take(i + 1)) =~= tool_use_ids(tools@.take(i as int)).push(tools@[i as int].id@));
        }
        i = i + 1;
    }
    proof {
        assert(tools@.take(tools.len() as int) =~= tools@);
    }
    res
}

impl ChatSessionState {
    /// Answers the tool use waiting for approval with what the user entered (classified by
    /// `classify_user_input` with a tool pending). Approving (`y`, or `t` to trust the tool)
    /// marks that tool use accepted, adds the tool under its trust name to the agent's trusted
    /// tools when trusting, and runs the tools; anything else abandons the turn's tool uses,
    /// telling the model what the user said, and sends the conversation. Without a pending tool
    /// use, or for another kind of input, nothing changes and `None` is returned.
    pub fn answer_pending_tool(&mut self, action: &InputAction) -> (res: Option<(SessionStep, Vec<ConversationAction>)>)
        ensures
            final(self).pending_tool_index == old(self).pending_tool_index,
            final(self).tool_turn_start_ms == old(self).tool_turn_start_ms,
            match (old(self).pending_tool_index, *action) {
                (Some(i), InputAction::ApproveTool { trust }) if i < old(self).tool_uses.len() => {
                    &&& final(self).tool_uses@ == old(self).tool_uses@.update(
                        i as int,
                        PendingToolUse { accepted: true, ..old(self).tool_uses@[i as int] },
                    )
                    &&& res matches Some((step, actions)) && step == SessionStep::State(ChatState::ExecuteTools)
                        && if trust {
                        trusts_only(actions@, old(self).tool_uses@[i as int].trust_name@)
                    } else {
                        actions@.len() == 0
                    }
                },
                (Some(i), InputAction::AbandonToolUse { message }) => {
                    &&& final(self).tool_uses@ == old(self).tool_uses@
                    &&& res matches Some((step, actions)) && step == SessionStep::SendRequest && abandons_only(
                        actions@,
                        tool_use_ids(old(self).tool_uses@),
                        message@,
                    )
                },
                _ => final(self).tool_uses@ == old(self).tool_uses@ && res is None,
            },
    {
        match (self.pending_tool_index, action) {
            (Some(i), InputAction::ApproveTool { trust }) => {
                if i >= self.tool_uses.len() {
                    return None;
                }
                let mut t = self.tool_uses.remove(i);
                let ghost removed = t;
                t.accepted = true;
                let trust_name = t.trust_name.clone();
                self.tool_uses.insert(i, t);
                proof {
                    assert(self.tool_uses@ =~= old(self).tool_uses@.update(
                        i as int,
                        PendingToolUse { accepted: true, ..old(self).tool_uses@[i as int] },
                    ));
                }
                let mut actions: Vec<ConversationAction> = Vec::new();
                if *trust {
                    let mut names: Vec<String> = Vec::new();
                    names.push(trust_name);
                    proof {
                        assert(ids_view(names@) =~= seq![old(self).tool_uses@[i as int].trust_name@]);
                    }
                    actions.push(ConversationAction::TrustTools(names));
                }
                Some((SessionStep::State(ChatState::ExecuteTools), actions))
            },
            (Some(_), InputAction::AbandonToolUse { message }) => {
                let ids = tool_ids(&self.tool_uses);
                let mut actions: Vec<ConversationAction> = Vec::new();
                actions.push(ConversationAction::AbandonToolUses { tool_use_ids: ids, message: message.clone() });
                Some((SessionStep::SendRequest, actions))
            },
            _ => None,
        }
    }
}

/// A tool use the user approved is not asked about again in its turn: once approving marks
/// it accepted, checking the turn's tool uses (`approve_tool_uses`) never stops at it,
/// whatever its permissions say and whether or not all tools are trusted.
pub proof fn lemma_approved_tool_not_asked_again(
    before: Seq<PendingToolUse>,
    i: int,
    verdict: Option<ToolVerdict>,
    trust_all: bool,
)
    requires
        0 <= i < before.len(),
    ensures
        !stops_at(before.update(i, PendingToolUse { accepted: true, ..before[i] })[i], verdict, trust_all),
{
}

impl ChatSessionState {
    /// Ends a response whose stream ended normally, having asked for `tool_uses`: the assistant
    /// message that ended the stream is stored, once. With tool uses, they are validated next;
    /// without, the turn's tool uses, the pending approval and the tool turn's timer are cleared
    /// and the user is prompted.
    pub fn end_response(&mut self, tool_uses: Vec<ToolUseBlock>) -> (res: (ChatState, Vec<ConversationAction>))
        ensures
            res.1@.len() == 1,
            res.1@[0] is PushAssistantMessage,
            tool_uses.len() > 0 ==> {
                &&& res.0 == (ChatState::ValidateTools { tool_uses })
                &&& final(self).tool_uses@ == old(self).tool_uses@
                &&& final(self).pending_tool_index == old(self).pending_tool_index
                &&& final(self).tool_turn_start_ms == old(self).tool_turn_start_ms
            },
            tool_uses.len() == 0 ==> {
                &&& res.0 == (ChatState::PromptUser { skip_printing_tools: false })
                &&& final(self).tool_uses@.len() == 0
                &&& final(self).pending_tool_index is None
                &&& final(self).tool_turn_start_ms is None
            },
    {
        let mut actions: Vec<ConversationAction> = Vec::new();
        actions.push(ConversationAction::PushAssistantMessage);
        if tool_uses.len() > 0 {
            (ChatState::ValidateTools { tool_uses }, actions)
        } else {
            self.tool_uses = Vec::new();
            self.pending_tool_index = None;
            self.tool_turn_start_ms = None;
            (ChatState::PromptUser { skip_printing_tools: false }, actions)
        }
    }
}

/// The text a failed tool reports to the model.
pub open spec fn tool_error_text(err: Seq<char>) -> Seq<char> {
    "An error occurred processing the tool: \n"@ + err
}

/// Whether `r` is the result of the tool use `t` that ran with the outcome `o`: its output,
/// or the error's text, marked as a success or an error.
pub open spec fn is_tool_result(r: ToolUseResult, t: PendingToolUse, o: Result<ToolUseResultBlock, String>) -> bool {
    &&& r.tool_use_id@ == t.id@
    &&& r.content@.len() == 1
    &&& match o {
        Ok(b) => r.status == ToolResultStatus::Success && match (r.content@[0], b) {
            (ToolUseResultBlock::Text(x), ToolUseResultBlock::Text(y)) => x@ == y@,
            (ToolUseResultBlock::Json(x), ToolUseResultBlock::Json(y)) => x == y,
            _ => false,
        },
        Err(e) => r.status == ToolResultStatus::Error && (r.content@[0] matches ToolUseResultBlock::Text(x) && x@
            == tool_error_text(e@)),
    }
}

impl ChatSessionState {
    /// Collects the results of running the turn's tool uses, once each and in order, given the
    /// outcome of each run: one result per tool use, carrying its id, and the conversation gets
    /// them all. The tools run only when every one is accepted (see `approve_tool_uses`).
    pub fn tool_results(&self, outcomes: Vec<Result<ToolUseResultBlock, String>>) -> (res: Vec<ConversationAction>)
        requires
            outcomes.len() == self.tool_uses.len(),
            forall|i: int| 0 <= i < self.tool_uses.len() ==> (#[trigger] self.tool_uses@[i]).accepted,
        ensures
            res@.len() == 1,
            res@[0] matches ConversationAction::AddToolResults(results) && results@.len() == self.tool_uses.len()
                && forall|i: int| 0 <= i < results@.len() ==> is_tool_result(
                #[trigger] results@[i],
                self.tool_uses@[i],
                outcomes@[i],
            ),
    {
        let mut results: Vec<ToolUseResult> = Vec::new();
        let mut i: usize = 0;
        while i < outcomes.len()
            invariant
                i <= outcomes.len() == self.tool_uses.len(),
                results@.len() == i,
                forall|k: int| 0 <= k < i ==> is_tool_result(#[trigger] results@[k], self.tool_uses@[k], outcomes@[k]),
            decreases outcomes.len() - i,
        {
            let id = self.tool_uses[i].id.clone();
            let r = match &outcomes[i] {
                Ok(ToolUseResultBlock::Text(t)) => {
                    let mut content: Vec<ToolUseResultBlock> = Vec::new();
                    content.push(ToolUseResultBlock::Text(t.clone()));
                    ToolUseResult { tool_use_id: id, content, status: ToolResultStatus::Success }
                },
                Ok(ToolUseResultBlock::Json(v)) => {
                    let mut content: Vec<ToolUseResultBlock> = Vec::new();
                    content.push(ToolUseResultBlock::Json(v.clone()));
                    ToolUseResult { tool_use_id: id, content, status: ToolResultStatus::Success }
                },
                Err(e) => {
                    let mut text = String::from_str("An error occurred processing the tool: \n");
                    text.append(e.as_str());
                    let mut content: Vec<ToolUseResultBlock> = Vec::new();
                    content.push(ToolUseResultBlock::Text(text));
                    ToolUseResult { tool_use_id: id, content, status: ToolResultStatus::Error }
                },
            };
            results.push(r);
            i = i + 1;
        }
        let mut actions: Vec<ConversationAction> = Vec::new();
        actions.push(ConversationAction::AddToolResults(results));
        actions
    }
}

/// How a compaction's summary request ended.
#[derive(Debug)]
pub enum CompactionOutcome {
    /// The model answered with this summary.
    Summary(String),
    /// The request overflowed the context window.
    ContextWindowOverflow,
    /// The request failed otherwise.
    Failed(ChatError),
}

/// Starts compacting a history of `history_len` messages: an empty history has nothing to
/// compact, so the user is prompted again and nothing is sent; otherwise the summary request is
/// sent.
pub fn begin_compaction(history_len: usize) -> (res: SessionStep)
    ensures
        history_len == 0 ==> res == SessionStep::State(ChatState::PromptUser { skip_printing_tools: true }),
        history_len > 0 ==> res == SessionStep::SendRequest,
{
    if history_len == 0 {
        SessionStep::State(ChatState::PromptUser { skip_printing_tools: true })
    } else {
        SessionStep::SendRequest
    }
}

/// Finishes a compaction of a history of `history_len` messages, asked for with `prompt`,
/// `show_summary` and `strategy`: a summary replaces the history, after which a waiting user
/// message is sent again, or else the user is prompted; an overflowing request is retried with
/// a stronger strategy (see `retry_compaction`), keeping the prompt and whether to show the
/// summary, until none is left and the compaction fails; any other failure is passed on.
pub fn finish_compaction(
    prompt: Option<String>,
    show_summary: bool,
    strategy: ChatCompactStrategy,
    history_len: usize,
    has_next_user_message: bool,
    outcome: CompactionOutcome,
) -> (res: Result<(SessionStep, Vec<ConversationAction>), ChatError>)
    ensures
        match outcome {
            CompactionOutcome::Summary(summary) => res matches Ok((step, actions)) && actions@.len() == 1
                && (actions@[0] matches ConversationAction::ReplaceHistoryWithSummary(s) && s@ == summary@) && step == if has_next_user_message {
                SessionStep::SendRequest
            } else {
                SessionStep::State(ChatState::PromptUser { skip_printing_tools: true })
            },
            CompactionOutcome::ContextWindowOverflow => match next_compaction(strategy, history_len) {
                Some(n) => res matches Ok((step, actions)) && actions@.len() == 0 && step == SessionStep::State(
                    ChatState::CompactHistory { prompt, show_summary, strategy: n },
                ),
                None => res matches Err(ChatError::CompactHistoryFailure),
            },
            CompactionOutcome::Failed(e) => res == Err::<(SessionStep, Vec<ConversationAction>), ChatError>(e),
        },
{
    match outcome {
        CompactionOutcome::Summary(summary) => {
            let mut actions: Vec<ConversationAction> = Vec::new();
            actions.push(ConversationAction::ReplaceHistoryWithSummary(summary));
            let step = if has_next_user_message {
                SessionStep::SendRequest
            } else {
                SessionStep::State(ChatState::PromptUser { skip_printing_tools: true })
            };
            Ok((step, actions))
        },
        CompactionOutcome::ContextWindowOverflow => match retry_compaction(strategy, history_len) {
            Some(n) => Ok(
                (SessionStep::State(ChatState::CompactHistory { prompt, show_summary, strategy: n }), Vec::new()),
            ),
            None => Err(ChatError::CompactHistoryFailure),
        },
        CompactionOutcome::Failed(e) => Err(e),
    }
}

} // verus!
