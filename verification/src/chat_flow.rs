//! The decisions a chat session makes between turns: which tool uses the model asked for
//! can run, what follows a failed response, and how the session recovers from an error.
//! The session performs the I/O; these functions say what it does next.

use vstd::prelude::*;

use crate::chat::{trim, trimmed, ChatCompactStrategy, ChatState, PendingToolUse, WrapMode};
use crate::constants::{
    get_rotating_tips, popular_shortcuts, popular_shortcuts_view, resume_text, resume_text_view, rotating_tips,
    small_screen_popular_shortcuts, small_screen_popular_shortcuts_view, small_screen_welcome, small_screen_welcome_view,
    trust_all_warning, trust_all_warning_view, welcome_text, welcome_text_view, TROUBLE_RESPONDING,
};
use crate::messages::ToolUseBlock;
use crate::path_util::opt_view;
use crate::stream_error::push_decimal_u64;
use crate::text::str_eq;
use crate::theme::decimal;

verus! {

/// What checking a tool use found before it runs.
#[derive(Debug, Clone, PartialEq, Eq)]
pub enum ToolUseCheck {
    /// The tool exists and its arguments are valid.
    Valid,
    /// The tool's arguments failed validation, with this message.
    Invalid(String),
    /// The tool use names no usable tool; this is the result to send back for it.
    NotFound(String),
}

/// An error result sent back to the model for a tool use.
#[derive(Debug, Clone, PartialEq, Eq)]
pub struct ToolUseFailure {
    pub tool_use_id: String,
    pub message: String,
}

/// A failure as a pair of plain values: the tool use's id and the message.
pub open spec fn failure_view(f: ToolUseFailure) -> (Seq<char>, Seq<char>) {
    (f.tool_use_id@, f.message@)
}

/// The failures as pairs of plain values, in order.
pub open spec fn failures_view(v: Seq<ToolUseFailure>) -> Seq<(Seq<char>, Seq<char>)> {
    v.map_values(|f: ToolUseFailure| failure_view(f))
}

/// The result sent back for a tool use whose arguments failed validation.
pub open spec fn invalid_params_message(err: Seq<char>) -> Seq<char> {
    "Failed to validate tool parameters: "@ + err
}

/// The failure that a check of the tool use `id` reports, if any.
pub open spec fn check_failure(id: Seq<char>, c: ToolUseCheck) -> Option<(Seq<char>, Seq<char>)> {
    match c {
        ToolUseCheck::Valid => None,
        ToolUseCheck::Invalid(e) => Some((id, invalid_params_message(e@))),
        ToolUseCheck::NotFound(r) => Some((id, r@)),
    }
}

/// The failures that the checks of the tool uses `ids` report, in order.
pub open spec fn check_failures(ids: Seq<String>, checks: Seq<ToolUseCheck>) -> Seq<(Seq<char>, Seq<char>)>
    decreases ids.len(),
{
    if ids.len() == 0 {
        Seq::empty()
    } else {
        let rest = check_failures(ids.drop_last(), checks.take(ids.len() - 1));
        match check_failure(ids.last()@, checks[ids.len() - 1]) {
            Some(f) => rest.push(f),
            None => rest,
        }
    }
}

/// No check of the tool uses reports a failure exactly when every one of them is valid.
pub proof fn lemma_no_check_failures(ids: Seq<String>, checks: Seq<ToolUseCheck>)
    requires
        ids.len() == checks.len(),
    ensures
        check_failures(ids, checks).len() == 0 <==> forall|i: int| 0 <= i < checks.len() ==> checks[i] == ToolUseCheck::Valid,
    decreases ids.len(),
{
    if ids.len() > 0 {
        let n = ids.len() - 1;
        lemma_no_check_failures(ids.drop_last(), checks.take(n));
        if check_failures(ids, checks).len() == 0 {
            assert forall|i: int| 0 <= i < checks.len() implies checks[i] == ToolUseCheck::Valid by {
                if i < n {
                    assert(checks.take(n)[i] == checks[i]);
                }
            }
        } else {
            if forall|i: int| 0 <= i < checks.len() ==> checks[i] == ToolUseCheck::Valid {
                assert forall|i: int| 0 <= i < checks.take(n).len() implies checks.take(n)[i] == ToolUseCheck::Valid by {
                    assert(checks.take(n)[i] == checks[i]);
                }
                assert(checks[n] == ToolUseCheck::Valid);
            }
        }
    }
}

/// The error results for the tool uses `ids` whose checks failed, in order: an argument
/// validation failure is reported with a fixed prefix, and a tool use that names no tool with
/// the result given for it. When there are any, they go back to the model and no tool runs.
pub fn tool_check_failures(ids: &Vec<String>, checks: &Vec<ToolUseCheck>) -> (res: Vec<ToolUseFailure>)
    requires
        ids.len() == checks.len(),
    ensures
        failures_view(res@) == check_failures(ids@, checks@),
        res.len() == 0 <==> forall|i: int| 0 <= i < checks.len() ==> checks@[i] == ToolUseCheck::Valid,
{
    proof {
        lemma_no_check_failures(ids@, checks@);
    }
    let mut res: Vec<ToolUseFailure> = Vec::new();
    let mut i: usize = 0;
    while i < ids.len()
        invariant
            i <= ids.len() == checks.len(),
            failures_view(res@) == check_failures(ids@.take(i as int), checks@.take(i as int)),
        decreases ids.len() - i,
    {
        proof {
            assert(ids@.take(i + 1).drop_last() =~= ids@.take(i as int));
            assert(checks@.take(i + 1).take(i as int) =~= checks@.take(i as int));
        }
        match &checks[i] {
            ToolUseCheck::Valid => {},
            ToolUseCheck::Invalid(e) => {
                let mut m = String::from_str("Failed to validate tool parameters: ");
                m.append(e.as_str());
                res.push(ToolUseFailure { tool_use_id: ids[i].clone(), message: m });
                proof {
                    assert(failures_view(res@) =~= failures_view(res@.drop_last()).push(failure_view(res@.last())));
                }
            },
            ToolUseCheck::NotFound(r) => {
                res.push(ToolUseFailure { tool_use_id: ids[i].clone(), message: r.clone() });
                proof {
                    assert(failures_view(res@) =~= failures_view(res@.drop_last()).push(failure_view(res@.last())));
                }
            },
        }
        i = i + 1;
    }
    proof {
        assert(ids@.take(ids.len() as int) =~= ids@);
        assert(checks@.take(checks.len() as int) =~= checks@);
    }
    res
}

/// The exit code by which a hook run before a tool blocks it.
pub open spec fn blocking_exit_code() -> i32 {
    2
}

/// The result sent back for a tool use that a hook blocked.
pub open spec fn hook_block_message(output: Seq<char>) -> Seq<char> {
    "PreToolHook blocked the tool execution: "@ + output
}

/// The failures that the hooks run before the tool use `id` report: one for each hook that
/// exited with the blocking code, carrying its output, in order.
pub open spec fn hook_failures(id: Seq<char>, runs: Seq<(i32, String)>) -> Seq<(Seq<char>, Seq<char>)>
    decreases runs.len(),
{
    if runs.len() == 0 {
        Seq::empty()
    } else {
        let rest = hook_failures(id, runs.drop_last());
        if runs.last().0 == blocking_exit_code() {
            rest.push((id, hook_block_message(runs.last().1@)))
        } else {
            rest
        }
    }
}

/// The failures that the hooks run before each of the tool uses `ids` report, tool use by tool
/// use.
pub open spec fn all_hook_failures(ids: Seq<String>, runs: Seq<Vec<(i32, String)>>) -> Seq<(Seq<char>, Seq<char>)>
    decreases ids.len(),
{
    if ids.len() == 0 {
        Seq::empty()
    } else {
        all_hook_failures(ids.drop_last(), runs.take(ids.len() - 1)) + hook_failures(
            ids.last()@,
            runs[ids.len() - 1]@,
        )
    }
}

proof fn lemma_no_hook_failures(id: Seq<char>, runs: Seq<(i32, String)>)
    ensures
        hook_failures(id, runs).len() == 0 <==> forall|j: int| 0 <= j < runs.len() ==> runs[j].0 != blocking_exit_code(),
    decreases runs.len(),
{
    if runs.len() > 0 {
        lemma_no_hook_failures(id, runs.drop_last());
        if hook_failures(id, runs).len() == 0 {
            assert forall|j: int| 0 <= j < runs.len() implies runs[j].0 != blocking_exit_code() by {
                if j < runs.len() - 1 {
                    assert(runs.drop_last()[j] == runs[j]);
                }
            }
        } else if forall|j: int| 0 <= j < runs.len() ==> runs[j].0 != blocking_exit_code() {
            assert forall|j: int| 0 <= j < runs.drop_last().len() implies runs.drop_last()[j].0 != blocking_exit_code() by {
                assert(runs.drop_last()[j] == runs[j]);
            }
            assert(runs.last().0 != blocking_exit_code());
        }
    }
}

/// No hook blocks any of the tool uses exactly when no hook run before them exited with the
/// blocking code.
pub proof fn lemma_no_hook_blocks(ids: Seq<String>, runs: Seq<Vec<(i32, String)>>)
    requires
        ids.len() == runs.len(),
    ensures
        all_hook_failures(ids, runs).len() == 0 <==> forall|i: int, j: int|
            0 <= i < runs.len() && 0 <= j < runs[i]@.len() ==> runs[i]@[j].0 != blocking_exit_code(),
    decreases ids.len(),
{
    if ids.len() > 0 {
        let n = ids.len() - 1;
        lemma_no_hook_blocks(ids.drop_last(), runs.take(n));
        lemma_no_hook_failures(ids.last()@, runs[n]@);
        if all_hook_failures(ids, runs).len() == 0 {
            assert forall|i: int, j: int| 0 <= i < runs.len() && 0 <= j < runs[i]@.len() implies runs[i]@[j].0
                != blocking_exit_code() by {
                if i < n {
                    assert(runs.take(n)[i] == runs[i]);
                }
            }
        } else if forall|i: int, j: int| 0 <= i < runs.len() && 0 <= j < runs[i]@.len() ==> runs[i]@[j].0 != blocking_exit_code() {
            assert forall|i: int, j: int| 0 <= i < runs.take(n).len() && 0 <= j < runs.take(n)[i]@.len() implies runs.take(n)[i]@[j].0
                != blocking_exit_code() by {
                assert(runs.take(n)[i] == runs[i]);
            }
        }
    }
}

/// The error results for the tool uses `ids` that the hooks run before them block: for each
/// hook exit code 2 (its output goes back to the model); other exit codes only warn the user.
/// When there are any, they go back to the model and no tool runs.
pub fn pre_tool_hook_failures(ids: &Vec<String>, runs: &Vec<Vec<(i32, String)>>) -> (res: Vec<ToolUseFailure>)
    requires
        ids.len() == runs.len(),
    ensures
        failures_view(res@) == all_hook_failures(ids@, runs@),
        res.len() == 0 <==> forall|i: int, j: int|
            0 <= i < runs.len() && 0 <= j < runs@[i]@.len() ==> runs@[i]@[j].0 != blocking_exit_code(),
{
    proof {
        lemma_no_hook_blocks(ids@, runs@);
    }
    let mut res: Vec<ToolUseFailure> = Vec::new();
    let mut i: usize = 0;
    while i < ids.len()
        invariant
            i <= ids.len() == runs.len(),
            failures_view(res@) == all_hook_failures(ids@.take(i as int), runs@.take(i as int)),
        decreases ids.len() - i,
    {
        proof {
            assert(ids@.take(i + 1).drop_last() =~= ids@.take(i as int));
            assert(runs@.take(i + 1).take(i as int) =~= runs@.take(i as int));
        }
        let ghost before = failures_view(res@);
        let tool_runs = &runs[i];
        let mut j: usize = 0;
        while j < tool_runs.len()
            invariant
                j <= tool_runs.len(),
                i < ids.len(),
                failures_view(res@) == before + hook_failures(ids@[i as int]@, tool_runs@.take(j as int)),
            decreases tool_runs.len() - j,
        {
            let ghost id = ids@[i as int]@;
            let ghost prev = hook_failures(id, tool_runs@.take(j as int));
            proof {
                assert(tool_runs@.take(j + 1).drop_last() =~= tool_runs@.take(j as int));
                assert(tool_runs@.take(j + 1).last() == tool_runs@[j as int]);
            }
            if tool_runs[j].0 == 2 {
                let mut m = String::from_str("PreToolHook blocked the tool execution: ");
                m.append(tool_runs[j].1.as_str());
                res.push(ToolUseFailure { tool_use_id: ids[i].clone(), message: m });
                proof {
                    assert(failures_view(res@) =~= failures_view(res@.drop_last()).push(failure_view(res@.last())));
                    assert(before + prev.push((id, hook_block_message(tool_runs@[j as int].1@))) =~= (before
                        + prev).push((id, hook_block_message(tool_runs@[j as int].1@))));
                }
            }
            j = j + 1;
        }
        proof {
            assert(tool_runs@.take(tool_runs.len() as int) =~= tool_runs@);
        }
        i = i + 1;
    }
    proof {
        assert(ids@.take(ids.len() as int) =~= ids@);
        assert(runs@.take(runs.len() as int) =~= runs@);
    }
    res
}

/// The reply recorded for the model when its response stream timed out.
pub const RESPONSE_TIMEOUT_CONTENT: &'static str = "Response timed out - message took too long to generate";

/// How a response stream failed, as far as what the session does next depends on it.
#[derive(Debug, Clone, PartialEq, Eq)]
pub enum ResponseFailure {
    /// The stream timed out.
    StreamTimeout,
    /// The stream ended before the whole tool use `tool_use_id` was received.
    UnexpectedToolUseEos { tool_use_id: String },
    /// The arguments of the tool use `tool_use_id` were not a valid JSON object.
    ToolValidationError { tool_use_id: String, error_message: String },
    /// Any other failure.
    Other,
}

/// What the session does after a response stream failed.
#[derive(Debug, Clone, PartialEq, Eq)]
pub enum ResponseRecovery {
    /// Record `assistant_reply` as the model's answer and ask again with `next_user_message`.
    SplitWork { assistant_reply: String, next_user_message: String },
    /// Send the failure back as the tool use's result and ask again.
    ToolResult(ToolUseFailure),
    /// End the user's turn with the error.
    Fail,
}

/// The user message that asks the model to split up its work after a timeout.
pub open spec fn split_work_request() -> Seq<char> {
    "You took too long to respond - try to split up the work into smaller steps."@
}

/// The result sent back for a tool use that the stream cut off.
pub open spec fn tool_too_large_message() -> Seq<char> {
    "The generated tool was too large, try again but this time split up the work between multiple tool uses"@
}

/// The result sent back for a tool use whose arguments were not valid JSON.
pub open spec fn invalid_tool_json_message(e: Seq<char>) -> Seq<char> {
    "Tool validation failed: "@ + e + ". Please ensure tool arguments are provided as a valid JSON object."@
}

/// Whether `r` is what follows the failure `f`: a timeout asks the model to split up its work, a
/// cut-off or malformed tool use is answered with an error result for it, and anything else ends
/// the turn.
pub open spec fn is_response_recovery(r: ResponseRecovery, f: ResponseFailure) -> bool {
    match f {
        ResponseFailure::StreamTimeout => r matches ResponseRecovery::SplitWork { assistant_reply, next_user_message }
            && assistant_reply@ == RESPONSE_TIMEOUT_CONTENT@ && next_user_message@ == split_work_request(),
        ResponseFailure::UnexpectedToolUseEos { tool_use_id } => r matches ResponseRecovery::ToolResult(t)
            && failure_view(t) == (tool_use_id@, tool_too_large_message()),
        ResponseFailure::ToolValidationError { tool_use_id, error_message } => r matches ResponseRecovery::ToolResult(t)
            && failure_view(t) == (tool_use_id@, invalid_tool_json_message(error_message@)),
        ResponseFailure::Other => r == ResponseRecovery::Fail,
    }
}

/// Decides what follows a failed response stream (see [is_response_recovery]).
pub fn response_recovery(f: ResponseFailure) -> (res: ResponseRecovery)
    ensures
        is_response_recovery(res, f),
{
    match f {
        ResponseFailure::StreamTimeout => ResponseRecovery::SplitWork {
            assistant_reply: String::from_str(RESPONSE_TIMEOUT_CONTENT),
            next_user_message: String::from_str(
                "You took too long to respond - try to split up the work into smaller steps.",
            ),
        },
        ResponseFailure::UnexpectedToolUseEos { tool_use_id } => ResponseRecovery::ToolResult(
            ToolUseFailure {
                tool_use_id,
                message: String::from_str(
                    "The generated tool was too large, try again but this time split up the work between multiple tool uses",
                ),
            },
        ),
        ResponseFailure::ToolValidationError { tool_use_id, error_message } => {
            let mut message = String::from_str("Tool validation failed: ");
            message.append(error_message.as_str());
            message.append(". Please ensure tool arguments are provided as a valid JSON object.");
            ResponseRecovery::ToolResult(ToolUseFailure { tool_use_id, message })
        },
        ResponseFailure::Other => ResponseRecovery::Fail,
    }
}

/// The width a response is wrapped at: never with `Never`, always at the terminal's width with
/// `Always`, and otherwise only when standard output is a terminal.
pub fn response_wrap_width(wrap: Option<WrapMode>, stdout_is_terminal: bool, terminal_width: usize) -> (res: Option<usize>)
    ensures
        res == match wrap {
            Some(WrapMode::Never) => None,
            Some(WrapMode::Always) => Some(terminal_width),
            _ => if stdout_is_terminal {
                Some(terminal_width)
            } else {
                None
            },
        },
{
    match wrap {
        Some(WrapMode::Never) => None,
        Some(WrapMode::Always) => Some(terminal_width),
        _ => if stdout_is_terminal {
            Some(terminal_width)
        } else {
            None
        },
    }
}

/// The state after a response ended: the tool uses it asked for are validated, and without
/// any the user is prompted again.
pub fn response_end_state(tool_uses: Vec<ToolUseBlock>) -> (res: ChatState)
    ensures
        tool_uses.len() > 0 ==> res == (ChatState::ValidateTools { tool_uses }),
        tool_uses.len() == 0 ==> res == (ChatState::PromptUser { skip_printing_tools: false }),
{
    if tool_uses.len() > 0 {
        ChatState::ValidateTools { tool_uses }
    } else {
        ChatState::PromptUser { skip_printing_tools: false }
    }
}

/// What the session does when it is about to prompt the user.
#[derive(Debug, Clone, Copy, PartialEq, Eq, Structural)]
pub enum PromptStep {
    /// Prompt the user.
    Prompt,
    /// Nothing is left to do without a user: exit.
    Exit,
    /// A tool use waits for approval but no user can give it: fail.
    NeedsApproval,
}

/// Decides what happens when the user would be prompted: an interactive session prompts; a
/// non-interactive one exits when no tool use is waiting, and fails when one is.
pub fn prompt_step(interactive: bool, no_pending_tool_uses: bool) -> (res: PromptStep)
    ensures
        res == if interactive {
            PromptStep::Prompt
        } else if no_pending_tool_uses {
            PromptStep::Exit
        } else {
            PromptStep::NeedsApproval
        },
{
    if interactive {
        PromptStep::Prompt
    } else if no_pending_tool_uses {
        PromptStep::Exit
    } else {
        PromptStep::NeedsApproval
    }
}

/// Why sending a message to the model failed, as far as the session tells the causes apart.
#[derive(Debug, Clone, PartialEq, Eq)]
pub enum SendMessageFailure {
    /// The conversation no longer fits in the model's context window.
    ContextWindowOverflow,
    /// Too many requests were sent.
    QuotaBreach,
    /// The selected model is unavailable; the request id, when known.
    ModelOverloaded { request_id: Option<String> },
    /// The monthly request limit was reached.
    MonthlyLimitReached,
    /// Any other failure.
    Other,
}

/// A failed message send: its cause, and the reason code and HTTP status code that error
/// reports give it.
#[derive(Debug, Clone, PartialEq, Eq)]
pub struct SendMessageError {
    pub source: SendMessageFailure,
    pub reason_code: String,
    pub status_code: Option<u16>,
}

/// The errors of a chat session, each holding as plain values what the session reads of it.
#[derive(Debug, Clone)]
pub enum ChatError {
    /// The API client failed, with its reason code and HTTP status code, when known.
    Client { reason_code: String, status_code: Option<u16> },
    Auth(String),
    SendMessage(SendMessageError),
    /// Receiving the response failed, with its reason code.
    ResponseStream { reason_code: String },
    Std(String),
    Readline(String),
    Custom(String),
    /// The user interrupted the session; the tool uses that were queued, if any.
    Interrupted { tool_uses: Option<Vec<PendingToolUse>> },
    GetPromptError(String),
    NonInteractiveToolApproval,
    CompactHistoryFailure,
    AgentSwapError(String),
}

impl ChatError {
    /// The HTTP status code behind the error: that of a failed client call or message send,
    /// and none for the others.
    pub fn status_code(&self) -> (res: Option<u16>)
        ensures
            res == match self {
                ChatError::Client { status_code, .. } => *status_code,
                ChatError::SendMessage(e) => e.status_code,
                _ => None,
            },
    {
        match self {
            ChatError::Client { status_code, .. } => *status_code,
            ChatError::SendMessage(e) => e.status_code,
            _ => None,
        }
    }
}

/// The name that the session's error reports give an error.
pub open spec fn chat_error_reason(e: ChatError) -> Seq<char> {
    match e {
        ChatError::Client { reason_code, .. } => reason_code@,
        ChatError::SendMessage(s) => s.reason_code@,
        ChatError::ResponseStream { reason_code } => reason_code@,
        ChatError::Std(_) => "StdIoError"@,
        ChatError::Readline(_) => "ReadlineError"@,
        ChatError::Custom(_) => "GenericError"@,
        ChatError::Interrupted { .. } => "Interrupted"@,
        ChatError::GetPromptError(_) => "GetPromptError"@,
        ChatError::Auth(_) => "AuthError"@,
        ChatError::NonInteractiveToolApproval => "NonInteractiveToolApproval"@,
        ChatError::CompactHistoryFailure => "CompactHistoryFailure"@,
        ChatError::AgentSwapError(_) => "AgentSwapError"@,
    }
}

impl ChatError {
    /// The name that error reports give the error (see [chat_error_reason]).
    pub fn reason_code(&self) -> (res: String)
        ensures
            res@ == chat_error_reason(*self),
    {
        match self {
            ChatError::Client { reason_code, .. } => reason_code.clone(),
            ChatError::SendMessage(e) => e.reason_code.clone(),
            ChatError::ResponseStream { reason_code } => reason_code.clone(),
            ChatError::Std(_) => String::from_str("StdIoError"),
            ChatError::Readline(_) => String::from_str("ReadlineError"),
            ChatError::Custom(_) => String::from_str("GenericError"),
            ChatError::Interrupted { .. } => String::from_str("Interrupted"),
            ChatError::GetPromptError(_) => String::from_str("GetPromptError"),
            ChatError::Auth(_) => String::from_str("AuthError"),
            ChatError::NonInteractiveToolApproval => String::from_str("NonInteractiveToolApproval"),
            ChatError::CompactHistoryFailure => String::from_str("CompactHistoryFailure"),
            ChatError::AgentSwapError(_) => String::from_str("AgentSwapError"),
        }
    }
}

/// How the session goes on after an error.
#[derive(Debug)]
pub enum RecoveryStep {
    /// Go to this state at once, keeping the turn.
    Continue(ChatState),
    /// End the turn: reset it and prompt the user again. `context` names what failed, and
    /// `display` says whether the error itself is shown to the user.
    EndTurn { context: String, display: bool },
}

/// What the session does after an error.
#[derive(Debug)]
pub struct ErrorRecovery {
    pub step: RecoveryStep,
    /// The text added to the conversation's transcript, if any.
    pub transcript: Option<String>,
    /// Whether the interrupted tool uses are abandoned (with a note for the model that the user
    /// interrupted them).
    pub abandon_tool_uses: bool,
}

/// The compaction that an overflowing context window starts when automatic compaction is on:
/// large messages are truncated (to 25000) when the history holds at most two messages.
pub open spec fn overflow_strategy(history_len: usize) -> ChatCompactStrategy {
    ChatCompactStrategy {
        messages_to_exclude: 0,
        truncate_large_messages: history_len <= 2,
        max_message_length: if history_len <= 2 {
            25000
        } else {
            0
        },
    }
}

/// The transcript note for a request over the quota.
pub open spec fn quota_message() -> Seq<char> {
    "Request quota exceeded. Please wait a moment and try again."@
}

/// The transcript note, in an interactive session, for an unavailable model.
pub open spec fn model_unavailable_note(request_id: Seq<char>) -> Seq<char> {
    "Model unavailable (Request ID: "@ + request_id + ")"@
}

/// The error text, in a non-interactive session, for an unavailable model.
pub open spec fn model_unavailable_error(request_id: Option<String>) -> Seq<char> {
    "The model you've selected is temporarily unavailable. Please relaunch with '--model <model_id>' to use a different model."@
        + match request_id {
        Some(id) => "\n    Request ID: "@ + id@,
        None => Seq::empty(),
    } + "\n\n"@
}

/// Whether the step ends the turn with the given context and display choice.
pub open spec fn ends_turn(s: RecoveryStep, context: Seq<char>, display: bool) -> bool {
    s matches RecoveryStep::EndTurn { context: c, display: d } && c@ == context && d == display
}

/// Whether `r` is what follows the error `e`:
/// - an interruption ends the turn quietly, abandoning the tool uses it cut off, if any;
/// - a failed compaction ends the turn, showing the error;
/// - an overflowing context window compacts the history, unless automatic compaction is off,
///   when it ends the turn quietly;
/// - a request over the quota ends the turn quietly, with a note in the transcript;
/// - an unavailable model lets an interactive user pick another (noting the request id, when
///   known), and ends a non-interactive turn quietly with an error text in the transcript;
/// - a reached monthly limit prompts the user again at once;
/// - anything else ends the turn, showing the error.
pub open spec fn is_error_recovery(
    r: ErrorRecovery,
    e: ChatError,
    interactive: bool,
    auto_compaction_disabled: bool,
    history_len: usize,
) -> bool {
    match e {
        ChatError::Interrupted { tool_uses } => {
            &&& ends_turn(r.step, "Tool use was interrupted"@, false)
            &&& r.transcript is None
            &&& r.abandon_tool_uses == (tool_uses matches Some(t) && t.len() > 0)
        },
        ChatError::CompactHistoryFailure => {
            &&& ends_turn(r.step, "Unable to compact the conversation history"@, true)
            &&& r.transcript is None
            &&& !r.abandon_tool_uses
        },
        ChatError::SendMessage(s) => {
            &&& !r.abandon_tool_uses
            &&& match s.source {
                SendMessageFailure::ContextWindowOverflow => {
                    &&& r.transcript is None
                    &&& if auto_compaction_disabled {
                        ends_turn(r.step, "The conversation history has overflowed"@, false)
                    } else {
                        r.step == RecoveryStep::Continue(
                            ChatState::CompactHistory {
                                prompt: None,
                                show_summary: false,
                                strategy: overflow_strategy(history_len),
                            },
                        )
                    }
                },
                SendMessageFailure::QuotaBreach => {
                    &&& ends_turn(r.step, TROUBLE_RESPONDING@, false)
                    &&& r.transcript matches Some(t) && t@ == quota_message()
                },
                SendMessageFailure::ModelOverloaded { request_id } => if interactive {
                    &&& r.step == RecoveryStep::Continue(ChatState::RetryModelOverload)
                    &&& match request_id {
                        Some(id) => r.transcript matches Some(t) && t@ == model_unavailable_note(id@),
                        None => r.transcript is None,
                    }
                } else {
                    &&& ends_turn(r.step, TROUBLE_RESPONDING@, false)
                    &&& r.transcript matches Some(t) && t@ == model_unavailable_error(request_id)
                },
                SendMessageFailure::MonthlyLimitReached => {
                    &&& r.step == RecoveryStep::Continue(ChatState::PromptUser { skip_printing_tools: false })
                    &&& r.transcript is None
                },
                SendMessageFailure::Other => {
                    &&& ends_turn(r.step, TROUBLE_RESPONDING@, true)
                    &&& r.transcript is None
                },
            }
        },
        _ => {
            &&& ends_turn(r.step, TROUBLE_RESPONDING@, true)
            &&& r.transcript is None
            &&& !r.abandon_tool_uses
        },
    }
}

fn end_turn(context: &str, display: bool) -> (res: RecoveryStep)
    ensures
        ends_turn(res, context@, display),
{
    RecoveryStep::EndTurn { context: String::from_str(context), display }
}

/// Decides how the session recovers from an error (see [is_error_recovery]), given whether it
/// is interactive, whether automatic compaction is turned off, and how many messages the
/// history holds.
pub fn recover_from_error(e: &ChatError, interactive: bool, auto_compaction_disabled: bool, history_len: usize) -> (res:
    ErrorRecovery)
    ensures
        is_error_recovery(res, *e, interactive, auto_compaction_disabled, history_len),
{
    match e {
        ChatError::Interrupted { tool_uses } => {
            let abandon = match tool_uses {
                Some(t) => t.len() > 0,
                None => false,
            };
            ErrorRecovery { step: end_turn("Tool use was interrupted", false), transcript: None, abandon_tool_uses: abandon }
        },
        ChatError::CompactHistoryFailure => ErrorRecovery {
            step: end_turn("Unable to compact the conversation history", true),
            transcript: None,
            abandon_tool_uses: false,
        },
        ChatError::SendMessage(s) => match &s.source {
            SendMessageFailure::ContextWindowOverflow => {
                if auto_compaction_disabled {
                    ErrorRecovery {
                        step: end_turn("The conversation history has overflowed", false),
                        transcript: None,
                        abandon_tool_uses: false,
                    }
                } else {
                    let max_message_length: usize = if history_len <= 2 {
                        25_000
                    } else {
                        0
                    };
                    let strategy = ChatCompactStrategy {
                        truncate_large_messages: history_len <= 2,
                        max_message_length,
                        ..ChatCompactStrategy::default()
                    };
                    ErrorRecovery {
                        step: RecoveryStep::Continue(ChatState::CompactHistory { prompt: None, show_summary: false, strategy }),
                        transcript: None,
                        abandon_tool_uses: false,
                    }
                }
            },
            SendMessageFailure::QuotaBreach => ErrorRecovery {
                step: end_turn(TROUBLE_RESPONDING, false),
                transcript: Some(String::from_str("Request quota exceeded. Please wait a moment and try again.")),
                abandon_tool_uses: false,
            },
            SendMessageFailure::ModelOverloaded { request_id } => {
                if interactive {
                    let transcript = match request_id {
                        Some(id) => {
                            let mut t = String::from_str("Model unavailable (Request ID: ");
                            t.append(id.as_str());
                            t.append(")");
                            Some(t)
                        },
                        None => None,
                    };
                    ErrorRecovery { step: RecoveryStep::Continue(ChatState::RetryModelOverload), transcript, abandon_tool_uses: false }
                } else {
                    let mut t = String::from_str(
                        "The model you've selected is temporarily unavailable. Please relaunch with '--model <model_id>' to use a different model.",
                    );
                    if let Some(id) = request_id {
                        t.append("\n    Request ID: ");
                        t.append(id.as_str());
                    }
                    t.append("\n\n");
                    proof {
                        assert(t@ =~= model_unavailable_error(*request_id));
                    }
                    ErrorRecovery { step: end_turn(TROUBLE_RESPONDING, false), transcript: Some(t), abandon_tool_uses: false }
                }
            },
            SendMessageFailure::MonthlyLimitReached => ErrorRecovery {
                step: RecoveryStep::Continue(ChatState::PromptUser { skip_printing_tools: false }),
                transcript: None,
                abandon_tool_uses: false,
            },
            SendMessageFailure::Other => ErrorRecovery {
                step: end_turn(TROUBLE_RESPONDING, true),
                transcript: None,
                abandon_tool_uses: false,
            },
        },
        _ => ErrorRecovery { step: end_turn(TROUBLE_RESPONDING, true), transcript: None, abandon_tool_uses: false },
    }
}

/// How far a compaction strategy is from the strongest one: each retry lowers it.
pub open spec fn compaction_rank(s: ChatCompactStrategy) -> nat {
    (if s.truncate_large_messages {
        0nat
    } else {
        2nat
    }) + (if s.messages_to_exclude >= 1 {
        0nat
    } else {
        1nat
    })
}

/// The strategy to retry a compaction with after its request overflowed the context window,
/// or `None` when nothing is left to try (the compaction then fails). With at most two
/// messages, large messages are truncated at once; otherwise the latest message is first left
/// out, and only then are large messages truncated.
pub open spec fn next_compaction(s: ChatCompactStrategy, history_len: usize) -> Option<ChatCompactStrategy> {
    if history_len <= 2 && !s.truncate_large_messages {
        Some(ChatCompactStrategy { messages_to_exclude: 0, truncate_large_messages: true, max_message_length: 25000 })
    } else if history_len > 2 && s.messages_to_exclude < 1 {
        Some(ChatCompactStrategy { messages_to_exclude: 1, ..s })
    } else if !s.truncate_large_messages {
        Some(ChatCompactStrategy { truncate_large_messages: true, max_message_length: 25000, ..s })
    } else {
        None
    }
}

/// Decides how to retry a compaction whose request overflowed the context window (see
/// [next_compaction]). Each retry lowers [compaction_rank], which starts at most at 3, so a
/// compaction is retried at most three times before it fails.
pub fn retry_compaction(strategy: ChatCompactStrategy, history_len: usize) -> (res: Option<ChatCompactStrategy>)
    ensures
        res == next_compaction(strategy, history_len),
        compaction_rank(strategy) <= 3,
        res matches Some(n) ==> compaction_rank(n) < compaction_rank(strategy),
{
    if history_len <= 2 && !strategy.truncate_large_messages {
        Some(ChatCompactStrategy { messages_to_exclude: 0, truncate_large_messages: true, max_message_length: 25_000 })
    } else if history_len > 2 && strategy.messages_to_exclude < 1 {
        Some(ChatCompactStrategy { messages_to_exclude: 1, ..strategy })
    } else if !strategy.truncate_large_messages {
        Some(ChatCompactStrategy { truncate_large_messages: true, max_message_length: 25_000, ..strategy })
    } else {
        None
    }
}

/// Retrying compactions ends: however many times a compaction's request overflows, the
/// strategies it is retried with run out after at most three retries, each step strengthening
/// the last (once truncating, it keeps truncating; the count of left-out messages never drops).
pub proof fn lemma_compaction_retries_end(s: ChatCompactStrategy, history_len: usize)
    ensures
        compaction_rank(s) <= 3,
        next_compaction(s, history_len) matches Some(n) ==> {
            &&& compaction_rank(n) < compaction_rank(s)
            &&& s.truncate_large_messages ==> n.truncate_large_messages
            &&& history_len > 2 ==> n.messages_to_exclude >= s.messages_to_exclude
        },
        compaction_rank(s) == 0 ==> next_compaction(s, history_len) is None,
{
}

/// Below this terminal width the greeting takes its small-screen form.
pub const GREETING_BREAK_POINT: usize = 80;

/// What a session shows when it starts with plain output and the greeting turned on.
#[derive(Debug, Clone, PartialEq, Eq)]
pub struct Greeting {
    /// The welcome (or, for a resumed conversation, the resume) text.
    pub welcome: String,
    /// The tip shown under it.
    pub tip: String,
    /// Whether the tip is drawn in a box titled "Did you know?" (else on one line after a bulb).
    pub tip_boxed: bool,
    /// The popular shortcuts.
    pub shortcuts: String,
    /// How many characters wide the rule under the shortcuts is.
    pub rule_width: usize,
    /// The warning shown when every tool is trusted, if they are.
    pub trust_all_notice: Option<String>,
}

/// Whether `g` is the greeting for a session that resumes a conversation or not, on a terminal of
/// the given width, with the tip picked by the number `pick` and with or without every tool
/// trusted: narrow terminals get the short welcome, the tip on one line, the stacked shortcuts
/// and no rule; a resumed conversation is greeted by the resume text.
pub open spec fn is_greeting(g: Greeting, existing_conversation: bool, terminal_width: usize, pick: u32, all_trusted: bool) -> bool {
    let small = terminal_width < GREETING_BREAK_POINT;
    &&& g.welcome@ == if existing_conversation {
        resume_text_view()
    } else if small {
        small_screen_welcome_view()
    } else {
        welcome_text_view()
    }
    &&& g.tip@ == rotating_tips()[pick as int % 20]
    &&& g.tip_boxed == !small
    &&& g.shortcuts@ == if small {
        small_screen_popular_shortcuts_view()
    } else {
        popular_shortcuts_view()
    }
    &&& g.rule_width == if small {
        0
    } else {
        GREETING_BREAK_POINT
    }
    &&& if all_trusted {
        g.trust_all_notice matches Some(n) && n@ == trust_all_warning_view() + if small {
            Seq::empty()
        } else {
            "\n"@
        } + "\n\n"@
    } else {
        g.trust_all_notice is None
    }
}

/// Builds the greeting of a session (see [is_greeting]); `pick` is a random number that
/// chooses the tip.
pub fn greeting(existing_conversation: bool, terminal_width: usize, pick: u32, all_trusted: bool) -> (res: Greeting)
    ensures
        is_greeting(res, existing_conversation, terminal_width, pick, all_trusted),
{
    let small = terminal_width < GREETING_BREAK_POINT;
    let welcome = if existing_conversation {
        resume_text()
    } else if small {
        small_screen_welcome()
    } else {
        welcome_text()
    };
    let tips = get_rotating_tips();
    let index = (pick % 20) as usize;
    let tip = tips[index].clone();
    let shortcuts = if small {
        small_screen_popular_shortcuts()
    } else {
        popular_shortcuts()
    };
    let trust_all_notice = if all_trusted {
        let mut n = trust_all_warning();
        if !small {
            n.append("\n");
        }
        n.append("\n\n");
        proof {
            if small {
                assert(n@ =~= trust_all_warning_view() + Seq::<char>::empty() + "\n\n"@);
            } else {
                assert(n@ =~= trust_all_warning_view() + "\n"@ + "\n\n"@);
            }
        }
        Some(n)
    } else {
        None
    };
    Greeting {
        welcome,
        tip,
        tip_boxed: !small,
        shortcuts,
        rule_width: if small {
            0
        } else {
            GREETING_BREAK_POINT
        },
        trust_all_notice,
    }
}

/// A random number, by `rand::random::<u32>()`; nothing is promised of its value.
#[verifier::external_body]
fn random_u32() -> (res: u32) {
    rand::random::<u32>()
}

/// The greeting of a session (see [is_greeting]), with its tip picked at random.
pub fn session_greeting(existing_conversation: bool, terminal_width: usize, all_trusted: bool) -> (res: Greeting)
    ensures
        exists|pick: u32| #[trigger] is_greeting(res, existing_conversation, terminal_width, pick, all_trusted),
{
    let pick = random_u32();
    let g = greeting(existing_conversation, terminal_width, pick, all_trusted);
    assert(is_greeting(g, existing_conversation, terminal_width, pick, all_trusted));
    g
}

/// Whether an agent can be generated from a name and a description: neither may be blank.
/// When one is, the session goes back to the prompt without asking the model.
pub fn can_generate_agent(agent_name: &str, agent_description: &str) -> (res: bool)
    ensures
        res == (trimmed(agent_name@).len() > 0 && trimmed(agent_description@).len() > 0),
{
    let name = trim(agent_name);
    let description = trim(agent_description);
    name.unicode_len() > 0 && description.unicode_len() > 0
}

/// What reading a line from the user gave.
#[derive(Debug, Clone, PartialEq, Eq)]
pub enum LineRead {
    /// A line.
    Line(String),
    /// Ctrl+C or Ctrl+D: no line.
    Interrupted,
    /// Reading failed.
    Failed,
}

/// What the session does with what a read of the user's input gave.
#[derive(Debug, Clone, PartialEq, Eq)]
pub enum ReadStep {
    /// Take the line as the user's input.
    Accept(String),
    /// Ask again: the line was blank.
    Reprompt,
    /// Warn that a second interruption exits, and ask again.
    WarnAndReprompt,
    /// Stop reading: the user left.
    Exit,
}

/// What a read of the user's input leads to, given whether an interruption was already seen
/// (`interrupted_before`) and whether one interruption is enough to leave: a blank line is asked
/// again, other lines are taken, a failed read leaves, and an interruption leaves when one is
/// enough or one came before, and otherwise warns.
pub open spec fn read_outcome(read: LineRead, interrupted_before: bool, exit_on_single_ctrl_c: bool) -> ReadStep {
    match read {
        LineRead::Line(l) => if trimmed(l@).len() == 0 {
            ReadStep::Reprompt
        } else {
            ReadStep::Accept(l)
        },
        LineRead::Interrupted => if exit_on_single_ctrl_c || interrupted_before {
            ReadStep::Exit
        } else {
            ReadStep::WarnAndReprompt
        },
        LineRead::Failed => ReadStep::Exit,
    }
}

/// Decides what a read of the user's input leads to (see [read_outcome]). The session then
/// remembers an interruption exactly when the step warned.
pub fn read_step(read: LineRead, interrupted_before: bool, exit_on_single_ctrl_c: bool) -> (res: ReadStep)
    ensures
        res == read_outcome(read, interrupted_before, exit_on_single_ctrl_c),
{
    match read {
        LineRead::Line(l) => {
            let t = trim(l.as_str());
            if t.unicode_len() == 0 {
                ReadStep::Reprompt
            } else {
                ReadStep::Accept(l)
            }
        },
        LineRead::Interrupted => if exit_on_single_ctrl_c || interrupted_before {
            ReadStep::Exit
        } else {
            ReadStep::WarnAndReprompt
        },
        LineRead::Failed => ReadStep::Exit,
    }
}

/// Two interruptions in a row always leave: if the first does not exit, it warns, and the
/// second, read with that remembered, exits.
pub proof fn lemma_second_interrupt_exits(interrupted_before: bool, exit_on_single_ctrl_c: bool)
    ensures
        ({
            let first = read_outcome(LineRead::Interrupted, interrupted_before, exit_on_single_ctrl_c);
            first == ReadStep::Exit || (first == ReadStep::WarnAndReprompt && read_outcome(
                LineRead::Interrupted,
                true,
                exit_on_single_ctrl_c,
            ) == ReadStep::Exit)
        }),
{
}

/// How many times the announcement of a version's changes is shown.
pub const CHANGELOG_MAX_SHOW_COUNT: i64 = 2;

/// Whether the announcement of the changes in `current_version` is shown, given the version it
/// was last shown for and how many times it was shown for that version; when it is, the count
/// to record with `current_version`: one more for the same version, else one.
pub open spec fn changelog_step(current_version: Seq<char>, last_version: Option<Seq<char>>, show_count: i64) -> Option<i64> {
    let same = last_version == Some(current_version);
    if same && show_count >= CHANGELOG_MAX_SHOW_COUNT {
        None
    } else if same {
        Some((show_count + 1) as i64)
    } else {
        Some(1)
    }
}

/// Decides whether to show the announcement of the changes in `current_version` (see
/// [changelog_step]).
pub fn changelog_announcement(current_version: &str, last_version: &Option<String>, show_count: i64) -> (res: Option<i64>)
    ensures
        res == changelog_step(current_version@, opt_view(*last_version), show_count),
{
    let same = match last_version {
        Some(last) => str_eq(last.as_str(), current_version),
        None => false,
    };
    if same && show_count >= CHANGELOG_MAX_SHOW_COUNT {
        None
    } else if same {
        Some(show_count + 1)
    } else {
        Some(1)
    }
}

/// The announcement of a version's changes is shown at most twice: a new version shows it and
/// starts counting at one; for the version it was shown for, each showing counts one more, never
/// past the limit, and at the limit it is no longer shown.
pub proof fn lemma_changelog_shown_at_most_twice(v: Seq<char>, last: Option<Seq<char>>, count: i64)
    ensures
        last != Some(v) ==> changelog_step(v, last, count) == Some(1i64),
        last == Some(v) && count >= CHANGELOG_MAX_SHOW_COUNT ==> changelog_step(v, last, count) is None,
        changelog_step(v, Some(v), count) matches Some(n) ==> n == count + 1 && n <= CHANGELOG_MAX_SHOW_COUNT,
{
}

/// The month after `month` (1 to 12), as `time::Month::next` gives it: December is followed by
/// January.
pub open spec fn next_month(month: u8) -> u8 {
    if month == 12 {
        1
    } else {
        (month + 1) as u8
    }
}

/// A number below 100 written with two digits.
pub open spec fn two_digits(n: u8) -> Seq<char> {
    if n < 10 {
        "0"@ + decimal(n as nat)
    } else {
        decimal(n as nat)
    }
}

/// The note shown when the monthly request limit is reached, in the month `month` (1 to 12): the
/// limits reset on the first of the next month.
pub fn limits_reset_text(month: u8) -> (res: String)
    requires
        1 <= month <= 12,
    ensures
        res@ == "The limits reset on "@ + two_digits(next_month(month)) + "/01."@,
{
    let next: u8 = if month == 12 {
        1
    } else {
        month + 1
    };
    let mut s = String::from_str("The limits reset on ");
    if next < 10 {
        s.append("0");
    }
    push_decimal_u64(&mut s, next as u64);
    s.append("/01.");
    proof {
        assert(s@ =~= "The limits reset on "@ + two_digits(next_month(month)) + "/01."@);
    }
    s
}

} // verus!
