//! Command-line arguments and chat commands, and the decisions they make on plain values.

use vstd::prelude::*;

use crate::path_util::{is_absolute, join_path, join_onto};
use crate::text::{str_eq, chars_of};
use crate::agent_config::{has_file_scheme, trim_file_scheme};
use crate::agent_loop::LoopEndReason;
use crate::messages::{content_text, Message};

verus! {

/// The output format of the run command.
#[derive(Debug, Clone, Copy, PartialEq, Eq, Structural)]
pub enum RunOutputFormat {
    Text,
    Json,
    JsonStreaming,
}

/// The arguments of the run command.
#[derive(Debug, Clone, PartialEq, Eq)]
pub struct RunArgs {
    /// The agent to run the session with.
    pub agent: Option<String>,
    /// The model to use.
    pub model: Option<String>,
    /// The session to resume.
    pub resume: Option<String>,
    pub output_format: Option<RunOutputFormat>,
    /// Trust all tools.
    pub dangerously_trust_all_tools: bool,
    /// The initial prompt.
    pub prompt: Vec<String>,
}

impl Default for RunArgs {
    fn default() -> (res: Self)
        ensures
            res.agent is None,
            res.model is None,
            res.resume is None,
            res.output_format is None,
            !res.dangerously_trust_all_tools,
            res.prompt@.len() == 0,
    {
        RunArgs {
            agent: None,
            model: None,
            resume: None,
            output_format: None,
            dangerously_trust_all_tools: false,
            prompt: Vec::new(),
        }
    }
}

/// The subcommands of the agent binary.
#[derive(Debug, Clone, PartialEq, Eq)]
pub enum RootSubcommand {
    /// Run a single prompt.
    Run(RunArgs),
}

impl Default for RootSubcommand {
    fn default() -> (res: Self)
        ensures
            res matches RootSubcommand::Run(a) && a.agent is None && a.model is None && a.resume is None
                && a.output_format is None && !a.dangerously_trust_all_tools && a.prompt@.len() == 0,
    {
        RootSubcommand::Run(RunArgs::default())
    }
}

/// The arguments of the agent binary.
#[derive(Debug, Clone, PartialEq, Eq)]
pub struct CliArgs {
    pub subcommand: Option<RootSubcommand>,
    /// Logging verbosity.
    pub verbose: u8,
}

impl CliArgs {
    /// The subcommand to run: the one given, else a run with default arguments.
    pub fn subcommand_or_default(self) -> (res: RootSubcommand)
        ensures
            self.subcommand matches Some(s) ==> res == s,
            self.subcommand is None ==> (res matches RootSubcommand::Run(a) && a.agent is None && a.prompt@.len()
                == 0),
    {
        match self.subcommand {
            Some(s) => s,
            None => RootSubcommand::default(),
        }
    }
}

/// The clear command.
#[derive(Debug, Clone, Copy, PartialEq, Eq, Structural)]
pub struct ClearArgs;

impl ClearArgs {
    /// Whether the answer to the confirmation prompt confirms clearing: `y` or `Y`.
    pub fn confirms(input: &str) -> (res: bool)
        ensures
            res == (input@ == "y"@ || input@ == "Y"@),
    {
        str_eq(input, "y") || str_eq(input, "Y")
    }
}

/// The paste command.
#[derive(Debug, Clone, Copy, PartialEq, Eq, Structural)]
pub struct PasteArgs;

/// The usage command.
#[derive(Debug, Clone, Copy, PartialEq, Eq, Structural)]
pub struct UsageArgs;

/// A number of tokens.
#[derive(Debug, Clone, Copy, PartialEq, Eq, Structural)]
pub struct TokenCount(pub usize);

/// Token usage of a chat session, by component.
#[derive(Debug, Clone)]
pub struct DetailedUsageData {
    pub total_tokens: TokenCount,
    pub context_tokens: TokenCount,
    pub assistant_tokens: TokenCount,
    pub user_tokens: TokenCount,
    pub tools_tokens: TokenCount,
    pub context_window_size: usize,
    /// Context files left out, with the reason.
    pub dropped_context_files: Vec<(String, String)>,
}

/// Saving and loading conversations.
#[derive(Debug, Clone, PartialEq, Eq)]
pub enum PersistSubcommand {
    /// Save the conversation to `path`, overwriting it only with `force`.
    Save { path: String, force: bool },
    /// Load a conversation from `path`.
    Load { path: String },
}

impl PersistSubcommand {
    /// Whether saving must stop because the file exists and overwriting was not asked for.
    pub fn save_blocked(file_exists: bool, force: bool) -> (res: bool)
        ensures
            res == (file_exists && !force),
    {
        file_exists && !force
    }

    /// The second path to try when loading from `path` failed: `path.json`, unless the
    /// path already ends with `.json`.
    pub fn load_fallback_path(path: &str) -> (res: Option<String>)
        ensures
            match res {
                Some(p) => !(path@.len() >= 5 && path@.subrange(path@.len() - 5, path@.len() as int) == ".json"@)
                    && p@ == path@ + ".json"@,
                None => path@.len() >= 5 && path@.subrange(path@.len() - 5, path@.len() as int) == ".json"@,
            },
    {
        let n = path.unicode_len();
        if n >= 5 {
            let tail = path.substring_char(n - 5, n);
            if str_eq(tail, ".json") {
                return None;
            }
        }
        let mut p = String::from_str(path);
        p.append(".json");
        Some(p)
    }
}

/// A system event of the JSON stream output.
#[derive(Debug, Clone, PartialEq, Eq)]
pub struct SystemEvent {
    pub subtype: String,
    pub session_id: Option<String>,
    pub model: Option<String>,
}

/// A user message of the JSON stream output.
#[derive(Debug, Clone, PartialEq, Eq)]
pub struct UserEvent {
    pub content: String,
}

/// An assistant message of the JSON stream output.
#[derive(Debug, Clone, PartialEq, Eq)]
pub struct AssistantEvent {
    pub content: String,
}

/// A tool result of the JSON stream output.
#[derive(Debug, Clone, PartialEq, Eq)]
pub struct ToolResultEvent {
    pub tool_use_id: String,
    pub content: String,
    pub status: Option<String>,
}

/// How a run ended, in the JSON stream output.
#[derive(Debug, Clone, Copy, PartialEq, Eq, Structural)]
pub enum ResultSubtype {
    Success,
    Error,
}

/// Token usage of the JSON stream output.
#[derive(Debug, Clone, Copy, PartialEq, Eq, Structural)]
pub struct Usage {
    pub input_tokens: u64,
    pub output_tokens: u64,
}

/// Errors in resolving a `file://` URI.
#[derive(Debug, Clone, PartialEq, Eq)]
pub enum FileUriError {
    InvalidUri { uri: String },
    FileNotFound { path: String },
    ReadError { path: String, message: String },
}

/// The file a `file://` URI names, relative ones under `base_path`; `None` for a URI
/// without the scheme or without a path.
pub open spec fn file_uri_target(uri: Seq<char>, base_path: Seq<char>) -> Option<Seq<char>> {
    if !(uri.len() >= 7 && uri.take(7) == "file://"@) {
        None
    } else {
        let p = trim_file_scheme(uri);
        if p.len() == 0 {
            None
        } else if is_absolute(p) {
            Some(p)
        } else {
            Some(join_path(base_path, p))
        }
    }
}

/// The path of the file a `file://` URI names (see [file_uri_target]); whether the file
/// exists and can be read is for the caller to find out.
pub fn resolve_file_uri_path(uri: &str, base_path: &str) -> (res: Result<String, FileUriError>)
    ensures
        match file_uri_target(uri@, base_path@) {
            Some(p) => res matches Ok(s) && s@ == p,
            None => res matches Err(FileUriError::InvalidUri { uri: u }) && u@ == uri@,
        },
{
    if !has_file_scheme(uri) {
        return Err(FileUriError::InvalidUri { uri: String::from_str(uri) });
    }
    let mut path: &str = uri;
    while has_file_scheme(path)
        invariant
            trim_file_scheme(path@) == trim_file_scheme(uri@),
        decreases path@.len(),
    {
        let m = path.unicode_len();
        let rest = path.substring_char(7, m);
        assert(rest@ =~= path@.skip(7));
        path = rest;
    }
    let pc = chars_of(path);
    if pc.len() == 0 {
        return Err(FileUriError::InvalidUri { uri: String::from_str(uri) });
    }
    if pc[0] == '/' {
        Ok(String::from_str(path))
    } else {
        Ok(join_onto(&String::from_str(base_path), &String::from_str(path)))
    }
}

/// What a run prints at its end in JSON format.
#[derive(Debug, Clone, PartialEq, Eq)]
pub struct RunJsonOutput {
    /// Whether the user turn failed.
    pub is_error: bool,
    /// Text of the final message, if there is one.
    pub result: Option<String>,
    /// The number of requests sent to the model.
    pub number_of_requests: u32,
    /// The number of tool use and tool result pairs in the turn.
    pub number_of_cycles: u32,
    /// Duration of the turn, in milliseconds.
    pub duration_ms: u32,
}

/// The JSON summary of a finished user turn: an error unless the turn ended normally with a
/// final message, whose text is the result.
pub fn run_json_output<E>(
    end_reason: LoopEndReason,
    result: &Option<Result<Message, E>>,
    number_of_requests: u32,
    number_of_cycles: u32,
    turn_duration_ms: Option<u128>,
) -> (res: RunJsonOutput)
    ensures
        res.is_error == (end_reason != LoopEndReason::UserTurnEnd || !(result matches Some(Ok(_)))),
        match result {
            Some(Ok(m)) => res.result matches Some(t) && t@ == content_text(m.content@),
            _ => res.result is None,
        },
        res.number_of_requests == number_of_requests,
        res.number_of_cycles == number_of_cycles,
        res.duration_ms == match turn_duration_ms {
            Some(d) => d as u32,
            None => 0u32,
        },
{
    let ok = match result {
        Some(Ok(_)) => true,
        _ => false,
    };
    let is_error = end_reason != LoopEndReason::UserTurnEnd || !ok;
    let text = match result {
        Some(Ok(m)) => Some(m.text()),
        _ => None,
    };
    let duration_ms: u32 = match turn_duration_ms {
        Some(d) => d as u32,
        None => 0,
    };
    RunJsonOutput { is_error, result: text, number_of_requests, number_of_cycles, duration_ms }
}

/// An event from the agent, as far as the run command's loop tells events apart.
#[derive(Debug, Clone, PartialEq, Eq)]
pub enum RunEvent {
    /// The user turn ended.
    EndTurn,
    /// The agent stopped with an error, described by `error`.
    StopWithError { error: String },
    /// A tool use asks for approval; `tool_use` describes it.
    ApprovalRequest { id: String, tool_use: String },
    /// Any other event (content, tool calls, internal events).
    Other,
}

/// What the run command's loop does after an event.
#[derive(Debug, Clone, PartialEq, Eq)]
pub enum RunStep {
    /// Wait for the next event.
    Continue,
    /// The turn is over: leave the loop.
    Finish,
    /// Approve the tool use with this id, then wait for the next event.
    Approve(String),
    /// Fail with this message.
    Fail(String),
}

/// Whether `r` is what the run command's loop does after the event `e`: the end of the turn
/// leaves the loop, an error fails, and an approval request is approved when every tool is
/// trusted and fails otherwise (no one can answer it).
pub open spec fn is_run_step(r: RunStep, e: RunEvent, trust_all_tools: bool) -> bool {
    match e {
        RunEvent::EndTurn => r == RunStep::Finish,
        RunEvent::StopWithError { error } => r matches RunStep::Fail(m) && m@ == "agent encountered an error: "@ + error@,
        RunEvent::ApprovalRequest { id, tool_use } => if trust_all_tools {
            r == RunStep::Approve(id)
        } else {
            r matches RunStep::Fail(m) && m@ == "Tool approval is required: "@ + tool_use@
        },
        RunEvent::Other => r == RunStep::Continue,
    }
}

/// Decides what the run command's loop does after an event (see [is_run_step]).
pub fn run_step(event: RunEvent, trust_all_tools: bool) -> (res: RunStep)
    ensures
        is_run_step(res, event, trust_all_tools),
{
    match event {
        RunEvent::EndTurn => RunStep::Finish,
        RunEvent::StopWithError { error } => {
            let mut m = String::from_str("agent encountered an error: ");
            m.append(error.as_str());
            RunStep::Fail(m)
        },
        RunEvent::ApprovalRequest { id, tool_use } => if trust_all_tools {
            RunStep::Approve(id)
        } else {
            let mut m = String::from_str("Tool approval is required: ");
            m.append(tool_use.as_str());
            RunStep::Fail(m)
        },
        RunEvent::Other => RunStep::Continue,
    }
}

} // verus!
