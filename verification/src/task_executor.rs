//! Results of tool and hook executions, and the decisions made around running hooks.

use vstd::prelude::*;

use crate::compact::{fit_prefix, truncate_safe, utf8_byte_len, utf8_len, utf8_len_exceeds};
use crate::config::{hook_trigger_name, HookConfig, HookTrigger};
use crate::json::{entries_view, json_object, json_object_of, json_serializes, json_string, json_string_of, json_text, json_to_string};
use crate::messages::{ImageBlock, ToolUseBlock};
use crate::stream_error::push_decimal_u64;
use crate::text::{chars_of, push_char};
use crate::theme::decimal;

verus! {

/// A handle to the tool executor.
#[derive(Debug, Clone)]
pub struct ToolExecutorHandle {}

/// Identifies a tool execution by its tool use id.
#[derive(Debug, Clone, PartialEq, Eq, Hash)]
pub struct ToolExecutionId {
    tool_use_id: String,
}

impl View for ToolExecutionId {
    type V = Seq<char>;

    closed spec fn view(&self) -> Seq<char> {
        self.tool_use_id@
    }
}

impl ToolExecutionId {
    pub fn new(tool_use_id: String) -> (res: Self)
        ensures
            res@ == tool_use_id@,
    {
        ToolExecutionId { tool_use_id }
    }

    pub fn tool_use_id(&self) -> (res: &str)
        ensures
            res@ == self@,
    {
        self.tool_use_id.as_str()
    }
}

/// One item of a tool's output.
#[derive(Debug, Clone)]
pub enum ToolExecutionOutputItem {
    Text(String),
    Json(serde_json::Value),
    Image(ImageBlock),
}

/// The output of a tool.
#[derive(Debug, Clone)]
pub struct ToolExecutionOutput {
    pub items: Vec<ToolExecutionOutputItem>,
}

/// Why a tool failed.
#[derive(Debug, Clone)]
pub enum ToolExecutionError {
    /// An I/O failure, with what was being done and the failure's message.
    Io { context: String, message: String },
    Custom(String),
}

/// How a tool execution ended.
#[derive(Debug)]
pub enum ToolExecutorResult {
    /// The tool ran to completion.
    Completed { id: ToolExecutionId, result: Result<ToolExecutionOutput, ToolExecutionError> },
    /// The tool was cancelled before it returned.
    Cancelled { id: ToolExecutionId },
}

impl Clone for ToolExecutorResult {
    fn clone(&self) -> Self {
        match self {
            ToolExecutorResult::Completed { id, result } => ToolExecutorResult::Completed {
                id: id.clone(),
                result: match result {
                    Ok(o) => Ok(o.clone()),
                    Err(e) => Err(e.clone()),
                },
            },
            ToolExecutorResult::Cancelled { id } => ToolExecutorResult::Cancelled { id: id.clone() },
        }
    }
}

impl ToolExecutorResult {
    /// The execution's id.
    pub fn id(&self) -> (res: &ToolExecutionId)
        ensures
            match *self {
                ToolExecutorResult::Completed { id, .. } => *res == id,
                ToolExecutorResult::Cancelled { id } => *res == id,
            },
    {
        match self {
            ToolExecutorResult::Completed { id, .. } => id,
            ToolExecutorResult::Cancelled { id } => id,
        }
    }

    /// The tool's output, if it completed successfully.
    pub fn tool_execution_output(&self) -> (res: Option<&ToolExecutionOutput>)
        ensures
            match *self {
                ToolExecutorResult::Completed { result: Ok(o), .. } => res == Some(&o),
                _ => res is None,
            },
    {
        match self {
            ToolExecutorResult::Completed { result: Ok(res), .. } => Some(res),
            _ => None,
        }
    }
}

/// The result of a command hook that ran.
#[derive(Debug, Clone)]
pub struct CommandResult {
    /// The process exit code: 0 for success.
    pub exit_code: i32,
    /// Standard output when the exit code is 0, else standard error.
    pub output: String,
}

/// The result of a hook.
#[derive(Debug)]
pub enum HookResult {
    /// The result of a command hook.
    Command(Result<CommandResult, String>),
    /// The result of a tool hook.
    Tool { output: String },
}

impl Clone for HookResult {
    fn clone(&self) -> Self {
        match self {
            HookResult::Command(r) => HookResult::Command(
                match r {
                    Ok(c) => Ok(c.clone()),
                    Err(e) => Err(e.clone()),
                },
            ),
            HookResult::Tool { output } => HookResult::Tool { output: output.clone() },
        }
    }
}

impl HookResult {
    /// The exit code, for a command hook that ran.
    pub fn exit_code(&self) -> (res: Option<i32>)
        ensures
            match *self {
                HookResult::Command(Ok(r)) => res == Some(r.exit_code),
                _ => res is None,
            },
    {
        match self {
            HookResult::Command(Ok(r)) => Some(r.exit_code),
            _ => None,
        }
    }

    /// Whether a command hook ran and exited with 0. Tool hooks are not run.
    pub fn is_success(&self) -> (res: bool)
        requires
            self is Command,
        ensures
            res == (*self matches HookResult::Command(Ok(r)) && r.exit_code == 0),
    {
        match self {
            HookResult::Command(Ok(r)) => r.exit_code == 0,
            _ => false,
        }
    }

    /// The hook's output, if there is one (also for a nonzero exit code).
    pub fn output(&self) -> (res: Option<&str>)
        ensures
            match *self {
                HookResult::Command(Ok(r)) => res matches Some(o) && o@ == r.output@,
                _ => res is None,
            },
    {
        match self {
            HookResult::Command(Ok(r)) => Some(r.output.as_str()),
            _ => None,
        }
    }
}

/// The context of a tool use given to a hook.
#[derive(Debug, Clone, PartialEq, Eq)]
pub struct ToolContext {
    pub tool_name: String,
    pub tool_input: serde_json::Value,
    pub tool_response: Option<serde_json::Value>,
}

impl ToolContext {
    /// The context of a tool use with the tool's full name, before it has a response.
    pub fn from_tool_use(tool_use: &ToolUseBlock, tool_full_name: String) -> (res: Self)
        ensures
            res.tool_name == tool_full_name,
            res.tool_input == tool_use.input,
            res.tool_response is None,
    {
        ToolContext { tool_name: tool_full_name, tool_input: tool_use.input.clone(), tool_response: None }
    }

    /// The context of a tool use with the tool's full name and its response.
    pub fn with_response(tool_use: &ToolUseBlock, tool_full_name: String, response: &serde_json::Value) -> (res: Self)
        ensures
            res.tool_name == tool_full_name,
            res.tool_input == tool_use.input,
            res.tool_response == Some(*response),
    {
        ToolContext {
            tool_name: tool_full_name,
            tool_input: tool_use.input.clone(),
            tool_response: Some(response.clone()),
        }
    }
}

/// A hook with its trigger.
#[derive(Debug, Clone, PartialEq, Eq)]
pub struct Hook {
    pub trigger: HookTrigger,
    pub config: HookConfig,
}

/// Identifies a hook execution: the hook and the tool use it runs for.
#[derive(Debug, Clone, PartialEq, Eq)]
pub struct HookExecutionId {
    pub hook: Hook,
    pub tool_context: Option<ToolContext>,
}

/// A hook result kept in the cache, until it expires.
#[derive(Debug, Clone)]
pub struct CachedHook {
    pub result: HookResult,
    /// When the entry expires, in milliseconds on a monotonic clock; never when absent.
    pub expiry_ms: Option<u64>,
}

impl CachedHook {
    /// Whether the cached result may still be used at the time `now_ms`.
    pub fn is_fresh(&self, now_ms: u64) -> (res: bool)
        ensures
            res == match self.expiry_ms {
                Some(e) => now_ms < e,
                None => true,
            },
    {
        match self.expiry_ms {
            Some(e) => now_ms < e,
            None => true,
        }
    }
}

/// The marker added to hook output that was cut.
pub open spec fn hook_truncation_marker() -> Seq<char> {
    " ... truncated"@
}

/// What a hook's output becomes: cut to `max` bytes, with a marker when it was longer.
pub open spec fn formatted_hook_output(raw: Seq<char>, max: usize) -> Seq<char> {
    fit_prefix(raw, max as int) + if utf8_len(raw) > max {
        hook_truncation_marker()
    } else {
        Seq::empty()
    }
}

fn format_hook_output(raw: &str, max_output_size: usize) -> (res: String)
    requires
        utf8_len(raw@) <= usize::MAX,
    ensures
        res@ == formatted_hook_output(raw@, max_output_size),
{
    let mut output = truncate_safe(raw, max_output_size);
    if utf8_byte_len(raw) > max_output_size {
        output.append(" ... truncated");
    }
    output
}

/// The result of a command hook that exited with `exit_code`: its standard output when it
/// succeeded, else its standard error, cut to `max_output_size` bytes.
pub fn command_result(exit_code: i32, stdout: &str, stderr: &str, max_output_size: usize) -> (res: CommandResult)
    requires
        utf8_len(stdout@) <= usize::MAX,
        utf8_len(stderr@) <= usize::MAX,
    ensures
        res.exit_code == exit_code,
        res.output@ == formatted_hook_output(if exit_code == 0 { stdout@ } else { stderr@ }, max_output_size),
{
    let raw = if exit_code == 0 {
        stdout
    } else {
        stderr
    };
    CommandResult { exit_code, output: format_hook_output(raw, max_output_size) }
}

/// The text of bytes read as UTF-8, each invalid sequence replaced by U+FFFD.
pub uninterp spec fn lossy_text(bytes: Seq<u8>) -> Seq<char>;

/// Reads bytes as UTF-8 text, by `bstr::ByteSlice::to_str_lossy`, which replaces each maximal
/// invalid subpart by U+FFFD; the text is named by [lossy_text]. Being a string held in memory,
/// its UTF-8 length fits in `usize`.
#[verifier::external_body]
fn to_str_lossy(bytes: &[u8]) -> (res: String)
    ensures
        res@ == lossy_text(bytes@),
        utf8_len(res@) <= usize::MAX,
{
    bstr::ByteSlice::to_str_lossy(bytes).into_owned()
}

/// The result of a command hook from the bytes it wrote: its standard output when it exited
/// with 0, else its standard error, read as UTF-8 text and cut to `max_output_size` bytes.
pub fn command_output_result(exit_code: i32, stdout: &[u8], stderr: &[u8], max_output_size: usize) -> (res: CommandResult)
    ensures
        res.exit_code == exit_code,
        res.output@ == formatted_hook_output(
            lossy_text(
                if exit_code == 0 {
                    stdout@
                } else {
                    stderr@
                },
            ),
            max_output_size,
        ),
{
    let raw = if exit_code == 0 {
        to_str_lossy(stdout)
    } else {
        to_str_lossy(stderr)
    };
    CommandResult { exit_code, output: format_hook_output(raw.as_str(), max_output_size) }
}

/// The error message of a hook command that timed out.
pub open spec fn hook_timeout_message(timeout_ms: u64) -> Seq<char> {
    "command timed out after "@ + decimal(timeout_ms as nat) + " ms"@
}

/// The error message of a hook command that timed out after `timeout_ms` milliseconds.
pub fn hook_timeout_error(timeout_ms: u64) -> (res: String)
    ensures
        res@ == hook_timeout_message(timeout_ms),
{
    let mut s = String::from_str("command timed out after ");
    push_decimal_u64(&mut s, timeout_ms);
    s.append(" ms");
    s
}

/// Whether `c` is a control character (general category `Cc`, as `char::is_control`).
pub open spec fn is_control_char(c: char) -> bool {
    (c as u32) <= 0x1F || (0x7F <= (c as u32) && (c as u32) <= 0x9F)
}

/// Whether a character is removed from a prompt passed in the environment: control
/// characters other than newline, carriage return and tab.
pub open spec fn removed_from_prompt(c: char) -> bool {
    is_control_char(c) && c != '\n' && c != '\r' && c != '\t'
}

/// The characters of `s` that are kept.
pub open spec fn without_removed(s: Seq<char>) -> Seq<char>
    decreases s.len(),
{
    if s.len() == 0 {
        Seq::empty()
    } else if removed_from_prompt(s.last()) {
        without_removed(s.drop_last())
    } else {
        without_removed(s.drop_last()).push(s.last())
    }
}

/// The user prompt as passed to a hook in the environment: its first 4096 bytes, without
/// control characters other than newline, carriage return and tab.
pub open spec fn sanitized_prompt(input: Seq<char>) -> Seq<char> {
    without_removed(
        if utf8_len(input) > 4096 {
            fit_prefix(input, 4096)
        } else {
            input
        },
    )
}

/// Sanitizes a prompt for use as an environment variable (see [sanitized_prompt]). The
/// cut at 4096 bytes must fall between characters.
pub fn sanitize_user_prompt(input: &str) -> (res: String)
    requires
        utf8_len(input@) > 4096 ==> utf8_len(fit_prefix(input@, 4096)) == 4096,
    ensures
        res@ == sanitized_prompt(input@),
{
    let truncated = truncate_safe(input, 4096);
    let kept = if utf8_len_exceeds(input, 4096) {
        truncated
    } else {
        String::from_str(input)
    };
    proof {
        if utf8_len(input@) <= 4096 {
            crate::compact::lemma_fit_prefix_whole(input@, 4096);
        }
    }
    let kc = chars_of(kept.as_str());
    let mut out = String::new();
    let mut i: usize = 0;
    while i < kc.len()
        invariant
            i <= kc.len(),
            out@ == without_removed(kc@.take(i as int)),
        decreases kc.len() - i,
    {
        proof {
            assert(kc@.take(i + 1).drop_last() =~= kc@.take(i as int));
        }
        let c = kc[i];
        if !is_removed(c) {
            push_char(&mut out, c);
        }
        i = i + 1;
    }
    proof {
        assert(kc@.take(kc.len() as int) =~= kc@);
    }
    out
}

fn is_removed(c: char) -> (res: bool)
    ensures
        res == removed_from_prompt(c),
{
    let u = c as u32;
    let control = u <= 0x1F || (0x7F <= u && u <= 0x9F);
    control && c != '\n' && c != '\r' && c != '\t'
}

/// The entries of the JSON input a hook command reads: the trigger's name and the working
/// directory, then the prompt if there is one, then the tool's name, input and response (if
/// any) for a tool hook.
pub open spec fn hook_input_entries(
    trigger: HookTrigger,
    cwd: Seq<char>,
    prompt: Option<String>,
    tool_context: Option<ToolContext>,
) -> Seq<(Seq<char>, serde_json::Value)> {
    seq![("hook_event_name"@, json_string_of(hook_trigger_name(trigger))), ("cwd"@, json_string_of(cwd))]
        + match prompt {
        Some(p) => seq![("prompt"@, json_string_of(p@))],
        None => Seq::empty(),
    } + match tool_context {
        Some(c) => seq![("tool_name"@, json_string_of(c.tool_name@)), ("tool_input"@, c.tool_input)]
            + match c.tool_response {
            Some(r) => seq![("tool_response"@, r)],
            None => Seq::empty(),
        },
        None => Seq::empty(),
    }
}

/// The JSON text a hook command reads on its standard input (see [hook_input_entries]); empty
/// if the value does not serialize.
pub fn hook_input_json(trigger: HookTrigger, cwd: &str, prompt: Option<String>, tool_context: Option<ToolContext>) -> (res:
    String)
    ensures
        ({
            let v = json_object_of(hook_input_entries(trigger, cwd@, prompt, tool_context));
            res@ == if json_serializes(v) {
                json_text(v)
            } else {
                Seq::empty()
            }
        }),
{
    let ghost expected = hook_input_entries(trigger, cwd@, prompt, tool_context);
    let mut entries: Vec<(String, serde_json::Value)> = Vec::new();
    entries.push((String::from_str("hook_event_name"), json_string(String::from_str(trigger.as_str()))));
    entries.push((String::from_str("cwd"), json_string(String::from_str(cwd))));
    let ghost after_base = entries@;
    match prompt {
        Some(p) => {
            let v = json_string(p);
            entries.push((String::from_str("prompt"), v));
        },
        None => {},
    }
    let ghost after_prompt = entries@;
    match tool_context {
        Some(c) => {
            let name = json_string(c.tool_name);
            entries.push((String::from_str("tool_name"), name));
            entries.push((String::from_str("tool_input"), c.tool_input));
            match c.tool_response {
                Some(r) => {
                    entries.push((String::from_str("tool_response"), r));
                },
                None => {},
            }
        },
        None => {},
    }
    proof {
        reveal_strlit("hook_event_name");
        reveal_strlit("cwd");
        reveal_strlit("prompt");
        reveal_strlit("tool_name");
        reveal_strlit("tool_input");
        reveal_strlit("tool_response");
        assert(entries_view(entries@) =~= expected);
    }
    let v = json_object(entries);
    match json_to_string(&v) {
        Ok(s) => s,
        Err(_) => String::new(),
    }
}

} // verus!
