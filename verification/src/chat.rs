//! Chat session arguments and states, and the decisions made on user input and editor
//! content.

use vstd::prelude::*;

use crate::messages::ToolUseBlock;
use crate::text::{chars_equal, chars_of, contains_char, has_char, join_strings, join_with, strings_view};

verus! {

/// How output lines are wrapped.
#[derive(Debug, Clone, Copy, PartialEq, Eq, Structural)]
pub enum WrapMode {
    /// Always wrap at terminal width.
    Always,
    /// Never wrap (raw output).
    Never,
    /// Auto-detect based on the output target.
    Auto,
}

/// The format of chat output.
#[derive(Debug, Clone, Copy, PartialEq, Eq, Structural)]
pub enum OutputFormat {
    /// Plain text with markdown rendering.
    Plain,
    /// Newline-delimited JSON events.
    Json,
}

impl Default for OutputFormat {
    fn default() -> (res: Self)
        ensures
            res == OutputFormat::Plain,
    {
        OutputFormat::Plain
    }
}

/// The arguments of the chat command.
#[derive(Debug, Clone, PartialEq, Eq)]
pub struct ChatArgs {
    /// Resumes the previous conversation from this directory.
    pub resume: bool,
    /// The agent to use.
    pub agent: Option<String>,
    /// The model to use.
    pub model: Option<String>,
    /// Allows the model to use any tool without asking for confirmation.
    pub trust_all_tools: bool,
    /// Trust only this set of tools.
    pub trust_tools: Option<Vec<String>>,
    /// Whether to run without expecting user input.
    pub no_interactive: bool,
    /// The first question to ask.
    pub input: Option<String>,
    /// Line wrapping behavior.
    pub wrap: Option<WrapMode>,
    /// Output format.
    pub output_format: Option<OutputFormat>,
}

impl Default for ChatArgs {
    fn default() -> (res: Self)
        ensures
            !res.resume,
            res.agent is None,
            res.model is None,
            !res.trust_all_tools,
            res.trust_tools is None,
            !res.no_interactive,
            res.input is None,
            res.wrap is None,
            res.output_format is None,
    {
        ChatArgs {
            resume: false,
            agent: None,
            model: None,
            trust_all_tools: false,
            trust_tools: None,
            no_interactive: false,
            input: None,
            wrap: None,
            output_format: None,
        }
    }
}

impl ChatArgs {
    /// The output format in effect: the one given, else plain text.
    pub fn effective_output_format(&self) -> (res: OutputFormat)
        ensures
            res == match self.output_format {
                Some(f) => f,
                None => OutputFormat::Plain,
            },
    {
        match self.output_format {
            Some(f) => f,
            None => OutputFormat::default(),
        }
    }
}

/// How a chat session compacts its history: how many of the latest messages the summary
/// request leaves out, and whether large messages are truncated (to `max_message_length`).
#[derive(Debug, Clone, Copy, PartialEq, Eq, Structural)]
pub struct ChatCompactStrategy {
    pub messages_to_exclude: usize,
    pub truncate_large_messages: bool,
    pub max_message_length: usize,
}

impl Default for ChatCompactStrategy {
    fn default() -> (res: Self)
        ensures
            res == (ChatCompactStrategy { messages_to_exclude: 0, truncate_large_messages: false, max_message_length: 0 }),
    {
        ChatCompactStrategy { messages_to_exclude: 0, truncate_large_messages: false, max_message_length: 0 }
    }
}

/// The states of a chat session.
#[derive(Debug)]
pub enum ChatState {
    /// Prompt the user.
    PromptUser {
        /// Whether to skip showing the tool information (after clear or help commands).
        skip_printing_tools: bool,
    },
    /// Handle the user input.
    HandleInput { input: String },
    /// Validate the tool uses the model asked for.
    ValidateTools { tool_uses: Vec<ToolUseBlock> },
    /// Execute the tools.
    ExecuteTools,
    /// Compact the chat history.
    CompactHistory {
        /// A custom prompt to include in the compaction request.
        prompt: Option<String>,
        /// Whether to show the summary when compaction succeeds.
        show_summary: bool,
        /// How to perform the compaction request.
        strategy: ChatCompactStrategy,
    },
    /// Retry the current request after the model was overloaded.
    RetryModelOverload,
    /// Exit the chat.
    Exit,
}

impl Default for ChatState {
    fn default() -> (res: Self)
        ensures
            res == (ChatState::PromptUser { skip_printing_tools: false }),
    {
        ChatState::PromptUser { skip_printing_tools: false }
    }
}

/// The words of a command line, split as a POSIX shell would, or `None` when it cannot be
/// split (an unclosed quote, for instance).
pub uninterp spec fn shell_words(s: Seq<char>) -> Option<Seq<Seq<char>>>;

/// Splits `s` into words as a POSIX shell would, by `shlex::split`.
#[verifier::external_body]
pub(crate) fn shlex_split(s: &str) -> (res: Option<Vec<String>>)
    ensures
        match shell_words(s@) {
            Some(w) => res matches Some(v) && strings_view(v@) == w,
            None => res is None,
        },
{
    shlex::split(s)
}

/// Whether a word looks like a path: it holds a path separator or a dot.
pub open spec fn looks_like_path(w: Seq<char>) -> bool {
    has_char(w, '/') || has_char(w, '\\') || has_char(w, '.')
}

/// Input `/` followed by a first shell word that holds a `/`, a `\` or a `.` refers to a
/// file: it is handled as a prompt, without its leading `/`. Input whose first word holds none
/// of them refers to no file.
pub proof fn lemma_path_like_first_word(input: Seq<char>)
    ensures
        input.len() > 0 && input[0] == '/' && (shell_words(input.skip(1)) matches Some(w) && w.len() > 0
            && exists|i: int| 0 <= i < w[0].len() && (w[0][i] == '/' || w[0][i] == '\\' || w[0][i] == '.'))
            ==> file_reference(input) == Some(input.skip(1)),
        !(shell_words(input.skip(1)) matches Some(w) && w.len() > 0 && exists|i: int|
            0 <= i < w[0].len() && (w[0][i] == '/' || w[0][i] == '\\' || w[0][i] == '.'))
            ==> file_reference(input) is None,
{
    if let Some(w) = shell_words(input.skip(1)) {
        if w.len() > 0 {
            if exists|i: int| 0 <= i < w[0].len() && (w[0][i] == '/' || w[0][i] == '\\' || w[0][i] == '.') {
                let i = choose|i: int| 0 <= i < w[0].len() && (w[0][i] == '/' || w[0][i] == '\\' || w[0][i] == '.');
                if w[0][i] == '/' {
                    assert(has_char(w[0], '/'));
                } else if w[0][i] == '\\' {
                    assert(has_char(w[0], '\\'));
                } else {
                    assert(has_char(w[0], '.'));
                }
            } else {
                assert(!has_char(w[0], '/'));
                assert(!has_char(w[0], '\\'));
                assert(!has_char(w[0], '.'));
            }
        }
    }
}

/// What input starting with `/` is taken for: when its first shell word (after the `/`)
/// looks like a path, the input (without the `/`) is handled as a prompt.
pub open spec fn file_reference(input: Seq<char>) -> Option<Seq<char>> {
    if input.len() > 0 && input[0] == '/' {
        let after = input.skip(1);
        let words = match shell_words(after) {
            Some(w) => w,
            None => Seq::empty(),
        };
        if words.len() > 0 && looks_like_path(words[0]) {
            Some(after)
        } else {
            None
        }
    } else {
        None
    }
}

/// Input such as `/path/to/file.json ...` names a file rather than a slash command: then
/// the input, without its leading `/`, is to be handled as a prompt.
pub fn does_input_reference_file(input: &str) -> (res: Option<ChatState>)
    ensures
        match file_reference(input@) {
            Some(after) => res matches Some(ChatState::HandleInput { input: s }) && s@ == after,
            None => res is None,
        },
        input@.len() > 0 && input@[0] == '/' && (shell_words(input@.skip(1)) matches Some(w) && w.len() > 0
            && exists|i: int| 0 <= i < w[0].len() && (w[0][i] == '/' || w[0][i] == '\\' || w[0][i] == '.'))
            ==> (res matches Some(ChatState::HandleInput { input: s }) && s@ == input@.skip(1)),
        !(shell_words(input@.skip(1)) matches Some(w) && w.len() > 0 && exists|i: int|
            0 <= i < w[0].len() && (w[0][i] == '/' || w[0][i] == '\\' || w[0][i] == '.')) ==> res is None,
{
    proof {
        lemma_path_like_first_word(input@);
    }
    let chars = chars_of(input);
    if chars.len() == 0 || chars[0] != '/' {
        return None;
    }
    let after = input.substring_char(1, chars.len());
    assert(after@ =~= input@.skip(1));
    let words = match shlex_split(after) {
        Some(w) => w,
        None => Vec::new(),
    };
    if words.len() > 0 {
        let first = chars_of(words[0].as_str());
        let looks = contains_char(&first, '/') || contains_char(&first, '\\') || contains_char(&first, '.');
        if looks {
            return Some(ChatState::HandleInput { input: String::from_str(after) });
        }
    }
    None
}

/// Whether `c` is white space (the Unicode `White_Space` property, as `char::is_whitespace`).
pub open spec fn is_white_space(c: char) -> bool {
    ||| '\t' <= c <= '\r'
    ||| c == ' '
    ||| c == '\u{85}'
    ||| c == '\u{a0}'
    ||| c == '\u{1680}'
    ||| '\u{2000}' <= c <= '\u{200a}'
    ||| c == '\u{2028}'
    ||| c == '\u{2029}'
    ||| c == '\u{202f}'
    ||| c == '\u{205f}'
    ||| c == '\u{3000}'
}

fn white_space(c: char) -> (res: bool)
    ensures
        res == is_white_space(c),
{
    ('\t' <= c && c <= '\r') || c == ' ' || c == '\u{85}' || c == '\u{a0}' || c == '\u{1680}' || ('\u{2000}' <= c
        && c <= '\u{200a}') || c == '\u{2028}' || c == '\u{2029}' || c == '\u{202f}' || c == '\u{205f}' || c
        == '\u{3000}'
}

/// `s` without leading white space.
pub open spec fn trim_start(s: Seq<char>) -> Seq<char>
    decreases s.len(),
{
    if s.len() > 0 && is_white_space(s[0]) {
        trim_start(s.skip(1))
    } else {
        s
    }
}

/// `s` without trailing white space.
pub open spec fn trim_end(s: Seq<char>) -> Seq<char>
    decreases s.len(),
{
    if s.len() > 0 && is_white_space(s.last()) {
        trim_end(s.drop_last())
    } else {
        s
    }
}

/// `s` without leading and trailing white space.
pub open spec fn trimmed(s: Seq<char>) -> Seq<char> {
    trim_end(trim_start(s))
}

/// `s` without leading and trailing white space.
pub fn trim(s: &str) -> (res: String)
    ensures
        res@ == trimmed(s@),
{
    let chars = chars_of(s);
    let n = chars.len();
    let mut start: usize = 0;
    assert(chars@.skip(0) =~= s@);
    while start < n && white_space(chars[start])
        invariant
            start <= n,
            n == chars.len(),
            chars@ == s@,
            trim_start(chars@.skip(start as int)) == trim_start(s@),
        decreases n - start,
    {
        proof {
            assert(chars@.skip(start as int).skip(1) =~= chars@.skip(start + 1));
        }
        start = start + 1;
    }
    let mut end: usize = n;
    proof {
        assert(chars@.skip(start as int).take(end - start) =~= chars@.skip(start as int));
    }
    while end > start && white_space(chars[end - 1])
        invariant
            start <= end <= n,
            n == chars.len(),
            chars@ == s@,
            trim_end(chars@.skip(start as int).take(end - start)) == trimmed(s@),
        decreases end,
    {
        proof {
            assert(chars@.skip(start as int).take(end - start).drop_last() =~= chars@.skip(start as int).take(
                end - 1 - start,
            ));
        }
        end = end - 1;
    }
    let r = s.substring_char(start, end);
    assert(r@ =~= chars@.skip(start as int).take(end - start));
    String::from_str(r)
}

/// The text that the editor starts with: the initial words joined with spaces, if there
/// are any.
pub fn editor_initial_text(initial_text: &Vec<String>) -> (res: Option<String>)
    ensures
        match res {
            Some(t) => initial_text@.len() > 0 && t@ == join_with(strings_view(initial_text@), " "@),
            None => initial_text@.len() == 0,
        },
{
    if initial_text.len() == 0 {
        None
    } else {
        Some(join_strings(initial_text, " "))
    }
}

/// The arguments of the editor command.
#[derive(Debug, PartialEq)]
pub struct EditorArgs {
    /// Initial text to put in the editor.
    pub initial_text: Vec<String>,
}

impl EditorArgs {
    /// The text that the editor starts with.
    pub fn initial_text(&self) -> (res: Option<String>)
        ensures
            match res {
                Some(t) => self.initial_text@.len() > 0 && t@ == join_with(strings_view(self.initial_text@), " "@),
                None => self.initial_text@.len() == 0,
            },
    {
        editor_initial_text(&self.initial_text)
    }
}

/// What the composed prompt becomes: the editor's content without surrounding white space.
pub fn process_editor_content(content: &str) -> (res: String)
    ensures
        res@ == trimmed(content@),
{
    trim(content)
}

/// The state that the editor's (processed) content leads to: empty content is not
/// submitted, anything else is handled as the user's input.
pub fn editor_content_state(content: String) -> (res: ChatState)
    ensures
        trimmed(content@).len() == 0 ==> res == (ChatState::PromptUser { skip_printing_tools: true }),
        trimmed(content@).len() > 0 ==> res == (ChatState::HandleInput { input: content }),
{
    let t = trim(content.as_str());
    if t.as_str().unicode_len() == 0 {
        ChatState::PromptUser { skip_printing_tools: true }
    } else {
        ChatState::HandleInput { input: content }
    }
}

/// The error for an editor command that cannot be split into words.
pub open spec fn editor_parse_error() -> Seq<char> {
    "Failed to parse EDITOR command"@
}

/// The error for an empty editor command.
pub open spec fn editor_empty_error() -> Seq<char> {
    "EDITOR environment variable is empty"@
}

/// The program and arguments of the editor command `editor_cmd`, split as a shell would.
pub fn editor_command(editor_cmd: &str) -> (res: Result<(String, Vec<String>), String>)
    ensures
        match shell_words(editor_cmd@) {
            None => res matches Err(e) && e@ == editor_parse_error(),
            Some(w) => if w.len() == 0 {
                res matches Err(e) && e@ == editor_empty_error()
            } else {
                res matches Ok((bin, args)) && bin@ == w[0] && strings_view(args@) == w.skip(1)
            },
        },
{
    let mut parts = match shlex_split(editor_cmd) {
        Some(p) => p,
        None => {
            return Err(String::from_str("Failed to parse EDITOR command"));
        },
    };
    if parts.len() == 0 {
        return Err(String::from_str("EDITOR environment variable is empty"));
    }
    let ghost pv = strings_view(parts@);
    let bin = parts.remove(0);
    proof {
        assert(strings_view(parts@) =~= pv.skip(1));
    }
    Ok((bin, parts))
}

/// What the chat does with a line the user entered.
#[derive(Debug)]
pub enum InputAction {
    /// Move to this state (input that names a file).
    State(ChatState),
    /// Run a slash command with these words (after the `/`).
    SlashCommand { args: Vec<String> },
    /// Get a prompt of an MCP server, with its arguments, if any.
    PromptCommand { orig_input: String, name: String, arguments: Option<Vec<String>> },
    /// The input could not be handled.
    InputError(String),
    /// Run a shell command.
    ShellCommand { command: String },
    /// Accept the pending tool use, trusting the tool from now on if asked to.
    ApproveTool { trust: bool },
    /// Abandon the pending tool use, with this message to the model.
    AbandonToolUse { message: String },
    /// Send this message to the model.
    UserMessage { message: String },
}

/// The message sent in place of a plain denial of a tool use.
pub open spec fn tool_denial_message() -> Seq<char> {
    "I deny this tool request. Ask a follow up question clarifying the expected action"@
}

/// The prompt command's name and arguments: the first shell word and the rest, if any.
pub open spec fn prompt_parts(command: Seq<char>) -> Result<(Seq<char>, Option<Seq<Seq<char>>>), Seq<char>> {
    match shell_words(command) {
        None => Err("Error splitting prompt command"@),
        Some(w) => if w.len() == 0 {
            Err("Prompt name needs to be specified"@)
        } else {
            Ok((w[0], if w.len() == 1 { None } else { Some(w.skip(1)) }))
        },
    }
}

/// `a` is the action for the line `line` (already cleaned of tag characters), given whether a
/// tool use is waiting for approval: a file reference; a slash command (when the words after
/// `/` can be split); an MCP prompt (`@name args`); a shell command (`!`); with a tool use
/// pending, `y` or `t` approve it (`t` trusting the tool), and anything else abandons it (a plain
/// `n` with a standard message); otherwise the line is sent as it is.
pub open spec fn is_input_action(a: InputAction, line: Seq<char>, tool_pending: bool) -> bool {
    let input = trimmed(line);
    match file_reference(input) {
        Some(after) => a matches InputAction::State(ChatState::HandleInput { input: s }) && s@ == after,
        None => if input.len() > 0 && input[0] == '/' && shell_words(input.skip(1)) is Some {
            a matches InputAction::SlashCommand { args } && strings_view(args@) == shell_words(input.skip(1)).unwrap()
        } else if input.len() > 0 && input[0] == '@' {
            match prompt_parts(input.skip(1)) {
                Err(e) => a matches InputAction::InputError(m) && m@ == e,
                Ok((name, arguments)) => a matches InputAction::PromptCommand { orig_input, name: n, arguments: args }
                    && orig_input@ == input.skip(1) && n@ == name && match arguments {
                    None => args is None,
                    Some(v) => args matches Some(x) && strings_view(x@) == v,
                },
            }
        } else if input.len() > 0 && input[0] == '!' {
            a matches InputAction::ShellCommand { command } && command@ == input.skip(1)
        } else if tool_pending && (input == "t"@ || input == "T"@) {
            a == InputAction::ApproveTool { trust: true }
        } else if tool_pending && (input == "y"@ || input == "Y"@) {
            a == InputAction::ApproveTool { trust: false }
        } else if tool_pending {
            a matches InputAction::AbandonToolUse { message } && message@ == if input == "n"@ || input == "N"@ {
                tool_denial_message()
            } else {
                line
            }
        } else {
            a matches InputAction::UserMessage { message } && message@ == line
        },
    }
}

/// With a tool use pending, the answers `t` and `T` alike approve it and trust the tool, `y`
/// and `Y` alike approve it once, and `n` and `N` alike abandon it with the standard denial:
/// the letter's case changes nothing.
pub proof fn lemma_approval_answers(line: Seq<char>)
    ensures
        trimmed(line) == seq!['t'] || trimmed(line) == seq!['T'] ==> forall|a: InputAction|
            #[trigger] is_input_action(a, line, true) ==> a == (InputAction::ApproveTool { trust: true }),
        trimmed(line) == seq!['y'] || trimmed(line) == seq!['Y'] ==> forall|a: InputAction|
            #[trigger] is_input_action(a, line, true) ==> a == (InputAction::ApproveTool { trust: false }),
        trimmed(line) == seq!['n'] || trimmed(line) == seq!['N'] ==> forall|a: InputAction|
            #[trigger] is_input_action(a, line, true) ==> (a matches InputAction::AbandonToolUse { message }
                && message@ == "I deny this tool request. Ask a follow up question clarifying the expected action"@),
{
    reveal_strlit("t");
    reveal_strlit("T");
    reveal_strlit("y");
    reveal_strlit("Y");
    reveal_strlit("n");
    reveal_strlit("N");
    let input = trimmed(line);
    if input == seq!['t'] || input == seq!['T'] || input == seq!['y'] || input == seq!['Y'] || input == seq!['n']
        || input == seq!['N'] {
        assert("n"@ =~= seq!['n']);
        assert("N"@ =~= seq!['N']);
        assert("t"@ =~= seq!['t']);
        assert("T"@ =~= seq!['T']);
        assert("y"@ =~= seq!['y']);
        assert("Y"@ =~= seq!['Y']);
        assert(input[0] != '/' && input[0] != '@' && input[0] != '!');
        assert(file_reference(input) is None);
    }
}

/// Decides what to do with a line the user entered (see [is_input_action]).
pub fn classify_user_input(line: &str, tool_pending: bool) -> (res: InputAction)
    ensures
        is_input_action(res, line@, tool_pending),
        tool_pending && (trimmed(line@) == seq!['t'] || trimmed(line@) == seq!['T']) ==> res
            == (InputAction::ApproveTool { trust: true }),
        tool_pending && (trimmed(line@) == seq!['y'] || trimmed(line@) == seq!['Y']) ==> res
            == (InputAction::ApproveTool { trust: false }),
{
    proof {
        lemma_approval_answers(line@);
    }
    let input_string = trim(line);
    let input = input_string.as_str();
    if let Some(state) = does_input_reference_file(input) {
        return InputAction::State(state);
    }
    let chars = chars_of(input);
    let n = chars.len();
    if n > 0 && chars[0] == '/' {
        let rest = input.substring_char(1, n);
        proof {
            assert(rest@ =~= input@.skip(1));
        }
        if let Some(args) = shlex_split(rest) {
            return InputAction::SlashCommand { args };
        }
    }
    if n > 0 && chars[0] == '@' {
        let command = input.substring_char(1, n);
        proof {
            assert(command@ =~= input@.skip(1));
        }
        let mut parts = match shlex_split(command) {
            Some(p) => p,
            None => {
                return InputAction::InputError(String::from_str("Error splitting prompt command"));
            },
        };
        if parts.len() == 0 {
            return InputAction::InputError(String::from_str("Prompt name needs to be specified"));
        }
        let ghost pv = strings_view(parts@);
        let name = parts.remove(0);
        proof {
            assert(strings_view(parts@) =~= pv.skip(1));
        }
        let arguments = if parts.len() == 0 {
            None
        } else {
            Some(parts)
        };
        return InputAction::PromptCommand { orig_input: String::from_str(command), name, arguments };
    }
    if n > 0 && chars[0] == '!' {
        let command = input.substring_char(1, n);
        proof {
            assert(command@ =~= input@.skip(1));
        }
        return InputAction::ShellCommand { command: String::from_str(command) };
    }
    if tool_pending {
        proof {
            reveal_strlit("t");
            reveal_strlit("T");
            reveal_strlit("y");
            reveal_strlit("Y");
            reveal_strlit("n");
            reveal_strlit("N");
        }
        if chars_equal(&chars, "t") || chars_equal(&chars, "T") {
            return InputAction::ApproveTool { trust: true };
        }
        if chars_equal(&chars, "y") || chars_equal(&chars, "Y") {
            return InputAction::ApproveTool { trust: false };
        }
        if chars_equal(&chars, "n") || chars_equal(&chars, "N") {
            return InputAction::AbandonToolUse {
                message: String::from_str(
                    "I deny this tool request. Ask a follow up question clarifying the expected action",
                ),
            };
        }
        return InputAction::AbandonToolUse { message: String::from_str(line) };
    }
    InputAction::UserMessage { message: String::from_str(line) }
}

/// The permission verdict on a tool use: allowed, to be asked about, or denied by the listed
/// rules.
#[derive(Debug, Clone, PartialEq, Eq)]
pub enum ToolVerdict {
    Allow,
    Ask,
    Deny(Vec<String>),
}

/// A tool use waiting to run: the id the model gave it, its tool's name, the name under which
/// trusting it adds it to the agent's trusted tools (`@server/tool` for an MCP tool, else the
/// tool's name), and whether the user accepted it.
#[derive(Debug, Clone, PartialEq, Eq)]
pub struct PendingToolUse {
    pub id: String,
    pub name: String,
    pub trust_name: String,
    pub accepted: bool,
}

/// What the permission check of the pending tool uses ends with.
#[derive(Debug, Clone, PartialEq, Eq)]
pub enum ApprovalStep {
    /// A tool use was denied: the chat continues with `input`; `rules` lists the matching rules.
    Rejected { index: usize, input: String, rules: String },
    /// The user is asked to approve the tool use at `index`.
    AskUser { index: usize },
    /// Every tool use is accepted: run them.
    Execute,
}

/// Whether the verdict (none without an active agent) lets a tool use run unasked.
pub open spec fn verdict_allows(v: Option<ToolVerdict>, trust_all: bool) -> bool {
    v == Some(ToolVerdict::Allow) || trust_all
}

/// Whether the check stops at a tool use: one not yet accepted that is denied or not allowed.
pub open spec fn stops_at(t: PendingToolUse, v: Option<ToolVerdict>, trust_all: bool) -> bool {
    !t.accepted && (v matches Some(ToolVerdict::Deny(_)) || !verdict_allows(v, trust_all))
}

/// The listed rules, each on a line of its own after a dash.
pub open spec fn rules_text(rules: Seq<Seq<char>>) -> Seq<char>
    decreases rules.len(),
{
    if rules.len() == 0 {
        Seq::empty()
    } else {
        rules_text(rules.drop_last()) + "\n  - "@ + rules.last()
    }
}

/// The listed rules, each on a line of its own after a dash (see [rules_text]).
fn format_rules(m: &Vec<String>) -> (res: String)
    ensures
        res@ == rules_text(strings_view(m@)),
{
    let mut rules = String::new();
    let mut r: usize = 0;
    while r < m.len()
        invariant
            r <= m.len(),
            rules@ == rules_text(strings_view(m@.take(r as int))),
        decreases m.len() - r,
    {
        rules.append("\n  - ");
        rules.append(m[r].as_str());
        proof {
            assert(strings_view(m@.take(r + 1)).drop_last() =~= strings_view(m@.take(r as int)));
            assert(strings_view(m@.take(r + 1)).last() == m@[r as int]@);
        }
        r = r + 1;
    }
    proof {
        assert(m@.take(m.len() as int) =~= m@);
    }
    rules
}

/// The input the chat continues with when a tool use is denied.
pub open spec fn rejection_input(name: Seq<char>) -> Seq<char> {
    "Tool use with "@ + name + " was rejected because the arguments supplied were forbidden"@
}

/// Walks the tool uses of a response in order, each with what its permissions say of it:
/// each permitted one is marked so, until one is denied (the chat then continues with a
/// rejection) or needs the user's consent; when none does, they all run.
pub fn approve_tool_uses(
    tools: &mut Vec<PendingToolUse>,
    verdicts: &Vec<Option<ToolVerdict>>,
    trust_all: bool,
) -> (res: ApprovalStep)
    requires
        old(tools).len() == verdicts.len(),
    ensures
        final(tools).len() == old(tools).len(),
        match res {
            ApprovalStep::Execute => {
                &&& forall|i: int| 0 <= i < old(tools).len() ==> !stops_at(old(tools)@[i], verdicts@[i], trust_all)
                &&& forall|i: int| 0 <= i < final(tools).len() ==> (#[trigger] final(tools)@[i]) == (PendingToolUse {
                    accepted: true,
                    ..old(tools)@[i]
                })
            },
            ApprovalStep::AskUser { index } => {
                &&& index < old(tools).len()
                &&& stops_at(old(tools)@[index as int], verdicts@[index as int], trust_all)
                &&& !(verdicts@[index as int] matches Some(ToolVerdict::Deny(_)))
                &&& forall|i: int| 0 <= i < index ==> !stops_at(old(tools)@[i], verdicts@[i], trust_all)
                &&& forall|i: int| 0 <= i < final(tools).len() ==> (#[trigger] final(tools)@[i]) == if i < index {
                    PendingToolUse { accepted: true, ..old(tools)@[i] }
                } else {
                    old(tools)@[i]
                }
            },
            ApprovalStep::Rejected { index, input, rules } => {
                &&& index < old(tools).len()
                &&& stops_at(old(tools)@[index as int], verdicts@[index as int], trust_all)
                &&& verdicts@[index as int] matches Some(ToolVerdict::Deny(m)) && rules@ == rules_text(strings_view(m@))
                &&& input@ == rejection_input(old(tools)@[index as int].name@)
                &&& forall|i: int| 0 <= i < index ==> !stops_at(old(tools)@[i], verdicts@[i], trust_all)
                &&& forall|i: int| 0 <= i < final(tools).len() ==> (#[trigger] final(tools)@[i]) == if i < index {
                    PendingToolUse { accepted: true, ..old(tools)@[i] }
                } else {
                    old(tools)@[i]
                }
            },
        },
{
    let ghost orig = tools@;
    let mut i: usize = 0;
    while i < tools.len()
        invariant
            i <= tools.len(),
            orig == old(tools)@,
            tools.len() == orig.len() == verdicts.len(),
            forall|k: int| 0 <= k < i ==> !stops_at(orig[k], verdicts@[k], trust_all),
            forall|k: int| 0 <= k < tools.len() ==> (#[trigger] tools@[k]) == if k < i {
                PendingToolUse { accepted: true, ..orig[k] }
            } else {
                orig[k]
            },
        decreases tools.len() - i,
    {
        if !tools[i].accepted {
            let denied = match &verdicts[i] {
                Some(ToolVerdict::Deny(_)) => true,
                _ => false,
            };
            if denied {
                let rules = match &verdicts[i] {
                    Some(ToolVerdict::Deny(m)) => format_rules(m),
                    _ => String::new(),
                };
                let mut input = String::from_str("Tool use with ");
                input.append(tools[i].name.as_str());
                input.append(" was rejected because the arguments supplied were forbidden");
                return ApprovalStep::Rejected { index: i, input, rules };
            }
            let allowed = match &verdicts[i] {
                Some(ToolVerdict::Allow) => true,
                _ => false,
            } || trust_all;
            if !allowed {
                return ApprovalStep::AskUser { index: i };
            }
            let mut t = tools.remove(i);
            t.accepted = true;
            tools.insert(i, t);
        }
        i = i + 1;
    }
    ApprovalStep::Execute
}

} // verus!
