//! Tool name references in agent configurations, and canonical tool names.

use vstd::prelude::*;

use crate::text::{chars_equal, chars_of, contains_char, find_char, first_index_of, has_char, push_char};

verus! {

/// The different kinds of tool name references that the `tools` field of an agent
/// configuration accepts.
#[derive(Debug)]
pub enum ToolNameKind<'a> {
    /// All tools. Equal to `*`.
    All,
    /// A canonical MCP tool name, `@server_name/tool_name`.
    McpFullName { server_name: &'a str, tool_name: &'a str },
    /// All tools from an MCP server, `@server_name`.
    McpServer { server_name: &'a str },
    /// Glob matching for an MCP server, `@server_name/glob_part` with one or more `*`.
    McpGlob { server_name: &'a str, glob_part: &'a str },
    /// All built-in tools. Equal to `@builtin`.
    AllBuiltIn,
    /// Glob matching for a built-in tool.
    BuiltInGlob(&'a str),
    /// A canonical built-in tool name.
    BuiltIn(&'a str),
    /// Glob matching for agents, `#agent_glob` with one or more `*`.
    AgentGlob(&'a str),
    /// A reference to an agent, `#agent_name`.
    Agent(&'a str),
}

/// The mathematical model of [ToolNameKind]: each borrowed name by its characters.
pub enum ToolNameKindModel {
    All,
    McpFullName { server_name: Seq<char>, tool_name: Seq<char> },
    McpServer { server_name: Seq<char> },
    McpGlob { server_name: Seq<char>, glob_part: Seq<char> },
    AllBuiltIn,
    BuiltInGlob(Seq<char>),
    BuiltIn(Seq<char>),
    AgentGlob(Seq<char>),
    Agent(Seq<char>),
}

impl<'a> View for ToolNameKind<'a> {
    type V = ToolNameKindModel;

    open spec fn view(&self) -> ToolNameKindModel {
        match *self {
            ToolNameKind::All => ToolNameKindModel::All,
            ToolNameKind::McpFullName { server_name, tool_name } => ToolNameKindModel::McpFullName {
                server_name: server_name@,
                tool_name: tool_name@,
            },
            ToolNameKind::McpServer { server_name } => ToolNameKindModel::McpServer {
                server_name: server_name@,
            },
            ToolNameKind::McpGlob { server_name, glob_part } => ToolNameKindModel::McpGlob {
                server_name: server_name@,
                glob_part: glob_part@,
            },
            ToolNameKind::AllBuiltIn => ToolNameKindModel::AllBuiltIn,
            ToolNameKind::BuiltInGlob(s) => ToolNameKindModel::BuiltInGlob(s@),
            ToolNameKind::BuiltIn(s) => ToolNameKindModel::BuiltIn(s@),
            ToolNameKind::AgentGlob(s) => ToolNameKindModel::AgentGlob(s@),
            ToolNameKind::Agent(s) => ToolNameKindModel::Agent(s@),
        }
    }
}

/// How a tool name reference is classified: `*` is every tool, `@builtin` every built-in tool,
/// `@server/tool` one MCP tool (split at the first `/`, which belongs to neither part),
/// `@server/glob` MCP tools by a glob, `@server` a whole MCP server, `#agent` an agent (or agents
/// by a glob), and anything else a built-in tool name (or a glob over them).
pub open spec fn classify_tool_name(s: Seq<char>) -> ToolNameKindModel {
    if s == "*"@ {
        ToolNameKindModel::All
    } else if s == "@builtin"@ {
        ToolNameKindModel::AllBuiltIn
    } else if s.len() > 0 && s[0] == '@' {
        classify_mcp_reference(s.skip(1))
    } else if s.len() > 0 && s[0] == '#' {
        let rest = s.skip(1);
        if has_char(rest, '*') {
            ToolNameKindModel::AgentGlob(rest)
        } else {
            ToolNameKindModel::Agent(rest)
        }
    } else if has_char(s, '*') {
        ToolNameKindModel::BuiltInGlob(s)
    } else {
        ToolNameKindModel::BuiltIn(s)
    }
}

/// How the part after `@` of an MCP reference is classified: split at the first `/` into the
/// server and the tool (a glob when it holds `*`), or a whole server without `/`.
pub open spec fn classify_mcp_reference(rest: Seq<char>) -> ToolNameKindModel {
    match first_index_of(rest, '/') {
        Some(i) => {
            let server = rest.take(i);
            let tool = rest.skip(i + 1);
            if has_char(tool, '*') {
                ToolNameKindModel::McpGlob { server_name: server, glob_part: tool }
            } else {
                ToolNameKindModel::McpFullName { server_name: server, tool_name: tool }
            }
        },
        None => ToolNameKindModel::McpServer { server_name: rest },
    }
}

fn parse_mcp_reference<'a>(rest: &'a str) -> (res: ToolNameKind<'a>)
    ensures
        res@ == classify_mcp_reference(rest@),
{
    let rest_chars = chars_of(rest);
    match find_char(&rest_chars, '/') {
        Some(i) => {
            let server_name = rest.substring_char(0, i);
            let tool_part = rest.substring_char(i + 1, rest_chars.len());
            assert(server_name@ =~= rest@.take(i as int));
            assert(tool_part@ =~= rest@.skip(i + 1));
            let tool_chars = chars_of(tool_part);
            if contains_char(&tool_chars, '*') {
                ToolNameKind::McpGlob { server_name, glob_part: tool_part }
            } else {
                ToolNameKind::McpFullName { server_name, tool_name: tool_part }
            }
        },
        None => ToolNameKind::McpServer { server_name: rest },
    }
}

impl<'a> ToolNameKind<'a> {
    /// Classifies a tool name reference. Every input is accepted.
    #[verifier::rlimit(50)]
    pub fn parse(name: &'a str) -> (res: Result<Self, String>)
        ensures
            res matches Ok(k) && k@ == classify_tool_name(name@),
            name@.len() > 0 && name@[0] == '#' ==> (res matches Ok(k) && if exists|i: int|
                1 <= i < name@.len() && name@[i] == '*' {
                k matches ToolNameKind::AgentGlob(r) && r@ == name@.skip(1)
            } else {
                k matches ToolNameKind::Agent(r) && r@ == name@.skip(1)
            }),
    {
        proof {
            if name@.len() > 0 && name@[0] == '#' {
                lemma_agent_reference_kind(name@);
            }
        }
        let chars = chars_of(name);
        if chars_equal(&chars, "*") {
            return Ok(ToolNameKind::All);
        }
        if chars_equal(&chars, "@builtin") {
            return Ok(ToolNameKind::AllBuiltIn);
        }
        let n = chars.len();
        if n > 0 && chars[0] == '@' {
            let rest = name.substring_char(1, n);
            assert(rest@ =~= name@.skip(1));
            return Ok(parse_mcp_reference(rest));
        }
        if n > 0 && chars[0] == '#' {
            let rest = name.substring_char(1, n);
            assert(rest@ =~= name@.skip(1));
            let rest_chars = chars_of(rest);
            if contains_char(&rest_chars, '*') {
                return Ok(ToolNameKind::AgentGlob(rest));
            } else {
                return Ok(ToolNameKind::Agent(rest));
            }
        }
        if contains_char(&chars, '*') {
            Ok(ToolNameKind::BuiltInGlob(name))
        } else {
            Ok(ToolNameKind::BuiltIn(name))
        }
    }
}


/// The built-in tools.
#[derive(Debug, Clone, Copy, PartialEq, Eq, Structural)]
pub enum BuiltInToolName {
    FsRead,
    FsWrite,
    Ls,
    ImageRead,
    Grep,
    Mkdir,
    ExecuteCmd,
    Introspect,
    SpawnSubagent,
}

/// The name of each built-in tool as written in agent configurations.
pub open spec fn builtin_tool_name_str(t: BuiltInToolName) -> Seq<char> {
    match t {
        BuiltInToolName::FsRead => "fs_read"@,
        BuiltInToolName::FsWrite => "fs_write"@,
        BuiltInToolName::Ls => "ls"@,
        BuiltInToolName::ImageRead => "image_read"@,
        BuiltInToolName::Grep => "grep"@,
        BuiltInToolName::Mkdir => "mkdir"@,
        BuiltInToolName::ExecuteCmd => "execute_cmd"@,
        BuiltInToolName::Introspect => "introspect"@,
        BuiltInToolName::SpawnSubagent => "spawn_subagent"@,
    }
}

/// The message of the error returned for a name that is not a built-in tool.
pub open spec fn variant_not_found_message() -> Seq<char> {
    "Matching variant not found"@
}

impl BuiltInToolName {
    /// The tool's name.
    pub fn as_str(&self) -> (res: &'static str)
        ensures
            res@ == builtin_tool_name_str(*self),
    {
        match self {
            BuiltInToolName::FsRead => "fs_read",
            BuiltInToolName::FsWrite => "fs_write",
            BuiltInToolName::Ls => "ls",
            BuiltInToolName::ImageRead => "image_read",
            BuiltInToolName::Grep => "grep",
            BuiltInToolName::Mkdir => "mkdir",
            BuiltInToolName::ExecuteCmd => "execute_cmd",
            BuiltInToolName::Introspect => "introspect",
            BuiltInToolName::SpawnSubagent => "spawn_subagent",
        }
    }

    /// Looks up a built-in tool by its exact name.
    pub fn from_name(name: &str) -> (res: Result<BuiltInToolName, String>)
        ensures
            match res {
                Ok(t) => builtin_tool_name_str(t) == name@,
                Err(e) => e@ == variant_not_found_message() && forall|t: BuiltInToolName|
                    builtin_tool_name_str(t) != name@,
            },
    {
        let v = chars_of(name);
        if chars_equal(&v, "fs_read") {
            return Ok(BuiltInToolName::FsRead);
        }
        if chars_equal(&v, "fs_write") {
            return Ok(BuiltInToolName::FsWrite);
        }
        if chars_equal(&v, "ls") {
            return Ok(BuiltInToolName::Ls);
        }
        if chars_equal(&v, "image_read") {
            return Ok(BuiltInToolName::ImageRead);
        }
        if chars_equal(&v, "grep") {
            return Ok(BuiltInToolName::Grep);
        }
        if chars_equal(&v, "mkdir") {
            return Ok(BuiltInToolName::Mkdir);
        }
        if chars_equal(&v, "execute_cmd") {
            return Ok(BuiltInToolName::ExecuteCmd);
        }
        if chars_equal(&v, "introspect") {
            return Ok(BuiltInToolName::Introspect);
        }
        if chars_equal(&v, "spawn_subagent") {
            return Ok(BuiltInToolName::SpawnSubagent);
        }
        Err(String::from_str("Matching variant not found"))
    }
}

/// The authoritative name of a single tool, before any aliasing or sanitizing.
#[derive(Debug, Clone, PartialEq, Eq)]
pub enum CanonicalToolName {
    BuiltIn(BuiltInToolName),
    Mcp { server_name: String, tool_name: String },
    Agent { agent_name: String },
}

/// The full name of a canonical tool name, as written in an agent configuration.
pub open spec fn full_name_of(c: CanonicalToolName) -> Seq<char> {
    match c {
        CanonicalToolName::BuiltIn(t) => builtin_tool_name_str(t),
        CanonicalToolName::Mcp { server_name, tool_name } => "@"@ + server_name@ + "/"@ + tool_name@,
        CanonicalToolName::Agent { agent_name } => "#"@ + agent_name@,
    }
}

/// The tool-name portion of a canonical tool name.
pub open spec fn short_name_of(c: CanonicalToolName) -> Seq<char> {
    match c {
        CanonicalToolName::BuiltIn(t) => builtin_tool_name_str(t),
        CanonicalToolName::Mcp { tool_name, .. } => tool_name@,
        CanonicalToolName::Agent { agent_name } => agent_name@,
    }
}

impl CanonicalToolName {
    /// Creates the canonical name of an MCP server's tool.
    pub fn from_mcp_parts(server_name: String, tool_name: String) -> (res: Self)
        ensures
            res == (CanonicalToolName::Mcp { server_name, tool_name }),
    {
        CanonicalToolName::Mcp { server_name, tool_name }
    }

    /// Returns the absolute tool name as written in the agent configuration.
    pub fn as_full_name(&self) -> (res: String)
        ensures
            res@ == full_name_of(*self),
    {
        match self {
            CanonicalToolName::BuiltIn(name) => String::from_str(name.as_str()),
            CanonicalToolName::Mcp { server_name, tool_name } => {
                let mut s = String::from_str("@");
                s.append(server_name.as_str());
                s.append("/");
                s.append(tool_name.as_str());
                s
            },
            CanonicalToolName::Agent { agent_name } => {
                let mut s = String::from_str("#");
                s.append(agent_name.as_str());
                s
            },
        }
    }

    /// Returns only the tool-name portion of the full name: `tool-name` for
    /// `@mcp-server/tool-name`, `agent-name` for `#agent-name`.
    pub fn tool_name(&self) -> (res: &str)
        ensures
            res@ == short_name_of(*self),
    {
        match self {
            CanonicalToolName::BuiltIn(name) => name.as_str(),
            CanonicalToolName::Mcp { tool_name, .. } => tool_name.as_str(),
            CanonicalToolName::Agent { agent_name } => agent_name.as_str(),
        }
    }
}


/// `s` as the `Debug` format writes a string: quoted, with quotes, backslashes and
/// the common control characters escaped.
pub open spec fn debug_quoted(s: Seq<char>) -> Seq<char> {
    "\""@ + debug_escaped(s) + "\""@
}

/// The escaped body of a `Debug`-formatted string.
pub open spec fn debug_escaped(s: Seq<char>) -> Seq<char>
    decreases s.len(),
{
    if s.len() == 0 {
        Seq::empty()
    } else {
        debug_escaped(s.drop_last()) + debug_escape_char(s.last())
    }
}

/// How one character appears inside a `Debug`-formatted string.
pub open spec fn debug_escape_char(c: char) -> Seq<char> {
    if c == '"' {
        seq!['\\', '"']
    } else if c == '\\' {
        seq!['\\', '\\']
    } else if c == '\n' {
        seq!['\\', 'n']
    } else if c == '\r' {
        seq!['\\', 'r']
    } else if c == '\t' {
        seq!['\\', 't']
    } else if c == '\0' {
        seq!['\\', '0']
    } else {
        seq![c]
    }
}

/// The `Debug` form of a tool name classification.
pub open spec fn debug_tool_name_kind(k: ToolNameKindModel) -> Seq<char> {
    match k {
        ToolNameKindModel::All => "All"@,
        ToolNameKindModel::McpFullName { server_name, tool_name } => "McpFullName { server_name: "@
            + debug_quoted(server_name) + ", tool_name: "@ + debug_quoted(tool_name) + " }"@,
        ToolNameKindModel::McpServer { server_name } => "McpServer { server_name: "@ + debug_quoted(
            server_name,
        ) + " }"@,
        ToolNameKindModel::McpGlob { server_name, glob_part } => "McpGlob { server_name: "@
            + debug_quoted(server_name) + ", glob_part: "@ + debug_quoted(glob_part) + " }"@,
        ToolNameKindModel::AllBuiltIn => "AllBuiltIn"@,
        ToolNameKindModel::BuiltInGlob(n) => "BuiltInGlob("@ + debug_quoted(n) + ")"@,
        ToolNameKindModel::BuiltIn(n) => "BuiltIn("@ + debug_quoted(n) + ")"@,
        ToolNameKindModel::AgentGlob(n) => "AgentGlob("@ + debug_quoted(n) + ")"@,
        ToolNameKindModel::Agent(n) => "Agent("@ + debug_quoted(n) + ")"@,
    }
}

/// Appends the escaped characters of `s` to `out`.
fn push_debug_escaped(out: &mut String, s: &str)
    ensures
        final(out)@ == old(out)@ + debug_escaped(s@),
{
    let v = chars_of(s);
    let mut i: usize = 0;
    while i < v.len()
        invariant
            i <= v.len(),
            v@ == s@,
            out@ == old(out)@ + debug_escaped(v@.take(i as int)),
        decreases v.len() - i,
    {
        let c = v[i];
        if c == '"' {
            push_char(out, '\\');
            push_char(out, '"');
        } else if c == '\\' {
            push_char(out, '\\');
            push_char(out, '\\');
        } else if c == '\n' {
            push_char(out, '\\');
            push_char(out, 'n');
        } else if c == '\r' {
            push_char(out, '\\');
            push_char(out, 'r');
        } else if c == '\t' {
            push_char(out, '\\');
            push_char(out, 't');
        } else if c == '\0' {
            push_char(out, '\\');
            push_char(out, '0');
        } else {
            push_char(out, c);
        }
        proof {
            assert(v@.take(i + 1).drop_last() =~= v@.take(i as int));
            assert(v@.take(i + 1).last() == c);
        }
        i = i + 1;
    }
    assert(v@.take(v.len() as int) =~= v@);
}

/// Appends `s` quoted as the `Debug` format writes it.
fn push_debug_quoted(out: &mut String, s: &str)
    ensures
        final(out)@ == old(out)@ + debug_quoted(s@),
{
    out.append("\"");
    push_debug_escaped(out, s);
    out.append("\"");
    proof {
        assert(old(out)@ + "\""@ + debug_escaped(s@) + "\""@ =~= old(out)@ + debug_quoted(s@));
    }
}

impl<'a> ToolNameKind<'a> {
    /// The `Debug` form of this classification.
    pub fn debug_string(&self) -> (res: String)
        ensures
            res@ == debug_tool_name_kind(self@),
    {
        match self {
            ToolNameKind::All => String::from_str("All"),
            ToolNameKind::McpFullName { server_name, tool_name } => {
                let mut s = String::from_str("McpFullName { server_name: ");
                push_debug_quoted(&mut s, server_name);
                s.append(", tool_name: ");
                push_debug_quoted(&mut s, tool_name);
                s.append(" }");
                s
            },
            ToolNameKind::McpServer { server_name } => {
                let mut s = String::from_str("McpServer { server_name: ");
                push_debug_quoted(&mut s, server_name);
                s.append(" }");
                s
            },
            ToolNameKind::McpGlob { server_name, glob_part } => {
                let mut s = String::from_str("McpGlob { server_name: ");
                push_debug_quoted(&mut s, server_name);
                s.append(", glob_part: ");
                push_debug_quoted(&mut s, glob_part);
                s.append(" }");
                s
            },
            ToolNameKind::AllBuiltIn => String::from_str("AllBuiltIn"),
            ToolNameKind::BuiltInGlob(n) => {
                let mut s = String::from_str("BuiltInGlob(");
                push_debug_quoted(&mut s, n);
                s.append(")");
                s
            },
            ToolNameKind::BuiltIn(n) => {
                let mut s = String::from_str("BuiltIn(");
                push_debug_quoted(&mut s, n);
                s.append(")");
                s
            },
            ToolNameKind::AgentGlob(n) => {
                let mut s = String::from_str("AgentGlob(");
                push_debug_quoted(&mut s, n);
                s.append(")");
                s
            },
            ToolNameKind::Agent(n) => {
                let mut s = String::from_str("Agent(");
                push_debug_quoted(&mut s, n);
                s.append(")");
                s
            },
        }
    }
}

/// The error message for a reference that names no single tool.
pub open spec fn unexpected_format_message(s: Seq<char>) -> Seq<char> {
    "Unexpected format input: "@ + s + ". "@ + debug_tool_name_kind(classify_tool_name(s))
        + " is not a valid name"@
}

/// What parsing a canonical tool name gives for `s`.
pub open spec fn canonical_parse_ok(s: Seq<char>, c: CanonicalToolName) -> bool {
    match classify_tool_name(s) {
        ToolNameKindModel::McpFullName { server_name, tool_name } => c matches CanonicalToolName::Mcp {
            server_name: a,
            tool_name: b,
        } && a@ == server_name && b@ == tool_name,
        ToolNameKindModel::BuiltIn(n) => c matches CanonicalToolName::BuiltIn(t)
            && builtin_tool_name_str(t) == n,
        ToolNameKindModel::Agent(n) => c matches CanonicalToolName::Agent { agent_name }
            && agent_name@ == n,
        _ => false,
    }
}

/// Whether `s` names exactly one tool.
pub open spec fn names_single_tool(s: Seq<char>) -> bool {
    match classify_tool_name(s) {
        ToolNameKindModel::McpFullName { .. } => true,
        ToolNameKindModel::BuiltIn(n) => exists|t: BuiltInToolName| builtin_tool_name_str(t) == n,
        ToolNameKindModel::Agent(_) => true,
        _ => false,
    }
}

/// The error message when `s` does not name exactly one tool.
pub open spec fn canonical_parse_error(s: Seq<char>) -> Seq<char> {
    match classify_tool_name(s) {
        ToolNameKindModel::BuiltIn(_) => variant_not_found_message(),
        _ => unexpected_format_message(s),
    }
}

impl CanonicalToolName {
    /// Parses a single tool's full name: `@server/tool`, `#agent`, or a built-in name.
    pub fn from_name(s: &str) -> (res: Result<CanonicalToolName, String>)
        ensures
            res is Ok <==> names_single_tool(s@),
            res matches Ok(c) ==> canonical_parse_ok(s@, c),
            res matches Err(e) ==> e@ == canonical_parse_error(s@),
    {
        let kind = ToolNameKind::parse(s);
        match kind {
            Ok(kind) => match kind {
                ToolNameKind::McpFullName { server_name, tool_name } => Ok(CanonicalToolName::Mcp {
                    server_name: String::from_str(server_name),
                    tool_name: String::from_str(tool_name),
                }),
                ToolNameKind::BuiltIn(name) => match BuiltInToolName::from_name(name) {
                    Ok(t) => Ok(CanonicalToolName::BuiltIn(t)),
                    Err(e) => Err(e),
                },
                ToolNameKind::Agent(name) => Ok(CanonicalToolName::Agent { agent_name: String::from_str(name) }),
                other => {
                    let mut msg = String::from_str("Unexpected format input: ");
                    msg.append(s);
                    msg.append(". ");
                    let d = other.debug_string();
                    msg.append(d.as_str());
                    msg.append(" is not a valid name");
                    Err(msg)
                },
            },
            Err(e) => Err(e),
        }
    }
}

impl std::str::FromStr for CanonicalToolName {
    type Err = String;

    fn from_str(s: &str) -> (res: Result<Self, Self::Err>)
        ensures
            res is Ok <==> names_single_tool(s@),
            res matches Ok(c) ==> canonical_parse_ok(s@, c),
            res matches Err(e) ==> e@ == canonical_parse_error(s@),
    {
        CanonicalToolName::from_name(s)
    }
}

/// A `#` reference names agents: by a glob when the name after `#` holds a `*` (then it is
/// never taken as one agent's name), else the one agent so named.
pub proof fn lemma_agent_reference_kind(s: Seq<char>)
    requires
        s.len() > 0,
        s[0] == '#',
    ensures
        (exists|i: int| 1 <= i < s.len() && s[i] == '*') ==> classify_tool_name(s)
            == ToolNameKindModel::AgentGlob(s.skip(1)),
        !(exists|i: int| 1 <= i < s.len() && s[i] == '*') ==> classify_tool_name(s)
            == ToolNameKindModel::Agent(s.skip(1)),
{
    reveal_strlit("*");
    reveal_strlit("@builtin");
    assert(s != "*"@) by {
        assert(s[0] != "*"@[0]);
    }
    assert(s != "@builtin"@) by {
        assert(s[0] != "@builtin"@[0]);
    }
    let rest = s.skip(1);
    if exists|i: int| 1 <= i < s.len() && s[i] == '*' {
        let i = choose|i: int| 1 <= i < s.len() && s[i] == '*';
        assert(rest[i - 1] == '*');
        assert(has_char(rest, '*'));
    } else {
        assert forall|j: int| 0 <= j < rest.len() implies rest[j] != '*' by {
            assert(rest[j] == s[j + 1]);
        }
        assert(!has_char(rest, '*'));
    }
}

/// A reference that starts with neither `@` nor `#` and is not `*` names built-in tools: by a
/// glob when it holds a `*`, else the one built-in tool so named.
pub proof fn lemma_builtin_reference_kind(s: Seq<char>)
    requires
        s.len() > 0,
        s[0] != '@',
        s[0] != '#',
        s != seq!['*'],
    ensures
        (exists|i: int| 0 <= i < s.len() && s[i] == '*') ==> classify_tool_name(s) == ToolNameKindModel::BuiltInGlob(s),
        !(exists|i: int| 0 <= i < s.len() && s[i] == '*') ==> classify_tool_name(s) == ToolNameKindModel::BuiltIn(s),
{
    reveal_strlit("*");
    reveal_strlit("@builtin");
    assert("*"@ =~= seq!['*']);
    assert(s != "@builtin"@) by {
        assert(s[0] != "@builtin"@[0]);
    }
}

/// A reference `@server/tool` (other than `@builtin`) is split at the first `/` after the `@`:
/// the part before it is the server, the part after it the tool, which names tools by a glob
/// when it holds a `*`; a reference `@server` without `/` names the whole server.
pub proof fn lemma_mcp_reference_kind(s: Seq<char>, k: int)
    requires
        s.len() > 0,
        s[0] == '@',
        s != "@builtin"@,
        1 <= k <= s.len(),
        k < s.len() ==> s[k] == '/',
        forall|j: int| 1 <= j < k ==> s[j] != '/',
    ensures
        k == s.len() ==> classify_tool_name(s) == (ToolNameKindModel::McpServer { server_name: s.skip(1) }),
        k < s.len() && (exists|i: int| k < i < s.len() && s[i] == '*') ==> classify_tool_name(s) == (
        ToolNameKindModel::McpGlob { server_name: s.subrange(1, k), glob_part: s.skip(k + 1) }),
        k < s.len() && !(exists|i: int| k < i < s.len() && s[i] == '*') ==> classify_tool_name(s) == (
        ToolNameKindModel::McpFullName { server_name: s.subrange(1, k), tool_name: s.skip(k + 1) }),
{
    reveal_strlit("*");
    assert(s != "*"@) by {
        assert(s[0] != "*"@[0]);
    }
    let rest = s.skip(1);
    if k == s.len() {
        assert forall|j: int| 0 <= j < rest.len() implies rest[j] != '/' by {
            assert(rest[j] == s[j + 1]);
        }
        assert(!has_char(rest, '/'));
    } else {
        assert(rest[k - 1] == '/');
        assert(has_char(rest, '/'));
        let f = choose|i: int| 0 <= i < rest.len() && rest[i] == '/' && forall|j: int| 0 <= j < i ==> rest[j] != '/';
        assert(rest[f] == s[f + 1]);
        if f < k - 1 {
            assert(s[f + 1] != '/');
        }
        if f > k - 1 {
            assert(rest[k - 1] != '/');
        }
        assert(f == k - 1);
        assert(first_index_of(rest, '/') == Some(k - 1));
        assert(rest.take(k - 1) =~= s.subrange(1, k));
        assert(rest.skip(k) =~= s.skip(k + 1));
        let tool = s.skip(k + 1);
        if exists|i: int| k < i < s.len() && s[i] == '*' {
            let i = choose|i: int| k < i < s.len() && s[i] == '*';
            assert(tool[i - k - 1] == '*');
            assert(has_char(tool, '*'));
        } else {
            assert forall|j: int| 0 <= j < tool.len() implies tool[j] != '*' by {
                assert(tool[j] == s[j + k + 1]);
            }
            assert(!has_char(tool, '*'));
        }
    }
}

/// The full name of a built-in tool parses back to that tool.
pub proof fn lemma_builtin_full_name_round_trip(t: BuiltInToolName)
    ensures
        names_single_tool(full_name_of(CanonicalToolName::BuiltIn(t))),
        canonical_parse_ok(full_name_of(CanonicalToolName::BuiltIn(t)), CanonicalToolName::BuiltIn(t)),
{
    reveal_strlit("*");
    reveal_strlit("@builtin");
    reveal_strlit("fs_read");
    reveal_strlit("fs_write");
    reveal_strlit("ls");
    reveal_strlit("image_read");
    reveal_strlit("grep");
    reveal_strlit("mkdir");
    reveal_strlit("execute_cmd");
    reveal_strlit("introspect");
    reveal_strlit("spawn_subagent");
    let s = builtin_tool_name_str(t);
    assert(s != "*"@) by {
        assert(s[0] != '*');
    }
    assert(s != "@builtin"@) by {
        assert(s[0] != '@');
    }
    assert(!has_char(s, '*'));
    assert(classify_tool_name(s) == ToolNameKindModel::BuiltIn(s));
}

/// The full name of an agent whose name holds no `*` parses back to that agent.
pub proof fn lemma_agent_full_name_round_trip(agent_name: String)
    requires
        !has_char(agent_name@, '*'),
    ensures
        names_single_tool(full_name_of(CanonicalToolName::Agent { agent_name })),
        canonical_parse_ok(full_name_of(CanonicalToolName::Agent { agent_name }), CanonicalToolName::Agent { agent_name }),
{
    reveal_strlit("*");
    reveal_strlit("@builtin");
    reveal_strlit("#");
    let s = full_name_of(CanonicalToolName::Agent { agent_name });
    assert(s[0] == '#');
    assert(s != "*"@) by {
        assert(s[0] != "*"@[0]);
    }
    assert(s != "@builtin"@) by {
        assert(s[0] != "@builtin"@[0]);
    }
    assert(s.skip(1) =~= agent_name@);
}

/// The full name of an MCP tool, `@server/tool`, parses back to that tool (for a server name
/// without `/` and a tool name without `*`).
pub proof fn lemma_mcp_full_name_round_trip(server_name: String, tool_name: String)
    requires
        !has_char(server_name@, '/'),
        !has_char(tool_name@, '*'),
    ensures
        classify_tool_name(full_name_of(CanonicalToolName::Mcp { server_name, tool_name }))
            == (ToolNameKindModel::McpFullName { server_name: server_name@, tool_name: tool_name@ }),
        names_single_tool(full_name_of(CanonicalToolName::Mcp { server_name, tool_name })),
        canonical_parse_ok(
            full_name_of(CanonicalToolName::Mcp { server_name, tool_name }),
            CanonicalToolName::Mcp { server_name, tool_name },
        ),
{
    reveal_strlit("*");
    reveal_strlit("@builtin");
    reveal_strlit("@");
    reveal_strlit("/");
    let s = full_name_of(CanonicalToolName::Mcp { server_name, tool_name });
    let rest = s.skip(1);
    assert(s[0] == '@');
    assert(s != "*"@) by {
        assert(s[0] != "*"@[0]);
    }
    let n = server_name@.len() as int;
    assert(rest =~= server_name@ + "/"@ + tool_name@);
    assert(rest[n] == '/');
    assert(forall|j: int| 0 <= j < n ==> rest[j] != '/') by {
        assert forall|j: int| 0 <= j < n implies rest[j] != '/' by {
            assert(rest[j] == server_name@[j]);
        }
    }
    assert(has_char(rest, '/'));
    let w = choose|i: int| 0 <= i < rest.len() && rest[i] == '/' && forall|j: int| 0 <= j < i ==> rest[j] != '/';
    assert(w == n) by {
        if w < n {
            assert(rest[w] != '/');
        } else if w > n {
            assert(rest[n] != '/');
        }
    }
    assert(rest.take(n) =~= server_name@);
    assert(rest.skip(n + 1) =~= tool_name@);
    if s == "@builtin"@ {
        assert(rest =~= "builtin"@);
        assert(false);
    }
}

/// The tool name of a canonical name ends its full name.
pub proof fn lemma_tool_name_ends_full_name(c: CanonicalToolName)
    ensures
        short_name_of(c).len() <= full_name_of(c).len(),
        full_name_of(c).subrange(full_name_of(c).len() - short_name_of(c).len(), full_name_of(c).len() as int)
            == short_name_of(c),
{
    let f = full_name_of(c);
    let t = short_name_of(c);
    assert(f.subrange(f.len() - t.len(), f.len() as int) =~= t);
}

} // verus!
