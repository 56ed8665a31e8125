//! Agent configuration definitions: tool settings, MCP server configurations and hooks.

use vstd::prelude::*;

use crate::text::str_eq;

verus! {

/// Path settings of the file-reading tool.
#[derive(Debug, Clone, Default)]
pub struct FsReadSettings {
    pub allowed_paths: Vec<String>,
    pub denied_paths: Vec<String>,
}

/// Path settings of the file-writing tool.
#[derive(Debug, Clone, Default)]
pub struct FsWriteSettings {
    pub allowed_paths: Vec<String>,
    pub denied_paths: Vec<String>,
}

/// Settings for specific tools.
#[derive(Debug, Clone, Default)]
pub struct ToolSettings {
    pub fs_read: FsReadSettings,
    pub fs_write: FsWriteSettings,
}

/// The default timeout of an MCP request, in milliseconds.
pub open spec fn spec_default_timeout() -> u64 {
    120000
}

/// The default timeout of an MCP request, in milliseconds: two minutes.
pub fn default_timeout() -> (res: u64)
    ensures
        res == spec_default_timeout(),
{
    120 * 1000
}

/// A local MCP server, run as a command.
#[derive(Debug, Clone)]
pub struct LocalMcpServerConfig {
    /// The command string used to initialize the MCP server.
    pub command: String,
    /// The arguments to run the command with.
    pub args: Vec<String>,
    /// The environment variables to run the command with.
    pub env: Option<Vec<(String, String)>>,
    /// Timeout for each MCP request, in milliseconds.
    pub timeout_ms: u64,
    /// Whether this server is not to be loaded.
    pub disabled: bool,
}

/// An MCP server reached over streamable HTTP.
#[derive(Debug, Clone)]
pub struct StreamableHTTPMcpServerConfig {
    /// The URL endpoint of the server.
    pub url: String,
    /// HTTP headers to send to the server.
    pub headers: Vec<(String, String)>,
    /// Timeout for each MCP request, in milliseconds.
    pub timeout_ms: u64,
}

/// The configuration of one MCP server.
#[derive(Debug, Clone)]
pub enum McpServerConfig {
    Local(LocalMcpServerConfig),
    StreamableHTTP(StreamableHTTPMcpServerConfig),
}

/// MCP server configurations by server name.
#[derive(Debug, Clone, Default)]
pub struct McpServers {
    pub mcp_servers: Vec<(String, McpServerConfig)>,
}

/// When a hook runs.
#[derive(Debug, Clone, Copy, PartialEq, Eq, Hash, Structural)]
pub enum HookTrigger {
    /// Triggered during agent spawn.
    AgentSpawn,
    /// Triggered per user message submission.
    UserPromptSubmit,
    /// Triggered before tool execution.
    PreToolUse,
    /// Triggered after tool execution.
    PostToolUse,
}

/// The name of a hook trigger as written in configurations (camel case).
pub open spec fn hook_trigger_name(t: HookTrigger) -> Seq<char> {
    match t {
        HookTrigger::AgentSpawn => "agentSpawn"@,
        HookTrigger::UserPromptSubmit => "userPromptSubmit"@,
        HookTrigger::PreToolUse => "preToolUse"@,
        HookTrigger::PostToolUse => "postToolUse"@,
    }
}

/// Different hook triggers have different names.
pub proof fn lemma_hook_trigger_names_distinct(a: HookTrigger, b: HookTrigger)
    ensures
        hook_trigger_name(a) == hook_trigger_name(b) <==> a == b,
{
    reveal_strlit("agentSpawn");
    reveal_strlit("userPromptSubmit");
    reveal_strlit("preToolUse");
    reveal_strlit("postToolUse");
    if a != b {
        let x = hook_trigger_name(a);
        let y = hook_trigger_name(b);
        assert(x.len() != y.len() || x[0] != y[0] || x[1] != y[1]);
    }
}

impl HookTrigger {
    /// The trigger's name.
    pub fn as_str(&self) -> (res: &'static str)
        ensures
            res@ == hook_trigger_name(*self),
    {
        match self {
            HookTrigger::AgentSpawn => "agentSpawn",
            HookTrigger::UserPromptSubmit => "userPromptSubmit",
            HookTrigger::PreToolUse => "preToolUse",
            HookTrigger::PostToolUse => "postToolUse",
        }
    }

    /// The trigger with the given name, if there is one.
    pub fn from_name(name: &str) -> (res: Option<HookTrigger>)
        ensures
            res matches Some(t) ==> hook_trigger_name(t) == name@,
            res is None ==> forall|t: HookTrigger| hook_trigger_name(t) != name@,
    {
        if str_eq(name, "agentSpawn") {
            Some(HookTrigger::AgentSpawn)
        } else if str_eq(name, "userPromptSubmit") {
            Some(HookTrigger::UserPromptSubmit)
        } else if str_eq(name, "preToolUse") {
            Some(HookTrigger::PreToolUse)
        } else if str_eq(name, "postToolUse") {
            Some(HookTrigger::PostToolUse)
        } else {
            None
        }
    }
}

/// Options shared by all hooks.
#[derive(Debug, Clone, PartialEq, Eq, Hash)]
pub struct BaseHookConfig {
    /// Max time the hook can run before it times out, in milliseconds.
    pub timeout_ms: u64,
    /// Max output size of the hook before it is truncated.
    pub max_output_size: usize,
    /// How long the hook output is cached before it is run again, in seconds.
    pub cache_ttl_seconds: u64,
    /// Optional glob matcher for the hook, matched against tool names.
    pub matcher: Option<String>,
}

/// The default hook timeout: ten seconds.
pub fn hook_default_timeout_ms() -> (res: u64)
    ensures
        res == 10000,
{
    10_000
}

/// The default maximum hook output size: 10 KiB.
pub fn hook_default_max_output_size() -> (res: usize)
    ensures
        res == 10240,
{
    1024 * 10
}

/// The default hook cache lifetime: no caching.
pub fn hook_default_cache_ttl_seconds() -> (res: u64)
    ensures
        res == 0,
{
    0
}

impl Default for BaseHookConfig {
    fn default() -> (res: Self)
        ensures
            res.timeout_ms == 10000,
            res.max_output_size == 10240,
            res.cache_ttl_seconds == 0,
            res.matcher is None,
    {
        BaseHookConfig {
            timeout_ms: hook_default_timeout_ms(),
            max_output_size: hook_default_max_output_size(),
            cache_ttl_seconds: hook_default_cache_ttl_seconds(),
            matcher: None,
        }
    }
}

/// An external command executed by the system's shell.
#[derive(Debug, Clone, PartialEq, Eq, Hash)]
pub struct CommandHook {
    /// The command to run.
    pub command: String,
    pub opts: BaseHookConfig,
}

/// A tool hook (not run yet).
#[derive(Debug, Clone, PartialEq, Eq)]
pub struct ToolHook {
    pub tool_name: String,
    pub args: serde_json::Value,
    pub opts: BaseHookConfig,
}

/// A hook of an agent configuration.
#[derive(Debug, Clone, PartialEq, Eq)]
pub enum HookConfig {
    /// An external command executed by the system's shell.
    ShellCommand(CommandHook),
    /// A tool hook.
    Tool(ToolHook),
}

/// The options of a hook.
pub open spec fn hook_opts(h: HookConfig) -> BaseHookConfig {
    match h {
        HookConfig::ShellCommand(c) => c.opts,
        HookConfig::Tool(t) => t.opts,
    }
}

impl HookConfig {
    /// The hook's options.
    pub fn opts(&self) -> (res: &BaseHookConfig)
        ensures
            *res == hook_opts(*self),
    {
        match self {
            HookConfig::ShellCommand(h) => &h.opts,
            HookConfig::Tool(h) => &h.opts,
        }
    }

    /// The hook's glob matcher, if any.
    pub fn matcher(&self) -> (res: Option<&str>)
        ensures
            match hook_opts(*self).matcher {
                Some(m) => res matches Some(r) && r@ == m@,
                None => res is None,
            },
    {
        match &self.opts().matcher {
            Some(m) => Some(m.as_str()),
            None => None,
        }
    }
}

} // verus!
