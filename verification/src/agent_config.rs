//! Loaded agent configurations: where they come from, their MCP servers and resources.

use vstd::prelude::*;

use crate::config::{HookConfig, HookTrigger, McpServerConfig, McpServers, ToolSettings};
use crate::globs::{pattern_compiles, pattern_error_message, pattern_error_text, pattern_new, pattern_source};
use crate::path_util::{canonical_path, canonicalize_path_sys, cwd_error_context, cwd_error_message, TestProvider, UtilError};
use crate::text::{chars_of, contains_char, has_char, str_eq, strings_view};

verus! {

/// A value of the `resources` list of an agent configuration, such as `file://README.md`.
#[derive(Debug, Clone, PartialEq, Eq, Hash)]
pub struct ResourcePath(pub String);

impl ResourcePath {
    /// The resource as written.
    pub fn as_str(&self) -> (res: &str)
        ensures
            res@ == self.0@,
    {
        self.0.as_str()
    }
}

impl From<String> for ResourcePath {
    fn from(value: String) -> (res: Self)
        ensures
            res == ResourcePath(value),
    {
        ResourcePath(value)
    }
}

impl vstd::std_specs::convert::FromSpecImpl<String> for ResourcePath {
    open spec fn obeys_from_spec() -> bool {
        true
    }

    open spec fn from_spec(v: String) -> Self {
        ResourcePath(v)
    }
}

/// Where an agent configuration came from.
#[derive(Debug, Clone)]
pub enum ConfigSource {
    /// A workspace directory.
    Workspace { path: String },
    /// The global directory.
    Global { path: String },
    /// An in-memory built-in.
    BuiltIn,
}

/// Errors in finding and loading agent configurations.
#[derive(Debug, Clone)]
pub enum AgentConfigError {
    AgentNotFound { name: String },
    InvalidAgentConfig { path: String, message: String },
    Channel,
    Custom(String),
}

/// The message of an agent configuration error.
pub open spec fn agent_config_error_text(e: AgentConfigError) -> Seq<char> {
    match e {
        AgentConfigError::AgentNotFound { name } => "Agent with the name '"@ + name@ + "' was not found"@,
        AgentConfigError::InvalidAgentConfig { path, message } => "Agent config at the path '"@ + path@
            + "' has an invalid config: "@ + message@,
        AgentConfigError::Channel => "A failure occurred with the underlying channel"@,
        AgentConfigError::Custom(s) => s@,
    }
}

impl AgentConfigError {
    /// The error's message.
    pub fn message(&self) -> (res: String)
        ensures
            res@ == agent_config_error_text(*self),
    {
        match self {
            AgentConfigError::AgentNotFound { name } => {
                let mut s = String::from_str("Agent with the name '");
                s.append(name.as_str());
                s.append("' was not found");
                s
            },
            AgentConfigError::InvalidAgentConfig { path, message } => {
                let mut s = String::from_str("Agent config at the path '");
                s.append(path.as_str());
                s.append("' has an invalid config: ");
                s.append(message.as_str());
                s
            },
            AgentConfigError::Channel => String::from_str("A failure occurred with the underlying channel"),
            AgentConfigError::Custom(s) => s.clone(),
        }
    }
}

/// A request to the agent configuration manager.
#[derive(Debug, Clone)]
pub enum AgentConfigRequest {
    GetConfig { agent_name: String },
    GetAllConfigs,
}

/// Where an MCP server configuration came from.
#[derive(Debug, Clone, Copy, PartialEq, Eq, Structural)]
pub enum McpServerConfigSource {
    /// The agent configuration.
    AgentConfig,
    /// The global `mcp.json` file.
    GlobalMcpJson,
    /// The workspace `mcp.json` file.
    WorkspaceMcpJson,
}

/// An MCP server configuration with its name and origin.
#[derive(Debug, Clone)]
pub struct LoadedMcpServerConfig {
    /// The name (id) of the server.
    pub server_name: String,
    /// The server's configuration.
    pub config: McpServerConfig,
    /// Where the configuration came from.
    pub source: McpServerConfigSource,
}

/// The MCP server configurations of an agent.
#[derive(Debug, Clone)]
pub struct LoadedMcpServerConfigs {
    /// The configurations to use; each name occurs once.
    pub configs: Vec<LoadedMcpServerConfig>,
    /// Configurations left out because an earlier one had the same name (a global one
    /// overridden by a workspace one, for instance).
    pub overridden_configs: Vec<LoadedMcpServerConfig>,
}

/// The server names of the configurations, in order.
pub open spec fn config_names(c: Seq<LoadedMcpServerConfig>) -> Seq<Seq<char>> {
    c.map_values(|x: LoadedMcpServerConfig| x.server_name@)
}

/// Whether no name occurs twice.
pub open spec fn names_unique(names: Seq<Seq<char>>) -> bool {
    forall|i: int, j: int| 0 <= i < j < names.len() ==> names[i] != names[j]
}

/// The names of name-keyed entries, in order.
pub open spec fn entry_names(e: Seq<(String, McpServerConfig)>) -> Seq<Seq<char>> {
    e.map_values(|x: (String, McpServerConfig)| x.0@)
}

/// The kept and overridden entries after adding `entries` (from `source`) to `kept`: an
/// entry whose name is already kept is overridden, any other is kept.
pub open spec fn merge_entries(
    kept: Seq<(Seq<char>, McpServerConfigSource)>,
    overridden: Seq<(Seq<char>, McpServerConfigSource)>,
    entries: Seq<Seq<char>>,
    source: McpServerConfigSource,
) -> (Seq<(Seq<char>, McpServerConfigSource)>, Seq<(Seq<char>, McpServerConfigSource)>)
    decreases entries.len(),
{
    if entries.len() == 0 {
        (kept, overridden)
    } else {
        let (k, o) = merge_entries(kept, overridden, entries.drop_last(), source);
        let n = entries.last();
        if exists|i: int| 0 <= i < k.len() && k[i].0 == n {
            (k, o.push((n, source)))
        } else {
            (k.push((n, source)), o)
        }
    }
}

/// The name and origin of each configuration.
pub open spec fn config_keys(c: Seq<LoadedMcpServerConfig>) -> Seq<(Seq<char>, McpServerConfigSource)> {
    c.map_values(|x: LoadedMcpServerConfig| (x.server_name@, x.source))
}

/// Whether no name occurs twice among the kept configurations.
pub open spec fn keys_unique(k: Seq<(Seq<char>, McpServerConfigSource)>) -> bool {
    forall|i: int, j: int| 0 <= i < j < k.len() ==> k[i].0 != k[j].0
}

/// Merging keeps names unique, and every entry is either kept or overridden.
pub proof fn lemma_merge_keeps_names_unique(
    kept: Seq<(Seq<char>, McpServerConfigSource)>,
    overridden: Seq<(Seq<char>, McpServerConfigSource)>,
    entries: Seq<Seq<char>>,
    source: McpServerConfigSource,
)
    requires
        keys_unique(kept),
    ensures
        keys_unique(merge_entries(kept, overridden, entries, source).0),
        merge_entries(kept, overridden, entries, source).0.len() + merge_entries(kept, overridden, entries, source).1.len()
            == kept.len() + overridden.len() + entries.len(),
    decreases entries.len(),
{
    if entries.len() > 0 {
        lemma_merge_keeps_names_unique(kept, overridden, entries.drop_last(), source);
    }
}

/// The configurations an agent ends with have unique names, and (with the legacy files) every
/// configuration of those files is either used or overridden.
pub proof fn lemma_loaded_names_unique(
    agent: Seq<Seq<char>>,
    use_legacy: bool,
    workspace: Seq<Seq<char>>,
    global: Seq<Seq<char>>,
)
    ensures
        keys_unique(merged_keys(agent, use_legacy, workspace, global).0),
        use_legacy ==> merged_keys(agent, use_legacy, workspace, global).0.len() + merged_keys(
            agent,
            use_legacy,
            workspace,
            global,
        ).1.len() == dedup_names(agent).len() + workspace.len() + global.len(),
{
    lemma_dedup_unique(agent);
    let d = dedup_names(agent);
    let base = agent_keys(d);
    assert(keys_unique(base)) by {
        assert forall|i: int, j: int| 0 <= i < j < base.len() implies base[i].0 != base[j].0 by {
            assert(base[i].0 == d[i] && base[j].0 == d[j]);
        }
    }
    if use_legacy {
        lemma_merge_keeps_names_unique(base, Seq::empty(), workspace, McpServerConfigSource::WorkspaceMcpJson);
        let (k1, o1) = merge_entries(base, Seq::empty(), workspace, McpServerConfigSource::WorkspaceMcpJson);
        lemma_merge_keeps_names_unique(k1, o1, global, McpServerConfigSource::GlobalMcpJson);
    }
}

/// The names in order of first occurrence, each once: what the keys of a map built from them
/// are (the agent configuration keeps its servers by name).
pub open spec fn dedup_names(names: Seq<Seq<char>>) -> Seq<Seq<char>>
    decreases names.len(),
{
    if names.len() == 0 {
        Seq::empty()
    } else {
        let d = dedup_names(names.drop_last());
        if d.contains(names.last()) {
            d
        } else {
            d.push(names.last())
        }
    }
}

proof fn lemma_dedup_unique(names: Seq<Seq<char>>)
    ensures
        names_unique(dedup_names(names)),
        dedup_names(names).len() <= names.len(),
    decreases names.len(),
{
    if names.len() > 0 {
        lemma_dedup_unique(names.drop_last());
        let d = dedup_names(names.drop_last());
        if !d.contains(names.last()) {
            assert forall|i: int, j: int| 0 <= i < j < d.push(names.last()).len() implies d.push(names.last())[i]
                != d.push(names.last())[j] by {
                if j == d.len() {
                    assert(d.push(names.last())[i] == d[i]);
                }
            }
        }
    }
}

/// The names with the agent configuration as their origin.
pub open spec fn agent_keys(names: Seq<Seq<char>>) -> Seq<(Seq<char>, McpServerConfigSource)> {
    names.map_values(|n: Seq<char>| (n, McpServerConfigSource::AgentConfig))
}

/// The names and origins of the configurations an agent ends with: those of the agent
/// configuration (each name once), then (when the legacy files are used) those of the workspace file and
/// those of the global file, each kept unless its name is already kept.
pub open spec fn merged_keys(
    agent: Seq<Seq<char>>,
    use_legacy: bool,
    workspace: Seq<Seq<char>>,
    global: Seq<Seq<char>>,
) -> (Seq<(Seq<char>, McpServerConfigSource)>, Seq<(Seq<char>, McpServerConfigSource)>) {
    let base = agent_keys(dedup_names(agent));
    if use_legacy {
        let (k1, o1) = merge_entries(base, Seq::empty(), workspace, McpServerConfigSource::WorkspaceMcpJson);
        merge_entries(k1, o1, global, McpServerConfigSource::GlobalMcpJson)
    } else {
        (base, Seq::empty())
    }
}

/// Where a kept configuration has the name, if one does.
fn find_name(configs: &Vec<LoadedMcpServerConfig>, name: &String) -> (res: Option<usize>)
    ensures
        match res {
            Some(j) => j < configs@.len() && configs@[j as int].server_name@ == name@,
            None => forall|i: int| 0 <= i < configs@.len() ==> configs@[i].server_name@ != name@,
        },
{
    let mut i: usize = 0;
    while i < configs.len()
        invariant
            i <= configs.len(),
            forall|j: int| 0 <= j < i ==> configs@[j].server_name@ != name@,
        decreases configs.len() - i,
    {
        if configs[i].server_name == *name {
            return Some(i);
        }
        i = i + 1;
    }
    None
}

/// Whether some kept configuration has the name.
fn has_name(configs: &Vec<LoadedMcpServerConfig>, name: &String) -> (res: bool)
    ensures
        res == exists|i: int| 0 <= i < configs@.len() && configs@[i].server_name@ == name@,
{
    let mut i: usize = 0;
    while i < configs.len()
        invariant
            i <= configs.len(),
            forall|j: int| 0 <= j < i ==> configs@[j].server_name@ != name@,
        decreases configs.len() - i,
    {
        if configs[i].server_name == *name {
            return true;
        }
        i = i + 1;
    }
    false
}

/// Adds the entries of an MCP configuration file from `source`: an entry whose name is
/// already kept goes to the overridden ones.
fn push_configs(
    configs: &mut Vec<LoadedMcpServerConfig>,
    overridden: &mut Vec<LoadedMcpServerConfig>,
    servers: McpServers,
    source: McpServerConfigSource,
)
    ensures
        (config_keys(final(configs)@), config_keys(final(overridden)@)) == merge_entries(
            config_keys(old(configs)@),
            config_keys(old(overridden)@),
            entry_names(servers.mcp_servers@),
            source,
        ),
{
    let ghost entries = servers.mcp_servers@;
    let ghost k0 = config_keys(configs@);
    let ghost o0 = config_keys(overridden@);
    let list = &servers.mcp_servers;
    let mut done: usize = 0;
    while done < list.len()
        invariant
            done <= list.len(),
            entries == list@,
            (config_keys(configs@), config_keys(overridden@)) == merge_entries(
                k0,
                o0,
                entry_names(entries.take(done as int)),
                source,
            ),
        decreases list.len() - done,
    {
        let name = list[done].0.clone();
        let config = list[done].1.clone();
        proof {
            assert(entry_names(entries.take(done + 1)).drop_last() =~= entry_names(entries.take(done as int)));
            assert(entry_names(entries.take(done + 1)).last() == name@);
        }
        let ghost ck = config_keys(configs@);
        let ghost ok = config_keys(overridden@);
        let exists_already = has_name(configs, &name);
        proof {
            if exists_already {
                let i = choose|i: int| 0 <= i < configs@.len() && configs@[i].server_name@ == name@;
                assert(ck[i].0 == name@);
            } else {
                assert forall|i: int| 0 <= i < ck.len() implies ck[i].0 != name@ by {
                    assert(configs@[i].server_name@ != name@);
                }
            }
        }
        let loaded = LoadedMcpServerConfig { server_name: name, config, source };
        if exists_already {
            overridden.push(loaded);
            proof {
                assert(config_keys(overridden@) =~= ok.push((name@, source)));
            }
        } else {
            configs.push(loaded);
            proof {
                assert(config_keys(configs@) =~= ck.push((name@, source)));
            }
        }
        done = done + 1;
    }
    proof {
        assert(entries.take(list.len() as int) =~= entries);
    }
}

impl LoadedMcpServerConfigs {
    /// The MCP server configurations of an agent configuration: its own servers, then, when
    /// it uses the legacy `mcp.json` files, those of the workspace and the global file (read by
    /// the caller), each overridden by an earlier one of the same name.
    pub fn from_agent_config(config: &AgentConfig, workspace: McpServers, global: McpServers) -> (res: Self)
        ensures
            (config_keys(res.configs@), config_keys(res.overridden_configs@)) == merged_keys(
                entry_names(config.v().mcp_servers@),
                config.v().use_legacy_mcp_json,
                entry_names(workspace.mcp_servers@),
                entry_names(global.mcp_servers@),
            ),
            keys_unique(config_keys(res.configs@)),
    {
        let servers = config.mcp_servers();
        let mut copy: Vec<(String, McpServerConfig)> = Vec::new();
        let mut i: usize = 0;
        while i < servers.len()
            invariant
                i <= servers.len(),
                entry_names(copy@) == entry_names(servers@.take(i as int)),
            decreases servers.len() - i,
        {
            let ghost before = copy@;
            copy.push((servers[i].0.clone(), servers[i].1.clone()));
            proof {
                assert(entry_names(copy@) =~= entry_names(before).push(servers@[i as int].0@));
                assert(entry_names(servers@.take(i + 1)) =~= entry_names(servers@.take(i as int)).push(
                    servers@[i as int].0@,
                ));
            }
            i = i + 1;
        }
        proof {
            assert(servers@.take(servers.len() as int) =~= servers@);
        }
        Self::from_agent_config_parts(copy, config.use_legacy_mcp_json(), workspace, global)
    }

    /// The MCP server configurations of an agent: those of the agent configuration, then,
    /// when `use_legacy_mcp_json` is set, those of the workspace and of the global
    /// `mcp.json` files (read by the caller), each overridden by an earlier one of the
    /// same name.
    pub fn from_agent_config_parts(
        agent_servers: Vec<(String, McpServerConfig)>,
        use_legacy_mcp_json: bool,
        workspace: McpServers,
        global: McpServers,
    ) -> (res: Self)
        ensures
            (config_keys(res.configs@), config_keys(res.overridden_configs@)) == merged_keys(
                entry_names(agent_servers@),
                use_legacy_mcp_json,
                entry_names(workspace.mcp_servers@),
                entry_names(global.mcp_servers@),
            ),
            keys_unique(config_keys(res.configs@)),
    {
        proof {
            lemma_loaded_names_unique(
                entry_names(agent_servers@),
                use_legacy_mcp_json,
                entry_names(workspace.mcp_servers@),
                entry_names(global.mcp_servers@),
            );
        }
        let ghost agent = agent_servers@;
        let mut configs: Vec<LoadedMcpServerConfig> = Vec::new();
        let mut overwritten: Vec<LoadedMcpServerConfig> = Vec::new();
        let mut i: usize = 0;
        while i < agent_servers.len()
            invariant
                i <= agent_servers.len(),
                agent == agent_servers@,
                config_keys(configs@) == agent_keys(dedup_names(entry_names(agent.take(i as int)))),
                overwritten@.len() == 0,
            decreases agent_servers.len() - i,
        {
            let ghost d = dedup_names(entry_names(agent.take(i as int)));
            let ghost cb = configs@;
            let name = agent_servers[i].0.clone();
            let loaded = LoadedMcpServerConfig {
                server_name: agent_servers[i].0.clone(),
                config: agent_servers[i].1.clone(),
                source: McpServerConfigSource::AgentConfig,
            };
            proof {
                assert(entry_names(agent.take(i + 1)) =~= entry_names(agent.take(i as int)).push(agent[i as int].0@));
                assert(entry_names(agent.take(i + 1)).drop_last() =~= entry_names(agent.take(i as int)));
            }
            match find_name(&configs, &name) {
                Some(j) => {
                    // A later entry of a name replaces the earlier one's configuration.
                    proof {
                        assert(cb[j as int].server_name@ == name@);
                        assert(config_keys(cb).len() == cb.len());
                        assert(agent_keys(d).len() == d.len());
                        assert(config_keys(cb)[j as int] == (cb[j as int].server_name@, cb[j as int].source));
                        assert(agent_keys(d)[j as int] == (d[j as int], McpServerConfigSource::AgentConfig));
                        assert(d[j as int] == name@);
                        assert(d.contains(name@));
                    }
                    configs.set(j, loaded);
                    proof {
                        assert(config_keys(configs@) =~= config_keys(cb));
                    }
                },
                None => {
                    configs.push(loaded);
                    proof {
                        assert(!d.contains(name@)) by {
                            if d.contains(name@) {
                                let k = choose|k: int| 0 <= k < d.len() && d[k] == name@;
                                assert(config_keys(cb).len() == cb.len());
                                assert(agent_keys(d).len() == d.len());
                                assert(agent_keys(d)[k] == (d[k], McpServerConfigSource::AgentConfig));
                                assert(config_keys(cb)[k] == (cb[k].server_name@, cb[k].source));
                                assert(cb[k].server_name@ != name@);
                            }
                        }
                        assert(config_keys(configs@) =~= config_keys(cb).push((name@, McpServerConfigSource::AgentConfig)));
                        assert(agent_keys(d.push(name@)) =~= agent_keys(d).push((name@, McpServerConfigSource::AgentConfig)));
                    }
                },
            }
            i = i + 1;
        }
        proof {
            assert(agent.take(agent_servers.len() as int) =~= agent);
            assert(config_keys(overwritten@) =~= Seq::<(Seq<char>, McpServerConfigSource)>::empty());
        }
        if use_legacy_mcp_json {
            push_configs(&mut configs, &mut overwritten, workspace, McpServerConfigSource::WorkspaceMcpJson);
            push_configs(&mut configs, &mut overwritten, global, McpServerConfigSource::GlobalMcpJson);
        }
        LoadedMcpServerConfigs { configs, overridden_configs: overwritten }
    }

    /// The names of the servers in use, in order.
    pub fn server_names(&self) -> (res: Vec<String>)
        ensures
            strings_view(res@) == config_names(self.configs@),
    {
        let mut out: Vec<String> = Vec::new();
        let mut i: usize = 0;
        while i < self.configs.len()
            invariant
                i <= self.configs.len(),
                strings_view(out@) == config_names(self.configs@.take(i as int)),
            decreases self.configs.len() - i,
        {
            let ghost before = out@;
            out.push(self.configs[i].server_name.clone());
            proof {
                assert(strings_view(out@) =~= strings_view(before).push(self.configs@[i as int].server_name@));
                assert(config_names(self.configs@.take(i + 1)) =~= config_names(self.configs@.take(i as int)).push(
                    self.configs@[i as int].server_name@,
                ));
            }
            i = i + 1;
        }
        proof {
            assert(self.configs@.take(self.configs.len() as int) =~= self.configs@);
        }
        out
    }
}

/// `s` with every leading `file://` removed.
pub open spec fn trim_file_scheme(s: Seq<char>) -> Seq<char>
    decreases s.len(),
{
    if s.len() >= 7 && s.take(7) == "file://"@ {
        trim_file_scheme(s.skip(7))
    } else {
        s
    }
}

/// A resource of an agent configuration, understood.
#[derive(Debug, PartialEq)]
pub enum ResourceKind<'a> {
    /// A single file.
    File { original: &'a str, file_path: String },
    /// Files matching a glob.
    FileGlob { original: &'a str, pattern: glob::Pattern },
}

/// The message of the error for a resource that is not a file.
pub open spec fn non_file_scheme_message() -> Seq<char> {
    "Only file schemes are currently supported"@
}

/// The message of the error for a path that cannot be canonicalized.
pub open spec fn canonicalize_failure_message(path: Seq<char>) -> Seq<char> {
    "Failed to canonicalize path for "@ + path + ": "@ + cwd_error_context() + ": "@ + cwd_error_message()
}

/// Whether `r` is what parsing the resource `value` gives with the provider `p`: only
/// `file://` resources are accepted; the path after the scheme is canonicalized, and
/// a path with `*` or `?` becomes a glob over the canonical path.
pub open spec fn resource_parse_result(r: Result<ResourceKind, String>, value: Seq<char>, p: crate::path_util::ProviderModel) -> bool {
    if !(value.len() >= 7 && value.take(7) == "file://"@) {
        r matches Err(e) && e@ == non_file_scheme_message()
    } else {
        let fp = trim_file_scheme(value);
        match canonical_path(fp, p) {
            None => r matches Err(e) && e@ == canonicalize_failure_message(fp),
            Some(canon) => if has_char(fp, '*') || has_char(fp, '?') {
                if pattern_compiles(canon) {
                    r matches Ok(ResourceKind::FileGlob { original, pattern }) && original@ == value
                        && pattern_source(pattern) == canon
                } else {
                    r matches Err(e) && exists|pe: glob::PatternError|
                        e@ == "Failed to create glob for "@ + canon + ": "@ + pattern_error_text(pe)
                }
            } else {
                r matches Ok(ResourceKind::File { original, file_path }) && original@ == value && file_path@ == canon
            },
        }
    }
}

pub(crate) fn has_file_scheme(s: &str) -> (res: bool)
    ensures
        res == (s@.len() >= 7 && s@.take(7) == "file://"@),
{
    proof {
        reveal_strlit("file://");
    }
    let n = s.unicode_len();
    if n < 7 {
        return false;
    }
    let head = s.substring_char(0, 7);
    let r = str_eq(head, "file://");
    assert(head@ =~= s@.take(7));
    r
}

fn canonicalize_failure(path: &str) -> (res: String)
    ensures
        res@ == canonicalize_failure_message(path@),
{
    let mut s = String::from_str("Failed to canonicalize path for ");
    s.append(path);
    s.append(": could not get current directory: not found");
    proof {
        reveal_strlit(": could not get current directory: not found");
        reveal_strlit(": ");
        reveal_strlit("could not get current directory");
        reveal_strlit("not found");
        assert(s@ =~= canonicalize_failure_message(path@));
    }
    s
}

impl<'a> ResourceKind<'a> {
    /// Parses a resource of an agent configuration (see [resource_parse_result]).
    pub fn parse(value: &'a str, sys: &TestProvider) -> (res: Result<Self, String>)
        ensures
            resource_parse_result(res, value@, sys@),
    {
        if !has_file_scheme(value) {
            return Err(String::from_str("Only file schemes are currently supported"));
        }
        let mut file_path: &str = value;
        while has_file_scheme(file_path)
            invariant
                trim_file_scheme(file_path@) == trim_file_scheme(value@),
            decreases file_path@.len(),
        {
            let n = file_path.unicode_len();
            let rest = file_path.substring_char(7, n);
            assert(rest@ =~= file_path@.skip(7));
            file_path = rest;
        }
        let fc = chars_of(file_path);
        if contains_char(&fc, '*') || contains_char(&fc, '?') {
            let canon = match canonicalize_path_sys(file_path, sys) {
                Ok(c) => c,
                Err(_) => {
                    return Err(canonicalize_failure(file_path));
                },
            };
            match pattern_new(canon.as_str()) {
                Ok(pattern) => Ok(ResourceKind::FileGlob { original: value, pattern }),
                Err(e) => {
                    let mut s = String::from_str("Failed to create glob for ");
                    s.append(canon.as_str());
                    s.append(": ");
                    let m = pattern_error_message(&e);
                    s.append(m.as_str());
                    Err(s)
                },
            }
        } else {
            match canonicalize_path_sys(file_path, sys) {
                Ok(c) => Ok(ResourceKind::File { original: value, file_path: c }),
                Err(_) => Err(canonicalize_failure(file_path)),
            }
        }
    }
}

/// An agent configuration, in the version of 2025-08-22.
#[derive(Debug, Clone)]
pub struct AgentConfigV2025_08_22 {
    /// The JSON schema the configuration follows.
    pub schema: String,
    /// Name of the agent.
    pub name: String,
    /// What the agent does, for people (not passed to the model).
    pub description: Option<String>,
    /// A system prompt guiding the agent's behavior.
    pub system_prompt: Option<String>,
    /// The tools available to the agent: `fs_read`, `@server/tool`, `#agent` and the like.
    pub tools: Vec<String>,
    /// Tool aliases, from full tool name to the name offered to the model.
    pub tool_aliases: Vec<(String, String)>,
    /// Settings for specific tools.
    pub tool_settings: Option<ToolSettings>,
    /// A JSON schema of the arguments for when the agent is used as a tool.
    pub tool_schema: Option<serde_json::Value>,
    /// Hooks, by trigger.
    pub hooks: Vec<(HookTrigger, Vec<HookConfig>)>,
    /// MCP servers, by name.
    pub mcp_servers: Vec<(String, McpServerConfig)>,
    /// Whether the legacy `mcp.json` files are included.
    pub use_legacy_mcp_json: bool,
    /// Files to include in the agent's context.
    pub resources: Vec<ResourcePath>,
    /// Tools the agent may use without asking.
    pub allowed_tools: Vec<String>,
}

/// An agent configuration, by version.
#[derive(Debug, Clone)]
pub enum AgentConfig {
    V2025_08_22(AgentConfigV2025_08_22),
}

/// The name of the default agent.
pub const DEFAULT_AGENT_NAME: &'static str = "q_cli_default";

/// The schema of agent configurations.
pub open spec fn agent_schema_url() -> Seq<char> {
    "https://raw.githubusercontent.com/aws/amazon-q-developer-cli/refs/heads/main/schemas/agent-v1.json"@
}

/// The resources of the default agent.
pub open spec fn default_resources() -> Seq<Seq<char>> {
    seq!["file://AmazonQ.md"@, "file://AGENTS.md"@, "file://README.md"@, "file://.amazonq/rules/**/*.md"@]
}

/// `a` is the default agent configuration.
pub open spec fn is_default_agent(a: AgentConfigV2025_08_22) -> bool {
    &&& a.schema@ == agent_schema_url()
    &&& a.name@ == DEFAULT_AGENT_NAME@
    &&& a.description matches Some(d) && d@ == "The default agent for Q CLI"@
    &&& a.system_prompt is None
    &&& strings_view(a.tools@) == seq!["@builtin"@]
    &&& a.tool_aliases@.len() == 0
    &&& a.tool_settings is None
    &&& a.tool_schema is None
    &&& a.hooks@.len() == 0
    &&& a.mcp_servers@.len() == 0
    &&& !a.use_legacy_mcp_json
    &&& a.resources@.map_values(|r: ResourcePath| r.0@) == default_resources()
    &&& strings_view(a.allowed_tools@) == seq!["fs_read"@]
}

impl Default for AgentConfigV2025_08_22 {
    fn default() -> (res: Self)
        ensures
            is_default_agent(res),
    {
        let mut tools: Vec<String> = Vec::new();
        tools.push(String::from_str("@builtin"));
        let mut resources: Vec<ResourcePath> = Vec::new();
        resources.push(ResourcePath(String::from_str("file://AmazonQ.md")));
        resources.push(ResourcePath(String::from_str("file://AGENTS.md")));
        resources.push(ResourcePath(String::from_str("file://README.md")));
        resources.push(ResourcePath(String::from_str("file://.amazonq/rules/**/*.md")));
        let mut allowed_tools: Vec<String> = Vec::new();
        allowed_tools.push(String::from_str(crate::tool_names::BuiltInToolName::FsRead.as_str()));
        let res = AgentConfigV2025_08_22 {
            schema: String::from_str(
                "https://raw.githubusercontent.com/aws/amazon-q-developer-cli/refs/heads/main/schemas/agent-v1.json",
            ),
            name: String::from_str(DEFAULT_AGENT_NAME),
            description: Some(String::from_str("The default agent for Q CLI")),
            system_prompt: None,
            tools,
            tool_aliases: Vec::new(),
            tool_settings: None,
            tool_schema: None,
            hooks: Vec::new(),
            mcp_servers: Vec::new(),
            use_legacy_mcp_json: false,
            resources,
            allowed_tools,
        };
        proof {
            reveal_strlit("fs_read");
            assert(strings_view(res.tools@) =~= seq!["@builtin"@]);
            assert(strings_view(res.allowed_tools@) =~= seq!["fs_read"@]);
            assert(res.resources@.map_values(|r: ResourcePath| r.0@) =~= default_resources());
        }
        res
    }
}

impl Default for AgentConfig {
    fn default() -> (res: Self)
        ensures
            is_default_agent(res.v()),
    {
        AgentConfig::V2025_08_22(AgentConfigV2025_08_22::default())
    }
}

impl AgentConfig {
    /// The configuration's fields.
    pub open spec fn v(&self) -> AgentConfigV2025_08_22 {
        match *self {
            AgentConfig::V2025_08_22(a) => a,
        }
    }

    pub fn name(&self) -> (res: &str)
        ensures
            res@ == self.v().name@,
    {
        match self {
            AgentConfig::V2025_08_22(a) => a.name.as_str(),
        }
    }

    pub fn system_prompt(&self) -> (res: Option<&str>)
        ensures
            match self.v().system_prompt {
                Some(p) => res matches Some(r) && r@ == p@,
                None => res is None,
            },
    {
        match self {
            AgentConfig::V2025_08_22(a) => match &a.system_prompt {
                Some(p) => Some(p.as_str()),
                None => None,
            },
        }
    }

    pub fn tools(&self) -> (res: Vec<String>)
        ensures
            strings_view(res@) == strings_view(self.v().tools@),
    {
        match self {
            AgentConfig::V2025_08_22(a) => {
                let mut out: Vec<String> = Vec::new();
                let mut i: usize = 0;
                while i < a.tools.len()
                    invariant
                        i <= a.tools.len(),
                        strings_view(out@) == strings_view(a.tools@.take(i as int)),
                    decreases a.tools.len() - i,
                {
                    let ghost before = out@;
                    out.push(a.tools[i].clone());
                    proof {
                        assert(strings_view(out@) =~= strings_view(before).push(a.tools@[i as int]@));
                        assert(strings_view(a.tools@.take(i + 1)) =~= strings_view(a.tools@.take(i as int)).push(
                            a.tools@[i as int]@,
                        ));
                    }
                    i = i + 1;
                }
                proof {
                    assert(a.tools@.take(a.tools.len() as int) =~= a.tools@);
                }
                out
            },
        }
    }

    pub fn tool_aliases(&self) -> (res: &Vec<(String, String)>)
        ensures
            *res == self.v().tool_aliases,
    {
        match self {
            AgentConfig::V2025_08_22(a) => &a.tool_aliases,
        }
    }

    pub fn tool_settings(&self) -> (res: Option<&ToolSettings>)
        ensures
            match self.v().tool_settings {
                Some(t) => res == Some(&t),
                None => res is None,
            },
    {
        match self {
            AgentConfig::V2025_08_22(a) => match &a.tool_settings {
                Some(t) => Some(t),
                None => None,
            },
        }
    }

    pub fn allowed_tools(&self) -> (res: &Vec<String>)
        ensures
            *res == self.v().allowed_tools,
    {
        match self {
            AgentConfig::V2025_08_22(a) => &a.allowed_tools,
        }
    }

    pub fn hooks(&self) -> (res: &Vec<(HookTrigger, Vec<HookConfig>)>)
        ensures
            *res == self.v().hooks,
    {
        match self {
            AgentConfig::V2025_08_22(a) => &a.hooks,
        }
    }

    pub fn resources(&self) -> (res: &[ResourcePath])
        ensures
            res@ == self.v().resources@,
    {
        match self {
            AgentConfig::V2025_08_22(a) => a.resources.as_slice(),
        }
    }

    pub fn mcp_servers(&self) -> (res: &Vec<(String, McpServerConfig)>)
        ensures
            *res == self.v().mcp_servers,
    {
        match self {
            AgentConfig::V2025_08_22(a) => &a.mcp_servers,
        }
    }

    pub fn use_legacy_mcp_json(&self) -> (res: bool)
        ensures
            res == self.v().use_legacy_mcp_json,
    {
        match self {
            AgentConfig::V2025_08_22(a) => a.use_legacy_mcp_json,
        }
    }
}

/// An agent configuration with where it came from.
#[derive(Debug, Clone)]
pub struct LoadedAgentConfig {
    pub source: ConfigSource,
    pub config: AgentConfig,
}

impl Default for LoadedAgentConfig {
    fn default() -> (res: Self)
        ensures
            res.source is BuiltIn,
            is_default_agent(res.config.v()),
    {
        LoadedAgentConfig { source: ConfigSource::BuiltIn, config: AgentConfig::default() }
    }
}

impl LoadedAgentConfig {
    pub fn config(&self) -> (res: &AgentConfig)
        ensures
            *res == self.config,
    {
        &self.config
    }

    pub fn name(&self) -> (res: &str)
        ensures
            res@ == self.config.v().name@,
    {
        self.config.name()
    }

    pub fn system_prompt(&self) -> (res: Option<&str>)
        ensures
            match self.config.v().system_prompt {
                Some(p) => res matches Some(r) && r@ == p@,
                None => res is None,
            },
    {
        self.config.system_prompt()
    }

    pub fn tools(&self) -> (res: Vec<String>)
        ensures
            strings_view(res@) == strings_view(self.config.v().tools@),
    {
        self.config.tools()
    }

    pub fn tool_aliases(&self) -> (res: &Vec<(String, String)>)
        ensures
            *res == self.config.v().tool_aliases,
    {
        self.config.tool_aliases()
    }

    pub fn tool_settings(&self) -> (res: Option<&ToolSettings>)
        ensures
            match self.config.v().tool_settings {
                Some(t) => res == Some(&t),
                None => res is None,
            },
    {
        self.config.tool_settings()
    }

    pub fn allowed_tools(&self) -> (res: &Vec<String>)
        ensures
            *res == self.config.v().allowed_tools,
    {
        self.config.allowed_tools()
    }

    pub fn hooks(&self) -> (res: &Vec<(HookTrigger, Vec<HookConfig>)>)
        ensures
            *res == self.config.v().hooks,
    {
        self.config.hooks()
    }

    pub fn resources(&self) -> (res: &[ResourcePath])
        ensures
            res@ == self.config.v().resources@,
    {
        self.config.resources()
    }
}

/// The agents of the files read from a directory: those that parsed, with their paths, in
/// order.
pub open spec fn parsed_agents(files: Seq<(String, Result<AgentConfig, String>)>) -> Seq<(String, AgentConfig)>
    decreases files.len(),
{
    if files.len() == 0 {
        Seq::empty()
    } else {
        let rest = parsed_agents(files.drop_last());
        match files.last().1 {
            Ok(c) => rest.push((files.last().0, c)),
            Err(_) => rest,
        }
    }
}

/// An error for each file that did not parse, in order.
pub open spec fn invalid_agents(files: Seq<(String, Result<AgentConfig, String>)>) -> Seq<AgentConfigError>
    decreases files.len(),
{
    if files.len() == 0 {
        Seq::empty()
    } else {
        let rest = invalid_agents(files.drop_last());
        match files.last().1 {
            Ok(_) => rest,
            Err(m) => rest.push(AgentConfigError::InvalidAgentConfig { path: files.last().0, message: m }),
        }
    }
}

/// Sorts the files of an agents directory, each with its path and either its parsed
/// configuration or the parse error's message, into the agents and the errors for invalid
/// configurations.
pub fn agents_from_files(files: Vec<(String, Result<AgentConfig, String>)>) -> (res: (
    Vec<(String, AgentConfig)>,
    Vec<AgentConfigError>,
))
    ensures
        res.0@ == parsed_agents(files@),
        res.1@ == invalid_agents(files@),
{
    let ghost all = files@;
    let mut rest = files;
    let mut agents: Vec<(String, AgentConfig)> = Vec::new();
    let mut invalid: Vec<AgentConfigError> = Vec::new();
    let mut i: usize = 0;
    let total = rest.len();
    proof {
        assert(rest@ =~= all.skip(0));
        assert(all.take(0) =~= Seq::<(String, Result<AgentConfig, String>)>::empty());
        assert(all.len() == total);
    }
    while rest.len() > 0
        invariant
            i <= all.len(),
            rest@ == all.skip(i as int),
            rest@.len() == all.len() - i,
            all.len() <= usize::MAX,
            agents@ == parsed_agents(all.take(i as int)),
            invalid@ == invalid_agents(all.take(i as int)),
        decreases rest.len(),
    {
        proof {
            assert(all.take(i + 1).drop_last() =~= all.take(i as int));
            assert(all.take(i + 1).last() == all[i as int]);
            assert(rest@[0] == all[i as int]);
        }
        let (path, parsed) = rest.remove(0);
        match parsed {
            Ok(c) => agents.push((path, c)),
            Err(m) => invalid.push(AgentConfigError::InvalidAgentConfig { path, message: m }),
        }
        proof {
            assert(rest@ =~= all.skip(i + 1));
        }
        i = i + 1;
    }
    proof {
        assert(all.take(i as int) =~= all);
    }
    (agents, invalid)
}

/// The agents of a directory, labelled by where they came from.
pub open spec fn labelled(agents: Seq<(String, AgentConfig)>, workspace: bool) -> Seq<LoadedAgentConfig> {
    agents.map_values(
        |a: (String, AgentConfig)|
            LoadedAgentConfig {
                source: if workspace {
                    ConfigSource::Workspace { path: a.0 }
                } else {
                    ConfigSource::Global { path: a.0 }
                },
                config: a.1,
            },
    )
}

/// The agents of a directory and its invalid configurations; none where the directory could
/// not be read.
pub open spec fn dir_agents(
    d: Option<(Vec<(String, AgentConfig)>, Vec<AgentConfigError>)>,
) -> (Seq<(String, AgentConfig)>, Seq<AgentConfigError>) {
    match d {
        Some((a, e)) => (a@, e@),
        None => (Seq::empty(), Seq::empty()),
    }
}

/// Appends the agents of a directory, labelled, to `out`.
fn append_labelled(out: &mut Vec<LoadedAgentConfig>, agents: Vec<(String, AgentConfig)>, workspace: bool)
    ensures
        final(out)@ == old(out)@ + labelled(agents@, workspace),
{
    let ghost all = agents@;
    let ghost start = out@;
    let mut rest = agents;
    let mut i: usize = 0;
    let total = rest.len();
    proof {
        assert(rest@ =~= all.skip(0));
        assert(out@ =~= start + labelled(all.take(0), workspace));
        assert(all.len() == total);
    }
    while rest.len() > 0
        invariant
            i <= all.len(),
            rest@ == all.skip(i as int),
            rest@.len() == all.len() - i,
            all.len() <= usize::MAX,
            out@ == start + labelled(all.take(i as int), workspace),
        decreases rest.len(),
    {
        proof {
            assert(rest@[0] == all[i as int]);
        }
        let (path, config) = rest.remove(0);
        let source = if workspace {
            ConfigSource::Workspace { path }
        } else {
            ConfigSource::Global { path }
        };
        out.push(LoadedAgentConfig { source, config });
        proof {
            assert(rest@ =~= all.skip(i + 1));
            assert(labelled(all.take(i + 1), workspace) =~= labelled(all.take(i as int), workspace).push(
                labelled(all, workspace)[i as int],
            ));
            assert(out@ =~= start + labelled(all.take(i + 1), workspace));
        }
        i = i + 1;
    }
    proof {
        assert(all.take(i as int) =~= all);
    }
}

/// All the agents to choose from: the workspace ones, then the global ones, then the
/// built-in default; with the invalid configurations of both directories. A directory that
/// could not be read (`None`) adds nothing.
pub fn collect_loaded_agents(
    workspace: Option<(Vec<(String, AgentConfig)>, Vec<AgentConfigError>)>,
    global: Option<(Vec<(String, AgentConfig)>, Vec<AgentConfigError>)>,
) -> (res: (Vec<LoadedAgentConfig>, Vec<AgentConfigError>))
    ensures
        res.0@.len() == dir_agents(workspace).0.len() + dir_agents(global).0.len() + 1,
        res.0@.take(res.0@.len() - 1) == labelled(dir_agents(workspace).0, true) + labelled(dir_agents(global).0, false),
        res.0@.last().source is BuiltIn,
        is_default_agent(res.0@.last().config.v()),
        res.1@ == dir_agents(workspace).1 + dir_agents(global).1,
        forall|i: int, j: int|
            0 <= i < j < res.0@.len() && (res.0@[j].source is Workspace) ==> (res.0@[i].source is Workspace),
        forall|i: int| 0 <= i < res.0@.len() - 1 ==> !(res.0@[i].source is BuiltIn),
{
    let ghost w = dir_agents(workspace);
    let ghost g = dir_agents(global);
    let mut agents: Vec<LoadedAgentConfig> = Vec::new();
    let mut invalid: Vec<AgentConfigError> = Vec::new();
    match workspace {
        Some((valid, mut bad)) => {
            invalid.append(&mut bad);
            append_labelled(&mut agents, valid, true);
        },
        None => {},
    }
    match global {
        Some((valid, mut bad)) => {
            invalid.append(&mut bad);
            append_labelled(&mut agents, valid, false);
        },
        None => {},
    }
    let ghost before = agents@;
    agents.push(LoadedAgentConfig::default());
    proof {
        assert(before =~= labelled(w.0, true) + labelled(g.0, false));
        assert(agents@.take(agents@.len() - 1) =~= before);
        assert(invalid@ =~= w.1 + g.1);
        let n = w.0.len();
        assert forall|i: int| 0 <= i < agents@.len() implies (i < n ==> (agents@[i].source is Workspace)) && (n <= i
            < agents@.len() - 1 ==> (agents@[i].source is Global)) by {
            if i < agents@.len() - 1 {
                assert(agents@[i] == before[i]);
                if i < n {
                    assert(before[i] == labelled(w.0, true)[i]);
                } else {
                    assert(before[i] == labelled(g.0, false)[i - n]);
                }
            }
        }
    }
    (agents, invalid)
}

/// The index of the first agent with the given name, if any.
pub open spec fn first_named(agents: Seq<LoadedAgentConfig>, name: Seq<char>) -> Option<int>
    decreases agents.len(),
{
    if agents.len() == 0 {
        None
    } else if agents[0].config.v().name@ == name {
        Some(0)
    } else {
        match first_named(agents.skip(1), name) {
            Some(i) => Some(i + 1),
            None => None,
        }
    }
}

/// The agent picked by name is the first with that name (so a workspace agent, loaded
/// before the global ones, wins over a global agent of the same name); none is picked only
/// when no agent has the name.
pub proof fn lemma_first_named_is_first(agents: Seq<LoadedAgentConfig>, name: Seq<char>)
    ensures
        first_named(agents, name) matches Some(i) ==> {
            &&& 0 <= i < agents.len()
            &&& agents[i].config.v().name@ == name
            &&& forall|j: int| 0 <= j < i ==> agents[j].config.v().name@ != name
        },
        first_named(agents, name) is None ==> forall|j: int|
            0 <= j < agents.len() ==> agents[j].config.v().name@ != name,
    decreases agents.len(),
{
    if agents.len() > 0 {
        lemma_first_named_is_first(agents.skip(1), name);
        assert forall|j: int| 1 <= j < agents.len() implies agents[j] == agents.skip(1)[j - 1] by {}
    }
}

/// Among agents listed workspace ones first (as [collect_loaded_agents] lists them), a
/// workspace agent wins over a global agent of the same name: the agent picked by that name is
/// never a global one.
pub proof fn lemma_workspace_agent_wins(agents: Seq<LoadedAgentConfig>, name: Seq<char>, i: int)
    requires
        0 <= i < agents.len(),
        agents[i].source is Workspace,
        agents[i].config.v().name@ == name,
        forall|a: int, b: int|
            0 <= a < b < agents.len() && (agents[b].source is Workspace) ==> (agents[a].source is Workspace),
    ensures
        first_named(agents, name) matches Some(k) && k <= i && (agents[k].source is Workspace),
{
    lemma_first_named_is_first(agents, name);
    if first_named(agents, name) is None {
        assert(agents[i].config.v().name@ != name);
    }
    let k = first_named(agents, name).unwrap();
    if k > i {
        assert(agents[i].config.v().name@ != name);
    }
    if k < i {
        assert(agents[k].source is Workspace);
    }
}

/// The first agent with the given name, or an error saying it was not found.
pub fn find_agent_config<'a>(agents: &'a Vec<LoadedAgentConfig>, name: &str) -> (res: Result<
    &'a LoadedAgentConfig,
    AgentConfigError,
>)
    ensures
        match first_named(agents@, name@) {
            Some(i) => res == Ok::<&LoadedAgentConfig, AgentConfigError>(&agents@[i]),
            None => res matches Err(AgentConfigError::AgentNotFound { name: n }) && n@ == name@,
        },
        res matches Ok(a) ==> exists|i: int|
            0 <= i < agents.len() && *a == agents@[i] && agents@[i].config.v().name@ == name@ && forall|j: int|
                0 <= j < i ==> agents@[j].config.v().name@ != name@,
        res is Err ==> forall|j: int| 0 <= j < agents.len() ==> agents@[j].config.v().name@ != name@,
{
    proof {
        lemma_first_named_is_first(agents@, name@);
    }
    let mut i: usize = 0;
    proof {
        assert(agents@.skip(0) =~= agents@);
    }
    while i < agents.len()
        invariant
            i <= agents.len(),
            first_named(agents@, name@) == match first_named(agents@.skip(i as int), name@) {
                Some(x) => Some(x + i),
                None => None,
            },
        decreases agents.len() - i,
    {
        proof {
            assert(agents@.skip(i as int)[0] == agents@[i as int]);
            assert(agents@.skip(i as int).skip(1) =~= agents@.skip(i + 1));
        }
        if str_eq(agents[i].name(), name) {
            proof {
                assert(first_named(agents@, name@) == Some(i as int));
                lemma_first_named_is_first(agents@, name@);
            }
            return Ok(&agents[i]);
        }
        i = i + 1;
    }
    Err(AgentConfigError::AgentNotFound { name: String::from_str(name) })
}

} // verus!
