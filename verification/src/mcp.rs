//! Prompts offered by MCP servers, the events of a server's lifecycle, and the registry of
//! servers that an MCP manager launches.

use vstd::prelude::*;

use crate::agent_loop::ToolSpec;
use crate::text::chars_equal;
use crate::text::chars_of;

verus! {

/// An argument that customizes a prompt.
#[derive(Debug, Clone, PartialEq, Eq)]
pub struct PromptArgument {
    /// The argument's name.
    pub name: String,
    /// What the argument is for.
    pub description: Option<String>,
    /// Whether the argument is required.
    pub required: Option<bool>,
}

/// A prompt offered by an MCP server.
#[derive(Debug, Clone, PartialEq, Eq)]
pub struct Prompt {
    /// The prompt's name.
    pub name: String,
    /// What the prompt does.
    pub description: Option<String>,
    /// The arguments that customize the prompt.
    pub arguments: Option<Vec<PromptArgument>>,
}

/// An event of an MCP server's lifecycle.
#[derive(Debug, Clone, PartialEq, Eq)]
pub enum McpServerActorEvent {
    /// The server launched, with the time taken (in milliseconds) to launch it, to list
    /// its tools and to list its prompts (where it supports them).
    Initialized { serve_duration_ms: u64, list_tools_duration_ms: Option<u64>, list_prompts_duration_ms: Option<u64> },
    /// The server failed to initialize.
    InitializeError(String),
}

/// An error of an MCP server actor.
#[derive(Debug, Clone, PartialEq, Eq)]
pub enum McpServerActorError {
    /// The service failed, with its message.
    Service { message: String },
    /// The channel to the actor closed.
    Channel,
    Custom(String),
}

impl McpServerActorError {
    /// The error's message.
    pub fn message(&self) -> (res: String)
        ensures
            res@ == match *self {
                McpServerActorError::Service { message } => "An error occurred with the service: "@ + message@,
                McpServerActorError::Channel => "The channel has closed"@,
                McpServerActorError::Custom(m) => m@,
            },
    {
        match self {
            McpServerActorError::Service { message } => {
                let mut s = String::from_str("An error occurred with the service: ");
                s.append(message.as_str());
                proof {
                    reveal_strlit("An error occurred with the service: ");
                }
                s
            },
            McpServerActorError::Channel => String::from_str("The channel has closed"),
            McpServerActorError::Custom(m) => m.clone(),
        }
    }
}

/// An error of the MCP manager.
#[derive(Debug, Clone, PartialEq, Eq)]
pub enum McpManagerError {
    ServerNotInitialized { name: String },
    ServerCurrentlyInitializing { name: String },
    ServerAlreadyLaunched { name: String },
    McpActor(McpServerActorError),
    /// The channel to the manager closed.
    Channel,
    Custom(String),
}

/// The message of an MCP manager error.
pub open spec fn manager_error_text(e: McpManagerError) -> Seq<char> {
    match e {
        McpManagerError::ServerNotInitialized { name } => "Server with the name "@ + name@ + " is not initialized"@,
        McpManagerError::ServerCurrentlyInitializing { name } => "Server with the name "@ + name@
            + " is currently initializing"@,
        McpManagerError::ServerAlreadyLaunched { name } => "Server with the name "@ + name@ + " has already launched"@,
        McpManagerError::McpActor(a) => match a {
            McpServerActorError::Service { message } => "An error occurred with the service: "@ + message@,
            McpServerActorError::Channel => "The channel has closed"@,
            McpServerActorError::Custom(m) => m@,
        },
        McpManagerError::Channel => "The channel has closed"@,
        McpManagerError::Custom(m) => m@,
    }
}

impl McpManagerError {
    /// The error's message.
    pub fn message(&self) -> (res: String)
        ensures
            res@ == manager_error_text(*self),
    {
        proof {
            reveal_strlit("Server with the name ");
            reveal_strlit(" is not initialized");
            reveal_strlit(" is currently initializing");
            reveal_strlit(" has already launched");
        }
        match self {
            McpManagerError::ServerNotInitialized { name } => {
                let mut s = String::from_str("Server with the name ");
                s.append(name.as_str());
                s.append(" is not initialized");
                s
            },
            McpManagerError::ServerCurrentlyInitializing { name } => {
                let mut s = String::from_str("Server with the name ");
                s.append(name.as_str());
                s.append(" is currently initializing");
                s
            },
            McpManagerError::ServerAlreadyLaunched { name } => {
                let mut s = String::from_str("Server with the name ");
                s.append(name.as_str());
                s.append(" has already launched");
                s
            },
            McpManagerError::McpActor(a) => a.message(),
            McpManagerError::Channel => String::from_str("The channel has closed"),
            McpManagerError::Custom(m) => m.clone(),
        }
    }
}

/// The servers an MCP manager knows of, by name.
pub struct RegistryView {
    /// Servers launched and not yet initialized.
    pub initializing: Set<Seq<char>>,
    /// Servers that initialized.
    pub servers: Set<Seq<char>>,
}

/// The servers an MCP manager has launched: those still initializing and those that
/// initialized. No server is in both, and each is listed once.
#[derive(Debug)]
pub struct McpRegistry {
    initializing: Vec<String>,
    servers: Vec<String>,
}

/// The names as a set.
pub open spec fn name_set(v: Seq<String>) -> Set<Seq<char>> {
    Set::new(|n: Seq<char>| exists|i: int| 0 <= i < v.len() && v[i]@ == n)
}

/// Each name is listed once.
pub open spec fn names_distinct(v: Seq<String>) -> bool {
    forall|i: int, j: int| 0 <= i < j < v.len() ==> v[i]@ != v[j]@
}

impl View for McpRegistry {
    type V = RegistryView;

    closed spec fn view(&self) -> RegistryView {
        RegistryView { initializing: name_set(self.initializing@), servers: name_set(self.servers@) }
    }
}

/// What a launch request does: refused for a server that is initializing or launched, else the
/// server starts initializing.
pub open spec fn launch_outcome(v: RegistryView, name: Seq<char>) -> Option<McpManagerErrorKind> {
    if v.initializing.contains(name) {
        Some(McpManagerErrorKind::ServerCurrentlyInitializing)
    } else if v.servers.contains(name) {
        Some(McpManagerErrorKind::ServerAlreadyLaunched)
    } else {
        None
    }
}

/// The kind of an MCP manager error, without its data.
pub enum McpManagerErrorKind {
    ServerNotInitialized,
    ServerCurrentlyInitializing,
    ServerAlreadyLaunched,
}

impl McpRegistry {
    /// The registry is well formed: each name listed once, and no server both initializing and
    /// initialized.
    pub closed spec fn wf(&self) -> bool {
        &&& names_distinct(self.initializing@)
        &&& names_distinct(self.servers@)
        &&& forall|i: int, j: int|
            0 <= i < self.initializing@.len() && 0 <= j < self.servers@.len() ==> self.initializing@[i]@
                != self.servers@[j]@
    }

    /// A well-formed registry has no server both initializing and initialized.
    pub proof fn lemma_disjoint(&self)
        requires
            self.wf(),
        ensures
            self@.initializing.disjoint(self@.servers),
    {
        assert forall|n: Seq<char>| self@.initializing.contains(n) implies !self@.servers.contains(n) by {
            if self@.servers.contains(n) {
                let i = choose|i: int| 0 <= i < self.initializing@.len() && self.initializing@[i]@ == n;
                let j = choose|j: int| 0 <= j < self.servers@.len() && self.servers@[j]@ == n;
                assert(self.initializing@[i]@ != self.servers@[j]@);
            }
        }
    }

    /// A registry with no servers.
    pub fn new() -> (res: Self)
        ensures
            res.wf(),
            res@.initializing.is_empty(),
            res@.servers.is_empty(),
    {
        let res = McpRegistry { initializing: Vec::new(), servers: Vec::new() };
        proof {
            assert(res@.initializing =~= Set::empty());
            assert(res@.servers =~= Set::empty());
        }
        res
    }

    /// Where `name` is listed in `v`.
    fn position(v: &Vec<String>, name: &str) -> (res: Option<usize>)
        ensures
            match res {
                Some(i) => i < v@.len() && v@[i as int]@ == name@,
                None => !name_set(v@).contains(name@),
            },
    {
        let nc = chars_of(name);
        let mut i: usize = 0;
        while i < v.len()
            invariant
                i <= v.len(),
                nc@ == name@,
                forall|j: int| 0 <= j < i ==> v@[j]@ != name@,
            decreases v.len() - i,
        {
            if chars_equal(&nc, v[i].as_str()) {
                return Some(i);
            }
            i = i + 1;
        }
        None
    }

    /// Whether the server is initializing.
    pub fn is_initializing(&self, name: &str) -> (res: bool)
        ensures
            res == self@.initializing.contains(name@),
    {
        match Self::position(&self.initializing, name) {
            Some(_) => true,
            None => false,
        }
    }

    /// Whether the server initialized.
    pub fn is_launched(&self, name: &str) -> (res: bool)
        ensures
            res == self@.servers.contains(name@),
    {
        match Self::position(&self.servers, name) {
            Some(_) => true,
            None => false,
        }
    }

    /// Decides a request to launch a server: refused while it is initializing or once it has
    /// launched; otherwise it is recorded as initializing, and the caller starts it.
    pub fn launch_server(&mut self, name: &str) -> (res: Result<(), McpManagerError>)
        requires
            old(self).wf(),
        ensures
            final(self).wf(),
            match launch_outcome(old(self)@, name@) {
                Some(McpManagerErrorKind::ServerCurrentlyInitializing) => res matches Err(
                    McpManagerError::ServerCurrentlyInitializing { name: n },
                ) && n@ == name@ && final(self)@ == old(self)@,
                Some(_) => res matches Err(McpManagerError::ServerAlreadyLaunched { name: n }) && n@ == name@
                    && final(self)@ == old(self)@,
                None => res is Ok && final(self)@ == (RegistryView {
                    initializing: old(self)@.initializing.insert(name@),
                    servers: old(self)@.servers,
                }),
            },
    {
        if self.is_initializing(name) {
            return Err(McpManagerError::ServerCurrentlyInitializing { name: String::from_str(name) });
        }
        if self.is_launched(name) {
            return Err(McpManagerError::ServerAlreadyLaunched { name: String::from_str(name) });
        }
        let ghost before = self.initializing@;
        self.initializing.push(String::from_str(name));
        proof {
            assert(self@.initializing =~= name_set(before).insert(name@)) by {
                assert forall|n: Seq<char>| self@.initializing.contains(n) <==> name_set(before).insert(name@).contains(n) by {
                    if self@.initializing.contains(n) {
                        let i = choose|i: int| 0 <= i < self.initializing@.len() && self.initializing@[i]@ == n;
                        if i < before.len() {
                            assert(before[i]@ == n);
                        }
                    }
                    if name_set(before).contains(n) {
                        let i = choose|i: int| 0 <= i < before.len() && before[i]@ == n;
                        assert(self.initializing@[i]@ == n);
                    }
                    if n == name@ {
                        assert(self.initializing@[before.len() as int]@ == n);
                    }
                }
            }
            assert forall|i: int, j: int| 0 <= i < j < self.initializing@.len() implies self.initializing@[i]@
                != self.initializing@[j]@ by {
                if j == before.len() {
                    assert(before[i]@ != name@);
                }
            }
            assert forall|i: int, j: int|
                0 <= i < self.initializing@.len() && 0 <= j < self.servers@.len() implies self.initializing@[i]@
                    != self.servers@[j]@ by {
                if i == before.len() {
                    assert(self.servers@[j]@ != name@);
                }
            }
        }
        Ok(())
    }

    /// Decides a request to a server (for its tools, its prompts, or a tool call): allowed once
    /// it has initialized.
    pub fn check_launched(&self, name: &str) -> (res: Result<(), McpManagerError>)
        ensures
            self@.servers.contains(name@) ==> res is Ok,
            !self@.servers.contains(name@) ==> (res matches Err(McpManagerError::ServerNotInitialized { name: n })
                && n@ == name@),
    {
        if self.is_launched(name) {
            Ok(())
        } else {
            Err(McpManagerError::ServerNotInitialized { name: String::from_str(name) })
        }
    }

    /// Handles the first event of an initializing server: `None` if the server is not
    /// initializing. Otherwise it stops initializing and the launch's result is returned: an
    /// error if its channel closed (no event) or it failed to initialize, and success, with the
    /// server recorded as initialized, if it initialized.
    pub fn on_initializing_event(&mut self, name: &str, evt: Option<McpServerActorEvent>) -> (res: Option<
        Result<(), McpManagerError>,
    >)
        requires
            old(self).wf(),
        ensures
            final(self).wf(),
            !old(self)@.initializing.contains(name@) ==> res is None && final(self)@ == old(self)@,
            old(self)@.initializing.contains(name@) ==> {
                &&& final(self)@.initializing == old(self)@.initializing.remove(name@)
                &&& match evt {
                    None => res matches Some(Err(McpManagerError::Custom(m))) && m@ == "Server channel closed"@
                        && final(self)@.servers == old(self)@.servers,
                    Some(McpServerActorEvent::Initialized { .. }) => res matches Some(Ok(()))
                        && final(self)@.servers == old(self)@.servers.insert(name@),
                    Some(McpServerActorEvent::InitializeError(msg)) => res matches Some(
                        Err(McpManagerError::Custom(m)),
                    ) && m@ == msg@ && final(self)@.servers == old(self)@.servers,
                }
            },
    {
        let pos = match Self::position(&self.initializing, name) {
            Some(p) => p,
            None => {
                return None;
            },
        };
        let ghost before = self.initializing@;
        let removed = self.initializing.remove(pos);
        proof {
            assert forall|n: Seq<char>| self@.initializing.contains(n) <==> name_set(before).remove(name@).contains(n) by {
                if self@.initializing.contains(n) {
                    let i = choose|i: int| 0 <= i < self.initializing@.len() && self.initializing@[i]@ == n;
                    if i < pos {
                        assert(before[i]@ == n);
                        assert(before[i]@ != before[pos as int]@);
                    } else {
                        assert(before[i + 1]@ == n);
                        assert(before[pos as int]@ != before[i + 1]@);
                    }
                }
                if name_set(before).remove(name@).contains(n) {
                    let i = choose|i: int| 0 <= i < before.len() && before[i]@ == n;
                    assert(i != pos);
                    if i < pos {
                        assert(self.initializing@[i]@ == n);
                    } else {
                        assert(self.initializing@[i - 1]@ == n);
                    }
                }
            }
            assert(self@.initializing =~= name_set(before).remove(name@));
            assert forall|i: int, j: int| 0 <= i < j < self.initializing@.len() implies self.initializing@[i]@
                != self.initializing@[j]@ by {
                let oi = if i < pos { i } else { i + 1 };
                let oj = if j < pos { j } else { j + 1 };
                assert(self.initializing@[i] == before[oi]);
                assert(self.initializing@[j] == before[oj]);
            }
            assert forall|i: int, j: int|
                0 <= i < self.initializing@.len() && 0 <= j < self.servers@.len() implies self.initializing@[i]@
                    != self.servers@[j]@ by {
                let oi = if i < pos { i } else { i + 1 };
                assert(self.initializing@[i] == before[oi]);
            }
        }
        match evt {
            None => Some(Err(McpManagerError::Custom(String::from_str("Server channel closed")))),
            Some(McpServerActorEvent::Initialized { .. }) => {
                let ghost sb = self.servers@;
                self.servers.push(removed);
                proof {
                    assert forall|n: Seq<char>| self@.servers.contains(n) <==> name_set(sb).insert(name@).contains(n) by {
                        if self@.servers.contains(n) {
                            let i = choose|i: int| 0 <= i < self.servers@.len() && self.servers@[i]@ == n;
                            if i < sb.len() {
                                assert(sb[i]@ == n);
                            }
                        }
                        if name_set(sb).contains(n) {
                            let i = choose|i: int| 0 <= i < sb.len() && sb[i]@ == n;
                            assert(self.servers@[i]@ == n);
                        }
                        if n == name@ {
                            assert(self.servers@[sb.len() as int]@ == n);
                        }
                    }
                    assert(self@.servers =~= name_set(sb).insert(name@));
                    assert forall|i: int, j: int| 0 <= i < j < self.servers@.len() implies self.servers@[i]@
                        != self.servers@[j]@ by {
                        if j == sb.len() {
                            assert(before[pos as int]@ != sb[i]@);
                        }
                    }
                    assert forall|i: int, j: int|
                        0 <= i < self.initializing@.len() && 0 <= j < self.servers@.len() implies self.initializing@[i]@
                            != self.servers@[j]@ by {
                        let oi = if i < pos { i } else { i + 1 };
                        assert(self.initializing@[i] == before[oi]);
                        if j == sb.len() {
                            assert(oi != pos);
                        }
                    }
                }
                Some(Ok(()))
            },
            Some(McpServerActorEvent::InitializeError(msg)) => Some(Err(McpManagerError::Custom(msg))),
        }
    }
}

/// A server that is initializing or has launched cannot be launched again: launching is
/// refused until the server's first event, after which a launched server stays refused.
pub proof fn lemma_launch_once(v: RegistryView, name: Seq<char>)
    ensures
        launch_outcome(v, name) is None ==> launch_outcome(
            RegistryView { initializing: v.initializing.insert(name), servers: v.servers },
            name,
        ) == Some(McpManagerErrorKind::ServerCurrentlyInitializing),
        launch_outcome(RegistryView { initializing: v.initializing.remove(name), servers: v.servers.insert(name) }, name)
            == Some(McpManagerErrorKind::ServerAlreadyLaunched),
{
}

/// `y` occurs among the first `n` items of `s`.
pub open spec fn occurs_in_prefix(s: Seq<u32>, n: int, y: u32) -> bool {
    exists|k: int| 0 <= k < n && s[k] == y
}

/// The bookkeeping of an MCP server actor: the server's tools and prompts, and the tool calls
/// in flight, by the ids the actor gave them.
#[derive(Debug)]
pub struct McpActorState {
    pub server_name: String,
    pub tools: Vec<ToolSpec>,
    pub prompts: Vec<Prompt>,
    /// The last id given to a tool call.
    pub curr_tool_execution_id: u32,
    /// The ids of the tool calls in flight.
    pub executing_tools: Vec<u32>,
}

impl McpActorState {
    /// The last id given to a tool call.
    pub open spec fn last_id(&self) -> u32 {
        self.curr_tool_execution_id
    }

    /// The ids of the tool calls in flight.
    pub open spec fn executing(&self) -> Set<u32> {
        self.executing_tools@.to_set()
    }

    /// The state of a server that launched with the given tools and prompts (none where it
    /// listed none).
    pub fn new(server_name: String, tools: Option<Vec<ToolSpec>>, prompts: Option<Vec<Prompt>>) -> (res: Self)
        ensures
            res.server_name == server_name,
            res.tools@ == match tools {
                Some(t) => t@,
                None => Seq::empty(),
            },
            res.prompts@ == match prompts {
                Some(p) => p@,
                None => Seq::empty(),
            },
            res.last_id() == 0,
            res.executing().is_empty(),
    {
        let res = McpActorState {
            server_name,
            tools: match tools {
                Some(t) => t,
                None => Vec::new(),
            },
            prompts: match prompts {
                Some(p) => p,
                None => Vec::new(),
            },
            curr_tool_execution_id: 0,
            executing_tools: Vec::new(),
        };
        proof {
            assert(res.executing() =~= Set::empty());
        }
        res
    }

    /// Starts a tool call: it gets the next id (wrapping around), and is in flight.
    pub fn start_tool_execution(&mut self) -> (res: u32)
        ensures
            res == (if old(self).last_id() == u32::MAX {
                0
            } else {
                (old(self).last_id() + 1) as u32
            }),
            final(self).last_id() == res,
            final(self).executing() == old(self).executing().insert(res),
            final(self).tools == old(self).tools,
            final(self).prompts == old(self).prompts,
            final(self).server_name == old(self).server_name,
    {
        let id = self.curr_tool_execution_id.wrapping_add(1);
        self.curr_tool_execution_id = id;
        let ghost before = self.executing_tools@;
        if !self.is_executing(id) {
            self.executing_tools.push(id);
            proof {
                assert(self.executing_tools@.to_set() =~= before.to_set().insert(id)) by {
                    assert forall|x: u32| self.executing_tools@.contains(x) <==> before.to_set().insert(id).contains(x) by {
                        if self.executing_tools@.contains(x) {
                            let i = choose|i: int| 0 <= i < self.executing_tools@.len() && self.executing_tools@[i] == x;
                            if i < before.len() {
                                assert(before.contains(x));
                            }
                        }
                        if before.contains(x) {
                            let i = choose|i: int| 0 <= i < before.len() && before[i] == x;
                            assert(self.executing_tools@[i] == x);
                        }
                        if x == id {
                            assert(self.executing_tools@[before.len() as int] == x);
                        }
                    }
                }
            }
        } else {
            proof {
                assert(before.to_set() =~= before.to_set().insert(id));
            }
        }
        id
    }

    /// Whether the tool call with the given id is in flight.
    pub fn is_executing(&self, id: u32) -> (res: bool)
        ensures
            res == self.executing().contains(id),
    {
        let mut i: usize = 0;
        while i < self.executing_tools.len()
            invariant
                i <= self.executing_tools.len(),
                forall|j: int| 0 <= j < i ==> self.executing_tools@[j] != id,
            decreases self.executing_tools.len() - i,
        {
            if self.executing_tools[i] == id {
                proof {
                    assert(self.executing_tools@.contains(id));
                }
                return true;
            }
            i = i + 1;
        }
        false
    }

    /// Ends the tool call with the given id; whether it was in flight (its result then goes to
    /// its caller; otherwise the result is dropped).
    pub fn finish_tool_execution(&mut self, id: u32) -> (res: bool)
        ensures
            res == old(self).executing().contains(id),
            final(self).executing() == old(self).executing().remove(id),
            final(self).last_id() == old(self).last_id(),
            final(self).tools == old(self).tools,
            final(self).prompts == old(self).prompts,
            final(self).server_name == old(self).server_name,
    {
        let ghost before = self.executing_tools@;
        let mut kept: Vec<u32> = Vec::new();
        let mut found = false;
        let mut i: usize = 0;
        while i < self.executing_tools.len()
            invariant
                i <= self.executing_tools.len(),
                before == self.executing_tools@,
                found == occurs_in_prefix(before, i as int, id),
                forall|y: u32|
                    #![trigger kept@.contains(y)]
                    #![trigger occurs_in_prefix(before, i as int, y)]
                    kept@.contains(y) <==> (y != id && occurs_in_prefix(before, i as int, y)),
            decreases self.executing_tools.len() - i,
        {
            let x = self.executing_tools[i];
            let ghost kb = kept@;
            if x == id {
                found = true;
            } else {
                kept.push(x);
                proof {
                    assert forall|y: u32| kept@.contains(y) <==> kb.contains(y) || y == x by {
                        if kept@.contains(y) {
                            let k = choose|k: int| 0 <= k < kept@.len() && kept@[k] == y;
                            if k < kb.len() {
                                assert(kb[k] == y);
                            }
                        }
                        if kb.contains(y) {
                            let k = choose|k: int| 0 <= k < kb.len() && kb[k] == y;
                            assert(kept@[k] == y);
                        }
                        if y == x {
                            assert(kept@[kb.len() as int] == y);
                        }
                    }
                }
            }
            proof {
                assert forall|y: u32| #[trigger] occurs_in_prefix(before, i + 1, y) <==> (occurs_in_prefix(before, i as int, y) || y == x) by {
                    if occurs_in_prefix(before, i + 1, y) {
                        let k = choose|k: int| 0 <= k < i + 1 && before[k] == y;
                        if k < i {
                            assert(occurs_in_prefix(before, i as int, y));
                        }
                    }
                    if occurs_in_prefix(before, i as int, y) {
                        let k = choose|k: int| 0 <= k < i && before[k] == y;
                        assert(before[k] == y);
                    }
                    if y == x {
                        assert(before[i as int] == y);
                    }
                }
                assert forall|y: u32| kept@.contains(y) <==> (y != id && occurs_in_prefix(before, i + 1, y)) by {
                    assert(occurs_in_prefix(before, i + 1, y) <==> (occurs_in_prefix(before, i as int, y) || y == x));
                    assert(kb.contains(y) <==> (y != id && occurs_in_prefix(before, i as int, y)));
                }
            }
            i = i + 1;
        }
        proof {
            assert(kept@.to_set() =~= before.to_set().remove(id)) by {
                assert forall|y: u32| kept@.contains(y) <==> (before.contains(y) && y != id) by {
                    if before.contains(y) {
                        let k = choose|k: int| 0 <= k < before.len() && before[k] == y;
                        assert(occurs_in_prefix(before, before.len() as int, y));
                    }
                    if occurs_in_prefix(before, before.len() as int, y) {
                        let k = choose|k: int| 0 <= k < before.len() && before[k] == y;
                        assert(before.contains(y));
                    }
                }
            }
            if found {
                let k = choose|k: int| 0 <= k < before.len() && before[k] == id;
                assert(before.contains(id));
            }
            if before.contains(id) {
                let k = choose|k: int| 0 <= k < before.len() && before[k] == id;
                assert(occurs_in_prefix(before, before.len() as int, id));
            }
        }
        self.executing_tools = kept;
        found
    }

    /// Takes a listing of the server's tools: a successful one replaces the tools, a failed one
    /// leaves them.
    pub fn on_tools(&mut self, res: Result<Vec<ToolSpec>, String>)
        ensures
            final(self).tools@ == match res {
                Ok(t) => t@,
                Err(_) => old(self).tools@,
            },
            final(self).prompts == old(self).prompts,
            final(self).executing() == old(self).executing(),
            final(self).last_id() == old(self).last_id(),
    {
        if let Ok(t) = res {
            self.tools = t;
        }
    }

    /// Takes a listing of the server's prompts: a successful one replaces the prompts, a failed
    /// one leaves them.
    pub fn on_prompts(&mut self, res: Result<Vec<Prompt>, String>)
        ensures
            final(self).prompts@ == match res {
                Ok(p) => p@,
                Err(_) => old(self).prompts@,
            },
            final(self).tools == old(self).tools,
            final(self).executing() == old(self).executing(),
            final(self).last_id() == old(self).last_id(),
    {
        if let Ok(p) = res {
            self.prompts = p;
        }
    }
}

} // verus!
