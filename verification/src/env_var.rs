//! The environment variables the CLI reads, over a snapshot of the environment.

use vstd::prelude::*;

use crate::text::str_eq;

verus! {

/// Why a variable could not be read as a string.
#[derive(Debug, Clone, Copy, PartialEq, Eq, Structural)]
pub enum VarError {
    /// The variable is not set.
    NotPresent,
    /// The variable's value is not valid Unicode.
    NotUnicode,
}

/// One variable of a snapshot: its name, its value (lossily converted where it is not
/// valid Unicode), and whether the value is valid Unicode.
#[derive(Debug, Clone)]
pub struct EnvVar {
    pub name: String,
    pub value: String,
    pub unicode: bool,
}

/// A snapshot of the process environment.
#[derive(Debug, Clone)]
pub struct Env {
    vars: Vec<EnvVar>,
}

/// The environment a list of variables describes: for each name, its value and whether
/// that is valid Unicode; a later entry overrides an earlier one of the same name.
pub open spec fn env_var_map(vars: Seq<EnvVar>) -> Map<Seq<char>, (Seq<char>, bool)>
    decreases vars.len(),
{
    if vars.len() == 0 {
        Map::empty()
    } else {
        env_var_map(vars.drop_last()).insert(vars.last().name@, (vars.last().value@, vars.last().unicode))
    }
}

impl View for Env {
    type V = Map<Seq<char>, (Seq<char>, bool)>;

    closed spec fn view(&self) -> Map<Seq<char>, (Seq<char>, bool)> {
        env_var_map(self.vars@)
    }
}

proof fn lemma_env_var_lookup(vars: Seq<EnvVar>, i: int, key: Seq<char>)
    requires
        0 <= i <= vars.len(),
        forall|j: int| i <= j < vars.len() ==> vars[j].name@ != key,
    ensures
        env_var_map(vars).contains_key(key) == env_var_map(vars.take(i)).contains_key(key),
        env_var_map(vars).contains_key(key) ==> env_var_map(vars)[key] == env_var_map(vars.take(i))[key],
    decreases vars.len() - i,
{
    if i < vars.len() {
        assert(vars.drop_last().take(i) =~= vars.take(i));
        lemma_env_var_lookup(vars.drop_last(), i, key);
    } else {
        assert(vars.take(i) =~= vars);
    }
}

/// What reading `key` as a string gives.
pub open spec fn env_get(env: Map<Seq<char>, (Seq<char>, bool)>, key: Seq<char>) -> Result<Seq<char>, VarError> {
    if !env.contains_key(key) {
        Err(VarError::NotPresent)
    } else if !env[key].1 {
        Err(VarError::NotUnicode)
    } else {
        Ok(env[key].0)
    }
}

/// Whether a read result is the expected one.
pub open spec fn get_result_is(r: Result<String, VarError>, expected: Result<Seq<char>, VarError>) -> bool {
    match expected {
        Ok(v) => r matches Ok(s) && s@ == v,
        Err(e) => r == Err::<String, VarError>(e),
    }
}

impl Env {
    /// A snapshot holding the given variables; a later one overrides an earlier one of
    /// the same name.
    pub fn from_vars(vars: Vec<EnvVar>) -> (res: Self)
        ensures
            res@ == env_var_map(vars@),
    {
        Env { vars }
    }

    fn find(&self, key: &str) -> (res: Option<usize>)
        ensures
            res is Some <==> self@.contains_key(key@),
            res matches Some(i) ==> i < self.vars@.len() && self@[key@] == (
                self.vars@[i as int].value@,
                self.vars@[i as int].unicode,
            ),
    {
        let mut i: usize = self.vars.len();
        while i > 0
            invariant
                i <= self.vars.len(),
                forall|j: int| i <= j < self.vars@.len() ==> self.vars@[j].name@ != key@,
            decreases i,
        {
            i = i - 1;
            if str_eq(self.vars[i].name.as_str(), key) {
                proof {
                    lemma_env_var_lookup(self.vars@, i + 1, key@);
                    assert(self.vars@.take(i + 1).drop_last() =~= self.vars@.take(i as int));
                }
                return Some(i);
            }
        }
        proof {
            lemma_env_var_lookup(self.vars@, 0, key@);
            assert(self.vars@.take(0) =~= Seq::<EnvVar>::empty());
        }
        None
    }

    /// Reads `key` as a string.
    pub fn get(&self, key: &str) -> (res: Result<String, VarError>)
        ensures
            get_result_is(res, env_get(self@, key@)),
    {
        match self.find(key) {
            Some(i) => if self.vars[i].unicode {
                Ok(self.vars[i].value.clone())
            } else {
                Err(VarError::NotUnicode)
            },
            None => Err(VarError::NotPresent),
        }
    }

    /// The value of `key`, whether it is valid Unicode or not (lossily converted).
    pub fn get_os(&self, key: &str) -> (res: Option<String>)
        ensures
            res is Some <==> self@.contains_key(key@),
            res matches Some(v) ==> v@ == self@[key@].0,
    {
        match self.find(key) {
            Some(i) => Some(self.vars[i].value.clone()),
            None => None,
        }
    }
}

/// The configured log level.
pub fn get_log_level(env: &Env) -> (res: Result<String, VarError>)
    ensures
        get_result_is(res, env_get(env@, "Q_LOG_LEVEL"@)),
{
    env.get("Q_LOG_LEVEL")
}

/// The shell that chat runs commands with: `AMAZON_Q_CHAT_SHELL`, else `bash`.
pub fn get_chat_shell(env: &Env) -> (res: String)
    ensures
        res@ == match env_get(env@, "AMAZON_Q_CHAT_SHELL"@) {
            Ok(v) => v,
            Err(_) => "bash"@,
        },
{
    match env.get("AMAZON_Q_CHAT_SHELL") {
        Ok(v) => v,
        Err(_) => String::from_str("bash"),
    }
}

/// Whether logging to stdout is enabled: `Q_LOG_STDOUT` is set.
pub fn is_log_stdout_enabled(env: &Env) -> (res: bool)
    ensures
        res == env@.contains_key("Q_LOG_STDOUT"@),
{
    env.get_os("Q_LOG_STDOUT").is_some()
}

/// Whether telemetry is disabled: `Q_DISABLE_TELEMETRY` is set.
pub fn is_telemetry_disabled(env: &Env) -> (res: bool)
    ensures
        res == env@.contains_key("Q_DISABLE_TELEMETRY"@),
{
    env.get_os("Q_DISABLE_TELEMETRY").is_some()
}

/// The mock chat response for testing, if set.
pub fn get_mock_chat_response(env: &Env) -> (res: Option<String>)
    ensures
        match env_get(env@, "Q_MOCK_CHAT_RESPONSE"@) {
            Ok(v) => res matches Some(s) && s@ == v,
            Err(_) => res is None,
        },
{
    match env.get("Q_MOCK_CHAT_RESPONSE") {
        Ok(v) => Some(v),
        Err(_) => None,
    }
}

/// Whether truecolor is disabled: `Q_DISABLE_TRUECOLOR` is set and not empty.
pub fn is_truecolor_disabled(env: &Env) -> (res: bool)
    ensures
        res == (env@.contains_key("Q_DISABLE_TRUECOLOR"@) && env@["Q_DISABLE_TRUECOLOR"@].0.len() > 0),
{
    match env.get_os("Q_DISABLE_TRUECOLOR") {
        Some(s) => s.as_str().unicode_len() > 0,
        None => false,
    }
}

/// Whether a remote environment is faked: `Q_FAKE_IS_REMOTE` is set.
pub fn is_remote_fake(env: &Env) -> (res: bool)
    ensures
        res == env@.contains_key("Q_FAKE_IS_REMOTE"@),
{
    env.get_os("Q_FAKE_IS_REMOTE").is_some()
}

/// Whether running in Codespaces: `CODESPACES` or `Q_CODESPACES` is set.
pub fn in_codespaces(env: &Env) -> (res: bool)
    ensures
        res == (env@.contains_key("CODESPACES"@) || env@.contains_key("Q_CODESPACES"@)),
{
    env.get_os("CODESPACES").is_some() || env.get_os("Q_CODESPACES").is_some()
}

/// Whether running in CI: `CI` or `Q_CI` is set.
pub fn in_ci(env: &Env) -> (res: bool)
    ensures
        res == (env@.contains_key("CI"@) || env@.contains_key("Q_CI"@)),
{
    env.get_os("CI").is_some() || env.get_os("Q_CI").is_some()
}

/// The client application using the CLI, if set.
pub fn get_cli_client_application(env: &Env) -> (res: Option<String>)
    ensures
        match env_get(env@, "Q_CLI_CLIENT_APPLICATION"@) {
            Ok(v) => res matches Some(s) && s@ == v,
            Err(_) => res is None,
        },
{
    match env.get("Q_CLI_CLIENT_APPLICATION") {
        Ok(v) => Some(v),
        Err(_) => None,
    }
}

/// The editor: `EDITOR`, else `vi`.
pub fn get_editor(env: &Env) -> (res: String)
    ensures
        res@ == match env_get(env@, "EDITOR"@) {
            Ok(v) => v,
            Err(_) => "vi"@,
        },
{
    match env.get("EDITOR") {
        Ok(v) => v,
        Err(_) => String::from_str("vi"),
    }
}

/// The editor, without a fallback.
pub fn try_get_editor(env: &Env) -> (res: Result<String, VarError>)
    ensures
        get_result_is(res, env_get(env@, "EDITOR"@)),
{
    env.get("EDITOR")
}

/// The terminal type, if set.
pub fn get_term(env: &Env) -> (res: Option<String>)
    ensures
        match env_get(env@, "TERM"@) {
            Ok(v) => res matches Some(s) && s@ == v,
            Err(_) => res is None,
        },
{
    match env.get("TERM") {
        Ok(v) => Some(v),
        Err(_) => None,
    }
}

/// The AWS region.
pub fn get_aws_region(env: &Env) -> (res: Result<String, VarError>)
    ensures
        get_result_is(res, env_get(env@, "AWS_REGION"@)),
{
    env.get("AWS_REGION")
}

/// Whether SigV4 authentication is enabled: `AMAZON_Q_SIGV4` reads as a non-empty string.
pub fn is_sigv4_enabled(env: &Env) -> (res: bool)
    ensures
        res == (env_get(env@, "AMAZON_Q_SIGV4"@) matches Ok(v) && v.len() > 0),
{
    match env.get("AMAZON_Q_SIGV4") {
        Ok(v) => v.as_str().unicode_len() > 0,
        Err(_) => false,
    }
}

/// The telemetry client ID.
pub fn get_telemetry_client_id(env: &Env) -> (res: Result<String, VarError>)
    ensures
        get_result_is(res, env_get(env@, "Q_TELEMETRY_CLIENT_ID"@)),
{
    env.get("Q_TELEMETRY_CLIENT_ID")
}

} // verus!
