//! The decisions made when a chat starts: where the first question comes from, whether the
//! deprecated `--profile` flag is used, which `--trust-tools` names draw a warning, and which
//! model the session talks to.

use vstd::prelude::*;

use crate::chat::{trim, trimmed};
use crate::path_util::opt_view;
use crate::text::{chars_of, join_strings, join_with, str_eq, strings_view};
use crate::tool_names::{builtin_tool_name_str, BuiltInToolName};

verus! {

/// The error a non-interactive chat gives when it has no question to ask.
pub open spec fn missing_input_message() -> Seq<char> {
    "Input must be supplied when running in non-interactive mode"@
}

/// The first question of a chat. In non-interactive mode without a question on the command
/// line, the text piped in on standard input (`stdin_text`, when there is any) serves,
/// trimmed, unless it is blank; with neither, the chat cannot start.
pub open spec fn chat_input_result(
    non_interactive: bool,
    input: Option<Seq<char>>,
    stdin_text: Option<Seq<char>>,
) -> Result<Option<Seq<char>>, Seq<char>> {
    if non_interactive && input is None {
        match stdin_text {
            Some(t) => if trimmed(t).len() > 0 {
                Ok(Some(trimmed(t)))
            } else {
                Err(missing_input_message())
            },
            None => Err(missing_input_message()),
        }
    } else {
        Ok(input)
    }
}

/// Settles the first question of a chat: see [chat_input_result]. `stdin_text` is what was
/// read from standard input when it is not a terminal, `None` when nothing was read.
pub fn chat_input(non_interactive: bool, input: Option<String>, stdin_text: Option<String>) -> (res: Result<
    Option<String>,
    String,
>)
    ensures
        match chat_input_result(non_interactive, opt_view(input), opt_view(stdin_text)) {
            Ok(q) => res matches Ok(r) && opt_view(r) == q,
            Err(e) => res matches Err(m) && m@ == e,
        },
{
    if non_interactive && input.is_none() {
        if let Some(t) = stdin_text {
            let q = trim(t.as_str());
            if q.as_str().unicode_len() > 0 {
                return Ok(Some(q));
            }
        }
        return Err(String::from_str("Input must be supplied when running in non-interactive mode"));
    }
    Ok(input)
}

/// Whether a command-line argument is the deprecated `--profile` flag, alone or with its
/// value after `=`.
pub open spec fn is_profile_flag(arg: Seq<char>) -> bool {
    arg == "--profile"@ || "--profile="@.is_prefix_of(arg)
}

/// Whether `arg` begins with the characters of `prefix`.
fn starts_with(arg: &str, prefix: &str) -> (res: bool)
    ensures
        res == prefix@.is_prefix_of(arg@),
{
    let a = chars_of(arg);
    let p = chars_of(prefix);
    if p.len() > a.len() {
        return false;
    }
    let mut i: usize = 0;
    while i < p.len()
        invariant
            i <= p.len() <= a.len(),
            a@ == arg@,
            p@ == prefix@,
            forall|j: int| 0 <= j < i ==> a@[j] == p@[j],
        decreases p.len() - i,
    {
        if a[i] != p[i] {
            assert(a@.subrange(0, p.len() as int)[i as int] != p@[i as int]);
            return false;
        }
        i = i + 1;
    }
    assert(a@.subrange(0, p.len() as int) =~= p@);
    true
}

/// Whether the command line uses the deprecated `--profile` flag, which draws a warning to use
/// `--agent` instead.
pub fn uses_profile_flag(args: &Vec<String>) -> (res: bool)
    ensures
        res == exists|i: int| 0 <= i < args.len() && is_profile_flag(#[trigger] args@[i]@),
{
    let mut i: usize = 0;
    while i < args.len()
        invariant
            i <= args.len(),
            forall|j: int| 0 <= j < i ==> !is_profile_flag(#[trigger] args@[j]@),
        decreases args.len() - i,
    {
        let a = args[i].as_str();
        if str_eq(a, "--profile") || starts_with(a, "--profile=") {
            assert(is_profile_flag(args@[i as int]@));
            return true;
        }
        i = i + 1;
    }
    false
}

/// Whether `name` is the name of one of the built-in tools.
pub open spec fn is_native_tool(name: Seq<char>) -> bool {
    exists|t: BuiltInToolName| builtin_tool_name_str(t) == name
}

/// Whether a `--trust-tools` name is neither an MCP tool (written `@server/tool`) nor a
/// built-in tool: such a name draws a warning that it lacks the server prefix.
pub open spec fn needs_server_prefix(name: Seq<char>) -> bool {
    !(name.len() > 0 && name[0] == '@') && !is_native_tool(name)
}

/// The `--trust-tools` names that draw the warning, in the order given.
pub open spec fn unprefixed_custom_tools(names: Seq<Seq<char>>) -> Seq<Seq<char>> {
    names.filter(|n: Seq<char>| needs_server_prefix(n))
}

/// Whether a tool name lacks the `@server/` prefix that a custom tool needs.
fn lacks_server_prefix(name: &str) -> (res: bool)
    ensures
        res == needs_server_prefix(name@),
{
    let chars = chars_of(name);
    if chars.len() > 0 && chars[0] == '@' {
        return false;
    }
    match BuiltInToolName::from_name(name) {
        Ok(_) => false,
        Err(_) => true,
    }
}

/// The `--trust-tools` names that need the `@server/` prefix: exactly those that neither
/// start with `@` nor name a built-in tool, in the order given.
pub fn trust_tools_warnings(tools: &Vec<String>) -> (res: Vec<String>)
    ensures
        strings_view(res@) == unprefixed_custom_tools(strings_view(tools@)),
{
    let ghost names = strings_view(tools@);
    let mut res: Vec<String> = Vec::new();
    let mut i: usize = 0;
    while i < tools.len()
        invariant
            i <= tools.len(),
            names == strings_view(tools@),
            strings_view(res@) == unprefixed_custom_tools(names.take(i as int)),
        decreases tools.len() - i,
    {
        let warn = lacks_server_prefix(tools[i].as_str());
        proof {
            let pred = |n: Seq<char>| needs_server_prefix(n);
            assert(names.take(i + 1).drop_last() =~= names.take(i as int));
            assert(names.take(i + 1).last() == tools@[i as int]@);
            reveal(Seq::filter);
            assert(names.take(i + 1).filter(pred) == if pred(tools@[i as int]@) {
                names.take(i as int).filter(pred).push(tools@[i as int]@)
            } else {
                names.take(i as int).filter(pred)
            });
        }
        if warn {
            res.push(tools[i].clone());
            proof {
                assert(strings_view(res@) =~= unprefixed_custom_tools(names.take(i as int)).push(tools@[i as int]@));
            }
        }
        i = i + 1;
    }
    assert(names.take(tools.len() as int) =~= names);
    res
}

/// Whether a model, given as its id and its name when it has one, answers to `name`.
pub open spec fn model_answers_to(m: (String, Option<String>), name: Seq<char>) -> bool {
    m.0@ == name || (m.1 matches Some(n) && n@ == name)
}

/// Whether the model at `i` is the first that answers to `name`.
pub open spec fn first_answering(models: Seq<(String, Option<String>)>, name: Seq<char>, i: int) -> bool {
    &&& 0 <= i < models.len()
    &&& model_answers_to(models[i], name)
    &&& forall|j: int| 0 <= j < i ==> !model_answers_to(#[trigger] models[j], name)
}

/// The id of the first model that answers to `name`, if any does.
pub open spec fn found_model(models: Seq<(String, Option<String>)>, name: Seq<char>) -> Option<Seq<char>> {
    if exists|i: int| first_answering(models, name, i) {
        Some(models[choose|i: int| first_answering(models, name, i)].0@)
    } else {
        None
    }
}

/// How a model is listed to the user: by its name, or by its id when it has none.
pub open spec fn model_display_name(m: (String, Option<String>)) -> Seq<char> {
    match m.1 {
        Some(n) => n@,
        None => m.0@,
    }
}

/// The error for a model that no available model answers to.
pub open spec fn unknown_model_message(requested: Seq<char>, models: Seq<(String, Option<String>)>) -> Seq<char> {
    "Model '"@ + requested + "' does not exist. Available models: "@ + join_with(
        models.map_values(|m: (String, Option<String>)| model_display_name(m)),
        ", "@,
    )
}

/// The model used when neither the command line nor the agent picks one that exists: the
/// saved default when a model answers to it, else the service's default.
pub open spec fn fallback_model(
    models: Seq<(String, Option<String>)>,
    saved_default: Option<Seq<char>>,
    default_id: Seq<char>,
) -> Seq<char> {
    match saved_default {
        Some(s) => match found_model(models, s) {
            Some(id) => id,
            None => default_id,
        },
        None => default_id,
    }
}

/// The model a chat starts with, and whether the agent's own model was unavailable (which
/// draws a warning). A model asked for on the command line comes first and must exist; the
/// agent's model comes next; the fallback comes last.
pub open spec fn model_selection(
    requested: Option<Seq<char>>,
    agent_model: Option<Seq<char>>,
    saved_default: Option<Seq<char>>,
    models: Seq<(String, Option<String>)>,
    default_id: Seq<char>,
) -> Result<(Seq<char>, bool), Seq<char>> {
    match requested {
        Some(r) => match found_model(models, r) {
            Some(id) => Ok((id, false)),
            None => Err(unknown_model_message(r, models)),
        },
        None => match agent_model {
            Some(a) => match found_model(models, a) {
                Some(id) => Ok((id, false)),
                None => Ok((fallback_model(models, saved_default, default_id), true)),
            },
            None => Ok((fallback_model(models, saved_default, default_id), false)),
        },
    }
}

/// The index of the first model that answers to `name`.
fn find_model(models: &Vec<(String, Option<String>)>, name: &str) -> (res: Option<usize>)
    ensures
        match res {
            Some(i) => first_answering(models@, name@, i as int) && found_model(models@, name@) == Some(
                models@[i as int].0@,
            ),
            None => found_model(models@, name@) is None,
        },
{
    let mut i: usize = 0;
    while i < models.len()
        invariant
            i <= models.len(),
            forall|j: int| 0 <= j < i ==> !model_answers_to(#[trigger] models@[j], name@),
        decreases models.len() - i,
    {
        let m = &models[i];
        let by_id = str_eq(m.0.as_str(), name);
        let by_name = match &m.1 {
            Some(n) => str_eq(n.as_str(), name),
            None => false,
        };
        if by_id || by_name {
            proof {
                assert(first_answering(models@, name@, i as int));
                let c = choose|k: int| first_answering(models@, name@, k);
                assert(first_answering(models@, name@, c));
                if c < i {
                    assert(!model_answers_to(models@[c], name@));
                } else if c > i {
                    assert(!model_answers_to(models@[i as int], name@));
                }
                assert(c == i);
            }
            return Some(i);
        }
        i = i + 1;
    }
    proof {
        if exists|k: int| first_answering(models@, name@, k) {
            let c = choose|k: int| first_answering(models@, name@, k);
            assert(!model_answers_to(models@[c], name@));
        }
    }
    None
}

/// The available models as listed in the error for an unknown model.
fn available_models_text(models: &Vec<(String, Option<String>)>) -> (res: String)
    ensures
        res@ == join_with(models@.map_values(|m: (String, Option<String>)| model_display_name(m)), ", "@),
{
    let mut names: Vec<String> = Vec::new();
    let mut i: usize = 0;
    while i < models.len()
        invariant
            i <= models.len(),
            names.len() == i,
            forall|j: int| 0 <= j < i ==> #[trigger] names@[j]@ == model_display_name(models@[j]),
        decreases models.len() - i,
    {
        let m = &models[i];
        let shown = match &m.1 {
            Some(n) => n.clone(),
            None => m.0.clone(),
        };
        names.push(shown);
        i = i + 1;
    }
    let res = join_strings(&names, ", ");
    assert(strings_view(names@) =~= models@.map_values(|m: (String, Option<String>)| model_display_name(m)));
    res
}

/// The fallback model: see [fallback_model].
fn fallback_model_id(models: &Vec<(String, Option<String>)>, saved_default: &Option<String>, default_id: String) -> (res:
    String)
    ensures
        res@ == fallback_model(models@, opt_view(*saved_default), default_id@),
{
    match saved_default {
        Some(s) => match find_model(models, s.as_str()) {
            Some(i) => models[i].0.clone(),
            None => default_id,
        },
        None => default_id,
    }
}

/// Picks the model a chat starts with, as [model_selection] says. `models` holds each
/// available model's id and, where it has one, its name; a model is looked up by either.
/// In the `Ok` case the second value is whether the agent's model was unavailable.
pub fn select_model(
    requested: Option<String>,
    agent_model: Option<String>,
    saved_default: Option<String>,
    models: &Vec<(String, Option<String>)>,
    default_id: String,
) -> (res: Result<(Option<String>, bool), String>)
    ensures
        match model_selection(opt_view(requested), opt_view(agent_model), opt_view(saved_default), models@, default_id@) {
            Ok((id, warn)) => res matches Ok((Some(m), w)) && m@ == id && w == warn,
            Err(e) => res matches Err(msg) && msg@ == e,
        },
{
    match requested {
        Some(r) => match find_model(models, r.as_str()) {
            Some(i) => Ok((Some(models[i].0.clone()), false)),
            None => {
                let mut msg = String::from_str("Model '");
                msg.append(r.as_str());
                msg.append("' does not exist. Available models: ");
                let available = available_models_text(models);
                msg.append(available.as_str());
                Err(msg)
            },
        },
        None => match agent_model {
            Some(a) => match find_model(models, a.as_str()) {
                Some(i) => Ok((Some(models[i].0.clone()), false)),
                None => Ok((Some(fallback_model_id(models, &saved_default, default_id)), true)),
            },
            None => Ok((Some(fallback_model_id(models, &saved_default, default_id)), false)),
        },
    }
}

} // verus!
