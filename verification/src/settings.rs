//! The `settings` command: what each combination of its arguments asks for.

use vstd::prelude::*;

use crossterm::style::Stylize;

use crate::globs::{
    glob_compiles, glob_matches, glob_new, globset_build, globset_builder_add, globset_builder_new, globset_builds,
    globset_matches,
};
use crate::text::strings_view;

verus! {

/// The output format of the settings command.
#[derive(Debug, Clone, Copy, PartialEq, Eq, Structural)]
pub enum OutputFormat {
    Plain,
    Json,
    JsonPretty,
}

impl Default for OutputFormat {
    fn default() -> (res: Self)
        ensures
            res == OutputFormat::Plain,
    {
        OutputFormat::Plain
    }
}

/// The subcommands of the settings command.
#[derive(Debug, Clone, PartialEq, Eq, Structural)]
pub enum SettingsSubcommands {
    /// Open the settings file.
    Open,
    /// List settings.
    List {
        /// Show all available settings.
        all: bool,
        format: OutputFormat,
        /// Dump the internal state instead.
        state: bool,
    },
    /// List configured settings (kept for compatibility).
    All { format: OutputFormat, state: bool },
}

/// The arguments of the settings command.
#[derive(Debug, Clone, PartialEq, Eq)]
pub struct SettingsArgs {
    pub cmd: Option<SettingsSubcommands>,
    /// The setting's key.
    pub key: Option<String>,
    /// The value to set.
    pub value: Option<String>,
    /// Delete the key.
    pub delete: bool,
    pub format: OutputFormat,
}

/// What the settings command is asked to do.
#[derive(Debug, Clone, PartialEq, Eq)]
pub enum SettingsPlan {
    /// Open the settings file in the editor.
    OpenFile,
    /// Print the internal state table.
    PrintState(OutputFormat),
    /// Print every available setting.
    PrintAll(OutputFormat),
    /// Print the configured settings.
    PrintConfigured(OutputFormat),
    /// `--delete` without a key: an error.
    DeleteWithoutKey,
    /// Nothing to do.
    Nothing,
    /// A value together with `--delete`: an error.
    DeleteWithValue { key: String },
    /// Print the value of the key.
    Get { key: String, format: OutputFormat },
    /// Set the key to the value.
    Store { key: String, value: String },
    /// Delete the keys matching the key as a glob.
    Delete { key: String },
}

impl SettingsArgs {
    /// What the arguments ask for: a subcommand decides by itself (`state` first, then
    /// `all`); otherwise the key, value and `--delete` decide.
    pub fn plan(&self) -> (res: SettingsPlan)
        ensures
            match self.cmd {
                Some(SettingsSubcommands::Open) => res == SettingsPlan::OpenFile,
                Some(SettingsSubcommands::List { all, format, state }) => res == if state {
                    SettingsPlan::PrintState(format)
                } else if all {
                    SettingsPlan::PrintAll(format)
                } else {
                    SettingsPlan::PrintConfigured(format)
                },
                Some(SettingsSubcommands::All { format, state }) => res == if state {
                    SettingsPlan::PrintState(format)
                } else {
                    SettingsPlan::PrintConfigured(format)
                },
                None => match self.key {
                    None => res == if self.delete {
                        SettingsPlan::DeleteWithoutKey
                    } else {
                        SettingsPlan::Nothing
                    },
                    Some(k) => match (self.value, self.delete) {
                        (Some(_), true) => res matches SettingsPlan::DeleteWithValue { key } && key@ == k@,
                        (None, false) => res matches SettingsPlan::Get { key, format } && key@ == k@ && format
                            == self.format,
                        (Some(v), false) => res matches SettingsPlan::Store { key, value } && key@ == k@ && value@
                            == v@,
                        (None, true) => res matches SettingsPlan::Delete { key } && key@ == k@,
                    },
                },
            },
    {
        match &self.cmd {
            Some(SettingsSubcommands::Open) => SettingsPlan::OpenFile,
            Some(SettingsSubcommands::List { all, format, state }) => {
                if *state {
                    SettingsPlan::PrintState(*format)
                } else if *all {
                    SettingsPlan::PrintAll(*format)
                } else {
                    SettingsPlan::PrintConfigured(*format)
                }
            },
            Some(SettingsSubcommands::All { format, state }) => {
                if *state {
                    SettingsPlan::PrintState(*format)
                } else {
                    SettingsPlan::PrintConfigured(*format)
                }
            },
            None => match &self.key {
                None => {
                    if self.delete {
                        SettingsPlan::DeleteWithoutKey
                    } else {
                        SettingsPlan::Nothing
                    }
                },
                Some(k) => match (&self.value, self.delete) {
                    (Some(_), true) => SettingsPlan::DeleteWithValue { key: k.clone() },
                    (None, false) => SettingsPlan::Get { key: k.clone(), format: self.format },
                    (Some(v), false) => SettingsPlan::Store { key: k.clone(), value: v.clone() },
                    (None, true) => SettingsPlan::Delete { key: k.clone() },
                },
            },
        }
    }
}

/// `s` in a foreground colour, as the terminal library writes it: the colour's code (`code`)
/// before and the reset of the foreground after; when the library has colours turned off
/// (`on` false, by `NO_COLOR` or by its switch), both sequences are left empty.
pub open spec fn fg_styled(s: Seq<char>, code: Seq<char>, on: bool) -> Seq<char> {
    if on {
        "\x1b[38;"@ + code + "m"@ + s + "\x1b[39m"@
    } else {
        "\x1b[m"@ + s + "\x1b[m"@
    }
}

/// `s` in the terminal's yellow, with colours on or off.
pub open spec fn yellow_text(s: Seq<char>, on: bool) -> Seq<char> {
    fg_styled(s, "5;11"@, on)
}

/// `s` in the terminal's green, with colours on or off.
pub open spec fn green_text(s: Seq<char>, on: bool) -> Seq<char> {
    fg_styled(s, "5;10"@, on)
}

/// `s` styled yellow by `crossterm::style::Stylize::yellow` and displayed. Whether the colour
/// sequences are written depends on the library's colour switch (the `NO_COLOR` environment
/// variable, or `Colored::set_ansi_color_disabled`), which this call does not fix; either way
/// the text sits between the sequences.
#[verifier::external_body]
fn yellow(s: &str) -> (res: String)
    ensures
        exists|on: bool| res@ == yellow_text(s@, on),
{
    format!("{}", s.yellow())
}

/// `s` styled green by `crossterm::style::Stylize::green` and displayed; as with [yellow], the
/// colour sequences are written or left empty by the library's colour switch.
#[verifier::external_body]
fn green(s: &str) -> (res: String)
    ensures
        exists|on: bool| res@ == green_text(s@, on),
{
    format!("{}", s.green())
}

/// The message of the error for `--delete` without a key, with each of its four styled pieces
/// coloured or not.
pub open spec fn delete_requires_key_text(a: bool, b: bool, c: bool, d: bool) -> Seq<char> {
    "the argument "@ + yellow_text("'--delete'"@, a) + " requires a "@ + green_text("<KEY>"@, b)
        + "\n Usage: q settings "@ + yellow_text("--delete"@, c) + " "@ + green_text("<KEY>"@, d)
}

/// The message of the error for a value given with `--delete`, with each of its three styled
/// pieces coloured or not.
pub open spec fn delete_with_value_text(key: Seq<char>, a: bool, b: bool, c: bool) -> Seq<char> {
    "the argument "@ + yellow_text("'--delete'"@, a) + " cannot be used with "@ + yellow_text("'[VALUE]'"@, b)
        + "\n Usage: q settings "@ + yellow_text("--delete"@, c) + " "@ + key
}

/// The message of the error for `--delete` without a key.
pub fn delete_requires_key_message() -> (res: String)
    ensures
        exists|a: bool, b: bool, c: bool, d: bool| res@ == delete_requires_key_text(a, b, c, d),
{
    let mut s = String::from_str("the argument ");
    let p1 = yellow("'--delete'");
    let ghost a = choose|on: bool| p1@ == yellow_text("'--delete'"@, on);
    s.append(p1.as_str());
    s.append(" requires a ");
    let p2 = green("<KEY>");
    let ghost b = choose|on: bool| p2@ == green_text("<KEY>"@, on);
    s.append(p2.as_str());
    s.append("\n Usage: q settings ");
    let p3 = yellow("--delete");
    let ghost c = choose|on: bool| p3@ == yellow_text("--delete"@, on);
    s.append(p3.as_str());
    s.append(" ");
    let p4 = green("<KEY>");
    let ghost d = choose|on: bool| p4@ == green_text("<KEY>"@, on);
    s.append(p4.as_str());
    assert(s@ =~= delete_requires_key_text(a, b, c, d));
    s
}

/// The message of the error for a value given with `--delete`.
pub fn delete_with_value_message(key: &str) -> (res: String)
    ensures
        exists|a: bool, b: bool, c: bool| res@ == delete_with_value_text(key@, a, b, c),
{
    let mut s = String::from_str("the argument ");
    let p1 = yellow("'--delete'");
    let ghost a = choose|on: bool| p1@ == yellow_text("'--delete'"@, on);
    s.append(p1.as_str());
    s.append(" cannot be used with ");
    let p2 = yellow("'[VALUE]'");
    let ghost b = choose|on: bool| p2@ == yellow_text("'[VALUE]'"@, on);
    s.append(p2.as_str());
    s.append("\n Usage: q settings ");
    let p3 = yellow("--delete");
    let ghost c = choose|on: bool| p3@ == yellow_text("--delete"@, on);
    s.append(p3.as_str());
    s.append(" ");
    s.append(key);
    assert(s@ =~= delete_with_value_text(key@, a, b, c));
    s
}

/// The message of the error for a key without a value, in plain format.
pub open spec fn no_value_text(key: Seq<char>) -> Seq<char> {
    "No value associated with "@ + key
}

/// The message of the error for a key without a value, in plain format.
pub fn no_value_message(key: &str) -> (res: String)
    ensures
        res@ == no_value_text(key@),
{
    let mut s = String::from_str("No value associated with ");
    s.append(key);
    s
}

/// The message of the error for a deletion glob that matches no setting.
pub open spec fn no_match_text(key: Seq<char>) -> Seq<char> {
    "No settings found matching "@ + key
}

/// The message of the error for a deletion glob that matches no setting.
pub fn no_match_message(key: &str) -> (res: String)
    ensures
        res@ == no_match_text(key@),
{
    let mut s = String::from_str("No settings found matching ");
    s.append(key);
    s
}

/// The keys that the glob `pattern` matches, in order.
pub open spec fn keys_matching(pattern: Seq<char>, keys: Seq<Seq<char>>) -> Seq<Seq<char>>
    decreases keys.len(),
{
    if keys.len() == 0 {
        Seq::empty()
    } else {
        let rest = keys_matching(pattern, keys.drop_last());
        if glob_matches(pattern, keys.last()) {
            rest.push(keys.last())
        } else {
            rest
        }
    }
}

/// The settings keys that a deletion glob selects, in order. It fails when the glob does not
/// parse, or when the matcher for it cannot be built (a glob too deeply nested or too large for
/// the regular expression engine; `Glob::compile_matcher` panics on those, so the glob is
/// matched as a set of one glob, whose building reports the failure instead).
pub fn matching_keys(pattern: &str, keys: &Vec<String>) -> (res: Result<Vec<String>, globset::Error>)
    ensures
        res is Ok <==> glob_compiles(pattern@) && globset_builds(seq![pattern@]),
        res matches Ok(v) ==> strings_view(v@) == keys_matching(pattern@, strings_view(keys@)),
{
    let glob = glob_new(pattern)?;
    let mut builder = globset_builder_new();
    globset_builder_add(&mut builder, glob);
    proof {
        assert(crate::globs::builder_patterns(builder) =~= seq![pattern@]);
    }
    let set = globset_build(&builder)?;
    let ghost kv = strings_view(keys@);
    let mut out: Vec<String> = Vec::new();
    let mut i: usize = 0;
    while i < keys.len()
        invariant
            i <= keys.len(),
            kv == strings_view(keys@),
            crate::globs::globset_patterns(set) == seq![pattern@],
            strings_view(out@) == keys_matching(pattern@, kv.take(i as int)),
        decreases keys.len() - i,
    {
        let ghost before = out@;
        proof {
            assert(kv.take(i + 1).drop_last() =~= kv.take(i as int));
            assert(kv.take(i + 1).last() == keys@[i as int]@);
        }
        let found = globset_matches(&set, keys[i].as_str());
        proof {
            assert(crate::globs::globset_patterns(set)[0] == pattern@);
            if found.len() > 0 {
                assert(found@[0] < 1);
                assert(found@.contains(0usize));
            }
        }
        if found.len() > 0 {
            out.push(keys[i].clone());
            proof {
                assert(strings_view(out@) =~= strings_view(before).push(keys@[i as int]@));
            }
        }
        i = i + 1;
    }
    proof {
        assert(kv.take(keys.len() as int) =~= kv);
    }
    Ok(out)
}

} // verus!
