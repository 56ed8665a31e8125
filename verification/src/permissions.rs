//! Permission evaluation for tool uses: path globs that allow or deny, and the
//! allow-list of tool names.

use vstd::prelude::*;

use crate::config::ToolSettings;
use crate::globs::{
    glob_compiles, glob_matches, glob_new, globset_build, globset_builder_add, globset_builder_new,
    globset_builds, globset_matches, globset_patterns, pattern_compiles, pattern_is_match,
    pattern_matches, pattern_new,
};
use crate::path_util::{
    canonical_path, canonicalize_path_sys, cwd_error_context, cwd_error_message, ProviderModel,
    TestProvider, UtilError,
};
use crate::text::{chars_of, has_char, contains_char, join_strings, join_with, strings_view};
use crate::tool_names::{full_name_of, CanonicalToolName};
use crate::tools::{fs_read_paths, is_canonical_name_of, BuiltInTool, ToolKind};

verus! {

/// `p` without its trailing slashes.
pub open spec fn trim_trailing_slashes(p: Seq<char>) -> Seq<char>
    decreases p.len(),
{
    if p.len() > 0 && p.last() == '/' {
        trim_trailing_slashes(p.drop_last())
    } else {
        p
    }
}

/// The glob that matches everything under the directory `p`.
pub open spec fn dir_glob(p: Seq<char>) -> Seq<char> {
    trim_trailing_slashes(p) + "/**"@
}

/// The entries of a glob set made from `paths`: each path whose own glob and directory
/// glob both parse contributes itself twice to the items, and its two globs, in that
/// order, to the patterns; the others are skipped.
pub open spec fn globset_entries(paths: Seq<Seq<char>>) -> (Seq<Seq<char>>, Seq<Seq<char>>)
    decreases paths.len(),
{
    if paths.len() == 0 {
        (Seq::empty(), Seq::empty())
    } else {
        let (items, pats) = globset_entries(paths.drop_last());
        let p = paths.last();
        if glob_compiles(p) && glob_compiles(dir_glob(p)) {
            (items.push(p).push(p), pats.push(p).push(dir_glob(p)))
        } else {
            (items, pats)
        }
    }
}

pub(crate) fn dir_glob_of(p: &str) -> (res: String)
    ensures
        res@ == dir_glob(p@),
{
    let v = chars_of(p);
    let mut end = v.len();
    assert(v@.take(end as int) =~= p@);
    while end > 0 && v[end - 1] == '/'
        invariant
            end <= v.len(),
            v@ == p@,
            trim_trailing_slashes(v@.take(end as int)) == trim_trailing_slashes(p@),
        decreases end,
    {
        proof {
            assert(v@.take(end as int).drop_last() =~= v@.take(end - 1));
        }
        end = end - 1;
    }
    proof {
        assert(v@.take(0) =~= Seq::<char>::empty());
    }
    let base = p.substring_char(0, end);
    assert(base@ =~= v@.take(end as int));
    let mut s = String::from_str(base);
    s.append("/**");
    s
}

/// Creates a glob set from a list of paths, with the list of the paths added for each
/// glob of the set: each path is matched as itself and as a directory (the path followed
/// by `/**`). Paths that do not parse as globs are skipped.
pub fn create_globset(paths: &Vec<String>) -> (res: Result<(Vec<String>, globset::GlobSet), UtilError>)
    ensures
        res is Ok <==> globset_builds(globset_entries(strings_view(paths@)).1),
        res matches Ok((items, set)) ==> strings_view(items@) == globset_entries(strings_view(paths@)).0
            && globset_patterns(set) == globset_entries(strings_view(paths@)).1,
        res matches Err(e) ==> e is GlobsetError,
        globset_entries(strings_view(paths@)).1.len() == 0 ==> res is Ok,
{
    let ghost pv = strings_view(paths@);
    let mut glob_paths: Vec<String> = Vec::new();
    let mut builder = globset_builder_new();
    let mut i: usize = 0;
    while i < paths.len()
        invariant
            i <= paths.len(),
            pv == strings_view(paths@),
            strings_view(glob_paths@) == globset_entries(pv.take(i as int)).0,
            crate::globs::builder_patterns(builder) == globset_entries(pv.take(i as int)).1,
        decreases paths.len() - i,
    {
        proof {
            assert(pv.take(i + 1).drop_last() =~= pv.take(i as int));
            assert(pv.take(i + 1).last() == paths@[i as int]@);
        }
        let path = paths[i].as_str();
        let file_glob = glob_new(path);
        if let Ok(gf) = file_glob {
            let dir = dir_glob_of(path);
            let dir_glob_res = glob_new(dir.as_str());
            if let Ok(gd) = dir_glob_res {
                let ghost old_items = glob_paths@;
                glob_paths.push(paths[i].clone());
                glob_paths.push(paths[i].clone());
                globset_builder_add(&mut builder, gf);
                globset_builder_add(&mut builder, gd);
                proof {
                    assert(strings_view(glob_paths@) =~= strings_view(old_items).push(path@).push(path@));
                }
            }
        }
        i = i + 1;
    }
    proof {
        assert(pv.take(paths.len() as int) =~= pv);
    }
    match globset_build(&builder) {
        Ok(set) => Ok((glob_paths, set)),
        Err(e) => Err(UtilError::GlobsetError(e)),
    }
}

/// The result of checking a path against allowed and denied paths.
#[derive(Debug, Clone, PartialEq, Eq)]
pub enum PermissionCheckResult {
    /// Denied, by the listed denied paths.
    Denied(Vec<String>),
    Ask,
    Allow,
}

/// The model of a [PermissionCheckResult].
pub enum PermissionCheck {
    Denied(Seq<Seq<char>>),
    Ask,
    Allow,
}

impl View for PermissionCheckResult {
    type V = PermissionCheck;

    open spec fn view(&self) -> PermissionCheck {
        match self {
            PermissionCheckResult::Denied(items) => PermissionCheck::Denied(strings_view(items@)),
            PermissionCheckResult::Ask => PermissionCheck::Ask,
            PermissionCheckResult::Allow => PermissionCheck::Allow,
        }
    }
}

/// The items among the first `n` whose pattern matches `path`, in order.
pub open spec fn matched_items(items: Seq<Seq<char>>, pats: Seq<Seq<char>>, path: Seq<char>, n: int) -> Seq<
    Seq<char>,
>
    decreases n,
{
    if n <= 0 {
        Seq::empty()
    } else if glob_matches(pats[n - 1], path) {
        matched_items(items, pats, path, n - 1).push(items[n - 1])
    } else {
        matched_items(items, pats, path, n - 1)
    }
}

/// Whether one of the patterns matches `path`.
pub open spec fn any_glob_matches(pats: Seq<Seq<char>>, path: Seq<char>) -> bool {
    exists|k: int| 0 <= k < pats.len() && glob_matches(pats[k], path)
}

/// How a path is judged against allowed and denied paths: `Ask` when either glob set
/// cannot be built; otherwise denied by every denied path that matches, if one does;
/// otherwise allowed when an allowed path matches, else `Ask`.
pub open spec fn permission_check(path: Seq<char>, allowed: Seq<Seq<char>>, denied: Seq<Seq<char>>) -> PermissionCheck {
    let (_, ap) = globset_entries(allowed);
    let (di, dp) = globset_entries(denied);
    if !globset_builds(ap) || !globset_builds(dp) {
        PermissionCheck::Ask
    } else if any_glob_matches(dp, path) {
        PermissionCheck::Denied(matched_items(di, dp, path, dp.len() as int))
    } else if any_glob_matches(ap, path) {
        PermissionCheck::Allow
    } else {
        PermissionCheck::Ask
    }
}

proof fn lemma_globset_entries_lengths(paths: Seq<Seq<char>>)
    ensures
        globset_entries(paths).0.len() == globset_entries(paths).1.len(),
    decreases paths.len(),
{
    if paths.len() > 0 {
        lemma_globset_entries_lengths(paths.drop_last());
    }
}

proof fn lemma_matched_items_skip(items: Seq<Seq<char>>, pats: Seq<Seq<char>>, path: Seq<char>, b: int, e: int)
    requires
        0 <= b <= e <= pats.len(),
        forall|t: int| b <= t < e ==> !glob_matches(pats[t], path),
    ensures
        matched_items(items, pats, path, e) == matched_items(items, pats, path, b),
    decreases e - b,
{
    if e > b {
        lemma_matched_items_skip(items, pats, path, b, e - 1);
    }
}

/// Checks a path against allowed and denied paths (see [permission_check]).
pub fn evaluate_permission_for_path(path_to_check: &str, allowed_paths: &Vec<String>, denied_paths: &Vec<String>) -> (res:
    PermissionCheckResult)
    ensures
        res@ == permission_check(path_to_check@, strings_view(allowed_paths@), strings_view(denied_paths@)),
{
    let allow = create_globset(allowed_paths);
    let deny = create_globset(denied_paths);
    let ghost ap = globset_entries(strings_view(allowed_paths@)).1;
    let ghost di = globset_entries(strings_view(denied_paths@)).0;
    let ghost dp = globset_entries(strings_view(denied_paths@)).1;
    proof {
        lemma_globset_entries_lengths(strings_view(denied_paths@));
    }
    let (allow_set, deny_items, deny_set) = match (allow, deny) {
        (Ok((_, allow_set)), Ok((deny_items, deny_set))) => (allow_set, deny_items, deny_set),
        _ => {
            return PermissionCheckResult::Ask;
        },
    };
    let denied_matches = globset_matches(&deny_set, path_to_check);
    if denied_matches.len() > 0 {
        proof {
            assert(denied_matches@.contains(denied_matches@[0]));
        }
        let mut matched: Vec<String> = Vec::new();
        let mut k: usize = 0;
        let mut bound: usize = 0;
        while k < denied_matches.len()
            invariant
                k <= denied_matches.len(),
                denied_matches.len() > 0,
                bound <= dp.len(),
                dp == globset_patterns(deny_set),
                strings_view(deny_items@) == di,
                di.len() == dp.len(),
                k == 0 ==> bound == 0,
                k > 0 ==> bound == denied_matches@[k - 1] + 1,
                forall|i: int, j: int| 0 <= i < j < denied_matches@.len() ==> denied_matches@[i] < denied_matches@[j],
                forall|i: int| 0 <= i < denied_matches@.len() ==> denied_matches@[i] < dp.len(),
                forall|t: int|
                    0 <= t < dp.len() ==> (glob_matches(dp[t], path_to_check@) <==> denied_matches@.contains(
                        t as usize,
                    )),
                strings_view(matched@) == matched_items(di, dp, path_to_check@, bound as int),
            decreases denied_matches.len() - k,
        {
            let i = denied_matches[k];
            proof {
                assert forall|t: int| bound <= t < i implies !glob_matches(dp[t], path_to_check@) by {
                    if glob_matches(dp[t], path_to_check@) {
                        assert(denied_matches@.contains(t as usize));
                        let u = choose|u: int| 0 <= u < denied_matches@.len() && denied_matches@[u] == t as usize;
                        if u < k {
                            assert(denied_matches@[u] <= denied_matches@[k - 1]);
                        } else if u > k {
                            assert(denied_matches@[k as int] < denied_matches@[u]);
                        }
                    }
                }
                lemma_matched_items_skip(di, dp, path_to_check@, bound as int, i as int);
                assert(denied_matches@.contains(i));
                assert(glob_matches(dp[i as int], path_to_check@));
            }
            let ghost before = matched@;
            if i < deny_items.len() {
                matched.push(deny_items[i].clone());
            }
            proof {
                assert(strings_view(matched@) =~= strings_view(before).push(di[i as int]));
            }
            bound = i + 1;
            k = k + 1;
        }
        proof {
            assert(k == denied_matches@.len());
            assert(bound == denied_matches@[k - 1] + 1);
            assert forall|t: int| bound <= t < dp.len() implies !glob_matches(dp[t], path_to_check@) by {
                if glob_matches(dp[t], path_to_check@) {
                    assert(denied_matches@.contains(t as usize));
                    let u = choose|u: int| 0 <= u < denied_matches@.len() && denied_matches@[u] == t as usize;
                    if u < k - 1 {
                        assert(denied_matches@[u] < denied_matches@[k - 1]);
                    }
                }
            }
            lemma_matched_items_skip(di, dp, path_to_check@, bound as int, dp.len() as int);
            assert(glob_matches(dp[denied_matches@[0] as int], path_to_check@));
        }
        return PermissionCheckResult::Denied(matched);
    }
    proof {
        if any_glob_matches(dp, path_to_check@) {
            let t = choose|t: int| 0 <= t < dp.len() && glob_matches(dp[t], path_to_check@);
            assert(denied_matches@.contains(t as usize));
        }
    }
    let allowed_matches = globset_matches(&allow_set, path_to_check);
    if allowed_matches.len() > 0 {
        proof {
            assert(allowed_matches@.contains(allowed_matches@[0]));
            assert(glob_matches(ap[allowed_matches@[0] as int], path_to_check@));
        }
        return PermissionCheckResult::Allow;
    }
    proof {
        if any_glob_matches(ap, path_to_check@) {
            let t = choose|t: int| 0 <= t < ap.len() && glob_matches(ap[t], path_to_check@);
            assert(allowed_matches@.contains(t as usize));
        }
    }
    PermissionCheckResult::Ask
}

/// The canonical forms of the paths that can be canonicalized, in order.
pub open spec fn canonical_paths(paths: Seq<Seq<char>>, p: ProviderModel) -> Seq<Seq<char>>
    decreases paths.len(),
{
    if paths.len() == 0 {
        Seq::empty()
    } else {
        match canonical_path(paths.last(), p) {
            Some(c) => canonical_paths(paths.drop_last(), p).push(c),
            None => canonical_paths(paths.drop_last(), p),
        }
    }
}

/// Canonicalizes each path, skipping those that cannot be.
pub fn canonicalize_paths(paths: &Vec<String>, provider: &TestProvider) -> (res: Vec<String>)
    ensures
        strings_view(res@) == canonical_paths(strings_view(paths@), provider@),
{
    let ghost pv = strings_view(paths@);
    let mut out: Vec<String> = Vec::new();
    let mut i: usize = 0;
    while i < paths.len()
        invariant
            i <= paths.len(),
            pv == strings_view(paths@),
            strings_view(out@) == canonical_paths(pv.take(i as int), provider@),
        decreases paths.len() - i,
    {
        proof {
            assert(pv.take(i + 1).drop_last() =~= pv.take(i as int));
            assert(pv.take(i + 1).last() == paths@[i as int]@);
        }
        let ghost before = out@;
        match canonicalize_path_sys(paths[i].as_str(), provider) {
            Ok(c) => {
                out.push(c);
                proof {
                    assert(strings_view(out@) =~= strings_view(before).push(out@.last()@));
                }
            },
            Err(_) => {},
        }
        i = i + 1;
    }
    proof {
        assert(pv.take(paths.len() as int) =~= pv);
    }
    out
}

/// The outcome of evaluating a tool use.
#[derive(Debug, Clone, PartialEq, Eq)]
pub enum PermissionEvalResult {
    Allow,
    Ask,
    Deny { reason: String },
}

/// Where checking a list of paths stands.
pub enum PathsVerdict {
    /// A path could not be made absolute for want of a current directory.
    NoCurrentDir,
    /// A path was denied, for the given reason.
    Deny(Seq<char>),
    /// All paths so far were checked; `ask` when one of them needs asking.
    Checked { ask: bool },
}

/// Checks the paths in order: the first that cannot be canonicalized or that is
/// denied decides; otherwise the verdict records whether any needs asking.
pub open spec fn paths_verdict(
    allowed: Seq<Seq<char>>,
    denied: Seq<Seq<char>>,
    paths: Seq<Seq<char>>,
    p: ProviderModel,
) -> PathsVerdict
    decreases paths.len(),
{
    if paths.len() == 0 {
        PathsVerdict::Checked { ask: false }
    } else {
        match paths_verdict(allowed, denied, paths.drop_last(), p) {
            PathsVerdict::Checked { ask } => match canonical_path(paths.last(), p) {
                None => PathsVerdict::NoCurrentDir,
                Some(c) => match permission_check(c, allowed, denied) {
                    PermissionCheck::Denied(items) => PathsVerdict::Deny(join_with(items, ", "@)),
                    PermissionCheck::Ask => PathsVerdict::Checked { ask: true },
                    PermissionCheck::Allow => PathsVerdict::Checked { ask },
                },
            },
            other => other,
        }
    }
}

/// Whether `r` is the outcome that the verdict calls for.
pub open spec fn eval_matches_verdict(r: Result<PermissionEvalResult, UtilError>, v: PathsVerdict, is_allowed: bool) -> bool {
    match v {
        PathsVerdict::NoCurrentDir => r matches Err(e) && e matches UtilError::Io { context, message }
            && context@ == cwd_error_context() && message@ == cwd_error_message(),
        PathsVerdict::Deny(reason) => r matches Ok(PermissionEvalResult::Deny { reason: s }) && s@ == reason,
        PathsVerdict::Checked { ask } => if ask && !is_allowed {
            r matches Ok(PermissionEvalResult::Ask)
        } else {
            r matches Ok(PermissionEvalResult::Allow)
        },
    }
}

/// Evaluates a tool use that touches `paths_to_check` against the allowed and denied
/// paths, all canonicalized with `provider`. A denied path denies the use, with the
/// matching denied paths as the reason; else the use is allowed unless some path needs
/// asking and the tool is not allowed outright.
pub fn evaluate_permission_for_paths(
    allowed_paths: &Vec<String>,
    denied_paths: &Vec<String>,
    paths_to_check: &Vec<String>,
    is_allowed: bool,
    provider: &TestProvider,
) -> (res: Result<PermissionEvalResult, UtilError>)
    ensures
        eval_matches_verdict(
            res,
            paths_verdict(
                canonical_paths(strings_view(allowed_paths@), provider@),
                canonical_paths(strings_view(denied_paths@), provider@),
                strings_view(paths_to_check@),
                provider@,
            ),
            is_allowed,
        ),
{
    let allowed = canonicalize_paths(allowed_paths, provider);
    let denied = canonicalize_paths(denied_paths, provider);
    let ghost av = strings_view(allowed@);
    let ghost dv = strings_view(denied@);
    let ghost pv = strings_view(paths_to_check@);
    let mut ask = false;
    let mut i: usize = 0;
    while i < paths_to_check.len()
        invariant
            i <= paths_to_check.len(),
            av == strings_view(allowed@),
            dv == strings_view(denied@),
            pv == strings_view(paths_to_check@),
            av == canonical_paths(strings_view(allowed_paths@), provider@),
            dv == canonical_paths(strings_view(denied_paths@), provider@),
            paths_verdict(av, dv, pv.take(i as int), provider@) == (PathsVerdict::Checked { ask }),
        decreases paths_to_check.len() - i,
    {
        proof {
            assert(pv.take(i + 1).drop_last() =~= pv.take(i as int));
            assert(pv.take(i + 1).last() == paths_to_check@[i as int]@);
        }
        let path = match canonicalize_path_sys(paths_to_check[i].as_str(), provider) {
            Ok(p) => p,
            Err(e) => {
                proof {
                    lemma_verdict_settled(av, dv, pv, provider@, i + 1);
                }
                return Err(e);
            },
        };
        match evaluate_permission_for_path(path.as_str(), &allowed, &denied) {
            PermissionCheckResult::Denied(items) => {
                let reason = join_strings(&items, ", ");
                proof {
                    lemma_verdict_settled(av, dv, pv, provider@, i + 1);
                }
                return Ok(PermissionEvalResult::Deny { reason });
            },
            PermissionCheckResult::Ask => {
                ask = true;
            },
            PermissionCheckResult::Allow => {},
        }
        i = i + 1;
    }
    proof {
        assert(pv.take(paths_to_check.len() as int) =~= pv);
    }
    if ask && !is_allowed {
        Ok(PermissionEvalResult::Ask)
    } else {
        Ok(PermissionEvalResult::Allow)
    }
}

/// Once a prefix of the paths settles the verdict (no current directory, or a denial),
/// the whole list has that verdict.
proof fn lemma_verdict_settled(
    allowed: Seq<Seq<char>>,
    denied: Seq<Seq<char>>,
    paths: Seq<Seq<char>>,
    p: ProviderModel,
    n: int,
)
    requires
        0 <= n <= paths.len(),
        !(paths_verdict(allowed, denied, paths.take(n), p) is Checked),
    ensures
        paths_verdict(allowed, denied, paths, p) == paths_verdict(allowed, denied, paths.take(n), p),
    decreases paths.len() - n,
{
    if n < paths.len() {
        assert(paths.drop_last().take(n) =~= paths.take(n));
        lemma_verdict_settled(allowed, denied, paths.drop_last(), p, n);
    } else {
        assert(paths.take(n) =~= paths);
    }
}

/// Whether `pattern` allows the tool named `text`: it is the name itself, or it holds
/// `*` or `?` and matches the name as a shell pattern.
pub open spec fn pattern_allows(pattern: Seq<char>, text: Seq<char>) -> bool {
    pattern == text || ((has_char(pattern, '*') || has_char(pattern, '?')) && pattern_compiles(pattern)
        && pattern_matches(pattern, text))
}

/// Whether one of the patterns allows `text`.
pub open spec fn any_pattern_allows(patterns: Seq<Seq<char>>, text: Seq<char>) -> bool {
    exists|i: int| 0 <= i < patterns.len() && pattern_allows(patterns[i], text)
}

/// Whether `text` is one of the patterns or matches one of those with wildcards.
pub fn matches_any_pattern(patterns: &Vec<String>, text: &str) -> (res: bool)
    ensures
        res == any_pattern_allows(strings_view(patterns@), text@),
{
    let ghost pv = strings_view(patterns@);
    let mut i: usize = 0;
    while i < patterns.len()
        invariant
            i <= patterns.len(),
            pv == strings_view(patterns@),
            forall|j: int| 0 <= j < i ==> !pattern_allows(pv[j], text@),
        decreases patterns.len() - i,
    {
        let p = patterns[i].as_str();
        assert(pv[i as int] == p@);
        if crate::text::str_eq(p, text) {
            return true;
        }
        let pc = chars_of(p);
        if contains_char(&pc, '*') || contains_char(&pc, '?') {
            if let Ok(g) = pattern_new(p) {
                if pattern_is_match(&g, text) {
                    return true;
                }
            }
        }
        i = i + 1;
    }
    false
}

/// The paths that a built-in tool use touches and the settings that judge them, if its
/// permission depends on paths: reads by the read settings, the other file tools by the
/// write settings.
pub open spec fn checked_paths(t: BuiltInTool, settings: ToolSettings) -> Option<(Seq<Seq<char>>, Seq<Seq<char>>, Seq<Seq<char>>)> {
    match t {
        BuiltInTool::FileRead(r) => Some(
            (strings_view(settings.fs_read.allowed_paths@), strings_view(settings.fs_read.denied_paths@), fs_read_paths(r.ops@)),
        ),
        BuiltInTool::FileWrite(w) => Some(
            (strings_view(settings.fs_write.allowed_paths@), strings_view(settings.fs_write.denied_paths@), seq![w.path@]),
        ),
        BuiltInTool::Ls(l) => Some(
            (strings_view(settings.fs_write.allowed_paths@), strings_view(settings.fs_write.denied_paths@), seq![l.path@]),
        ),
        BuiltInTool::ImageRead(r) => Some(
            (strings_view(settings.fs_write.allowed_paths@), strings_view(settings.fs_write.denied_paths@), strings_view(r.paths@)),
        ),
        _ => None,
    }
}

/// Whether `r` is what evaluating the tool use calls for.
pub open spec fn tool_permission(
    r: Result<PermissionEvalResult, UtilError>,
    allowed_tools: Seq<Seq<char>>,
    settings: ToolSettings,
    tool: ToolKind,
    p: ProviderModel,
) -> bool {
    exists|c: CanonicalToolName|
        #![trigger is_canonical_name_of(tool, c)]
        is_canonical_name_of(tool, c) && {
            let is_allowed = any_pattern_allows(allowed_tools, full_name_of(c));
            match tool {
                ToolKind::Mcp(_) => if is_allowed {
                    r matches Ok(PermissionEvalResult::Allow)
                } else {
                    r matches Ok(PermissionEvalResult::Ask)
                },
                ToolKind::BuiltIn(b) => match checked_paths(b, settings) {
                    Some((allowed, denied, paths)) => eval_matches_verdict(
                        r,
                        paths_verdict(canonical_paths(allowed, p), canonical_paths(denied, p), paths, p),
                        is_allowed,
                    ),
                    None => r matches Ok(PermissionEvalResult::Allow),
                },
            }
        }
}

fn single(s: &String) -> (res: Vec<String>)
    ensures
        strings_view(res@) == seq![s@],
{
    let mut v: Vec<String> = Vec::new();
    v.push(s.clone());
    assert(strings_view(v@) =~= seq![s@]);
    v
}

/// Evaluates a tool use: path-based built-in tools by their paths and settings, MCP
/// tools by whether their full name is allowed, every other built-in tool allowed.
pub fn evaluate_tool_permission(
    allowed_tools: &Vec<String>,
    settings: &ToolSettings,
    tool: &ToolKind,
    provider: &TestProvider,
) -> (res: Result<PermissionEvalResult, UtilError>)
    ensures
        tool_permission(res, strings_view(allowed_tools@), *settings, *tool, provider@),
{
    let tn = tool.canonical_tool_name();
    let tool_name = tn.as_full_name();
    let is_allowed = matches_any_pattern(allowed_tools, tool_name.as_str());
    let res = match tool {
        ToolKind::BuiltIn(built_in) => match built_in {
            BuiltInTool::FileRead(file_read) => {
                let paths = file_read.paths();
                evaluate_permission_for_paths(
                    &settings.fs_read.allowed_paths,
                    &settings.fs_read.denied_paths,
                    &paths,
                    is_allowed,
                    provider,
                )
            },
            BuiltInTool::FileWrite(file_write) => {
                let paths = single(&file_write.path);
                evaluate_permission_for_paths(
                    &settings.fs_write.allowed_paths,
                    &settings.fs_write.denied_paths,
                    &paths,
                    is_allowed,
                    provider,
                )
            },
            BuiltInTool::Ls(ls) => {
                let paths = single(&ls.path);
                evaluate_permission_for_paths(
                    &settings.fs_write.allowed_paths,
                    &settings.fs_write.denied_paths,
                    &paths,
                    is_allowed,
                    provider,
                )
            },
            BuiltInTool::ImageRead(image_read) => evaluate_permission_for_paths(
                &settings.fs_write.allowed_paths,
                &settings.fs_write.denied_paths,
                &image_read.paths,
                is_allowed,
                provider,
            ),
            BuiltInTool::Grep(_) => Ok(PermissionEvalResult::Allow),
            BuiltInTool::Mkdir(_) => Ok(PermissionEvalResult::Allow),
            BuiltInTool::ExecuteCmd(_) => Ok(PermissionEvalResult::Allow),
            BuiltInTool::Introspect(_) => Ok(PermissionEvalResult::Allow),
            BuiltInTool::SpawnSubagent => Ok(PermissionEvalResult::Allow),
        },
        ToolKind::Mcp(_) => Ok(
            if is_allowed {
                PermissionEvalResult::Allow
            } else {
                PermissionEvalResult::Ask
            },
        ),
    };
    assert(is_canonical_name_of(*tool, tn));
    res
}

proof fn lemma_matched_items_nonempty(items: Seq<Seq<char>>, pats: Seq<Seq<char>>, path: Seq<char>, n: int, k: int)
    requires
        0 <= k < n <= pats.len(),
        glob_matches(pats[k], path),
    ensures
        matched_items(items, pats, path, n).len() > 0,
    decreases n,
{
    if k < n - 1 {
        lemma_matched_items_nonempty(items, pats, path, n - 1, k);
    }
}

/// A path that a denied path matches is denied, whatever the allowed paths say, and the
/// denial names at least one denied path (when both glob sets can be built).
pub proof fn lemma_deny_overrides_allow(path: Seq<char>, allowed: Seq<Seq<char>>, denied: Seq<Seq<char>>)
    requires
        globset_builds(globset_entries(allowed).1),
        globset_builds(globset_entries(denied).1),
        any_glob_matches(globset_entries(denied).1, path),
    ensures
        permission_check(path, allowed, denied) matches PermissionCheck::Denied(items) && items.len() > 0,
{
    let dp = globset_entries(denied).1;
    let k = choose|k: int| 0 <= k < dp.len() && glob_matches(dp[k], path);
    lemma_matched_items_nonempty(globset_entries(denied).0, dp, path, dp.len() as int, k);
}

/// Paths that no denied path matches and that an allowed path matches are allowed.
pub proof fn lemma_allowed_when_not_denied(path: Seq<char>, allowed: Seq<Seq<char>>, denied: Seq<Seq<char>>)
    requires
        globset_builds(globset_entries(allowed).1),
        globset_builds(globset_entries(denied).1),
        !any_glob_matches(globset_entries(denied).1, path),
        any_glob_matches(globset_entries(allowed).1, path),
    ensures
        permission_check(path, allowed, denied) == PermissionCheck::Allow,
{
}

/// With no allowed and no denied paths, every path needs asking (the empty glob set
/// builds, as [create_globset] shows).
pub proof fn lemma_no_rules_ask(path: Seq<char>)
    requires
        globset_builds(Seq::empty()),
    ensures
        permission_check(path, Seq::empty(), Seq::empty()) == PermissionCheck::Ask,
{
    assert(globset_entries(Seq::empty()).1 =~= Seq::<Seq<char>>::empty());
}

/// An MCP tool whose full name `@server/tool` is among the allowed tools (as trusting it
/// adds it) is allowed without asking, whatever else the allowed tools hold.
pub proof fn lemma_trusted_mcp_tool_allowed(
    r: Result<PermissionEvalResult, UtilError>,
    allowed_tools: Seq<Seq<char>>,
    settings: ToolSettings,
    tool: ToolKind,
    p: ProviderModel,
)
    requires
        tool is Mcp,
        allowed_tools.contains("@"@ + tool->Mcp_0.server_name@ + "/"@ + tool->Mcp_0.tool_name@),
        tool_permission(r, allowed_tools, settings, tool, p),
    ensures
        r matches Ok(PermissionEvalResult::Allow),
{
    let m = tool->Mcp_0;
    let name = "@"@ + m.server_name@ + "/"@ + m.tool_name@;
    let k = choose|k: int| 0 <= k < allowed_tools.len() && allowed_tools[k] == name;
    assert(pattern_allows(allowed_tools[k], name));
    assert forall|c: CanonicalToolName| #[trigger] is_canonical_name_of(tool, c) implies any_pattern_allows(
        allowed_tools,
        full_name_of(c),
    ) by {
        assert(full_name_of(c) == name);
    }
}

} // verus!
