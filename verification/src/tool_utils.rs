//! The tool specifications offered to the model: MCP servers' specifications are renamed or
//! left out so that they pass the backend's validation, and aliases are applied.

use vstd::prelude::*;

use crate::agent_loop::ToolSpec;
use crate::compact::{fit_prefix, truncate_safe, utf8_len, utf8_len_exceeds};
use crate::text::{chars_of, push_char, strings_view};
use crate::tool_names::{builtin_tool_name_str, BuiltInToolName, CanonicalToolName};

verus! {

/// Why a tool specification failed the backend's validation, or how it was changed to pass.
#[derive(Debug, PartialEq, Eq)]
pub enum ToolValidationErrorKind {
    /// The name did not match the backend's pattern; the tool is offered under the transformed
    /// name.
    OutOfSpecName { transformed_name: String },
    /// Nothing was left of the name.
    EmptyName,
    /// The name is too long.
    NameTooLong,
    /// The description is empty.
    EmptyDescription,
    /// The description is too long; it is cut.
    DescriptionTooLong,
    /// Another tool is already offered under the same name.
    NameCollision(CanonicalToolName),
}

/// A tool specification of an MCP server that failed validation, or was changed to pass it.
#[derive(Debug)]
pub struct ToolValidationError {
    pub mcp_server_name: String,
    pub tool_spec: ToolSpec,
    pub kind: ToolValidationErrorKind,
}

impl ToolValidationError {
    pub fn new(mcp_server_name: String, tool_spec: ToolSpec, kind: ToolValidationErrorKind) -> (res: Self)
        ensures
            res == (ToolValidationError { mcp_server_name, tool_spec, kind }),
    {
        ToolValidationError { mcp_server_name, tool_spec, kind }
    }
}

/// Strict lexicographic order of strings by characters, as `String`'s `Ord` orders them
/// (code point order agrees with the order of UTF-8 bytes).
pub open spec fn chars_lt(a: Seq<char>, b: Seq<char>) -> bool
    decreases a.len(),
{
    if a.len() == 0 {
        b.len() > 0
    } else if b.len() == 0 {
        false
    } else if a[0] != b[0] {
        a[0] < b[0]
    } else {
        chars_lt(a.skip(1), b.skip(1))
    }
}

/// No string is below itself.
pub proof fn lemma_chars_lt_irreflexive(a: Seq<char>)
    ensures
        !chars_lt(a, a),
    decreases a.len(),
{
    if a.len() > 0 {
        lemma_chars_lt_irreflexive(a.skip(1));
    }
}

/// The order is transitive.
pub proof fn lemma_chars_lt_transitive(a: Seq<char>, b: Seq<char>, c: Seq<char>)
    requires
        chars_lt(a, b),
        chars_lt(b, c),
    ensures
        chars_lt(a, c),
    decreases a.len(),
{
    if a.len() > 0 && b.len() > 0 && c.len() > 0 {
        if a[0] == b[0] && b[0] == c[0] {
            lemma_chars_lt_transitive(a.skip(1), b.skip(1), c.skip(1));
        }
    }
}

/// Two different strings are ordered one way or the other.
pub proof fn lemma_chars_lt_total(a: Seq<char>, b: Seq<char>)
    requires
        a != b,
    ensures
        chars_lt(a, b) || chars_lt(b, a),
    decreases a.len(),
{
    if a.len() > 0 && b.len() > 0 && a[0] == b[0] {
        if a.skip(1) == b.skip(1) {
            assert(a =~= seq![a[0]] + a.skip(1));
            assert(b =~= seq![b[0]] + b.skip(1));
        }
        lemma_chars_lt_total(a.skip(1), b.skip(1));
    } else if a.len() == 0 && b.len() == 0 {
        assert(a =~= b);
    }
}

/// Whether `a` comes before `b`.
fn chars_less(a: &Vec<char>, b: &Vec<char>) -> (res: bool)
    ensures
        res == chars_lt(a@, b@),
{
    let mut i: usize = 0;
    proof {
        assert(a@.skip(0) =~= a@);
        assert(b@.skip(0) =~= b@);
    }
    while i < a.len() && i < b.len() && a[i] == b[i]
        invariant
            i <= a.len(),
            i <= b.len(),
            chars_lt(a@, b@) == chars_lt(a@.skip(i as int), b@.skip(i as int)),
        decreases a.len() - i,
    {
        proof {
            assert(a@.skip(i as int).skip(1) =~= a@.skip(i + 1));
            assert(b@.skip(i as int).skip(1) =~= b@.skip(i + 1));
        }
        i = i + 1;
    }
    if i == a.len() {
        i < b.len()
    } else if i == b.len() {
        false
    } else {
        a[i] < b[i]
    }
}

/// `s` is strictly increasing.
pub open spec fn strictly_sorted(s: Seq<Seq<char>>) -> bool {
    forall|i: int, j: int| 0 <= i < j < s.len() ==> chars_lt(s[i], s[j])
}

/// Two strictly increasing sequences of the same strings are equal.
pub proof fn lemma_sorted_unique(a: Seq<Seq<char>>, b: Seq<Seq<char>>)
    requires
        strictly_sorted(a),
        strictly_sorted(b),
        forall|x: Seq<char>| a.contains(x) <==> b.contains(x),
    ensures
        a == b,
    decreases a.len() + b.len(),
{
    if a.len() == 0 {
        if b.len() > 0 {
            assert(b.contains(b[0]));
        }
        assert(a =~= b);
    } else if b.len() == 0 {
        assert(a.contains(a[0]));
    } else {
        // The first elements are both the least.
        if a[0] != b[0] {
            assert(a.contains(b[0]));
            assert(b.contains(a[0]));
            let i = choose|i: int| 0 <= i < a.len() && a[i] == b[0];
            let j = choose|j: int| 0 <= j < b.len() && b[j] == a[0];
            lemma_chars_lt_total(a[0], b[0]);
            if chars_lt(a[0], b[0]) {
                assert(j > 0);
                assert(chars_lt(b[0], b[j]));
                lemma_chars_lt_transitive(a[0], b[0], a[0]);
                lemma_chars_lt_irreflexive(a[0]);
            } else {
                assert(i > 0);
                assert(chars_lt(a[0], a[i]));
                lemma_chars_lt_transitive(b[0], a[0], b[0]);
                lemma_chars_lt_irreflexive(b[0]);
            }
        }
        let a1 = a.skip(1);
        let b1 = b.skip(1);
        assert forall|x: Seq<char>| a1.contains(x) implies b1.contains(x) by {
            let i = choose|i: int| 0 <= i < a1.len() && a1[i] == x;
            assert(a.contains(x)) by {
                assert(a[i + 1] == x);
            }
            let j = choose|j: int| 0 <= j < b.len() && b[j] == x;
            if j == 0 {
                assert(chars_lt(a[0], a[i + 1]));
                lemma_chars_lt_irreflexive(x);
            } else {
                assert(b1[j - 1] == x);
            }
        }
        assert forall|x: Seq<char>| b1.contains(x) implies a1.contains(x) by {
            let j = choose|j: int| 0 <= j < b1.len() && b1[j] == x;
            assert(b.contains(x)) by {
                assert(b[j + 1] == x);
            }
            let i = choose|i: int| 0 <= i < a.len() && a[i] == x;
            if i == 0 {
                assert(chars_lt(b[0], b[j + 1]));
                lemma_chars_lt_irreflexive(x);
            } else {
                assert(a1[i - 1] == x);
            }
        }
        lemma_sorted_unique(a1, b1);
        assert(a =~= seq![a[0]] + a1);
        assert(b =~= seq![b[0]] + b1);
    }
}

/// `names` asks for the tool `tool` of the MCP server `server`.
pub open spec fn requests(names: Seq<CanonicalToolName>, server: Seq<char>, tool: Seq<char>) -> bool {
    exists|i: int| 0 <= i < names.len() && #[trigger] mcp_parts(names[i]) == Some((server, tool))
}

/// The server and tool names of an MCP tool's canonical name.
pub open spec fn mcp_parts(c: CanonicalToolName) -> Option<(Seq<char>, Seq<char>)> {
    match c {
        CanonicalToolName::Mcp { server_name, tool_name } => Some((server_name@, tool_name@)),
        _ => None,
    }
}

/// The server name of an MCP tool's canonical name.
pub open spec fn mcp_server(c: CanonicalToolName) -> Option<Seq<char>> {
    match c {
        CanonicalToolName::Mcp { server_name, .. } => Some(server_name@),
        _ => None,
    }
}

/// `names` asks for some tool of the MCP server `server`.
pub open spec fn names_server(names: Seq<CanonicalToolName>, server: Seq<char>) -> bool {
    exists|i: int| 0 <= i < names.len() && #[trigger] mcp_server(names[i]) == Some(server)
}

/// `order` lists the MCP servers that `names` asks for, each once, in increasing order.
pub open spec fn is_server_order(names: Seq<CanonicalToolName>, order: Seq<Seq<char>>) -> bool {
    &&& strictly_sorted(order)
    &&& forall|x: Seq<char>| order.contains(x) <==> names_server(names, x)
}

/// The names of the listed servers.
pub open spec fn request_keys(r: Seq<(String, Vec<String>)>) -> Seq<Seq<char>> {
    r.map_values(|p: (String, Vec<String>)| p.0@)
}

/// The MCP servers and tools that `names` asks for: the servers in increasing order, each
/// with the names of its tools that are asked for.
fn collect_mcp_requests(names: &Vec<CanonicalToolName>) -> (res: Vec<(String, Vec<String>)>)
    ensures
        is_server_order(names@, request_keys(res@)),
        forall|i: int, t: Seq<char>|
            0 <= i < res@.len() ==> (strings_view(res@[i].1@).contains(t) <==> requests(names@, res@[i].0@, t)),
{
    let mut res: Vec<(String, Vec<String>)> = Vec::new();
    let mut k: usize = 0;
    while k < names.len()
        invariant
            k <= names.len(),
            is_server_order(names@.take(k as int), request_keys(res@)),
            forall|i: int, t: Seq<char>|
                0 <= i < res@.len() ==> (strings_view(res@[i].1@).contains(t) <==> requests(
                    names@.take(k as int),
                    res@[i].0@,
                    t,
                )),
        decreases names.len() - k,
    {
        let ghost pre = names@.take(k as int);
        let ghost post = names@.take(k + 1);
        proof {
            assert(post =~= pre.push(names@[k as int]));
            assert forall|x: Seq<char>| names_server(pre, x) implies names_server(post, x) by {
                let i = choose|i: int| 0 <= i < pre.len() && mcp_server(pre[i]) == Some(x);
                assert(post[i] == pre[i]);
            }
            assert forall|x: Seq<char>, t: Seq<char>| requests(pre, x, t) implies requests(post, x, t) by {
                let i = choose|i: int| 0 <= i < pre.len() && mcp_parts(pre[i]) == Some((x, t));
                assert(post[i] == pre[i]);
            }
        }
        match &names[k] {
            CanonicalToolName::Mcp { server_name, tool_name } => {
                let sc = chars_of(server_name.as_str());
                let mut pos: usize = 0;
                while pos < res.len() && chars_less(&chars_of(res[pos].0.as_str()), &sc)
                    invariant
                        pos <= res.len(),
                        sc@ == server_name@,
                        forall|j: int| 0 <= j < pos ==> chars_lt(#[trigger] request_keys(res@)[j], server_name@),
                    decreases res.len() - pos,
                {
                    pos = pos + 1;
                }
                let ghost keys0 = request_keys(res@);
                let ghost res0 = res@;
                let found = pos < res.len() && crate::text::chars_equal(&chars_of(res[pos].0.as_str()), server_name.as_str());
                if found {
                    let mut entry = res.remove(pos);
                    entry.1.push(tool_name.clone());
                    res.insert(pos, entry);
                    proof {
                        assert(request_keys(res@) =~= keys0);
                        assert forall|x: Seq<char>| request_keys(res@).contains(x) implies names_server(post, x) by {
                            assert(names_server(pre, x));
                        }
                        assert forall|x: Seq<char>| names_server(post, x) implies request_keys(res@).contains(x) by {
                            if !names_server(pre, x) {
                                let i = choose|i: int| 0 <= i < post.len() && mcp_server(post[i]) == Some(x);
                                if i < pre.len() {
                                    assert(pre[i] == post[i]);
                                }
                                assert(x == server_name@);
                                assert(request_keys(res@)[pos as int] == x);
                            }
                        }
                        assert forall|i: int, t: Seq<char>|
                            0 <= i < res@.len() implies (strings_view(res@[i].1@).contains(t) <==> requests(post, res@[i].0@, t)) by {
                            if i == pos {
                                assert(res@[i].0@ == server_name@);
                                assert(strings_view(res@[i].1@) =~= strings_view(res0[i].1@).push(tool_name@));
                                assert(mcp_parts(post[k as int]) == Some((server_name@, tool_name@)));
                                assert(keys0[pos as int] == server_name@);
                                assert(res0[i].0@ == keys0[pos as int]);
                                assert(strings_view(res0[i].1@).contains(t) <==> requests(pre, server_name@, t));
                                if strings_view(res0[i].1@).contains(t) {
                                    let j = choose|j: int| 0 <= j < strings_view(res0[i].1@).len() && strings_view(res0[i].1@)[j] == t;
                                    assert(strings_view(res@[i].1@)[j] == t);
                                }
                                if requests(pre, server_name@, t) {
                                    let w = choose|w: int| 0 <= w < pre.len() && mcp_parts(pre[w]) == Some((server_name@, t));
                                    assert(post[w] == pre[w]);
                                }
                                if t == tool_name@ {
                                    assert(strings_view(res@[i].1@)[res0[i].1@.len() as int] == t);
                                }
                                if requests(post, res@[i].0@, t) && !requests(pre, res@[i].0@, t) {
                                    let w = choose|w: int| 0 <= w < post.len() && mcp_parts(post[w]) == Some((res@[i].0@, t));
                                    if w < pre.len() {
                                        assert(pre[w] == post[w]);
                                        assert(mcp_parts(pre[w]) == Some((res@[i].0@, t)));
                                    }
                                    assert(t == tool_name@);
                                    assert(strings_view(res@[i].1@)[res0[i].1@.len() as int] == t);
                                }
                                if strings_view(res@[i].1@).contains(t) && !strings_view(res0[i].1@).contains(t) {
                                    let w = choose|w: int| 0 <= w < strings_view(res@[i].1@).len() && strings_view(res@[i].1@)[w] == t;
                                    if w < res0[i].1@.len() {
                                        assert(strings_view(res0[i].1@)[w] == t);
                                    }
                                    assert(t == tool_name@);
                                }
                            } else {
                                assert(res@[i] == res0[i]);
                                assert(keys0[pos as int] == server_name@);
                                assert(keys0[i] == res@[i].0@);
                                assert(mcp_parts(post[k as int]) == Some((server_name@, tool_name@)));
                                assert(strings_view(res@[i].1@).contains(t) <==> requests(pre, res@[i].0@, t));
                                if requests(pre, res@[i].0@, t) {
                                    let w = choose|w: int| 0 <= w < pre.len() && mcp_parts(pre[w]) == Some((res@[i].0@, t));
                                    assert(post[w] == pre[w]);
                                }
                                if requests(post, res@[i].0@, t) && !requests(pre, res@[i].0@, t) {
                                    let w = choose|w: int| 0 <= w < post.len() && mcp_parts(post[w]) == Some((res@[i].0@, t));
                                    if w < pre.len() {
                                        assert(pre[w] == post[w]);
                                        assert(mcp_parts(pre[w]) == Some((res@[i].0@, t)));
                                    }
                                    assert(res@[i].0@ == server_name@);
                                    assert(keys0[i] == keys0[pos as int]);
                                    if i < pos {
                                        assert(chars_lt(keys0[i], keys0[pos as int]));
                                    } else {
                                        assert(chars_lt(keys0[pos as int], keys0[i]));
                                    }
                                    lemma_chars_lt_irreflexive(keys0[i]);
                                }
                            }
                        }
                    }
                } else {
                    proof {
                        if pos < res.len() {
                            lemma_chars_lt_total(keys0[pos as int], server_name@);
                        }
                    }
                    let mut tools: Vec<String> = Vec::new();
                    tools.push(tool_name.clone());
                    res.insert(pos, (server_name.clone(), tools));
                    proof {
                        assert(request_keys(res@) =~= keys0.insert(pos as int, server_name@));
                        let nk = request_keys(res@);
                        assert forall|a: int, b: int| 0 <= a < b < nk.len() implies chars_lt(nk[a], nk[b]) by {
                            if a < pos && b == pos {
                            } else if a < pos && b > pos {
                                assert(nk[b] == keys0[b - 1]);
                                if pos < keys0.len() {
                                    if b - 1 > pos {
                                        assert(chars_lt(keys0[pos as int], keys0[b - 1]));
                                        lemma_chars_lt_transitive(server_name@, keys0[pos as int], keys0[b - 1]);
                                    }
                                    lemma_chars_lt_transitive(keys0[a], server_name@, keys0[b - 1]);
                                }
                            } else if a == pos && b > pos {
                                if b - 1 > pos {
                                    assert(chars_lt(keys0[pos as int], keys0[b - 1]));
                                    lemma_chars_lt_transitive(server_name@, keys0[pos as int], keys0[b - 1]);
                                }
                            } else if a > pos {
                                assert(nk[a] == keys0[a - 1]);
                                assert(nk[b] == keys0[b - 1]);
                            } else {
                                assert(nk[a] == keys0[a]);
                                assert(nk[b] == keys0[b]);
                            }
                        }
                        assert forall|x: Seq<char>| nk.contains(x) implies names_server(post, x) by {
                            let i = choose|i: int| 0 <= i < nk.len() && nk[i] == x;
                            if i == pos {
                                assert(post[k as int] == names@[k as int]);
                                assert(mcp_server(post[k as int]) == Some(server_name@));
                            } else {
                                if i < pos {
                                    assert(keys0[i] == x);
                                } else {
                                    assert(keys0[i - 1] == x);
                                }
                                assert(keys0.contains(x));
                                assert(names_server(pre, x));
                                let w = choose|w: int| 0 <= w < pre.len() && mcp_server(pre[w]) == Some(x);
                                assert(post[w] == pre[w]);
                            }
                        }
                        assert forall|x: Seq<char>| names_server(post, x) implies nk.contains(x) by {
                            if x == server_name@ {
                                assert(nk[pos as int] == x);
                            } else {
                                let i = choose|i: int| 0 <= i < post.len() && mcp_server(post[i]) == Some(x);
                                if i < pre.len() {
                                    assert(pre[i] == post[i]);
                                }
                                assert(names_server(pre, x));
                                let j = choose|j: int| 0 <= j < keys0.len() && keys0[j] == x;
                                if j < pos {
                                    assert(nk[j] == x);
                                } else {
                                    assert(nk[j + 1] == x);
                                }
                            }
                        }
                        assert forall|i: int, t: Seq<char>|
                            0 <= i < res@.len() implies (strings_view(res@[i].1@).contains(t) <==> requests(post, res@[i].0@, t)) by {
                            if i == pos {
                                assert(strings_view(res@[i].1@) =~= seq![tool_name@]);
                                if requests(post, res@[i].0@, t) {
                                    let w = choose|w: int| 0 <= w < post.len() && mcp_parts(post[w]) == Some((res@[i].0@, t));
                                    if w < pre.len() {
                                        assert(pre[w] == post[w]);
                                        assert(mcp_server(pre[w]) == Some(server_name@));
                                        assert(names_server(pre, server_name@));
                                        assert(keys0.contains(server_name@));
                                        let j = choose|j: int| 0 <= j < keys0.len() && keys0[j] == server_name@;
                                        if j < pos {
                                            lemma_chars_lt_irreflexive(server_name@);
                                        } else if j == pos {
                                            assert(false);
                                        } else {
                                            assert(chars_lt(keys0[pos as int], keys0[j]));
                                            lemma_chars_lt_transitive(server_name@, keys0[pos as int], keys0[j]);
                                            lemma_chars_lt_irreflexive(server_name@);
                                        }
                                    }
                                    assert(strings_view(res@[i].1@)[0] == t);
                                }
                                if strings_view(res@[i].1@).contains(t) {
                                    assert(post[k as int] == names@[k as int]);
                                }
                            } else {
                                let oi = if i < pos { i } else { i - 1 };
                                assert(res@[i] == res0[oi]);
                                if requests(post, res@[i].0@, t) && !requests(pre, res@[i].0@, t) {
                                    let w = choose|w: int| 0 <= w < post.len() && mcp_parts(post[w]) == Some((res@[i].0@, t));
                                    if w < pre.len() {
                                        assert(pre[w] == post[w]);
                                    }
                                    assert(nk[i] == server_name@);
                                    assert(nk[pos as int] == server_name@);
                                    if i < pos {
                                        assert(chars_lt(nk[i], nk[pos as int]));
                                    } else {
                                        assert(chars_lt(nk[pos as int], nk[i]));
                                    }
                                    lemma_chars_lt_irreflexive(server_name@);
                                }
                            }
                        }
                    }
                }
            },
            _ => {
                proof {
                    assert forall|x: Seq<char>| names_server(post, x) implies names_server(pre, x) by {
                        let i = choose|i: int| 0 <= i < post.len() && mcp_server(post[i]) == Some(x);
                        if i < pre.len() {
                            assert(pre[i] == post[i]);
                        }
                    }
                    assert forall|x: Seq<char>, t: Seq<char>| requests(post, x, t) implies requests(pre, x, t) by {
                        let i = choose|i: int| 0 <= i < post.len() && mcp_parts(post[i]) == Some((x, t));
                        if i < pre.len() {
                            assert(pre[i] == post[i]);
                        }
                    }
                }
            },
        }
        k = k + 1;
    }
    proof {
        assert(names@.take(names.len() as int) =~= names@);
    }
    res
}

#[verifier::external_type_specification]
#[verifier::external_body]
pub struct ExRegex(regex::Regex);

#[verifier::external_type_specification]
#[verifier::external_body]
pub struct ExRegexError(regex::Error);

/// Whether `pattern` compiles as a regular expression of the regex library.
pub uninterp spec fn regex_compiles(pattern: Seq<char>) -> bool;

/// The pattern a regular expression was compiled from.
pub uninterp spec fn regex_source(re: regex::Regex) -> Seq<char>;

/// Whether the regular expression compiled from `pattern` matches somewhere in `haystack`.
pub uninterp spec fn regex_matches(pattern: Seq<char>, haystack: Seq<char>) -> bool;

/// Compiles a regular expression, by `regex::Regex::new`: it succeeds exactly on the
/// patterns that [regex_compiles] holds of, and the expression keeps its pattern. The
/// backend's tool name pattern, `^[a-zA-Z][a-zA-Z0-9_]*$` (anchors, character classes and a
/// repetition, all of the library's documented syntax), is one that compiles.
#[verifier::external_body]
pub(crate) fn regex_new(pattern: &str) -> (res: Result<regex::Regex, regex::Error>)
    ensures
        res is Ok <==> regex_compiles(pattern@),
        res matches Ok(r) ==> regex_source(r) == pattern@,
        pattern@ == RTS_VALID_TOOL_NAME_REGEX@ ==> res is Ok,
{
    regex::Regex::new(pattern)
}

/// Whether the expression matches somewhere in `haystack`, by `regex::Regex::is_match`.
#[verifier::external_body]
pub(crate) fn regex_is_match(re: &regex::Regex, haystack: &str) -> (res: bool)
    ensures
        res == regex_matches(regex_source(*re), haystack@),
{
    re.is_match(haystack)
}

/// The pattern that tool names must match for the backend.
pub const RTS_VALID_TOOL_NAME_REGEX: &'static str = "^[a-zA-Z][a-zA-Z0-9_]*$";

/// Longest tool name the backend accepts, in bytes.
pub const MAX_TOOL_NAME_LEN: usize = 64;

/// Longest tool description the backend accepts, in bytes; longer ones are cut.
pub const MAX_TOOL_SPEC_DESCRIPTION_LEN: usize = 10004;

/// A tool specification offered to the model, with the canonical name of its tool.
#[derive(Debug)]
pub struct SanitizedToolSpec {
    pub canonical_name: CanonicalToolName,
    pub tool_spec: ToolSpec,
}

impl SanitizedToolSpec {
    pub fn canonical_name(&self) -> (res: &CanonicalToolName)
        ensures
            *res == self.canonical_name,
    {
        &self.canonical_name
    }

    pub fn tool_spec(&self) -> (res: &ToolSpec)
        ensures
            *res == self.tool_spec,
    {
        &self.tool_spec
    }
}

/// The tool specifications to offer to the model, with those left out and those changed.
#[derive(Debug)]
pub struct SanitizedToolSpecs {
    tool_map: Vec<(String, SanitizedToolSpec)>,
    filtered_specs: Vec<ToolValidationError>,
    transformed_tool_specs: Vec<ToolValidationError>,
}

/// A canonical tool name, by the characters of its parts.
pub enum CanonView {
    BuiltIn(BuiltInToolName),
    Mcp(Seq<char>, Seq<char>),
    Agent(Seq<char>),
}

pub open spec fn canon_view(c: CanonicalToolName) -> CanonView {
    match c {
        CanonicalToolName::BuiltIn(t) => CanonView::BuiltIn(t),
        CanonicalToolName::Mcp { server_name, tool_name } => CanonView::Mcp(server_name@, tool_name@),
        CanonicalToolName::Agent { agent_name } => CanonView::Agent(agent_name@),
    }
}

/// A tool specification, by the characters of its name and description.
pub struct ToolView {
    pub name: Seq<char>,
    pub description: Seq<char>,
    pub input_schema: serde_json::Value,
}

pub open spec fn tool_view(t: ToolSpec) -> ToolView {
    ToolView { name: t.name@, description: t.description@, input_schema: t.input_schema }
}

/// A validation issue, by the characters of its parts.
pub enum IssueView {
    OutOfSpecName(Seq<char>),
    EmptyName,
    NameTooLong,
    EmptyDescription,
    DescriptionTooLong,
    NameCollision(CanonView),
}

pub open spec fn issue_view(k: ToolValidationErrorKind) -> IssueView {
    match k {
        ToolValidationErrorKind::OutOfSpecName { transformed_name } => IssueView::OutOfSpecName(transformed_name@),
        ToolValidationErrorKind::EmptyName => IssueView::EmptyName,
        ToolValidationErrorKind::NameTooLong => IssueView::NameTooLong,
        ToolValidationErrorKind::EmptyDescription => IssueView::EmptyDescription,
        ToolValidationErrorKind::DescriptionTooLong => IssueView::DescriptionTooLong,
        ToolValidationErrorKind::NameCollision(c) => IssueView::NameCollision(canon_view(c)),
    }
}

/// A validation issue of a server's tool specification.
pub struct ErrorView {
    pub server: Seq<char>,
    pub tool: ToolView,
    pub kind: IssueView,
}

pub open spec fn error_view(e: ToolValidationError) -> ErrorView {
    ErrorView { server: e.mcp_server_name@, tool: tool_view(e.tool_spec), kind: issue_view(e.kind) }
}

/// An offered tool: the name it is offered under, its canonical name and its specification.
pub struct EntryView {
    pub key: Seq<char>,
    pub canonical: CanonView,
    pub tool: ToolView,
}

pub open spec fn entry_view(p: (String, SanitizedToolSpec)) -> EntryView {
    EntryView { key: p.0@, canonical: canon_view(p.1.canonical_name), tool: tool_view(p.1.tool_spec) }
}

/// The offered tools, in the order they were added, and the issues found, in order.
pub struct SanitizedView {
    pub tool_map: Seq<EntryView>,
    pub filtered: Seq<ErrorView>,
    pub warnings: Seq<ErrorView>,
}

impl View for SanitizedToolSpecs {
    type V = SanitizedView;

    closed spec fn view(&self) -> SanitizedView {
        SanitizedView {
            tool_map: self.tool_map@.map_values(|p: (String, SanitizedToolSpec)| entry_view(p)),
            filtered: self.filtered_specs@.map_values(|e: ToolValidationError| error_view(e)),
            warnings: self.transformed_tool_specs@.map_values(|e: ToolValidationError| error_view(e)),
        }
    }
}

impl SanitizedToolSpecs {
    /// The offered tools by the name they are offered under.
    pub fn tool_map(&self) -> (res: &Vec<(String, SanitizedToolSpec)>)
        ensures
            res@.map_values(|p: (String, SanitizedToolSpec)| entry_view(p)) == self@.tool_map,
    {
        &self.tool_map
    }

    /// The specifications to send to the model, in the order the tools were offered.
    pub fn tool_specs(&self) -> (res: Vec<ToolSpec>)
        ensures
            res@.len() == self@.tool_map.len(),
            forall|i: int| 0 <= i < res@.len() ==> tool_view(#[trigger] res@[i]) == self@.tool_map[i].tool,
    {
        let mut out: Vec<ToolSpec> = Vec::new();
        let mut i: usize = 0;
        while i < self.tool_map.len()
            invariant
                i <= self.tool_map.len(),
                out@.len() == i,
                forall|j: int| 0 <= j < i ==> tool_view(#[trigger] out@[j]) == self@.tool_map[j].tool,
            decreases self.tool_map.len() - i,
        {
            out.push(copy_tool_spec(&self.tool_map[i].1.tool_spec));
            i = i + 1;
        }
        out
    }

    /// The tool specifications left out for failing validation.
    pub fn filtered_specs(&self) -> (res: &Vec<ToolValidationError>)
        ensures
            res@.map_values(|e: ToolValidationError| error_view(e)) == self@.filtered,
    {
        &self.filtered_specs
    }

    /// The offered tool specifications that were changed to pass validation.
    pub fn transformed_tool_specs(&self) -> (res: &Vec<ToolValidationError>)
        ensures
            res@.map_values(|e: ToolValidationError| error_view(e)) == self@.warnings,
    {
        &self.transformed_tool_specs
    }
}

/// The first offered tool with the given name, if any.
pub open spec fn find_key(m: Seq<EntryView>, k: Seq<char>) -> Option<int>
    decreases m.len(),
{
    if m.len() == 0 {
        None
    } else if m[0].key == k {
        Some(0)
    } else {
        match find_key(m.skip(1), k) {
            Some(i) => Some(i + 1),
            None => None,
        }
    }
}

/// What [find_key] finds is an offered tool with that name, and it finds one if there is one.
pub proof fn lemma_find_key(m: Seq<EntryView>, k: Seq<char>)
    ensures
        match find_key(m, k) {
            Some(i) => 0 <= i < m.len() && m[i].key == k,
            None => forall|j: int| 0 <= j < m.len() ==> m[j].key != k,
        },
    decreases m.len(),
{
    if m.len() > 0 {
        lemma_find_key(m.skip(1), k);
        if m[0].key != k {
            assert forall|j: int| 1 <= j < m.len() implies m.skip(1)[j - 1] == m[j] by {}
        }
    }
}

/// The alias of the tool with the given full name, if any (the first one listed).
pub open spec fn alias_of(aliases: Seq<(String, String)>, full_name: Seq<char>) -> Option<Seq<char>>
    decreases aliases.len(),
{
    if aliases.len() == 0 {
        None
    } else if aliases[0].0@ == full_name {
        Some(aliases[0].1@)
    } else {
        alias_of(aliases.skip(1), full_name)
    }
}

/// The tool specifications a server returned, if it is listed (the first entry).
pub open spec fn server_specs(m: Seq<(String, Vec<ToolSpec>)>, server: Seq<char>) -> Option<Seq<ToolSpec>>
    decreases m.len(),
{
    if m.len() == 0 {
        None
    } else if m[0].0@ == server {
        Some(m[0].1@)
    } else {
        server_specs(m.skip(1), server)
    }
}

/// The specification of a built-in tool, if it is given (the first one listed).
pub open spec fn builtin_spec(b: Seq<(BuiltInToolName, ToolSpec)>, t: BuiltInToolName) -> Option<ToolSpec>
    decreases b.len(),
{
    if b.len() == 0 {
        None
    } else if b[0].0 == t {
        Some(b[0].1)
    } else {
        builtin_spec(b.skip(1), t)
    }
}

/// Characters kept when a name is cleaned: ASCII letters and digits, `_` and `-`.
pub open spec fn name_char_kept(c: char) -> bool {
    ('a' <= c <= 'z') || ('A' <= c <= 'Z') || ('0' <= c <= '9') || c == '_' || c == '-'
}

/// An ASCII letter.
pub open spec fn ascii_letter(c: char) -> bool {
    ('a' <= c <= 'z') || ('A' <= c <= 'Z')
}

/// The kept characters of a name, in order.
pub open spec fn cleaned_name(s: Seq<char>) -> Seq<char>
    decreases s.len(),
{
    if s.len() == 0 {
        s
    } else if name_char_kept(s.last()) {
        cleaned_name(s.drop_last()).push(s.last())
    } else {
        cleaned_name(s.drop_last())
    }
}

/// The issue of a server's tool specification.
pub open spec fn issue(server: Seq<char>, spec: ToolSpec, kind: IssueView) -> ErrorView {
    ErrorView { server, tool: tool_view(spec), kind }
}

/// Adds a tool under its name, replacing one offered under the same name.
pub open spec fn map_insert(m: Seq<EntryView>, e: EntryView) -> Seq<EntryView> {
    match find_key(m, e.key) {
        Some(i) => m.update(i, e),
        None => m.push(e),
    }
}

/// What handling one tool specification of an MCP server does: the name (or its alias) is
/// cleaned when it does not match the backend's pattern and made to start with a letter;
/// the specification is then left out for an empty name, a name that is too long, an empty
/// description or a name already offered, and otherwise offered under that name with its
/// description cut, noting a cut description and a changed name.
pub open spec fn process_tool(
    st: SanitizedView,
    server: Seq<char>,
    spec: ToolSpec,
    aliases: Seq<(String, String)>,
) -> SanitizedView {
    let canonical = CanonView::Mcp(server, spec.name@);
    let full = "@"@ + server + "/"@ + spec.name@;
    let name = match alias_of(aliases, full) {
        Some(a) => a,
        None => spec.name@,
    };
    let mismatch = !regex_matches(RTS_VALID_TOOL_NAME_REGEX@, name);
    let cleaned = if mismatch {
        cleaned_name(name)
    } else {
        name
    };
    if cleaned.len() == 0 {
        SanitizedView { filtered: st.filtered.push(issue(server, spec, IssueView::EmptyName)), ..st }
    } else {
        let n1 = if ascii_letter(cleaned[0]) {
            cleaned
        } else {
            seq!['a'] + cleaned
        };
        if utf8_len(n1) > MAX_TOOL_NAME_LEN {
            SanitizedView { filtered: st.filtered.push(issue(server, spec, IssueView::NameTooLong)), ..st }
        } else if spec.description@.len() == 0 {
            SanitizedView { filtered: st.filtered.push(issue(server, spec, IssueView::EmptyDescription)), ..st }
        } else {
            match find_key(st.tool_map, n1) {
                Some(i) => SanitizedView {
                    filtered: st.filtered.push(
                        issue(server, spec, IssueView::NameCollision(st.tool_map[i].canonical)),
                    ),
                    ..st
                },
                None => SanitizedView {
                    tool_map: st.tool_map.push(
                        EntryView {
                            key: n1,
                            canonical,
                            tool: ToolView {
                                name: n1,
                                description: fit_prefix(spec.description@, MAX_TOOL_SPEC_DESCRIPTION_LEN as int),
                                input_schema: spec.input_schema,
                            },
                        },
                    ),
                    filtered: st.filtered,
                    warnings: st.warnings + (if utf8_len(spec.description@) > MAX_TOOL_SPEC_DESCRIPTION_LEN {
                        seq![issue(server, spec, IssueView::DescriptionTooLong)]
                    } else {
                        Seq::empty()
                    }) + (if mismatch {
                        seq![issue(server, spec, IssueView::OutOfSpecName(n1))]
                    } else {
                        Seq::empty()
                    }),
                },
            }
        }
    }
}

/// Handling a server's tool specifications in order.
pub open spec fn process_tools(
    st: SanitizedView,
    server: Seq<char>,
    specs: Seq<ToolSpec>,
    aliases: Seq<(String, String)>,
) -> SanitizedView
    decreases specs.len(),
{
    if specs.len() == 0 {
        st
    } else {
        process_tool(process_tools(st, server, specs.drop_last(), aliases), server, specs.last(), aliases)
    }
}

/// The specifications whose tools `names` asks for, in order.
pub open spec fn requested_specs(names: Seq<CanonicalToolName>, server: Seq<char>, specs: Seq<ToolSpec>) -> Seq<
    ToolSpec,
>
    decreases specs.len(),
{
    if specs.len() == 0 {
        specs
    } else if requests(names, server, specs.last().name@) {
        requested_specs(names, server, specs.drop_last()).push(specs.last())
    } else {
        requested_specs(names, server, specs.drop_last())
    }
}

/// Handling the servers in the given order: of each listed one, the specifications asked for.
pub open spec fn process_servers(
    st: SanitizedView,
    order: Seq<Seq<char>>,
    names: Seq<CanonicalToolName>,
    mcp_specs: Seq<(String, Vec<ToolSpec>)>,
    aliases: Seq<(String, String)>,
) -> SanitizedView
    decreases order.len(),
{
    if order.len() == 0 {
        st
    } else {
        let before = process_servers(st, order.drop_last(), names, mcp_specs, aliases);
        match server_specs(mcp_specs, order.last()) {
            Some(all) => process_tools(before, order.last(), requested_specs(names, order.last(), all), aliases),
            None => before,
        }
    }
}

/// The built-in tools among `names`, offered under their names, in order.
pub open spec fn builtin_entries(names: Seq<CanonicalToolName>, b: Seq<(BuiltInToolName, ToolSpec)>) -> Seq<EntryView>
    decreases names.len(),
{
    if names.len() == 0 {
        Seq::empty()
    } else {
        let m = builtin_entries(names.drop_last(), b);
        match names.last() {
            CanonicalToolName::BuiltIn(t) => map_insert(
                m,
                EntryView {
                    key: builtin_tool_name_str(t),
                    canonical: CanonView::BuiltIn(t),
                    tool: tool_view(builtin_spec(b, t).unwrap()),
                },
            ),
            _ => m,
        }
    }
}

/// The MCP servers that `names` asks for, in increasing order.
pub open spec fn server_order(names: Seq<CanonicalToolName>) -> Seq<Seq<char>> {
    choose|o: Seq<Seq<char>>| is_server_order(names, o)
}

/// The tool specifications to offer for `names`: the built-in tools, then the MCP servers'
/// tools, server by server in increasing order of server name.
pub open spec fn sanitized(
    names: Seq<CanonicalToolName>,
    mcp_specs: Seq<(String, Vec<ToolSpec>)>,
    aliases: Seq<(String, String)>,
    b: Seq<(BuiltInToolName, ToolSpec)>,
) -> SanitizedView {
    process_servers(
        SanitizedView { tool_map: builtin_entries(names, b), filtered: Seq::empty(), warnings: Seq::empty() },
        server_order(names),
        names,
        mcp_specs,
        aliases,
    )
}

/// Every built-in tool that `names` asks for has a specification in `b`.
pub open spec fn builtins_given(names: Seq<CanonicalToolName>, b: Seq<(BuiltInToolName, ToolSpec)>) -> bool {
    forall|i: int| 0 <= i < names.len() ==> (#[trigger] names[i] matches CanonicalToolName::BuiltIn(t) ==> builtin_spec(b, t) is Some)
}

/// A copy of a canonical tool name.
fn copy_canonical(c: &CanonicalToolName) -> (res: CanonicalToolName)
    ensures
        res == *c,
{
    match c {
        CanonicalToolName::BuiltIn(t) => CanonicalToolName::BuiltIn(*t),
        CanonicalToolName::Mcp { server_name, tool_name } => CanonicalToolName::Mcp {
            server_name: server_name.clone(),
            tool_name: tool_name.clone(),
        },
        CanonicalToolName::Agent { agent_name } => CanonicalToolName::Agent { agent_name: agent_name.clone() },
    }
}

/// A copy of a tool specification.
fn copy_tool_spec(t: &ToolSpec) -> (res: ToolSpec)
    ensures
        res == *t,
{
    ToolSpec { name: t.name.clone(), description: t.description.clone(), input_schema: t.input_schema.clone() }
}

/// The alias of the tool with the given full name.
fn lookup_alias(aliases: &Vec<(String, String)>, full_name: &str) -> (res: Option<String>)
    ensures
        match alias_of(aliases@, full_name@) {
            Some(a) => res matches Some(r) && r@ == a,
            None => res is None,
        },
{
    let fc = chars_of(full_name);
    let mut i: usize = 0;
    proof {
        assert(aliases@.skip(0) =~= aliases@);
    }
    while i < aliases.len()
        invariant
            i <= aliases.len(),
            fc@ == full_name@,
            alias_of(aliases@, full_name@) == alias_of(aliases@.skip(i as int), full_name@),
        decreases aliases.len() - i,
    {
        proof {
            assert(aliases@.skip(i as int)[0] == aliases@[i as int]);
            assert(aliases@.skip(i as int).skip(1) =~= aliases@.skip(i + 1));
        }
        if crate::text::chars_equal(&fc, aliases[i].0.as_str()) {
            return Some(aliases[i].1.clone());
        }
        i = i + 1;
    }
    None
}

/// The index of the first listed entry of a server.
fn lookup_server(m: &Vec<(String, Vec<ToolSpec>)>, server: &str) -> (res: Option<usize>)
    ensures
        match server_specs(m@, server@) {
            Some(specs) => res matches Some(i) && i < m@.len() && m@[i as int].1@ == specs,
            None => res is None,
        },
{
    let sc = chars_of(server);
    let mut i: usize = 0;
    proof {
        assert(m@.skip(0) =~= m@);
    }
    while i < m.len()
        invariant
            i <= m.len(),
            sc@ == server@,
            server_specs(m@, server@) == server_specs(m@.skip(i as int), server@),
        decreases m.len() - i,
    {
        proof {
            assert(m@.skip(i as int)[0] == m@[i as int]);
            assert(m@.skip(i as int).skip(1) =~= m@.skip(i + 1));
        }
        if crate::text::chars_equal(&sc, m[i].0.as_str()) {
            return Some(i);
        }
        i = i + 1;
    }
    None
}

/// The specification of a built-in tool.
fn lookup_builtin(b: &Vec<(BuiltInToolName, ToolSpec)>, t: BuiltInToolName) -> (res: Option<ToolSpec>)
    ensures
        res == builtin_spec(b@, t),
{
    let mut i: usize = 0;
    proof {
        assert(b@.skip(0) =~= b@);
    }
    while i < b.len()
        invariant
            i <= b.len(),
            builtin_spec(b@, t) == builtin_spec(b@.skip(i as int), t),
        decreases b.len() - i,
    {
        proof {
            assert(b@.skip(i as int)[0] == b@[i as int]);
            assert(b@.skip(i as int).skip(1) =~= b@.skip(i + 1));
        }
        if b[i].0 == t {
            return Some(copy_tool_spec(&b[i].1));
        }
        i = i + 1;
    }
    None
}

/// The kept characters of a name (see [cleaned_name]).
fn clean_name(s: &str) -> (res: String)
    ensures
        res@ == cleaned_name(s@),
{
    let v = chars_of(s);
    let mut out = String::new();
    let mut i: usize = 0;
    while i < v.len()
        invariant
            i <= v.len(),
            v@ == s@,
            out@ == cleaned_name(v@.take(i as int)),
        decreases v.len() - i,
    {
        let c = v[i];
        proof {
            assert(v@.take(i + 1).drop_last() =~= v@.take(i as int));
            assert(v@.take(i + 1).last() == c);
        }
        if ('a' <= c && c <= 'z') || ('A' <= c && c <= 'Z') || ('0' <= c && c <= '9') || c == '_' || c == '-' {
            push_char(&mut out, c);
        }
        i = i + 1;
    }
    proof {
        assert(v@.take(v.len() as int) =~= v@);
    }
    out
}

impl SanitizedToolSpecs {
    /// The index of the first offered tool with the given name.
    fn find_key_index(&self, k: &str) -> (res: Option<usize>)
        ensures
            match find_key(self@.tool_map, k@) {
                Some(i) => res matches Some(r) && r as int == i,
                None => res is None,
            },
    {
        let ghost m = self@.tool_map;
        let kc = chars_of(k);
        let mut i: usize = 0;
        proof {
            assert(m.skip(0) =~= m);
        }
        while i < self.tool_map.len()
            invariant
                i <= self.tool_map.len(),
                m == self@.tool_map,
                m.len() == self.tool_map.len(),
                kc@ == k@,
                find_key(m, k@) == match find_key(m.skip(i as int), k@) {
                    Some(x) => Some(x + i),
                    None => None,
                },
            decreases self.tool_map.len() - i,
        {
            proof {
                assert(m.skip(i as int)[0] == m[i as int]);
                assert(m[i as int].key == self.tool_map@[i as int].0@);
                assert(m.skip(i as int).skip(1) =~= m.skip(i + 1));
            }
            if crate::text::chars_equal(&kc, self.tool_map[i].0.as_str()) {
                return Some(i);
            }
            i = i + 1;
        }
        None
    }
}

impl SanitizedToolSpecs {
    /// Notes a specification left out.
    fn push_filtered(&mut self, server: &String, spec: &ToolSpec, kind: ToolValidationErrorKind)
        ensures
            final(self)@ == (SanitizedView {
                filtered: old(self)@.filtered.push(
                    ErrorView { server: server@, tool: tool_view(*spec), kind: issue_view(kind) },
                ),
                ..old(self)@
            }),
    {
        let ghost k = kind;
        self.filtered_specs.push(ToolValidationError::new(server.clone(), copy_tool_spec(spec), kind));
        proof {
            assert(self@.filtered =~= old(self)@.filtered.push(
                ErrorView { server: server@, tool: tool_view(*spec), kind: issue_view(k) },
            ));
        }
    }

    /// Notes a specification offered after a change.
    fn push_warning(&mut self, server: &String, spec: &ToolSpec, kind: ToolValidationErrorKind)
        ensures
            final(self)@ == (SanitizedView {
                warnings: old(self)@.warnings.push(
                    ErrorView { server: server@, tool: tool_view(*spec), kind: issue_view(kind) },
                ),
                ..old(self)@
            }),
    {
        let ghost k = kind;
        self.transformed_tool_specs.push(ToolValidationError::new(server.clone(), copy_tool_spec(spec), kind));
        proof {
            assert(self@.warnings =~= old(self)@.warnings.push(
                ErrorView { server: server@, tool: tool_view(*spec), kind: issue_view(k) },
            ));
        }
    }

    /// Handles one tool specification of the server (see [process_tool]).
    fn process_tool(&mut self, re: &regex::Regex, server: &String, spec: ToolSpec, aliases: &Vec<(String, String)>)
        requires
            regex_source(*re) == RTS_VALID_TOOL_NAME_REGEX@,
        ensures
            final(self)@ == process_tool(old(self)@, server@, spec, aliases@),
    {
        let ghost st = self@;
        let canonical = CanonicalToolName::from_mcp_parts(server.clone(), spec.name.clone());
        let full_name = canonical.as_full_name();
        let name = match lookup_alias(aliases, full_name.as_str()) {
            Some(a) => a,
            None => spec.name.clone(),
        };
        let matched = regex_is_match(re, name.as_str());
        let cleaned = if !matched {
            clean_name(name.as_str())
        } else {
            name
        };
        let cc = chars_of(cleaned.as_str());
        if cc.len() == 0 {
            self.push_filtered(server, &spec, ToolValidationErrorKind::EmptyName);
            return ;
        }
        let first = cc[0];
        let n1 = if ('a' <= first && first <= 'z') || ('A' <= first && first <= 'Z') {
            cleaned
        } else {
            let mut t = String::from_str("a");
            t.append(cleaned.as_str());
            proof {
                reveal_strlit("a");
                assert(t@ =~= seq!['a'] + cleaned@);
            }
            t
        };
        if utf8_len_exceeds(n1.as_str(), MAX_TOOL_NAME_LEN) {
            self.push_filtered(server, &spec, ToolValidationErrorKind::NameTooLong);
            return ;
        }
        if spec.description.as_str().unicode_len() == 0 {
            self.push_filtered(server, &spec, ToolValidationErrorKind::EmptyDescription);
            return ;
        }
        match self.find_key_index(n1.as_str()) {
            Some(i) => {
                proof {
                    lemma_find_key(st.tool_map, n1@);
                }
                let c = copy_canonical(&self.tool_map[i].1.canonical_name);
                proof {
                    assert(st.tool_map[i as int].canonical == canon_view(c));
                }
                self.push_filtered(server, &spec, ToolValidationErrorKind::NameCollision(c));
                proof {
                    let w = process_tool(st, server@, spec, aliases@);
                    assert(find_key(st.tool_map, n1@) == Some(i as int));
                    assert(self@.filtered =~= w.filtered);
                }
            },
            None => {
                if utf8_len_exceeds(spec.description.as_str(), MAX_TOOL_SPEC_DESCRIPTION_LEN) {
                    self.push_warning(server, &spec, ToolValidationErrorKind::DescriptionTooLong);
                }
                if !matched {
                    self.push_warning(
                        server,
                        &spec,
                        ToolValidationErrorKind::OutOfSpecName { transformed_name: n1.clone() },
                    );
                }
                let ghost mid = self@;
                let cut = truncate_safe(spec.description.as_str(), MAX_TOOL_SPEC_DESCRIPTION_LEN);
                let key = n1.clone();
                let new_spec = ToolSpec { name: n1, description: cut, input_schema: spec.input_schema };
                self.tool_map.push((key, SanitizedToolSpec { canonical_name: canonical, tool_spec: new_spec }));
                proof {
                    assert(self@.tool_map =~= mid.tool_map.push(
                        EntryView {
                            key: key@,
                            canonical: CanonView::Mcp(server@, spec.name@),
                            tool: ToolView {
                                name: key@,
                                description: fit_prefix(spec.description@, MAX_TOOL_SPEC_DESCRIPTION_LEN as int),
                                input_schema: spec.input_schema,
                            },
                        },
                    ));
                    let w = process_tool(st, server@, spec, aliases@);
                    lemma_find_key(st.tool_map, n1@);
                    assert(find_key(st.tool_map, key@) is None);
                    assert(self@.warnings =~= w.warnings);
                    assert(self@.tool_map =~= w.tool_map);
                    assert(self@.filtered =~= w.filtered);
                }
            },
        }
    }
}

/// Whether the names hold `s`.
fn contains_string(v: &Vec<String>, s: &str) -> (res: bool)
    ensures
        res == strings_view(v@).contains(s@),
{
    let sc = chars_of(s);
    let mut i: usize = 0;
    while i < v.len()
        invariant
            i <= v.len(),
            sc@ == s@,
            forall|j: int| 0 <= j < i ==> strings_view(v@)[j] != s@,
        decreases v.len() - i,
    {
        if crate::text::chars_equal(&sc, v[i].as_str()) {
            proof {
                assert(strings_view(v@)[i as int] == s@);
            }
            return true;
        }
        i = i + 1;
    }
    false
}

impl SanitizedToolSpecs {
    /// Offers a built-in tool under its name, replacing one offered under the same name.
    fn insert_builtin(&mut self, t: BuiltInToolName, spec: ToolSpec)
        ensures
            final(self)@ == (SanitizedView {
                tool_map: map_insert(
                    old(self)@.tool_map,
                    EntryView { key: builtin_tool_name_str(t), canonical: CanonView::BuiltIn(t), tool: tool_view(spec) },
                ),
                ..old(self)@
            }),
    {
        let ghost st = self@;
        let ghost e = EntryView { key: builtin_tool_name_str(t), canonical: CanonView::BuiltIn(t), tool: tool_view(spec) };
        let key = String::from_str(t.as_str());
        let entry = SanitizedToolSpec { canonical_name: CanonicalToolName::BuiltIn(t), tool_spec: spec };
        proof {
            lemma_find_key(st.tool_map, key@);
        }
        match self.find_key_index(key.as_str()) {
            Some(i) => {
                self.tool_map.remove(i);
                self.tool_map.insert(i, (key, entry));
                proof {
                    assert(self@.tool_map =~= st.tool_map.update(i as int, e));
                }
            },
            None => {
                self.tool_map.push((key, entry));
                proof {
                    assert(self@.tool_map =~= st.tool_map.push(e));
                }
            },
        }
        proof {
            assert(self@.filtered =~= st.filtered);
            assert(self@.warnings =~= st.warnings);
        }
    }
}

/// Creates the set of tool specifications to send to the model: the built-in tools that
/// `canonical_names` asks for, under their names, with the specifications given for them;
/// then, server by server in increasing order of server name, the tools asked for of each MCP
/// server listed in `mcp_tool_specs`, renamed by `aliases` (keyed by full tool name) and
/// sanitized to pass the backend's validation (see [process_tool]).
pub fn sanitize_tool_specs(
    canonical_names: Vec<CanonicalToolName>,
    mcp_tool_specs: Vec<(String, Vec<ToolSpec>)>,
    aliases: &Vec<(String, String)>,
    builtin_tool_specs: &Vec<(BuiltInToolName, ToolSpec)>,
) -> (res: SanitizedToolSpecs)
    requires
        builtins_given(canonical_names@, builtin_tool_specs@),
    ensures
        res@ == sanitized(canonical_names@, mcp_tool_specs@, aliases@, builtin_tool_specs@),
{
    let re = match regex_new(RTS_VALID_TOOL_NAME_REGEX) {
        Ok(r) => r,
        Err(_) => {
            assert(false);
            return SanitizedToolSpecs { tool_map: Vec::new(), filtered_specs: Vec::new(), transformed_tool_specs: Vec::new() };
        },
    };
    let ghost names = canonical_names@;
    let ghost b = builtin_tool_specs@;
    let mut out = SanitizedToolSpecs {
        tool_map: Vec::new(),
        filtered_specs: Vec::new(),
        transformed_tool_specs: Vec::new(),
    };
    proof {
        assert(out@.tool_map =~= Seq::<EntryView>::empty());
        assert(out@.filtered =~= Seq::<ErrorView>::empty());
        assert(out@.warnings =~= Seq::<ErrorView>::empty());
        assert(names.take(0) =~= Seq::<CanonicalToolName>::empty());
    }
    let mut k: usize = 0;
    while k < canonical_names.len()
        invariant
            k <= canonical_names.len(),
            names == canonical_names@,
            b == builtin_tool_specs@,
            builtins_given(names, b),
            out@ == (SanitizedView {
                tool_map: builtin_entries(names.take(k as int), b),
                filtered: Seq::empty(),
                warnings: Seq::empty(),
            }),
        decreases canonical_names.len() - k,
    {
        proof {
            assert(names.take(k + 1).drop_last() =~= names.take(k as int));
            assert(names.take(k + 1).last() == names[k as int]);
        }
        match &canonical_names[k] {
            CanonicalToolName::BuiltIn(t) => {
                proof {
                    assert(names[k as int] matches CanonicalToolName::BuiltIn(t));
                }
                match lookup_builtin(builtin_tool_specs, *t) {
                    Some(spec) => {
                        out.insert_builtin(*t, spec);
                    },
                    None => {
                        proof {
                            assert(false);
                        }
                    },
                }
            },
            _ => {},
        }
        k = k + 1;
    }
    proof {
        assert(names.take(names.len() as int) =~= names);
    }
    let ghost base = out@;
    let wanted = collect_mcp_requests(&canonical_names);
    let ghost order = request_keys(wanted@);
    proof {
        assert(order.take(0) =~= Seq::<Seq<char>>::empty());
    }
    let mut i: usize = 0;
    while i < wanted.len()
        invariant
            i <= wanted.len(),
            names == canonical_names@,
            order == request_keys(wanted@),
            order.len() == wanted@.len(),
            regex_source(re) == RTS_VALID_TOOL_NAME_REGEX@,
            forall|a: int, t: Seq<char>|
                0 <= a < wanted@.len() ==> (strings_view(wanted@[a].1@).contains(t) <==> requests(
                    names,
                    wanted@[a].0@,
                    t,
                )),
            out@ == process_servers(base, order.take(i as int), names, mcp_tool_specs@, aliases@),
        decreases wanted.len() - i,
    {
        let ghost before = out@;
        let server = &wanted[i].0;
        proof {
            assert(order.take(i + 1).drop_last() =~= order.take(i as int));
            assert(order.take(i + 1).last() == server@);
        }
        match lookup_server(&mcp_tool_specs, server.as_str()) {
            None => {},
            Some(idx) => {
                let all = &mcp_tool_specs[idx].1;
                let tools = &wanted[i].1;
                let mut j: usize = 0;
                proof {
                    assert(all@.take(0) =~= Seq::<ToolSpec>::empty());
                }
                while j < all.len()
                    invariant
                        j <= all.len(),
                        regex_source(re) == RTS_VALID_TOOL_NAME_REGEX@,
                        forall|t: Seq<char>| strings_view(tools@).contains(t) <==> requests(names, server@, t),
                        out@ == process_tools(before, server@, requested_specs(names, server@, all@.take(j as int)), aliases@),
                    decreases all.len() - j,
                {
                    proof {
                        assert(all@.take(j + 1).drop_last() =~= all@.take(j as int));
                        assert(all@.take(j + 1).last() == all@[j as int]);
                    }
                    if contains_string(tools, all[j].name.as_str()) {
                        let spec = copy_tool_spec(&all[j]);
                        let ghost rs = requested_specs(names, server@, all@.take(j as int));
                        out.process_tool(&re, server, spec, aliases);
                        proof {
                            assert(rs.push(spec).drop_last() =~= rs);
                        }
                    }
                    j = j + 1;
                }
                proof {
                    assert(all@.take(all.len() as int) =~= all@);
                }
            },
        }
        i = i + 1;
    }
    proof {
        assert(order.take(order.len() as int) =~= order);
        assert(is_server_order(names, server_order(names)));
        lemma_sorted_unique(order, server_order(names));
    }
    out
}

/// No two offered tools have the same name.
pub open spec fn keys_distinct(m: Seq<EntryView>) -> bool {
    forall|i: int, j: int| 0 <= i < j < m.len() ==> m[i].key != m[j].key
}

proof fn lemma_map_insert_distinct(m: Seq<EntryView>, e: EntryView)
    requires
        keys_distinct(m),
    ensures
        keys_distinct(map_insert(m, e)),
{
    lemma_find_key(m, e.key);
}

proof fn lemma_process_tool_distinct(st: SanitizedView, server: Seq<char>, spec: ToolSpec, aliases: Seq<(String, String)>)
    requires
        keys_distinct(st.tool_map),
    ensures
        keys_distinct(process_tool(st, server, spec, aliases).tool_map),
{
    let full = "@"@ + server + "/"@ + spec.name@;
    let name = match alias_of(aliases, full) {
        Some(a) => a,
        None => spec.name@,
    };
    let mismatch = !regex_matches(RTS_VALID_TOOL_NAME_REGEX@, name);
    let cleaned = if mismatch {
        cleaned_name(name)
    } else {
        name
    };
    if cleaned.len() > 0 {
        let n1 = if ascii_letter(cleaned[0]) {
            cleaned
        } else {
            seq!['a'] + cleaned
        };
        lemma_find_key(st.tool_map, n1);
    }
}

proof fn lemma_process_tools_distinct(
    st: SanitizedView,
    server: Seq<char>,
    specs: Seq<ToolSpec>,
    aliases: Seq<(String, String)>,
)
    requires
        keys_distinct(st.tool_map),
    ensures
        keys_distinct(process_tools(st, server, specs, aliases).tool_map),
    decreases specs.len(),
{
    if specs.len() > 0 {
        lemma_process_tools_distinct(st, server, specs.drop_last(), aliases);
        lemma_process_tool_distinct(process_tools(st, server, specs.drop_last(), aliases), server, specs.last(), aliases);
    }
}

proof fn lemma_process_servers_distinct(
    st: SanitizedView,
    order: Seq<Seq<char>>,
    names: Seq<CanonicalToolName>,
    mcp_specs: Seq<(String, Vec<ToolSpec>)>,
    aliases: Seq<(String, String)>,
)
    requires
        keys_distinct(st.tool_map),
    ensures
        keys_distinct(process_servers(st, order, names, mcp_specs, aliases).tool_map),
    decreases order.len(),
{
    if order.len() > 0 {
        lemma_process_servers_distinct(st, order.drop_last(), names, mcp_specs, aliases);
        let before = process_servers(st, order.drop_last(), names, mcp_specs, aliases);
        match server_specs(mcp_specs, order.last()) {
            Some(all) => lemma_process_tools_distinct(
                before,
                order.last(),
                requested_specs(names, order.last(), all),
                aliases,
            ),
            None => {},
        }
    }
}

proof fn lemma_builtin_entries_distinct(names: Seq<CanonicalToolName>, b: Seq<(BuiltInToolName, ToolSpec)>)
    ensures
        keys_distinct(builtin_entries(names, b)),
    decreases names.len(),
{
    if names.len() > 0 {
        lemma_builtin_entries_distinct(names.drop_last(), b);
        match names.last() {
            CanonicalToolName::BuiltIn(t) => lemma_map_insert_distinct(
                builtin_entries(names.drop_last(), b),
                EntryView {
                    key: builtin_tool_name_str(t),
                    canonical: CanonView::BuiltIn(t),
                    tool: tool_view(builtin_spec(b, t).unwrap()),
                },
            ),
            _ => {},
        }
    }
}

/// The offered tools form a map by name: no two are offered under the same name, whatever the
/// tool names, servers, specifications and aliases.
pub proof fn lemma_offered_names_distinct(
    names: Seq<CanonicalToolName>,
    mcp_specs: Seq<(String, Vec<ToolSpec>)>,
    aliases: Seq<(String, String)>,
    b: Seq<(BuiltInToolName, ToolSpec)>,
)
    ensures
        keys_distinct(sanitized(names, mcp_specs, aliases, b).tool_map),
{
    lemma_builtin_entries_distinct(names, b);
    lemma_process_servers_distinct(
        SanitizedView { tool_map: builtin_entries(names, b), filtered: Seq::empty(), warnings: Seq::empty() },
        server_order(names),
        names,
        mcp_specs,
        aliases,
    );
}

/// An offered MCP tool passes the checks the backend makes: its name is non-empty, starts
/// with an ASCII letter and fits in [MAX_TOOL_NAME_LEN] bytes, and is the name in its
/// specification; its description is non-empty and fits in [MAX_TOOL_SPEC_DESCRIPTION_LEN]
/// bytes.
pub open spec fn valid_mcp_entry(e: EntryView) -> bool {
    e.canonical is Mcp ==> {
        &&& e.key.len() > 0
        &&& ascii_letter(e.key[0])
        &&& utf8_len(e.key) <= MAX_TOOL_NAME_LEN
        &&& e.tool.name == e.key
        &&& e.tool.description.len() > 0
        &&& utf8_len(e.tool.description) <= MAX_TOOL_SPEC_DESCRIPTION_LEN
    }
}

/// Every offered MCP tool passes the backend's checks.
pub open spec fn all_mcp_entries_valid(m: Seq<EntryView>) -> bool {
    forall|i: int| 0 <= i < m.len() ==> valid_mcp_entry(#[trigger] m[i])
}

proof fn lemma_fit_prefix_nonempty(s: Seq<char>, max: int)
    requires
        s.len() > 0,
        max >= 4,
    ensures
        fit_prefix(s, max).len() > 0,
{
    assert(crate::compact::utf8_width(s[0]) <= 4);
}

proof fn lemma_process_tool_valid(st: SanitizedView, server: Seq<char>, spec: ToolSpec, aliases: Seq<(String, String)>)
    requires
        all_mcp_entries_valid(st.tool_map),
    ensures
        all_mcp_entries_valid(process_tool(st, server, spec, aliases).tool_map),
{
    let full = "@"@ + server + "/"@ + spec.name@;
    let name = match alias_of(aliases, full) {
        Some(a) => a,
        None => spec.name@,
    };
    let mismatch = !regex_matches(RTS_VALID_TOOL_NAME_REGEX@, name);
    let cleaned = if mismatch {
        cleaned_name(name)
    } else {
        name
    };
    if cleaned.len() > 0 && spec.description@.len() > 0 {
        crate::compact::lemma_fit_prefix_fits(spec.description@, MAX_TOOL_SPEC_DESCRIPTION_LEN as int);
        lemma_fit_prefix_nonempty(spec.description@, MAX_TOOL_SPEC_DESCRIPTION_LEN as int);
        let n1 = if ascii_letter(cleaned[0]) {
            cleaned
        } else {
            seq!['a'] + cleaned
        };
        assert(n1.len() > 0 && ascii_letter(n1[0]));
        let r = process_tool(st, server, spec, aliases).tool_map;
        assert forall|i: int| 0 <= i < r.len() implies valid_mcp_entry(#[trigger] r[i]) by {
            if i < st.tool_map.len() {
                assert(r[i] == st.tool_map[i]);
            }
        }
    }
}

proof fn lemma_process_tools_valid(
    st: SanitizedView,
    server: Seq<char>,
    specs: Seq<ToolSpec>,
    aliases: Seq<(String, String)>,
)
    requires
        all_mcp_entries_valid(st.tool_map),
    ensures
        all_mcp_entries_valid(process_tools(st, server, specs, aliases).tool_map),
    decreases specs.len(),
{
    if specs.len() > 0 {
        lemma_process_tools_valid(st, server, specs.drop_last(), aliases);
        lemma_process_tool_valid(process_tools(st, server, specs.drop_last(), aliases), server, specs.last(), aliases);
    }
}

proof fn lemma_process_servers_valid(
    st: SanitizedView,
    order: Seq<Seq<char>>,
    names: Seq<CanonicalToolName>,
    mcp_specs: Seq<(String, Vec<ToolSpec>)>,
    aliases: Seq<(String, String)>,
)
    requires
        all_mcp_entries_valid(st.tool_map),
    ensures
        all_mcp_entries_valid(process_servers(st, order, names, mcp_specs, aliases).tool_map),
    decreases order.len(),
{
    if order.len() > 0 {
        lemma_process_servers_valid(st, order.drop_last(), names, mcp_specs, aliases);
        let before = process_servers(st, order.drop_last(), names, mcp_specs, aliases);
        match server_specs(mcp_specs, order.last()) {
            Some(all) => lemma_process_tools_valid(before, order.last(), requested_specs(names, order.last(), all), aliases),
            None => {},
        }
    }
}

proof fn lemma_builtin_entries_valid(names: Seq<CanonicalToolName>, b: Seq<(BuiltInToolName, ToolSpec)>)
    ensures
        all_mcp_entries_valid(builtin_entries(names, b)),
        forall|i: int| 0 <= i < builtin_entries(names, b).len() ==> (#[trigger] builtin_entries(names, b)[i]).canonical is BuiltIn,
    decreases names.len(),
{
    if names.len() > 0 {
        lemma_builtin_entries_valid(names.drop_last(), b);
        let m = builtin_entries(names.drop_last(), b);
        match names.last() {
            CanonicalToolName::BuiltIn(t) => {
                let e = EntryView {
                    key: builtin_tool_name_str(t),
                    canonical: CanonView::BuiltIn(t),
                    tool: tool_view(builtin_spec(b, t).unwrap()),
                };
                lemma_find_key(m, e.key);
                let r = map_insert(m, e);
                assert forall|i: int| 0 <= i < r.len() implies (#[trigger] r[i]).canonical is BuiltIn by {
                    if i < m.len() && r[i] != e {
                        assert(r[i] == m[i]);
                    }
                }
            },
            _ => {},
        }
    }
}

/// Every MCP tool offered passes the backend's checks on names and descriptions (see
/// [valid_mcp_entry]), whatever the tool names, servers, specifications and aliases.
pub proof fn lemma_offered_mcp_tools_valid(
    names: Seq<CanonicalToolName>,
    mcp_specs: Seq<(String, Vec<ToolSpec>)>,
    aliases: Seq<(String, String)>,
    b: Seq<(BuiltInToolName, ToolSpec)>,
)
    ensures
        all_mcp_entries_valid(sanitized(names, mcp_specs, aliases, b).tool_map),
{
    lemma_builtin_entries_valid(names, b);
    lemma_process_servers_valid(
        SanitizedView { tool_map: builtin_entries(names, b), filtered: Seq::empty(), warnings: Seq::empty() },
        server_order(names),
        names,
        mcp_specs,
        aliases,
    );
}

} // verus!
