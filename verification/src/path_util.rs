//! Path expansion and normalization, and the system values they depend on.

use vstd::prelude::*;

use crate::text::{chars_of, has_char, push_char, string_from_chars};

verus! {

/// Errors of the path and system utilities.
#[derive(Debug)]
pub enum UtilError {
    MissingHomeDir,
    MissingDataLocalDir,
    /// An I/O failure, with what was being done and the failure's message.
    Io { context: String, message: String },
    Custom(String),
    /// A glob set could not be built.
    GlobsetError(globset::Error),
}

/// The context of the error returned when there is no current directory.
pub open spec fn cwd_error_context() -> Seq<char> {
    "could not get current directory"@
}

/// The message of the error returned when there is no current directory.
pub open spec fn cwd_error_message() -> Seq<char> {
    "not found"@
}

/// The model of a [TestProvider]: its environment variables, home directory and
/// current directory.
pub struct ProviderModel {
    pub env: Map<Seq<char>, Seq<char>>,
    pub home: Option<Seq<char>>,
    pub cwd: Option<Seq<char>>,
}

/// The environment described by a list of assignments; a later one overrides an
/// earlier one for the same name.
pub open spec fn env_map(pairs: Seq<(String, String)>) -> Map<Seq<char>, Seq<char>>
    decreases pairs.len(),
{
    if pairs.len() == 0 {
        Map::empty()
    } else {
        env_map(pairs.drop_last()).insert(pairs.last().0@, pairs.last().1@)
    }
}

/// A provider of environment variables, the home directory and the current directory,
/// held as plain values.
#[derive(Debug, Clone)]
pub struct TestProvider {
    env: Vec<(String, String)>,
    home: Option<String>,
    cwd: Option<String>,
}

/// The view of an optional string.
pub open spec fn opt_view(s: Option<String>) -> Option<Seq<char>> {
    match s {
        Some(v) => Some(v@),
        None => None,
    }
}

impl View for TestProvider {
    type V = ProviderModel;

    closed spec fn view(&self) -> ProviderModel {
        ProviderModel { env: env_map(self.env@), home: opt_view(self.home), cwd: opt_view(self.cwd) }
    }
}

/// Whether `s` is an absolute path.
pub open spec fn is_absolute(s: Seq<char>) -> bool {
    s.len() > 0 && s[0] == '/'
}

proof fn lemma_env_map_lookup(pairs: Seq<(String, String)>, i: int, key: Seq<char>)
    requires
        0 <= i <= pairs.len(),
        forall|j: int| i <= j < pairs.len() ==> pairs[j].0@ != key,
    ensures
        env_map(pairs).contains_key(key) == env_map(pairs.take(i)).contains_key(key),
        env_map(pairs).contains_key(key) ==> env_map(pairs)[key] == env_map(pairs.take(i))[key],
    decreases pairs.len() - i,
{
    if i < pairs.len() {
        lemma_env_map_lookup(pairs.drop_last(), i, key);
        assert(pairs.drop_last().take(i) =~= pairs.take(i));
    } else {
        assert(pairs.take(i) =~= pairs);
    }
}

/// A variable set on a provider reads back as the value set, and other variables are
/// unchanged.
pub proof fn lemma_var_after_with_var(env: Map<Seq<char>, Seq<char>>, key: Seq<char>, value: Seq<char>, other: Seq<char>)
    requires
        other != key,
    ensures
        env.insert(key, value).contains_key(key),
        env.insert(key, value)[key] == value,
        env.insert(key, value).contains_key(other) == env.contains_key(other),
        env.contains_key(other) ==> env.insert(key, value)[other] == env[other],
{
}

impl TestProvider {
    /// Creates a provider with `HOME=/home/testuser`, and `/home/testuser` as both the
    /// home and the current directory.
    pub fn new() -> (res: Self)
        ensures
            res@.env == map!["HOME"@ => "/home/testuser"@],
            res@.home == Some("/home/testuser"@),
            res@.cwd == Some("/home/testuser"@),
    {
        let mut env: Vec<(String, String)> = Vec::new();
        env.push((String::from_str("HOME"), String::from_str("/home/testuser")));
        let res = TestProvider {
            env,
            home: Some(String::from_str("/home/testuser")),
            cwd: Some(String::from_str("/home/testuser")),
        };
        proof {
            assert(res.env@.drop_last() =~= Seq::<(String, String)>::empty());
            assert(env_map(res.env@.drop_last()) == Map::<Seq<char>, Seq<char>>::empty());
            assert(env_map(res.env@) =~= map!["HOME"@ => "/home/testuser"@]);
        }
        res
    }

    /// Creates a provider with `HOME=base`, and `base` as both the home and the current
    /// directory. `base` must be absolute.
    pub fn new_with_base(base: &str) -> (res: Self)
        requires
            is_absolute(base@),
        ensures
            res@.env == map!["HOME"@ => base@],
            res@.home == Some(base@),
            res@.cwd == Some(base@),
    {
        let mut env: Vec<(String, String)> = Vec::new();
        env.push((String::from_str("HOME"), String::from_str(base)));
        let res = TestProvider {
            env,
            home: Some(String::from_str(base)),
            cwd: Some(String::from_str(base)),
        };
        proof {
            assert(res.env@.drop_last() =~= Seq::<(String, String)>::empty());
            assert(env_map(res.env@.drop_last()) == Map::<Seq<char>, Seq<char>>::empty());
            assert(env_map(res.env@) =~= map!["HOME"@ => base@]);
        }
        res
    }

    /// Sets the environment variable `key` to `value`.
    pub fn with_var(self, key: &str, value: &str) -> (res: Self)
        ensures
            res@.env == self@.env.insert(key@, value@),
            res@.home == self@.home,
            res@.cwd == self@.cwd,
    {
        let mut s = self;
        s.env.push((String::from_str(key), String::from_str(value)));
        proof {
            assert(s.env@.drop_last() =~= self.env@);
        }
        s
    }

    /// Sets the current directory.
    pub fn with_cwd(self, cwd: &str) -> (res: Self)
        ensures
            res@.env == self@.env,
            res@.home == self@.home,
            res@.cwd == Some(cwd@),
    {
        let mut s = self;
        s.cwd = Some(String::from_str(cwd));
        s
    }

    /// The value of the environment variable `key`, if it is set.
    pub fn var(&self, key: &str) -> (res: Option<String>)
        ensures
            res is Some <==> self@.env.contains_key(key@),
            res matches Some(v) ==> v@ == self@.env[key@],
    {
        let k = String::from_str(key);
        let mut i: usize = self.env.len();
        while i > 0
            invariant
                i <= self.env.len(),
                k@ == key@,
                forall|j: int| i <= j < self.env@.len() ==> self.env@[j].0@ != key@,
            decreases i,
        {
            i = i - 1;
            if self.env[i].0 == k {
                proof {
                    lemma_env_map_lookup(self.env@, i + 1, key@);
                    assert(self.env@.take(i + 1).drop_last() =~= self.env@.take(i as int));
                }
                return Some(self.env[i].1.clone());
            }
        }
        proof {
            lemma_env_map_lookup(self.env@, 0, key@);
            assert(self.env@.take(0) =~= Seq::<(String, String)>::empty());
        }
        None
    }

    /// The home directory, if there is one.
    pub fn home(&self) -> (res: Option<String>)
        ensures
            opt_view(res) == self@.home,
    {
        match &self.home {
            Some(h) => Some(h.clone()),
            None => None,
        }
    }

    /// The current directory, if there is one.
    pub fn cwd(&self) -> (res: Option<String>)
        ensures
            opt_view(res) == self@.cwd,
    {
        match &self.cwd {
            Some(c) => Some(c.clone()),
            None => None,
        }
    }
}

/// What tilde expansion makes of `s`: a leading `~` that is alone or followed by `/`
/// becomes the home directory, when there is one.
pub open spec fn tilde_expansion(s: Seq<char>, home: Option<Seq<char>>) -> Seq<char> {
    if s.len() > 0 && s[0] == '~' && (s.len() == 1 || s[1] == '/') && home is Some {
        home.unwrap() + s.skip(1)
    } else {
        s
    }
}

/// What shell-style expansion of `~` and `$VAR` makes of `input`, given the
/// environment and the home directory. Unknown variables stay as written.
pub uninterp spec fn shell_expansion(
    input: Seq<char>,
    env: Map<Seq<char>, Seq<char>>,
    home: Option<Seq<char>>,
) -> Seq<char>;

/// Expands a leading tilde and environment variables in `input`, with the provider's
/// home directory and variables, by `shellexpand::full_with_context_no_errors`.
/// The result is named by [shell_expansion]; the crate's source shows that an input
/// without `$` undergoes tilde expansion only.
#[verifier::external_body]
fn shell_expand(input: &str, provider: &TestProvider) -> (res: String)
    ensures
        res@ == shell_expansion(input@, provider@.env, provider@.home),
        !has_char(input@, '$') ==> res@ == tilde_expansion(input@, provider@.home),
{
    shellexpand::full_with_context_no_errors(input, || provider.home(), |name: &str| provider.var(name)).into_owned()
}

/// Splits a path at each `/`: the segments completed so far and the segment in progress.
pub open spec fn split_scan(s: Seq<char>) -> (Seq<Seq<char>>, Seq<char>)
    decreases s.len(),
{
    if s.len() == 0 {
        (Seq::empty(), Seq::empty())
    } else {
        let (segs, cur) = split_scan(s.drop_last());
        if s.last() == '/' {
            (segs.push(cur), Seq::empty())
        } else {
            (segs, cur.push(s.last()))
        }
    }
}

/// The root path is one empty segment followed by an empty current segment.
proof fn lemma_scan_root()
    ensures
        split_scan(seq!['/']) == (seq![Seq::<char>::empty()], Seq::<char>::empty()),
{
    let x = seq!['/'];
    assert(x.drop_last() =~= Seq::<char>::empty());
    assert(x.last() == '/');
    assert(split_scan(x.drop_last()) == (Seq::<Seq<char>>::empty(), Seq::<char>::empty()));
    assert(Seq::<Seq<char>>::empty().push(Seq::<char>::empty()) =~= seq![Seq::<char>::empty()]);
}

/// The `/`-separated segments of a path, empty ones included.
pub open spec fn path_segments(s: Seq<char>) -> Seq<Seq<char>> {
    split_scan(s).0.push(split_scan(s).1)
}

/// A normalized path under construction: whether it starts at the root, and its names.
pub struct PathStack {
    pub rooted: bool,
    pub names: Seq<Seq<char>>,
}

/// Applies one segment: empty and `.` segments are skipped, `..` removes the last name (and
/// does nothing when there is none, so `..` at the root stays at the root), and any other
/// segment is appended.
pub open spec fn path_step(st: PathStack, seg: Seq<char>) -> PathStack {
    if seg.len() == 0 || seg == "."@ {
        st
    } else if seg == ".."@ {
        if st.names.len() > 0 {
            PathStack { rooted: st.rooted, names: st.names.drop_last() }
        } else {
            st
        }
    } else {
        PathStack { rooted: st.rooted, names: st.names.push(seg) }
    }
}

/// Applies the segments in order.
pub open spec fn path_steps(st: PathStack, segs: Seq<Seq<char>>) -> PathStack
    decreases segs.len(),
{
    if segs.len() == 0 {
        st
    } else {
        path_step(path_steps(st, segs.drop_last()), segs.last())
    }
}

/// The names joined with `/`.
pub open spec fn join_names(names: Seq<Seq<char>>) -> Seq<char>
    decreases names.len(),
{
    if names.len() == 0 {
        Seq::empty()
    } else if names.len() == 1 {
        names[0]
    } else {
        join_names(names.drop_last()) + "/"@ + names.last()
    }
}

/// The path that a stack stands for.
pub open spec fn render_path(st: PathStack) -> Seq<char> {
    if st.rooted {
        "/"@ + join_names(st.names)
    } else {
        join_names(st.names)
    }
}

proof fn lemma_steps_keep_rooted(st: PathStack, segs: Seq<Seq<char>>)
    ensures
        path_steps(st, segs).rooted == st.rooted,
    decreases segs.len(),
{
    if segs.len() > 0 {
        lemma_steps_keep_rooted(st, segs.drop_last());
    }
}

/// Normalizing keeps a path absolute: an absolute path normalizes to one that starts at the
/// root (`..` at the root stays there), and a relative one to a relative one.
pub proof fn lemma_normalized_stays_absolute(s: Seq<char>)
    ensures
        is_absolute(s) ==> is_absolute(normalized_path(s)),
        normal_stack(s).rooted == is_absolute(s),
{
    lemma_steps_keep_rooted(PathStack { rooted: is_absolute(s), names: Seq::empty() }, path_segments(s));
    reveal_strlit("/");
    if is_absolute(s) {
        assert(normalized_path(s)[0] == '/');
    }
}

/// The stack that normalizing `s` ends with.
pub open spec fn normal_stack(s: Seq<char>) -> PathStack {
    path_steps(PathStack { rooted: is_absolute(s), names: Seq::empty() }, path_segments(s))
}

/// `s` with `.` and `..` components resolved and repeated separators removed.
pub open spec fn normalized_path(s: Seq<char>) -> Seq<char> {
    render_path(normal_stack(s))
}

/// A name that can stand in a normalized path.
pub open spec fn is_plain_name(n: Seq<char>) -> bool {
    n.len() > 0 && n != "."@ && n != ".."@ && !has_char(n, '/')
}

/// Whether every name can stand in a normalized path.
pub open spec fn all_plain(names: Seq<Seq<char>>) -> bool {
    forall|i: int| 0 <= i < names.len() ==> is_plain_name(#[trigger] names[i])
}

proof fn lemma_scan_append_plain(x: Seq<char>, y: Seq<char>)
    requires
        !has_char(y, '/'),
    ensures
        split_scan(x + y) == (split_scan(x).0, split_scan(x).1 + y),
    decreases y.len(),
{
    if y.len() == 0 {
        assert(x + y =~= x);
        assert(split_scan(x).1 + y =~= split_scan(x).1);
    } else {
        assert(!has_char(y.drop_last(), '/')) by {
            assert forall|i: int| 0 <= i < y.drop_last().len() implies y.drop_last()[i] != '/' by {
                assert(y.drop_last()[i] == y[i]);
            }
        }
        lemma_scan_append_plain(x, y.drop_last());
        assert((x + y).drop_last() =~= x + y.drop_last());
        assert((x + y).last() == y.last());
        assert(y.last() != '/') by {
            assert(y[y.len() - 1] == y.last());
        }
        assert((split_scan(x).1 + y.drop_last()).push(y.last()) =~= split_scan(x).1 + y);
    }
}

proof fn lemma_scan_of_join(x: Seq<char>, names: Seq<Seq<char>>)
    requires
        names.len() >= 1,
        forall|i: int| 0 <= i < names.len() ==> !has_char(#[trigger] names[i], '/'),
    ensures
        ({
            let l = seq![split_scan(x).1 + names[0]] + names.skip(1);
            split_scan(x + join_names(names)) == (split_scan(x).0 + l.drop_last(), l.last())
        }),
    decreases names.len(),
{
    reveal_strlit("/");
    let l = seq![split_scan(x).1 + names[0]] + names.skip(1);
    if names.len() == 1 {
        lemma_scan_append_plain(x, names[0]);
        assert(l.drop_last() =~= Seq::<Seq<char>>::empty());
        assert(split_scan(x).0 + l.drop_last() =~= split_scan(x).0);
    } else {
        let init = names.drop_last();
        let last = names.last();
        assert forall|i: int| 0 <= i < init.len() implies !has_char(#[trigger] init[i], '/') by {
            assert(init[i] == names[i]);
        }
        lemma_scan_of_join(x, init);
        let li = seq![split_scan(x).1 + init[0]] + init.skip(1);
        let y = x + join_names(init);
        assert(x + join_names(names) =~= y.push('/') + last);
        assert(y.push('/').drop_last() =~= y);
        assert(split_scan(y.push('/')) == (split_scan(y).0.push(split_scan(y).1), Seq::<char>::empty()));
        assert(split_scan(y).0.push(split_scan(y).1) =~= split_scan(x).0 + li);
        assert(!has_char(last, '/')) by {
            assert(last == names[names.len() - 1]);
        }
        lemma_scan_append_plain(y.push('/'), last);
        assert(Seq::<char>::empty() + last =~= last);
        assert(l =~= li.push(last));
        assert(l.drop_last() =~= li);
    }
}

proof fn lemma_steps_concat(st: PathStack, a: Seq<Seq<char>>, b: Seq<Seq<char>>)
    ensures
        path_steps(st, a + b) == path_steps(path_steps(st, a), b),
    decreases b.len(),
{
    if b.len() == 0 {
        assert(a + b =~= a);
    } else {
        lemma_steps_concat(st, a, b.drop_last());
        assert((a + b).drop_last() =~= a + b.drop_last());
        assert((a + b).last() == b.last());
    }
}

proof fn lemma_steps_plain(st: PathStack, segs: Seq<Seq<char>>)
    requires
        all_plain(segs),
    ensures
        path_steps(st, segs) == (PathStack { rooted: st.rooted, names: st.names + segs }),
    decreases segs.len(),
{
    if segs.len() == 0 {
        assert(st.names + segs =~= st.names);
    } else {
        assert(all_plain(segs.drop_last())) by {
            assert forall|i: int| 0 <= i < segs.drop_last().len() implies is_plain_name(#[trigger] segs.drop_last()[i]) by {
                assert(segs.drop_last()[i] == segs[i]);
            }
        }
        lemma_steps_plain(st, segs.drop_last());
        let last = segs.last();
        assert(is_plain_name(segs[segs.len() - 1]));
        assert(st.names + segs.drop_last() + seq![last] =~= st.names + segs);
        assert((st.names + segs.drop_last()).push(last) =~= st.names + segs);
    }
}

proof fn lemma_scan_no_separator(s: Seq<char>)
    ensures
        forall|i: int| 0 <= i < split_scan(s).0.len() ==> !has_char(#[trigger] split_scan(s).0[i], '/'),
        !has_char(split_scan(s).1, '/'),
    decreases s.len(),
{
    if s.len() > 0 {
        lemma_scan_no_separator(s.drop_last());
        let (segs, cur) = split_scan(s.drop_last());
        if s.last() != '/' {
            assert forall|i: int| 0 <= i < cur.push(s.last()).len() implies cur.push(s.last())[i] != '/' by {
                if i < cur.len() {
                    assert(cur.push(s.last())[i] == cur[i]);
                }
            }
        } else {
            assert forall|i: int| 0 <= i < segs.push(cur).len() implies !has_char(#[trigger] segs.push(cur)[i], '/') by {
                if i < segs.len() {
                    assert(segs.push(cur)[i] == segs[i]);
                }
            }
        }
    }
}

proof fn lemma_steps_keep_plain(st: PathStack, segs: Seq<Seq<char>>)
    requires
        all_plain(st.names),
        forall|i: int| 0 <= i < segs.len() ==> !has_char(#[trigger] segs[i], '/'),
    ensures
        all_plain(path_steps(st, segs).names),
    decreases segs.len(),
{
    if segs.len() > 0 {
        assert forall|i: int| 0 <= i < segs.drop_last().len() implies !has_char(#[trigger] segs.drop_last()[i], '/') by {
            assert(segs.drop_last()[i] == segs[i]);
        }
        lemma_steps_keep_plain(st, segs.drop_last());
        let prev = path_steps(st, segs.drop_last());
        let seg = segs.last();
        assert(!has_char(seg, '/')) by {
            assert(seg == segs[segs.len() - 1]);
        }
        let next = path_step(prev, seg);
        assert forall|i: int| 0 <= i < next.names.len() implies is_plain_name(#[trigger] next.names[i]) by {
            if i < prev.names.len() {
                assert(prev.names.push(seg)[i] == prev.names[i]);
                assert(prev.names.drop_last().len() <= prev.names.len());
                if next.names =~= prev.names.drop_last() {
                    assert(prev.names.drop_last()[i] == prev.names[i]);
                }
            }
        }
    }
}

/// Every name of a normalized path is a plain name: not empty, not `.` or `..`, and
/// without separators.
pub proof fn lemma_normalized_names_plain(s: Seq<char>)
    ensures
        all_plain(normal_stack(s).names),
        normalized_path(s) == render_path(normal_stack(s)),
{
    lemma_scan_no_separator(s);
    let segs = path_segments(s);
    assert forall|i: int| 0 <= i < segs.len() implies !has_char(#[trigger] segs[i], '/') by {
        if i < split_scan(s).0.len() {
            assert(segs[i] == split_scan(s).0[i]);
        }
    }
    lemma_steps_keep_plain(PathStack { rooted: is_absolute(s), names: Seq::empty() }, segs);
}

/// Normalizing a normalized path changes nothing.
pub proof fn lemma_normalize_idempotent(s: Seq<char>)
    ensures
        normalized_path(normalized_path(s)) == normalized_path(s),
{
    lemma_normalized_names_plain(s);
    let st = normal_stack(s);
    let r = render_path(st);
    let names = st.names;
    let empty_seg = Seq::<char>::empty();
    assert forall|i: int| 0 <= i < names.len() implies !has_char(#[trigger] names[i], '/') by {
        assert(is_plain_name(names[i]));
    }
    reveal_strlit("/");
    reveal_strlit(".");
    reveal_strlit("..");
    if names.len() == 0 {
        assert(join_names(names) =~= empty_seg);
        if st.rooted {
            assert(r =~= seq!['/']);
            lemma_scan_root();
            assert(path_segments(r) =~= seq![empty_seg, empty_seg]);
            let init = PathStack { rooted: true, names: Seq::empty() };
            assert(is_absolute(r));
            assert(seq![empty_seg, empty_seg].drop_last() =~= seq![empty_seg]);
            assert(seq![empty_seg].drop_last() =~= Seq::<Seq<char>>::empty());
            assert(path_steps(init, Seq::<Seq<char>>::empty()) == init);
            assert(path_steps(init, seq![empty_seg]) == init);
            assert(path_steps(init, seq![empty_seg, empty_seg]) == init);
            assert(init.names =~= names);
            assert(normal_stack(r) == st);
        } else {
            assert(r =~= empty_seg);
            assert(split_scan(empty_seg) == (Seq::<Seq<char>>::empty(), empty_seg));
            assert(path_segments(r) =~= seq![empty_seg]);
            let init = PathStack { rooted: false, names: Seq::empty() };
            assert(!is_absolute(r));
            assert(seq![empty_seg].drop_last() =~= Seq::<Seq<char>>::empty());
            assert(path_steps(init, Seq::<Seq<char>>::empty()) == init);
            assert(path_steps(init, seq![empty_seg]) == init);
            assert(init.names =~= names);
            assert(normal_stack(r) == st);
        }
    } else {
        assert(names[0].len() > 0 && names[0][0] != '/') by {
            assert(is_plain_name(names[0]));
            assert(!has_char(names[0], '/'));
        }
        if st.rooted {
            let x = seq!['/'];
            lemma_scan_root();
            assert(split_scan(x) == (seq![empty_seg], empty_seg));
            lemma_scan_of_join(x, names);
            assert(r =~= x + join_names(names));
            let l = seq![empty_seg + names[0]] + names.skip(1);
            assert(l =~= names);
            assert(path_segments(r) =~= seq![empty_seg] + names);
            let init = PathStack { rooted: true, names: Seq::empty() };
            assert(is_absolute(r));
            lemma_steps_concat(init, seq![empty_seg], names);
            assert(seq![empty_seg].drop_last() =~= Seq::<Seq<char>>::empty());
            assert(path_steps(init, Seq::<Seq<char>>::empty()) == init);
            assert(path_steps(init, seq![empty_seg]) == init);
            lemma_steps_plain(init, names);
            assert(Seq::<Seq<char>>::empty() + names =~= names);
        } else {
            let x = Seq::<char>::empty();
            lemma_scan_of_join(x, names);
            assert(r =~= x + join_names(names));
            let l = seq![empty_seg + names[0]] + names.skip(1);
            assert(l =~= names);
            assert(path_segments(r) =~= names);
            assert(join_names(names)[0] == names[0][0]) by {
                lemma_join_first_char(names);
            }
            assert(!is_absolute(r));
            let init = PathStack { rooted: false, names: Seq::empty() };
            lemma_steps_plain(init, names);
            assert(Seq::<Seq<char>>::empty() + names =~= names);
        }
    }
}

proof fn lemma_join_first_char(names: Seq<Seq<char>>)
    requires
        names.len() >= 1,
        names[0].len() > 0,
    ensures
        join_names(names).len() > 0,
        join_names(names)[0] == names[0][0],
    decreases names.len(),
{
    if names.len() > 1 {
        lemma_join_first_char(names.drop_last());
        assert(names.drop_last()[0] == names[0]);
    }
}

/// The characters of each name.
pub open spec fn names_view(v: Seq<Vec<char>>) -> Seq<Seq<char>> {
    v.map_values(|x: Vec<char>| x@)
}

/// Whether `v` is the one-character segment `c`.
fn is_single(v: &Vec<char>, c: char) -> (res: bool)
    ensures
        res == (v@ == seq![c]),
{
    if v.len() == 1 && v[0] == c {
        assert(v@ =~= seq![c]);
        true
    } else {
        false
    }
}

/// Applies one segment to the normalized path under construction.
fn apply_segment(rooted: &mut bool, names: &mut Vec<Vec<char>>, seg: Vec<char>)
    ensures
        ({
            let st = path_step(
                PathStack { rooted: *old(rooted), names: names_view(old(names)@) },
                seg@,
            );
            *final(rooted) == st.rooted && names_view(final(names)@) == st.names
        }),
{
    proof {
        reveal_strlit(".");
        reveal_strlit("..");
        assert("."@ =~= seq!['.']);
    }
    let ghost old_names = names@;
    let ghost st0 = PathStack { rooted: *rooted, names: names_view(names@) };
    if seg.len() == 0 || is_single(&seg, '.') {
        assert(seg@.len() == 0 || seg@ == "."@);
        assert(path_step(st0, seg@) == st0);
        return;
    }
    if seg.len() == 2 && seg[0] == '.' && seg[1] == '.' {
        assert(seg@ =~= ".."@);
        assert(seg@ != "."@);
        if names.len() > 0 {
            names.pop();
            assert(names_view(names@) =~= names_view(old_names).drop_last());
        }
        return;
    }
    assert(seg@ != ".."@);
    assert(seg@ != "."@);
    let ghost sv = seg@;
    names.push(seg);
    assert(names_view(names@) =~= names_view(old_names).push(sv));
}

/// Normalizes a path by resolving `.` and `..` components, without consulting the
/// file system.
pub fn normalize_path(path: &str) -> (res: String)
    ensures
        res@ == normalized_path(path@),
{
    let chars = chars_of(path);
    let n = chars.len();
    let start_rooted = n > 0 && chars[0] == '/';
    let mut rooted = start_rooted;
    let mut names: Vec<Vec<char>> = Vec::new();
    let mut cur: Vec<char> = Vec::new();
    let ghost init = PathStack { rooted: is_absolute(path@), names: Seq::empty() };
    let mut i: usize = 0;
    while i < n
        invariant
            n == chars.len(),
            chars@ == path@,
            i <= n,
            cur@ == split_scan(chars@.take(i as int)).1,
            ({
                let st = path_steps(init, split_scan(chars@.take(i as int)).0);
                rooted == st.rooted && names_view(names@) == st.names
            }),
        decreases n - i,
    {
        let c = chars[i];
        proof {
            assert(chars@.take(i + 1).drop_last() =~= chars@.take(i as int));
        }
        if c == '/' {
            let seg = cur;
            cur = Vec::new();
            let ghost segs = split_scan(chars@.take(i as int)).0;
            apply_segment(&mut rooted, &mut names, seg);
            proof {
                assert(segs.push(seg@).drop_last() =~= segs);
            }
        } else {
            cur.push(c);
        }
        i = i + 1;
    }
    proof {
        assert(chars@.take(n as int) =~= chars@);
    }
    let ghost segs = split_scan(chars@).0;
    let ghost last = cur@;
    apply_segment(&mut rooted, &mut names, cur);
    proof {
        assert(path_segments(path@) == segs.push(last));
        assert(segs.push(last).drop_last() =~= segs);
    }
    render(rooted, &names)
}

/// Builds the path that a stack stands for.
fn render(rooted: bool, names: &Vec<Vec<char>>) -> (res: String)
    ensures
        res@ == render_path(PathStack { rooted, names: names_view(names@) }),
{
    let ghost nv = names_view(names@);
    let mut s = String::new();
    if rooted {
        s.append("/");
    }
    let ghost prefix = s@;
    let mut k: usize = 0;
    while k < names.len()
        invariant
            k <= names.len(),
            nv == names_view(names@),
            s@ == prefix + join_names(nv.take(k as int)),
        decreases names.len() - k,
    {
        proof {
            assert(nv.take(k + 1).drop_last() =~= nv.take(k as int));
            assert(nv.take(k + 1).last() == names@[k as int]@);
        }
        if k > 0 {
            s.append("/");
        }
        let part = string_from_chars(names[k].as_slice());
        s.append(part.as_str());
        proof {
            if k == 0 {
                assert(nv.take(1) =~= seq![names@[0]@]);
            }
            assert(s@ =~= prefix + join_names(nv.take(k + 1)));
        }
        k = k + 1;
    }
    proof {
        assert(nv.take(names.len() as int) =~= nv);
        reveal_strlit("/");
        if rooted {
            assert(prefix == "/"@);
        } else {
            assert(prefix =~= Seq::<char>::empty());
        }
        assert(s@ =~= render_path(PathStack { rooted, names: nv }));
    }
    s
}

/// `rel` joined onto `base`, with a separator added when `base` does not end with one.
pub open spec fn join_path(base: Seq<char>, rel: Seq<char>) -> Seq<char> {
    if base.len() == 0 || base.last() == '/' {
        base + rel
    } else {
        base + "/"@ + rel
    }
}

pub(crate) fn join_onto(base: &String, rel: &String) -> (res: String)
    requires
        !is_absolute(rel@),
    ensures
        res@ == join_path(base@, rel@),
{
    let mut s = base.clone();
    let b = chars_of(base.as_str());
    if b.len() > 0 && b[b.len() - 1] != '/' {
        s.append("/");
    }
    s.append(rel.as_str());
    s
}

/// The absolute form of the expansion `e`: itself when absolute, else joined onto the
/// current directory; `None` when it is relative and there is no current directory.
pub open spec fn absolute_form(e: Seq<char>, cwd: Option<Seq<char>>) -> Option<Seq<char>> {
    if is_absolute(e) {
        Some(e)
    } else {
        match cwd {
            Some(c) => Some(join_path(c, e)),
            None => None,
        }
    }
}

/// What canonicalizing `path` gives with the provider `p`, when the file system does
/// not resolve it further: `None` when there is no current directory to resolve a
/// relative expansion against.
pub open spec fn canonical_path(path: Seq<char>, p: ProviderModel) -> Option<Seq<char>> {
    match absolute_form(shell_expansion(path, p.env, p.home), p.cwd) {
        Some(a) => Some(normalized_path(a)),
        None => None,
    }
}

/// Performs tilde expansion and environment variable expansion on `input`, with the provider's
/// home directory and variables. Variables the provider does not have stay as written, so this
/// never fails.
pub fn expand_path(input: &str, provider: &TestProvider) -> (res: Result<String, UtilError>)
    ensures
        res matches Ok(s) && s@ == shell_expansion(input@, provider@.env, provider@.home),
{
    Ok(shell_expand(input, provider))
}

/// Whether the provider's current directory, when it has one, is absolute.
pub open spec fn cwd_is_absolute(p: ProviderModel) -> bool {
    match p.cwd {
        Some(c) => is_absolute(c),
        None => true,
    }
}

/// Converts `path` to a normalized absolute path: performs tilde expansion and
/// environment variable expansion, makes the result absolute against the current
/// directory, and resolves `.` and `..` components.
pub fn canonicalize_path_sys(path: &str, provider: &TestProvider) -> (res: Result<String, UtilError>)
    ensures
        res is Ok <==> canonical_path(path@, provider@) is Some,
        res matches Ok(s) ==> canonical_path(path@, provider@) == Some(s@),
        cwd_is_absolute(provider@) ==> (res matches Ok(s) ==> is_absolute(s@)),
        !has_char(path@, '$') ==> canonical_path(path@, provider@) == match absolute_form(
            tilde_expansion(path@, provider@.home),
            provider@.cwd,
        ) {
            Some(a) => Some(normalized_path(a)),
            None => None,
        },
        res matches Err(e) ==> e matches UtilError::Io { context, message } && context@ == cwd_error_context()
            && message@ == cwd_error_message(),
{
    let expanded = shell_expand(path, provider);
    let e = chars_of(expanded.as_str());
    if e.len() > 0 && e[0] == '/' {
        proof {
            lemma_normalized_stays_absolute(expanded@);
        }
        Ok(normalize_path(expanded.as_str()))
    } else {
        match provider.cwd() {
            Some(cwd) => {
                let joined = join_onto(&cwd, &expanded);
                proof {
                    lemma_normalized_stays_absolute(joined@);
                    if is_absolute(cwd@) {
                        assert(joined@[0] == cwd@[0]);
                    }
                }
                Ok(normalize_path(joined.as_str()))
            },
            None => Err(
                UtilError::Io {
                    context: String::from_str("could not get current directory"),
                    message: String::from_str("not found"),
                },
            ),
        }
    }
}

/// Converts `path` to a normalized absolute path, as [canonicalize_path_sys] does, but
/// deferring to the file system where it resolved the absolute path: `resolved` is the
/// file system's canonical form of what [absolute_path_sys] gives for `path`, if it has one.
pub fn canonicalize_path(path: &str, provider: &TestProvider, resolved: Option<String>) -> (res: Result<String, UtilError>)
    ensures
        res is Ok <==> canonical_path(path@, provider@) is Some,
        res matches Ok(s) ==> s@ == match resolved {
            Some(r) => r@,
            None => canonical_path(path@, provider@).unwrap(),
        },
        res matches Err(e) ==> e matches UtilError::Io { context, message } && context@ == cwd_error_context()
            && message@ == cwd_error_message(),
{
    match canonicalize_path_sys(path, provider) {
        Ok(lexical) => match resolved {
            Some(r) => Ok(r),
            None => Ok(lexical),
        },
        Err(e) => Err(e),
    }
}

/// Converts `path` to an absolute path: tilde and environment variable expansion, then
/// joined onto the current directory when relative. Components are not resolved.
pub fn absolute_path_sys(path: &str, provider: &TestProvider) -> (res: Result<String, UtilError>)
    ensures
        res is Ok <==> absolute_form(shell_expansion(path@, provider@.env, provider@.home), provider@.cwd) is Some,
        res matches Ok(s) ==> absolute_form(shell_expansion(path@, provider@.env, provider@.home), provider@.cwd) == Some(s@),
        res matches Err(e) ==> e matches UtilError::Io { context, message } && context@ == cwd_error_context()
            && message@ == cwd_error_message(),
{
    let expanded = shell_expand(path, provider);
    let e = chars_of(expanded.as_str());
    if e.len() > 0 && e[0] == '/' {
        Ok(expanded)
    } else {
        match provider.cwd() {
            Some(cwd) => Ok(join_onto(&cwd, &expanded)),
            None => Err(
                UtilError::Io {
                    context: String::from_str("could not get current directory"),
                    message: String::from_str("not found"),
                },
            ),
        }
    }
}

/// A file to write in a test directory: where it goes and what it holds.
pub trait TestFile {
    fn path(&self) -> String;

    fn content(&self) -> Vec<u8>;
}

impl TestFile for (String, Vec<u8>) {
    fn path(&self) -> (res: String)
        ensures
            res == self.0,
    {
        self.0.clone()
    }

    fn content(&self) -> (res: Vec<u8>)
        ensures
            res@ == self.1@,
    {
        let mut out: Vec<u8> = Vec::new();
        let mut i: usize = 0;
        while i < self.1.len()
            invariant
                i <= self.1.len(),
                out@ == self.1@.take(i as int),
            decreases self.1.len() - i,
        {
            out.push(self.1[i]);
            i = i + 1;
            proof {
                assert(out@ =~= self.1@.take(i as int));
            }
        }
        proof {
            assert(self.1@.take(self.1.len() as int) =~= self.1@);
        }
        out
    }
}

} // verus!
