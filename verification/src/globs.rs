//! The glob matching that path permissions and resource paths rest on.

use vstd::prelude::*;

verus! {

#[verifier::external_type_specification]
#[verifier::external_body]
pub struct ExGlob(globset::Glob);

#[verifier::external_type_specification]
#[verifier::external_body]
pub struct ExGlobSet(globset::GlobSet);

#[verifier::external_type_specification]
#[verifier::external_body]
pub struct ExGlobSetBuilder(globset::GlobSetBuilder);

#[verifier::external_type_specification]
#[verifier::external_body]
pub struct ExGlobError(globset::Error);

#[verifier::external_type_specification]
#[verifier::external_body]
pub struct ExPattern(glob::Pattern);

#[verifier::external_type_specification]
#[verifier::external_body]
pub struct ExPatternError(glob::PatternError);

/// Whether `pattern` parses as a glob of the glob set library.
pub uninterp spec fn glob_compiles(pattern: Seq<char>) -> bool;

/// The pattern a glob was parsed from.
pub uninterp spec fn glob_source(g: globset::Glob) -> Seq<char>;

/// Whether the glob parsed from `pattern` matches `path`.
pub uninterp spec fn glob_matches(pattern: Seq<char>, path: Seq<char>) -> bool;

/// The patterns added to a glob set builder, in order.
pub uninterp spec fn builder_patterns(b: globset::GlobSetBuilder) -> Seq<Seq<char>>;

/// The patterns of a glob set, in order.
pub uninterp spec fn globset_patterns(s: globset::GlobSet) -> Seq<Seq<char>>;

/// Whether a glob set can be built from the patterns.
pub uninterp spec fn globset_builds(patterns: Seq<Seq<char>>) -> bool;

/// Parses a glob with `globset::Glob::new`: it succeeds exactly on the patterns that
/// [glob_compiles] holds of, and the glob keeps its pattern.
#[verifier::external_body]
pub(crate) fn glob_new(pattern: &str) -> (res: Result<globset::Glob, globset::Error>)
    ensures
        res is Ok <==> glob_compiles(pattern@),
        res matches Ok(g) ==> glob_source(g) == pattern@,
{
    globset::Glob::new(pattern)
}

/// An empty builder, by `globset::GlobSetBuilder::new`.
#[verifier::external_body]
pub(crate) fn globset_builder_new() -> (res: globset::GlobSetBuilder)
    ensures
        builder_patterns(res) == Seq::<Seq<char>>::empty(),
{
    globset::GlobSetBuilder::new()
}

/// Adds a glob to a builder, by `globset::GlobSetBuilder::add`: its pattern comes last.
#[verifier::external_body]
pub(crate) fn globset_builder_add(b: &mut globset::GlobSetBuilder, g: globset::Glob)
    ensures
        builder_patterns(*final(b)) == builder_patterns(*old(b)).push(glob_source(g)),
{
    b.add(g);
}

/// Builds the glob set, by `globset::GlobSetBuilder::build`: the set holds the
/// builder's patterns in order; whether building succeeds depends on them alone, and a
/// builder without patterns always builds (the empty set).
#[verifier::external_body]
pub(crate) fn globset_build(b: &globset::GlobSetBuilder) -> (res: Result<globset::GlobSet, globset::Error>)
    ensures
        res is Ok <==> globset_builds(builder_patterns(*b)),
        res matches Ok(s) ==> globset_patterns(s) == builder_patterns(*b),
        builder_patterns(*b).len() == 0 ==> res is Ok,
{
    b.build()
}

/// The sequence numbers of the set's patterns that match `path`, by
/// `globset::GlobSet::matches`: in ascending order, each once.
#[verifier::external_body]
pub(crate) fn globset_matches(s: &globset::GlobSet, path: &str) -> (res: Vec<usize>)
    ensures
        forall|i: int, j: int| 0 <= i < j < res@.len() ==> res@[i] < res@[j],
        forall|i: int| 0 <= i < res@.len() ==> res@[i] < globset_patterns(*s).len(),
        forall|k: int|
            0 <= k < globset_patterns(*s).len() ==> (glob_matches(globset_patterns(*s)[k], path@)
                <==> res@.contains(k as usize)),
{
    s.matches(path)
}

/// Whether `pattern` parses as a Unix shell pattern.
pub uninterp spec fn pattern_compiles(pattern: Seq<char>) -> bool;

/// The text a shell pattern was parsed from.
pub uninterp spec fn pattern_source(p: glob::Pattern) -> Seq<char>;

/// Whether the shell pattern parsed from `pattern` matches `text`, with the default
/// match options.
pub uninterp spec fn pattern_matches(pattern: Seq<char>, text: Seq<char>) -> bool;

/// Parses a shell pattern with `glob::Pattern::new`: it succeeds exactly on the patterns
/// that [pattern_compiles] holds of, and the pattern keeps its text.
#[verifier::external_body]
pub(crate) fn pattern_new(pattern: &str) -> (res: Result<glob::Pattern, glob::PatternError>)
    ensures
        res is Ok <==> pattern_compiles(pattern@),
        res matches Ok(p) ==> pattern_source(p) == pattern@,
{
    glob::Pattern::new(pattern)
}

/// Whether the shell pattern matches `text`, by `glob::Pattern::matches`.
#[verifier::external_body]
pub(crate) fn pattern_is_match(p: &glob::Pattern, text: &str) -> (res: bool)
    ensures
        res == pattern_matches(pattern_source(*p), text@),
{
    p.matches(text)
}

/// The message of a shell pattern error.
pub uninterp spec fn pattern_error_text(e: glob::PatternError) -> Seq<char>;

/// The message of a shell pattern error, as its `Display` implementation writes it.
#[verifier::external_body]
pub(crate) fn pattern_error_message(e: &glob::PatternError) -> (res: String)
    ensures
        res@ == pattern_error_text(*e),
{
    format!("{}", e)
}

} // verus!
