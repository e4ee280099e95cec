//! The pattern engine as this library sees it: the `regex` crate's types,
//! names for what its searches report, and the calls shared by the matchers.
use vstd::prelude::*;

verus! {

#[verifier::external_type_specification]
#[verifier::external_body]
pub struct ExRegex(regex::Regex);

#[verifier::external_type_specification]
#[verifier::external_body]
pub struct ExRegexSet(regex::RegexSet);

#[verifier::external_type_specification]
#[verifier::external_body]
pub struct ExRegexError(regex::Error);

/// Whether the engine accepts `pattern` (syntax and its fixed size limits).
pub uninterp spec fn pattern_compiles(pattern: Seq<char>) -> bool;

/// The successive non-overlapping leftmost-first matches of `pattern` in
/// `text`, as byte ranges `(start, end)` into the UTF-8 encoding of `text`.
pub uninterp spec fn match_spans(pattern: Seq<char>, text: Seq<char>) -> Seq<(usize, usize)>;

/// Whether `pattern` matches `text` when the search begins at byte `start`,
/// with the text before `start` still visible to anchors and word boundaries.
pub uninterp spec fn matches_from(pattern: Seq<char>, text: Seq<char>, start: usize) -> bool;

/// The capture groups of each successive match of `pattern` in `text`: for
/// each match, one optional byte range per group, group 0 being the whole match.
pub uninterp spec fn capture_spans(pattern: Seq<char>, text: Seq<char>) -> Seq<Seq<Option<(usize, usize)>>>;

/// Whether the engine accepts `patterns` together as one pattern set.
pub uninterp spec fn set_compiles(patterns: Seq<Seq<char>>) -> bool;

/// Relies on `regex::Regex::new`: it compiles `pattern`, or reports why not.
#[verifier::external_body]
pub(crate) fn compile_pattern(pattern: &str) -> (r: Result<regex::Regex, regex::Error>)
    ensures
        r is Ok <==> pattern_compiles(pattern@),
{
    regex::Regex::new(pattern)
}

/// Relies on `regex::RegexSet::new`: it compiles all of `patterns` as one set,
/// or reports why not.
#[verifier::external_body]
pub(crate) fn compile_pattern_set(patterns: &[&str]) -> (r: Result<regex::RegexSet, regex::Error>)
    ensures
        r is Ok <==> set_compiles(patterns@.map_values(|p: &str| p@)),
{
    regex::RegexSet::new(patterns)
}

/// Relies on `regex::Error`'s `Display`: the engine's diagnostic text.
#[verifier::external_body]
pub(crate) fn error_message(e: &regex::Error) -> (r: String) {
    e.to_string()
}

} // verus!
