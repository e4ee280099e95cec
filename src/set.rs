//! Many patterns compiled together, answering which of them match.
use vstd::prelude::*;

use crate::engine::{compile_pattern_set, error_message, set_compiles};
use crate::matcher::MatchError;
use crate::model::{indices_below, matching_indices, spec_is_match};

verus! {

/// A set of patterns compiled together. It tells only whether any pattern
/// matches and which ones do; indices follow the order of construction.
pub struct PyRegexSet {
    set: regex::RegexSet,
    patterns: Ghost<Seq<Seq<char>>>,
}

impl PyRegexSet {
    /// The patterns of the set, in construction order.
    pub closed spec fn patterns(&self) -> Seq<Seq<char>> {
        self.patterns@
    }

    /// Compiles all of `patterns` as one set; fails as a whole, with the
    /// engine's diagnostic, when the engine rejects them.
    pub fn new(patterns: &[&str]) -> (r: Result<PyRegexSet, MatchError>)
        ensures
            r is Ok <==> set_compiles(patterns@.map_values(|p: &str| p@)),
            r matches Ok(s) ==> s.patterns() == patterns@.map_values(|p: &str| p@),
            r matches Err(e) ==> e is Compile,
    {
        match compile_pattern_set(patterns) {
            Ok(set) => Ok(PyRegexSet { set, patterns: Ghost(patterns@.map_values(|p: &str| p@)) }),
            Err(e) => Err(MatchError::Compile { message: error_message(&e) }),
        }
    }

    /// Whether any pattern of the set matches anywhere in `text`.
    pub fn is_match(&self, text: &str) -> (r: bool)
        ensures
            r == (exists|i: int| 0 <= i < self.patterns().len() && spec_is_match(#[trigger] self.patterns()[i], text@)),
    {
        set_is_match(self, text)
    }

    /// The indices, ascending, of the patterns that match somewhere in `text`.
    pub fn find(&self, text: &str) -> (r: Vec<usize>)
        ensures
            r@ == matching_indices(self.patterns(), text@),
    {
        let flags = set_matched(self, text);
        let mut out: Vec<usize> = Vec::new();
        let mut i: usize = 0;
        while i < flags.len()
            invariant
                i <= flags@.len(),
                flags@.len() == self.patterns().len(),
                forall|k: int| 0 <= k < flags@.len() ==> #[trigger] flags@[k] == spec_is_match(self.patterns()[k], text@),
                out@ == indices_below(self.patterns(), text@, i as nat),
            decreases flags@.len() - i,
        {
            if flags[i] {
                out.push(i);
            }
            i += 1;
        }
        out
    }
}

/// Relies on `regex::RegexSet::is_match`: true exactly when some regex of the
/// set matches anywhere in the text.
#[verifier::external_body]
fn set_is_match(s: &PyRegexSet, text: &str) -> (r: bool)
    ensures
        r == (exists|i: int| 0 <= i < s.patterns().len() && spec_is_match(#[trigger] s.patterns()[i], text@)),
{
    s.set.is_match(text)
}

/// Relies on `regex::RegexSet::matches` and `regex::SetMatches::matched`: one
/// flag per regex of the set, in construction order, true when that regex
/// matches anywhere in the text.
#[verifier::external_body]
fn set_matched(s: &PyRegexSet, text: &str) -> (r: Vec<bool>)
    ensures
        r@.len() == s.patterns().len(),
        forall|k: int| 0 <= k < r@.len() ==> #[trigger] r@[k] == spec_is_match(s.patterns()[k], text@),
{
    let found = s.set.matches(text);
    (0..found.len()).map(|i| found.matched(i)).collect()
}

} // verus!
