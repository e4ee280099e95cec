//! A single compiled pattern and its queries.
use vstd::prelude::*;
use vstd::utf8::{encode_utf8, is_char_boundary};

use crate::captures::list_captures;
use crate::engine::{
    capture_spans, compile_pattern, error_message, match_spans, matches_from, pattern_compiles,
};
use crate::model::{
    all_capture_sets, all_matches, first_captures, first_match, opt_text, opt_texts,
    span_text, spec_is_match, texts, group_texts, capture_set,
};

verus! {

/// Why a matcher could not be built or a query was refused.
pub enum MatchError {
    /// The pattern was rejected by the engine; holds its diagnostic.
    Compile { message: String },
    /// A start offset lies past the end of the text or inside a character.
    InvalidOffset { offset: usize },
}

/// One compiled pattern. It is compiled once, never changes afterwards, and
/// can be queried any number of times, also from several threads at once.
pub struct PyRegex {
    regex: regex::Regex,
    pattern: Ghost<Seq<char>>,
}

impl PyRegex {
    /// The pattern this matcher was compiled from.
    pub closed spec fn pattern(&self) -> Seq<char> {
        self.pattern@
    }

    /// Compiles `pattern`; fails with the engine's diagnostic when the engine
    /// rejects it.
    pub fn new(pattern: &str) -> (r: Result<PyRegex, MatchError>)
        ensures
            r is Ok <==> pattern_compiles(pattern@),
            r matches Ok(m) ==> m.pattern() == pattern@,
            r matches Err(e) ==> e is Compile,
    {
        match compile_pattern(pattern) {
            Ok(regex) => Ok(PyRegex { regex, pattern: Ghost(pattern@) }),
            Err(e) => Err(MatchError::Compile { message: error_message(&e) }),
        }
    }

    /// Whether the pattern matches anywhere in `text`.
    pub fn is_match(&self, text: &str) -> (r: bool)
        ensures
            r == spec_is_match(self.pattern(), text@),
    {
        engine_is_match(self, text)
    }

    /// Whether the pattern matches `text` with the search starting at byte
    /// `start`; the text before `start` is still seen by anchors. An offset
    /// past the end of `text` or inside a character is refused.
    pub fn is_match_at(&self, text: &str, start: usize) -> (r: Result<bool, MatchError>)
        ensures
            r is Ok <==> text.is_char_boundary(start),
            r matches Ok(b) ==> b == matches_from(self.pattern(), text@, start),
            r matches Err(e) ==> e == (MatchError::InvalidOffset { offset: start }),
    {
        if text.is_char_boundary(start) {
            proof {
                vstd::utf8::encode_utf8_valid_utf8(text@);
                lemma_boundary_within(encode_utf8(text@), start as int);
            }
            Ok(engine_is_match_at(self, text, start))
        } else {
            Err(MatchError::InvalidOffset { offset: start })
        }
    }

    /// The text of the first (leftmost) match, if any.
    pub fn find(&self, text: &str) -> (r: Option<String>)
        ensures
            opt_text(r) == first_match(self.pattern(), text@),
    {
        engine_find(self, text)
    }

    /// The texts of all successive non-overlapping matches, left to right;
    /// empty when there is none.
    pub fn findall(&self, text: &str) -> (r: Vec<String>)
        ensures
            texts(r@) == all_matches(self.pattern(), text@),
    {
        let found = engine_find_iter(self, text);
        let ghost spans = match_spans(self.pattern(), text@);
        let mut out: Vec<String> = Vec::new();
        let mut i: usize = 0;
        while i < found.len()
            invariant
                i <= found@.len(),
                found@.len() == spans.len(),
                spans == match_spans(self.pattern(), text@),
                forall|k: int| 0 <= k < found@.len() ==> (#[trigger] found@[k]).2@ == span_text(text@, spans[k]),
                out@.len() == i,
                forall|k: int| 0 <= k < i ==> (#[trigger] out@[k])@ == span_text(text@, spans[k]),
            decreases found@.len() - i,
        {
            out.push(found[i].2.clone());
            i += 1;
        }
        assert(texts(out@) =~= all_matches(self.pattern(), text@));
        out
    }

    /// The byte ranges `(start, end)` of all successive non-overlapping
    /// matches, left to right; `end` is one past the last matched byte.
    pub fn matches(&self, text: &str) -> (r: Vec<(usize, usize)>)
        ensures
            r@ == match_spans(self.pattern(), text@),
    {
        let found = engine_find_iter(self, text);
        let ghost spans = match_spans(self.pattern(), text@);
        let mut out: Vec<(usize, usize)> = Vec::new();
        let mut i: usize = 0;
        while i < found.len()
            invariant
                i <= found@.len(),
                found@.len() == spans.len(),
                forall|k: int| 0 <= k < found@.len() ==> (found@[k].0, found@[k].1) == spans[k],
                out@ == spans.subrange(0, i as int),
            decreases found@.len() - i,
        {
            out.push((found[i].0, found[i].1));
            assert(out@ =~= spans.subrange(0, i + 1));
            i += 1;
        }
        assert(spans.subrange(0, i as int) =~= spans);
        out
    }

    /// The capture groups of the first match, group 0 left out; absent when
    /// there is no match.
    pub fn captures(&self, text: &str) -> (r: Option<Vec<Option<String>>>)
        ensures
            r is Some <==> first_captures(self.pattern(), text@) is Some,
            r matches Some(c) ==> Some(opt_texts(c@)) == first_captures(self.pattern(), text@),
    {
        match engine_captures(self, text) {
            Some(raw) => {
                let c = list_captures(raw.as_slice());
                Some(c)
            },
            None => None,
        }
    }

    /// The capture groups of every successive match, group 0 left out, one
    /// entry per match in match order; empty when there is no match.
    pub fn all_captures(&self, text: &str) -> (r: Vec<Vec<Option<String>>>)
        ensures
            r@.len() == match_spans(self.pattern(), text@).len(),
            r@.len() == capture_spans(self.pattern(), text@).len(),
            forall|k: int| 0 <= k < r@.len() ==> capture_spans(self.pattern(), text@)[k][0] == Some(
                #[trigger] match_spans(self.pattern(), text@)[k],
            ),
            r@.map_values(|c: Vec<Option<String>>| opt_texts(c@)) == all_capture_sets(self.pattern(), text@),
    {
        let raw = engine_captures_iter(self, text);
        let ghost caps = capture_spans(self.pattern(), text@);
        assert forall|k: int| 0 <= k < raw@.len() implies caps[k][0] == Some(
            #[trigger] match_spans(self.pattern(), text@)[k],
        ) by {
            assert((raw@[k])@.len() >= 1);
        }
        let mut out: Vec<Vec<Option<String>>> = Vec::new();
        let mut i: usize = 0;
        while i < raw.len()
            invariant
                i <= raw@.len(),
                raw@.len() == caps.len(),
                forall|k: int| 0 <= k < raw@.len() ==> caps[k][0] == Some(#[trigger] match_spans(self.pattern(), text@)[k]),
                forall|k: int| 0 <= k < raw@.len() ==> (#[trigger] raw@[k])@.len() >= 1
                    && opt_texts(raw@[k]@) == group_texts(text@, caps[k]),
                caps == capture_spans(self.pattern(), text@),
                out@.len() == i,
                forall|k: int| 0 <= k < i ==> opt_texts((#[trigger] out@[k])@) == capture_set(text@, caps[k]),
            decreases raw@.len() - i,
        {
            let c = list_captures(raw[i].as_slice());
            out.push(c);
            i += 1;
        }
        assert(out@.map_values(|c: Vec<Option<String>>| opt_texts(c@)) =~= all_capture_sets(self.pattern(), text@));
        out
    }
}

/// Relies on `regex::Regex::is_match`: true exactly when the regex has a
/// match anywhere in the text, that is when its first match exists.
#[verifier::external_body]
fn engine_is_match(m: &PyRegex, text: &str) -> (r: bool)
    ensures
        r == (match_spans(m.pattern(), text@).len() > 0),
{
    m.regex.is_match(text)
}

/// Relies on `regex::Regex::is_match_at`, which panics only when `start`
/// exceeds the text's byte length.
#[verifier::external_body]
fn engine_is_match_at(m: &PyRegex, text: &str, start: usize) -> (r: bool)
    requires
        start <= encode_utf8(text@).len(),
    ensures
        r == matches_from(m.pattern(), text@, start),
{
    m.regex.is_match_at(text, start)
}

/// Relies on `regex::Regex::find`: the leftmost-first match, which is the
/// first of those that `find_iter` yields, and its text.
#[verifier::external_body]
fn engine_find(m: &PyRegex, text: &str) -> (r: Option<String>)
    ensures
        opt_text(r) == first_match(m.pattern(), text@),
{
    m.regex.find(text).map(|found| found.as_str().to_string())
}

/// Relies on `regex::Regex::find_iter` and `regex::Match`: each successive
/// non-overlapping match as its byte range and the text it slices, with
/// `start <= end <= text.len()`.
#[verifier::external_body]
fn engine_find_iter(m: &PyRegex, text: &str) -> (r: Vec<(usize, usize, String)>)
    ensures
        r@.len() == match_spans(m.pattern(), text@).len(),
        forall|k: int| 0 <= k < r@.len() ==> (r@[k].0, r@[k].1) == match_spans(m.pattern(), text@)[k]
            && r@[k].0 <= r@[k].1 <= encode_utf8(text@).len()
            && (#[trigger] r@[k]).2@ == span_text(text@, match_spans(m.pattern(), text@)[k]),
        forall|k: int| 0 <= k < r@.len() - 1 ==> (#[trigger] r@[k]).1 <= r@[k + 1].0,
{
    m.regex.find_iter(text).map(|found| (found.start(), found.end(), found.as_str().to_string())).collect()
}

/// Relies on `regex::Regex::captures`: the groups of the leftmost-first match,
/// which is the first of those that `captures_iter` yields.
#[verifier::external_body]
fn engine_captures(m: &PyRegex, text: &str) -> (r: Option<Vec<Option<String>>>)
    ensures
        r is Some <==> capture_spans(m.pattern(), text@).len() > 0,
        r matches Some(v) ==> v@.len() == capture_spans(m.pattern(), text@)[0].len()
            && v@.len() >= 1
            && opt_texts(v@) == group_texts(text@, capture_spans(m.pattern(), text@)[0]),
{
    m.regex.captures(text).map(|caps| caps.iter().map(|g| g.map(|g| g.as_str().to_string())).collect())
}

/// Relies on `regex::Regex::captures_iter`: one `Captures` per match that
/// `find_iter` yields, in order, each with group 0 the whole match.
#[verifier::external_body]
fn engine_captures_iter(m: &PyRegex, text: &str) -> (r: Vec<Vec<Option<String>>>)
    ensures
        r@.len() == capture_spans(m.pattern(), text@).len(),
        r@.len() == match_spans(m.pattern(), text@).len(),
        forall|k: int| 0 <= k < r@.len() ==> (#[trigger] r@[k])@.len() == capture_spans(m.pattern(), text@)[k].len()
            && capture_spans(m.pattern(), text@)[k].len() >= 1
            && capture_spans(m.pattern(), text@)[k][0] == Some(match_spans(m.pattern(), text@)[k])
            && opt_texts(r@[k]@) == group_texts(text@, capture_spans(m.pattern(), text@)[k]),
{
    m.regex.captures_iter(text).map(|caps| caps.iter().map(|g| g.map(|g| g.as_str().to_string())).collect()).collect()
}

/// A valid offset lies within the bytes.
proof fn lemma_boundary_within(bytes: Seq<u8>, i: int)
    requires
        vstd::utf8::valid_utf8(bytes),
        is_char_boundary(bytes, i),
    ensures
        0 <= i <= bytes.len(),
{
}

/// The byte ranges of all successive matches of `pattern` in `text`; fails
/// when the engine rejects `pattern`.
pub fn matches(pattern: &str, text: &str) -> (r: Result<Vec<(usize, usize)>, MatchError>)
    ensures
        r is Ok <==> pattern_compiles(pattern@),
        r matches Ok(v) ==> v@ == match_spans(pattern@, text@),
        r matches Err(e) ==> e is Compile,
{
    match PyRegex::new(pattern) {
        Ok(m) => Ok(m.matches(text)),
        Err(e) => Err(e),
    }
}

} // verus!
