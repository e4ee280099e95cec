//! Laws that relate the queries of a matcher and of a pattern set.
use vstd::prelude::*;
use vstd::utf8::{decode_utf8, encode_utf8};

use crate::engine::{capture_spans, match_spans};
use crate::model::{
    all_matches, capture_set, first_match, group_text, indices_below, matching_indices,
    spec_is_match,
};

verus! {

/// A pattern matches a text exactly when a first match of it exists there.
pub proof fn lemma_is_match_iff_first_match(pattern: Seq<char>, text: Seq<char>)
    ensures
        spec_is_match(pattern, text) == (first_match(pattern, text) is Some),
{
}

/// There are as many match texts as match ranges, and the i-th text is the
/// slice of the text's bytes that the i-th range covers.
pub proof fn lemma_match_texts_are_span_slices(pattern: Seq<char>, text: Seq<char>)
    ensures
        all_matches(pattern, text).len() == match_spans(pattern, text).len(),
        forall|i: int| 0 <= i < match_spans(pattern, text).len() ==> #[trigger] all_matches(pattern, text)[i]
            == decode_utf8(encode_utf8(text).subrange(
                match_spans(pattern, text)[i].0 as int,
                match_spans(pattern, text)[i].1 as int,
            )),
{
}

/// The capture sets of a text line up with its matches: one set per match
/// text, the i-th set taken from the match whose whole-match group is the
/// i-th match range.
pub proof fn lemma_capture_sets_follow_matches(
    pattern: Seq<char>,
    text: Seq<char>,
    capture_sets: Seq<Vec<Option<String>>>,
    match_texts: Seq<Seq<char>>,
)
    requires
        capture_sets.len() == match_spans(pattern, text).len(),
        forall|k: int| 0 <= k < capture_sets.len() ==> capture_spans(pattern, text)[k][0] == Some(
            #[trigger] match_spans(pattern, text)[k],
        ),
        match_texts == all_matches(pattern, text),
    ensures
        capture_sets.len() == match_texts.len(),
        forall|k: int| 0 <= k < match_texts.len() ==> group_text(text, capture_spans(pattern, text)[k][0])
            == Some(#[trigger] match_texts[k]),
{
    assert forall|k: int| 0 <= k < match_texts.len() implies group_text(text, capture_spans(pattern, text)[k][0])
        == Some(#[trigger] match_texts[k]) by {
        assert(capture_spans(pattern, text)[k][0] == Some(match_spans(pattern, text)[k]));
    }
}

/// A capture set leaves out the whole-match group: from the groups of one
/// match it keeps groups 1.. in order, so entry i is group i + 1; a pattern
/// with one capturing group gives one entry.
pub proof fn lemma_capture_set_drops_whole_match(text: Seq<char>, raw: Seq<Option<(usize, usize)>>)
    requires
        raw.len() >= 1,
    ensures
        capture_set(text, raw).len() == raw.len() - 1,
        forall|i: int| 0 <= i < raw.len() - 1 ==> #[trigger] capture_set(text, raw)[i] == group_text(text, raw[i + 1]),
        raw.len() == 2 ==> capture_set(text, raw).len() == 1,
{
}

/// The indices that a pattern set reports are ascending, and an index is
/// among them exactly when the pattern at that index matches the text.
pub proof fn lemma_matching_indices(patterns: Seq<Seq<char>>, text: Seq<char>)
    requires
        patterns.len() <= usize::MAX,
    ensures
        forall|a: int, b: int| 0 <= a < b < matching_indices(patterns, text).len()
            ==> matching_indices(patterns, text)[a] < matching_indices(patterns, text)[b],
        forall|i: int| 0 <= i < patterns.len() ==> (matching_indices(patterns, text).contains(i as usize)
            <==> spec_is_match(#[trigger] patterns[i], text)),
        forall|x: usize| #[trigger] matching_indices(patterns, text).contains(x) ==> x < patterns.len(),
{
    lemma_indices_below(patterns, text, patterns.len());
}

proof fn lemma_indices_below(patterns: Seq<Seq<char>>, text: Seq<char>, n: nat)
    requires
        n <= patterns.len(),
        patterns.len() <= usize::MAX,
    ensures
        forall|a: int, b: int| 0 <= a < b < indices_below(patterns, text, n).len()
            ==> indices_below(patterns, text, n)[a] < indices_below(patterns, text, n)[b],
        forall|k: int| 0 <= k < indices_below(patterns, text, n).len()
            ==> #[trigger] indices_below(patterns, text, n)[k] < n,
        forall|i: int| 0 <= i < n ==> (indices_below(patterns, text, n).contains(i as usize)
            <==> spec_is_match(#[trigger] patterns[i], text)),
        forall|x: usize| #[trigger] indices_below(patterns, text, n).contains(x) ==> x < n,
    decreases n,
{
    if n > 0 {
        lemma_indices_below(patterns, text, (n - 1) as nat);
        let earlier = indices_below(patterns, text, (n - 1) as nat);
        assert forall|i: int| 0 <= i < n implies (indices_below(patterns, text, n).contains(i as usize)
            <==> spec_is_match(#[trigger] patterns[i], text)) by {
            if spec_is_match(patterns[n - 1], text) {
                assert(indices_below(patterns, text, n) == earlier.push((n - 1) as usize));
                if i < n - 1 {
                    if earlier.push((n - 1) as usize).contains(i as usize) {
                        let j = choose|j: int| 0 <= j < earlier.len() + 1 && #[trigger] earlier.push((n - 1) as usize)[j] == i as usize;
                        if j < earlier.len() {
                            assert(earlier.contains(i as usize));
                        }
                    }
                    if earlier.contains(i as usize) {
                        let j = choose|j: int| 0 <= j < earlier.len() && #[trigger] earlier[j] == i as usize;
                        assert(earlier.push((n - 1) as usize)[j] == i as usize);
                    }
                } else {
                    assert(earlier.push((n - 1) as usize)[earlier.len() as int] == (n - 1) as usize);
                }
            }
        }
        assert forall|x: usize| #[trigger] indices_below(patterns, text, n).contains(x) implies x < n by {
            let j = choose|j: int| 0 <= j < indices_below(patterns, text, n).len() && #[trigger] indices_below(patterns, text, n)[j] == x;
        }
    }
}

} // verus!
