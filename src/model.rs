//! Mathematical model of the matcher's results.
use vstd::prelude::*;
use vstd::utf8::{decode_utf8, encode_utf8};

use crate::engine::{capture_spans, match_spans};

verus! {

/// The text that a byte range of `text`'s UTF-8 encoding spells.
pub open spec fn span_text(text: Seq<char>, span: (usize, usize)) -> Seq<char> {
    decode_utf8(encode_utf8(text).subrange(span.0 as int, span.1 as int))
}

/// The text of one capture group, absent when the group took no part.
pub open spec fn group_text(text: Seq<char>, group: Option<(usize, usize)>) -> Option<Seq<char>> {
    match group {
        Some(span) => Some(span_text(text, span)),
        None => None,
    }
}

/// The texts of a sequence of capture groups, each with its text or absent.
pub open spec fn group_texts(text: Seq<char>, groups: Seq<Option<(usize, usize)>>) -> Seq<Option<Seq<char>>> {
    groups.map_values(|g: Option<(usize, usize)>| group_text(text, g))
}

/// The public capture set of one match: the groups after the whole-match
/// group 0, in order, each with its text or absent.
pub open spec fn capture_set(text: Seq<char>, raw: Seq<Option<(usize, usize)>>) -> Seq<Option<Seq<char>>> {
    group_texts(text, raw).drop_first()
}

/// The view of an optional string.
pub open spec fn opt_text(o: Option<String>) -> Option<Seq<char>> {
    match o {
        Some(s) => Some(s@),
        None => None,
    }
}

/// The view of a sequence of optional strings.
pub open spec fn opt_texts(v: Seq<Option<String>>) -> Seq<Option<Seq<char>>> {
    v.map_values(|o: Option<String>| opt_text(o))
}

/// The view of a sequence of strings.
pub open spec fn texts(v: Seq<String>) -> Seq<Seq<char>> {
    v.map_values(|s: String| s@)
}

/// Whether `pattern` matches anywhere in `text`.
pub open spec fn spec_is_match(pattern: Seq<char>, text: Seq<char>) -> bool {
    match_spans(pattern, text).len() > 0
}

/// The text of the first (leftmost) match, absent when there is none.
pub open spec fn first_match(pattern: Seq<char>, text: Seq<char>) -> Option<Seq<char>> {
    let spans = match_spans(pattern, text);
    if spans.len() > 0 {
        Some(span_text(text, spans[0]))
    } else {
        None
    }
}

/// The texts of all successive matches, in order.
pub open spec fn all_matches(pattern: Seq<char>, text: Seq<char>) -> Seq<Seq<char>> {
    match_spans(pattern, text).map_values(|span: (usize, usize)| span_text(text, span))
}

/// The capture set of the first match, absent when there is none.
pub open spec fn first_captures(pattern: Seq<char>, text: Seq<char>) -> Option<Seq<Option<Seq<char>>>> {
    let caps = capture_spans(pattern, text);
    if caps.len() > 0 {
        Some(capture_set(text, caps[0]))
    } else {
        None
    }
}

/// The capture sets of all successive matches, in order.
pub open spec fn all_capture_sets(pattern: Seq<char>, text: Seq<char>) -> Seq<Seq<Option<Seq<char>>>> {
    capture_spans(pattern, text).map_values(|raw: Seq<Option<(usize, usize)>>| capture_set(text, raw))
}

/// The indices below `n` of the patterns that match `text`, ascending.
pub open spec fn indices_below(patterns: Seq<Seq<char>>, text: Seq<char>, n: nat) -> Seq<usize>
    decreases n,
{
    if n == 0 {
        Seq::empty()
    } else {
        let earlier = indices_below(patterns, text, (n - 1) as nat);
        if spec_is_match(patterns[n - 1], text) {
            earlier.push((n - 1) as usize)
        } else {
            earlier
        }
    }
}

/// The indices of all patterns of the set that match `text`, ascending.
pub open spec fn matching_indices(patterns: Seq<Seq<char>>, text: Seq<char>) -> Seq<usize> {
    indices_below(patterns, text, patterns.len())
}

} // verus!
