//! Turning the engine's capture groups into the public capture set.
use vstd::prelude::*;

use crate::model::{opt_text, opt_texts};

verus! {

/// The capture set of one match: every group of `raw` after the whole-match
/// group 0, in order, absent groups kept absent.
pub fn list_captures(raw: &[Option<String>]) -> (r: Vec<Option<String>>)
    requires
        raw@.len() >= 1,
    ensures
        r@.len() == raw@.len() - 1,
        opt_texts(r@) == opt_texts(raw@).drop_first(),
{
    let mut out: Vec<Option<String>> = Vec::new();
    let mut j: usize = 1;
    while j < raw.len()
        invariant
            1 <= j <= raw@.len(),
            out@.len() == j - 1,
            forall|k: int| 0 <= k < j - 1 ==> opt_text(#[trigger] out@[k]) == opt_text(raw@[k + 1]),
        decreases raw@.len() - j,
    {
        let group = match &raw[j] {
            Some(s) => Some(s.clone()),
            None => None,
        };
        out.push(group);
        j += 1;
    }
    assert(opt_texts(out@) =~= opt_texts(raw@).drop_first());
    out
}

} // verus!
