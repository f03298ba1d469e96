//! Context bounder: truncates a diff to a character budget.
//!
//! The bounded text is the longest prefix that fits the budget and ends
//! at a line boundary; a whole text that already fits is returned as is.
//! If even the first line exceeds the budget the result is empty — a
//! documented degenerate case, not an error.

use vstd::prelude::*;
use crate::text::{chars_of, string_of};

verus! {

/// The character budget used when neither configuration nor a flag
/// overrides it.
pub const DEFAULT_CONTEXT_LIMIT: usize = 200000;

/// Position `i` is a line boundary of `s`: the very start, or just after
/// a newline.
pub open spec fn is_cut_point(s: Seq<char>, i: int) -> bool {
    i == 0 || s[i - 1] == '\n'
}

/// The largest line boundary of `s` that is at most `k`.
pub open spec fn last_cut_within(s: Seq<char>, k: int) -> int
    decreases k,
{
    if k <= 0 {
        0
    } else if s[k - 1] == '\n' {
        k
    } else {
        last_cut_within(s, k - 1)
    }
}

/// Where the bounded text ends: the whole text when it fits the budget,
/// otherwise the largest line boundary within the budget.
pub open spec fn bound_index(s: Seq<char>, limit: int) -> int {
    if s.len() <= limit {
        s.len() as int
    } else {
        last_cut_within(s, limit)
    }
}

/// The bounded text.
pub open spec fn bound_spec(s: Seq<char>, limit: int) -> Seq<char> {
    s.subrange(0, bound_index(s, limit))
}

/// `last_cut_within` returns exactly the greatest cut point at or below
/// `k`.
proof fn lemma_last_cut_within(s: Seq<char>, k: int)
    requires
        0 <= k <= s.len(),
    ensures
        0 <= last_cut_within(s, k) <= k,
        is_cut_point(s, last_cut_within(s, k)),
        forall|j: int| last_cut_within(s, k) < j <= k ==> !is_cut_point(s, j),
    decreases k,
{
    if k <= 0 {
    } else if s[k - 1] == '\n' {
    } else {
        lemma_last_cut_within(s, k - 1);
    }
}

/// The bounded text is a prefix of `s` of length at most `limit` that
/// ends exactly at a line boundary (or is all of `s`), and it is the
/// longest such prefix: it is empty only when no nonempty prefix within
/// the budget ends at a newline.
pub proof fn lemma_bound_properties(s: Seq<char>, limit: int)
    requires
        0 <= limit,
    ensures
        bound_spec(s, limit).len() <= limit,
        bound_spec(s, limit) == s.subrange(0, bound_spec(s, limit).len() as int),
        bound_spec(s, limit).len() == s.len() || bound_spec(s, limit).len() == 0 || s[bound_spec(
            s,
            limit,
        ).len() - 1] == '\n',
        forall|j: int|
            bound_spec(s, limit).len() < j <= limit && j <= s.len() ==> !is_cut_point(s, j),
{
    if s.len() <= limit {
    } else {
        lemma_last_cut_within(s, limit);
    }
}

/// Truncate `text` to at most `limit` characters, cutting only at a line
/// boundary; identity when the text already fits.
pub fn bound(text: &str, limit: usize) -> (r: String)
    ensures
        r@ == bound_spec(text@, limit as int),
{
    let chars = chars_of(text);
    if chars.len() <= limit {
        let mut whole = String::new();
        whole.append(text);
        proof {
            assert(Seq::<char>::empty() + text@ =~= text@);
        }
        return whole;
    }
    let mut i: usize = limit;
    while i > 0 && chars[i - 1] != '\n'
        invariant
            i <= limit < chars@.len(),
            forall|j: int| i < j <= limit ==> !is_cut_point(chars@, j),
        decreases i,
    {
        i = i - 1;
        proof {
            assert(!is_cut_point(chars@, i + 1));
        }
    }
    proof {
        lemma_last_cut_within(chars@, limit as int);
        let w = last_cut_within(chars@, limit as int);
        assert(is_cut_point(chars@, i as int));
        assert(w == i) by {
            if w < i {
                assert(!is_cut_point(chars@, i as int));
            }
            if w > i {
                assert(!is_cut_point(chars@, w));
            }
        }
    }
    let mut out: Vec<char> = Vec::new();
    let mut k: usize = 0;
    while k < i
        invariant
            k <= i <= chars@.len(),
            out@ == chars@.subrange(0, k as int),
        decreases i - k,
    {
        out.push(chars[k]);
        k = k + 1;
        proof {
            assert(out@ =~= chars@.subrange(0, k as int));
        }
    }
    string_of(&out)
}

} // verus!
