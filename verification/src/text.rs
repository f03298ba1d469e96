//! Character-level utilities shared by the pipeline stages.
//!
//! The pipeline works on diff text character by character: every stage
//! converts its input to a `Vec<char>` once, runs the verified logic there,
//! and turns the result back into a `String` at the end. This module holds
//! the conversions and the substring primitives (match, find, count) with
//! their specifications, plus blank-text and trimming predicates.

use vstd::prelude::*;

verus! {

/// Relies on `String::push`: appends one character to the string.
#[verifier::external_body]
fn push_char(s: &mut String, c: char)
    ensures
        final(s)@ == old(s)@.push(c),
{
    s.push(c);
}

/// The characters of `s`, in order, as a vector.
pub fn chars_of(s: &str) -> (v: Vec<char>)
    ensures
        v@ == s@,
{
    let n = s.unicode_len();
    let mut v: Vec<char> = Vec::new();
    let mut i: usize = 0;
    while i < n
        invariant
            n == s@.len(),
            i <= n,
            v@ == s@.subrange(0, i as int),
        decreases n - i,
    {
        let c = s.get_char(i);
        v.push(c);
        i = i + 1;
        proof {
            assert(v@ =~= s@.subrange(0, i as int));
        }
    }
    proof {
        assert(v@ =~= s@);
    }
    v
}

/// The string holding exactly the characters of `v`, in order.
pub fn string_of(v: &Vec<char>) -> (s: String)
    ensures
        s@ == v@,
{
    let mut s = String::new();
    let mut i: usize = 0;
    while i < v.len()
        invariant
            i <= v@.len(),
            s@ == v@.subrange(0, i as int),
        decreases v@.len() - i,
    {
        push_char(&mut s, v[i]);
        i = i + 1;
        proof {
            assert(s@ =~= v@.subrange(0, i as int));
        }
    }
    proof {
        assert(s@ =~= v@);
    }
    s
}

/// `needle` occurs in `hay` starting at position `i`.
pub open spec fn match_at(hay: Seq<char>, needle: Seq<char>, i: int) -> bool {
    &&& 0 <= i
    &&& i + needle.len() <= hay.len()
    &&& hay.subrange(i, i + needle.len() as int) == needle
}

/// `needle` occurs somewhere in `hay`.
pub open spec fn contains_seq(hay: Seq<char>, needle: Seq<char>) -> bool {
    exists|i: int| match_at(hay, needle, i)
}

/// Position of the first occurrence of `needle` in `hay` at or after `k`.
pub open spec fn first_match_from(hay: Seq<char>, needle: Seq<char>, k: int) -> Option<int>
    decreases hay.len() + 1 - k,
{
    if k < 0 || k + needle.len() > hay.len() {
        None
    } else if match_at(hay, needle, k) {
        Some(k)
    } else {
        first_match_from(hay, needle, k + 1)
    }
}

/// Position of the first occurrence of `needle` in `hay`.
pub open spec fn first_match(hay: Seq<char>, needle: Seq<char>) -> Option<int> {
    first_match_from(hay, needle, 0)
}

/// `first_match_from` returns exactly the least match position at or after
/// `k`, and `None` exactly when no position at or after `k` matches.
pub proof fn lemma_first_match_from(hay: Seq<char>, needle: Seq<char>, k: int)
    requires
        0 <= k,
    ensures
        match first_match_from(hay, needle, k) {
            Some(i) => k <= i && match_at(hay, needle, i) && (forall|j: int|
                k <= j < i ==> !match_at(hay, needle, j)),
            None => forall|j: int| k <= j ==> !match_at(hay, needle, j),
        },
    decreases hay.len() + 1 - k,
{
    if k + needle.len() > hay.len() {
        assert forall|j: int| k <= j implies !match_at(hay, needle, j) by {
            assert(j + needle.len() > hay.len());
        }
    } else if match_at(hay, needle, k) {
    } else {
        lemma_first_match_from(hay, needle, k + 1);
    }
}

/// Number of non-overlapping occurrences of `needle` in `hay` at or after
/// `k`, scanning from the left (an empty `needle` counts as absent).
pub open spec fn count_from(hay: Seq<char>, needle: Seq<char>, k: int) -> nat
    decreases hay.len() - k,
{
    if k < 0 || needle.len() == 0 || k + needle.len() > hay.len() {
        0
    } else if match_at(hay, needle, k) {
        1 + count_from(hay, needle, k + needle.len() as int)
    } else {
        count_from(hay, needle, k + 1)
    }
}

/// Number of non-overlapping occurrences of `needle` in `hay`.
pub open spec fn count_matches(hay: Seq<char>, needle: Seq<char>) -> nat {
    count_from(hay, needle, 0)
}

/// `needle` occurs in `hay` starting exactly at position `i`.
pub fn matches_at(hay: &Vec<char>, needle: &Vec<char>, i: usize) -> (r: bool)
    ensures
        r == match_at(hay@, needle@, i as int),
{
    if i > hay.len() || needle.len() > hay.len() - i {
        return false;
    }
    let mut j: usize = 0;
    while j < needle.len()
        invariant
            i + needle@.len() <= hay@.len(),
            hay@.len() <= usize::MAX,
            j <= needle@.len(),
            forall|t: int| 0 <= t < j ==> hay@[i + t] == needle@[t],
        decreases needle@.len() - j,
    {
        proof {
            assert(i + j < hay@.len());
        }
        let idx = i + j;
        if hay[idx] != needle[j] {
            proof {
                let sub = hay@.subrange(i as int, i + needle@.len() as int);
                assert(sub[j as int] == hay@[i + j]);
            }
            return false;
        }
        j = j + 1;
    }
    proof {
        assert(hay@.subrange(i as int, i + needle@.len() as int) =~= needle@);
    }
    true
}

/// First occurrence of `needle` in `hay` at or after `from`.
pub fn find_from(hay: &Vec<char>, needle: &Vec<char>, from: usize) -> (r: Option<usize>)
    ensures
        match r {
            Some(i) => first_match_from(hay@, needle@, from as int) == Some(i as int),
            None => first_match_from(hay@, needle@, from as int) is None,
        },
{
    let mut k: usize = from;
    loop
        invariant
            from <= k,
            forall|j: int| from <= j < k ==> !match_at(hay@, needle@, j),
        decreases hay@.len() + 1 - k,
    {
        if k > hay.len() || needle.len() > hay.len() - k {
            proof {
                lemma_first_match_from(hay@, needle@, from as int);
                assert forall|j: int| from <= j implies !match_at(hay@, needle@, j) by {
                    if j >= k {
                        assert(j + needle@.len() > hay@.len());
                    }
                }
            }
            return None;
        }
        if matches_at(hay, needle, k) {
            proof {
                lemma_first_match_from(hay@, needle@, from as int);
            }
            return Some(k);
        }
        proof {
            // an empty needle would have matched, so the needle is nonempty
            // and incrementing stays within bounds
            if needle@.len() == 0 {
                assert(hay@.subrange(k as int, k as int) =~= needle@);
            }
        }
        k = k + 1;
    }
}

/// First occurrence of `needle` in `hay`.
pub fn find_sub(hay: &Vec<char>, needle: &Vec<char>) -> (r: Option<usize>)
    ensures
        match r {
            Some(i) => first_match(hay@, needle@) == Some(i as int),
            None => first_match(hay@, needle@) is None,
        },
{
    find_from(hay, needle, 0)
}

/// Whether `needle` occurs anywhere in `hay`.
pub fn contains_sub(hay: &Vec<char>, needle: &Vec<char>) -> (r: bool)
    ensures
        r == contains_seq(hay@, needle@),
{
    proof {
        lemma_first_match_from(hay@, needle@, 0);
    }
    find_sub(hay, needle).is_some()
}

/// Count of non-overlapping occurrences of `needle` in `hay`.
pub fn count_occurrences(hay: &Vec<char>, needle: &Vec<char>) -> (r: usize)
    ensures
        r as nat == count_matches(hay@, needle@),
{
    if needle.len() == 0 {
        return 0;
    }
    let mut k: usize = 0;
    let mut r: usize = 0;
    loop
        invariant
            needle@.len() >= 1,
            r <= k,
            count_matches(hay@, needle@) == r + count_from(hay@, needle@, k as int),
        decreases hay@.len() + 1 - k,
    {
        if k > hay.len() || needle.len() > hay.len() - k {
            return r;
        }
        if matches_at(hay, needle, k) {
            r = r + 1;
            k = k + needle.len();
        } else {
            k = k + 1;
        }
    }
}

/// The two character vectors hold the same characters.
pub fn chars_eq(a: &Vec<char>, b: &Vec<char>) -> (r: bool)
    ensures
        r == (a@ == b@),
{
    if a.len() != b.len() {
        return false;
    }
    let mut i: usize = 0;
    while i < a.len()
        invariant
            a@.len() == b@.len(),
            i <= a@.len(),
            forall|t: int| 0 <= t < i ==> a@[t] == b@[t],
        decreases a@.len() - i,
    {
        if a[i] != b[i] {
            return false;
        }
        i = i + 1;
    }
    proof {
        assert(a@ =~= b@);
    }
    true
}

/// `t` with the first occurrence of `pat` replaced by `rep`, or `t`
/// itself when `pat` does not occur in it.
pub open spec fn replace_first(t: Seq<char>, pat: Seq<char>, rep: Seq<char>) -> Seq<char> {
    match first_match(t, pat) {
        Some(i) => t.subrange(0, i) + rep + t.subrange(i + pat.len(), t.len() as int),
        None => t,
    }
}

/// Copy a range of `src` onto the end of `dst`.
fn push_range(dst: &mut Vec<char>, src: &Vec<char>, from: usize, to: usize)
    requires
        from <= to <= old(dst)@.len() + src@.len(),
        to <= src@.len(),
    ensures
        final(dst)@ == old(dst)@ + src@.subrange(from as int, to as int),
{
    let mut i: usize = from;
    while i < to
        invariant
            from <= i <= to <= src@.len(),
            dst@ == old(dst)@ + src@.subrange(from as int, i as int),
        decreases to - i,
    {
        dst.push(src[i]);
        i = i + 1;
        proof {
            assert(old(dst)@ + src@.subrange(from as int, i - 1) + seq![src@[i - 1]] =~= old(
                dst,
            )@ + src@.subrange(from as int, i as int));
        }
    }
}

/// Replace the first occurrence of `pat` in `t` by `rep`; `t` unchanged
/// when `pat` does not occur.
pub fn replace_first_chars(t: &Vec<char>, pat: &Vec<char>, rep: &Vec<char>) -> (r: Vec<char>)
    ensures
        r@ == replace_first(t@, pat@, rep@),
{
    match find_sub(t, pat) {
        Some(i) => {
            let tlen = t.len();
            proof {
                lemma_first_match_from(t@, pat@, 0);
                assert(match_at(t@, pat@, i as int));
                assert(i + pat@.len() <= tlen);
            }
            let mut r: Vec<char> = Vec::new();
            push_range(&mut r, t, 0, i);
            proof {
                assert(Seq::<char>::empty() + t@.subrange(0, i as int) =~= t@.subrange(
                    0,
                    i as int,
                ));
            }
            push_range(&mut r, rep, 0, rep.len());
            proof {
                assert(rep@.subrange(0, rep@.len() as int) =~= rep@);
            }
            let after = i + pat.len();
            push_range(&mut r, t, after, t.len());
            proof {
                assert(r@ =~= t@.subrange(0, i as int) + rep@ + t@.subrange(
                    i + pat@.len(),
                    t@.len() as int,
                ));
            }
            r
        },
        None => {
            let mut r: Vec<char> = Vec::new();
            push_range(&mut r, t, 0, t.len());
            proof {
                assert(Seq::<char>::empty() + t@.subrange(0, t@.len() as int) =~= t@);
            }
            r
        },
    }
}

/// `c` is a whitespace character (the Unicode `White_Space` set).
pub open spec fn is_blank_char(c: char) -> bool {
    let u = c as u32;
    ||| (9 <= u && u <= 13)
    ||| u == 32
    ||| u == 0x85
    ||| u == 0xA0
    ||| u == 0x1680
    ||| (0x2000 <= u && u <= 0x200A)
    ||| u == 0x2028
    ||| u == 0x2029
    ||| u == 0x202F
    ||| u == 0x205F
    ||| u == 0x3000
}

/// Executable test for `is_blank_char`.
pub fn blank_char(c: char) -> (r: bool)
    ensures
        r == is_blank_char(c),
{
    let u = c as u32;
    (9 <= u && u <= 13) || u == 32 || u == 0x85 || u == 0xA0 || u == 0x1680
        || (0x2000 <= u && u <= 0x200A) || u == 0x2028 || u == 0x2029 || u == 0x202F
        || u == 0x205F || u == 0x3000
}

/// Every character of `s` is whitespace (true of the empty text).
pub open spec fn is_blank_text(s: Seq<char>) -> bool {
    forall|i: int| 0 <= i < s.len() ==> is_blank_char(s[i])
}

/// Whether every character of `v` is whitespace.
pub fn text_is_blank(v: &Vec<char>) -> (r: bool)
    ensures
        r == is_blank_text(v@),
{
    let mut i: usize = 0;
    while i < v.len()
        invariant
            i <= v@.len(),
            forall|t: int| 0 <= t < i ==> is_blank_char(v@[t]),
        decreases v@.len() - i,
    {
        if !blank_char(v[i]) {
            return false;
        }
        i = i + 1;
    }
    true
}

/// Whether every character of `s` is whitespace.
pub fn str_is_blank(s: &str) -> (r: bool)
    ensures
        r == is_blank_text(s@),
{
    let v = chars_of(s);
    text_is_blank(&v)
}

/// `s` with leading and trailing whitespace removed.
pub open spec fn trim_spec(s: Seq<char>) -> Seq<char>
    decreases s.len(),
{
    if s.len() == 0 {
        s
    } else if is_blank_char(s[0]) {
        trim_spec(s.drop_first())
    } else if is_blank_char(s.last()) {
        trim_spec(s.drop_last())
    } else {
        s
    }
}

/// `trim_spec(s)` is the subrange of `s` between any cut points `lo` and
/// `hi` that shave off exactly the blank margins.
proof fn lemma_trim_cut(s: Seq<char>, lo: int, hi: int)
    requires
        0 <= lo <= hi <= s.len(),
        forall|j: int| 0 <= j < lo ==> is_blank_char(s[j]),
        forall|j: int| hi <= j < s.len() ==> is_blank_char(s[j]),
        lo == hi || (!is_blank_char(s[lo]) && !is_blank_char(s[hi - 1])),
    ensures
        trim_spec(s) == s.subrange(lo, hi),
    decreases s.len(),
{
    if s.len() == 0 {
        assert(trim_spec(s) =~= s.subrange(lo, hi));
    } else if is_blank_char(s[0]) {
        let t = s.drop_first();
        if lo == hi {
            // the whole string is blank; any empty cut of the tail works
            lemma_trim_cut(t, 0, 0);
            assert(t.subrange(0, 0) =~= s.subrange(lo, hi));
        } else {
            // lo >= 1 since s[0] is blank and s[lo] is not
            lemma_trim_cut(t, lo - 1, hi - 1);
            assert(t.subrange(lo - 1, hi - 1) =~= s.subrange(lo, hi));
        }
    } else if is_blank_char(s.last()) {
        // lo < hi: were lo == hi, every character would be blank, but s[0] is not
        assert(lo < hi) by {
            if lo == hi {
                assert(is_blank_char(s[0]));
            }
        }
        let t = s.drop_last();
        lemma_trim_cut(t, lo, hi);
        assert(t.subrange(lo, hi) =~= s.subrange(lo, hi));
    } else {
        // neither end blank: lo == 0 and hi == s.len()
        assert(lo < hi) by {
            if lo == hi {
                assert(is_blank_char(s[0]));
            }
        }
        assert(lo == 0) by {
            if lo > 0 {
                assert(is_blank_char(s[0]));
            }
        }
        assert(hi == s.len()) by {
            if hi < s.len() {
                assert(is_blank_char(s.last()));
            }
        }
        assert(s.subrange(lo, hi) =~= s);
    }
}

/// The trimmed text is empty exactly when the whole text is whitespace.
pub proof fn lemma_trim_blank_iff(s: Seq<char>)
    ensures
        (trim_spec(s).len() == 0) <==> is_blank_text(s),
    decreases s.len(),
{
    if s.len() == 0 {
    } else if is_blank_char(s[0]) {
        lemma_trim_blank_iff(s.drop_first());
        assert(is_blank_text(s.drop_first()) ==> is_blank_text(s)) by {
            if is_blank_text(s.drop_first()) {
                assert forall|i: int| 0 <= i < s.len() implies is_blank_char(s[i]) by {
                    if i >= 1 {
                        assert(s.drop_first()[i - 1] == s[i]);
                    }
                }
            }
        }
        assert(is_blank_text(s) ==> is_blank_text(s.drop_first()));
    } else if is_blank_char(s.last()) {
        lemma_trim_blank_iff(s.drop_last());
        assert(is_blank_text(s.drop_last()) ==> is_blank_text(s)) by {
            if is_blank_text(s.drop_last()) {
                assert forall|i: int| 0 <= i < s.len() implies is_blank_char(s[i]) by {
                    if i < s.len() - 1 {
                        assert(s.drop_last()[i] == s[i]);
                    }
                }
            }
        }
    } else {
        assert(!is_blank_char(s[0]));
    }
}

/// `v` with leading and trailing whitespace removed.
pub fn trim_chars(v: &Vec<char>) -> (r: Vec<char>)
    ensures
        r@ == trim_spec(v@),
{
    let mut lo: usize = 0;
    while lo < v.len() && blank_char(v[lo])
        invariant
            lo <= v@.len(),
            forall|j: int| 0 <= j < lo ==> is_blank_char(v@[j]),
        decreases v@.len() - lo,
    {
        lo = lo + 1;
    }
    let mut hi: usize = v.len();
    while hi > lo && blank_char(v[hi - 1])
        invariant
            lo <= hi <= v@.len(),
            forall|j: int| 0 <= j < lo ==> is_blank_char(v@[j]),
            forall|j: int| hi <= j < v@.len() ==> is_blank_char(v@[j]),
        decreases hi,
    {
        hi = hi - 1;
    }
    let mut r: Vec<char> = Vec::new();
    let mut i: usize = lo;
    while i < hi
        invariant
            lo <= i <= hi <= v@.len(),
            r@ == v@.subrange(lo as int, i as int),
        decreases hi - i,
    {
        r.push(v[i]);
        i = i + 1;
        proof {
            assert(r@ =~= v@.subrange(lo as int, i as int));
        }
    }
    proof {
        if lo == hi {
            lemma_trim_cut(v@, lo as int, hi as int);
        } else {
            assert(!is_blank_char(v@[lo as int]));
            assert(!is_blank_char(v@[hi as int - 1]));
            lemma_trim_cut(v@, lo as int, hi as int);
        }
    }
    r
}

} // verus!
