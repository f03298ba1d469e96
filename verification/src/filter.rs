//! Content filter: drops whole per-file sections of a diff.
//!
//! A diff is a sequence of lines; a line starting with `diff --git `
//! opens a new file section that runs until the next such header. A
//! section is dropped in full when its final path's filename is a known
//! dependency lock file (and lock-file ignoring is enabled), or when the
//! path contains any user-supplied substring pattern. Lines before the
//! first header have no path and are always kept.

use vstd::prelude::*;
use crate::text::{
    match_at, contains_seq, first_match, chars_of, string_of, matches_at, find_sub, contains_sub,
    chars_eq,
};
use crate::lines::{
    lines_of, concat_lines, wf_lines, lines_view, is_subseq_of, split_lines, push_all,
    lemma_wf_lines_of, lemma_lines_of_concat, lemma_subseq_wf, lemma_concat_of_lines,
};

verus! {

/// A line that opens a new per-file section of the diff.
pub open spec fn is_header_line(l: Seq<char>) -> bool {
    match_at(l, "diff --git "@, 0)
}

/// The line without its terminating newline, if it has one.
pub open spec fn line_body(l: Seq<char>) -> Seq<char> {
    if l.len() > 0 && l.last() == '\n' {
        l.drop_last()
    } else {
        l
    }
}

/// The final path named by a header line: the text after the first
/// ` b/` marker, up to the end of the line.
pub open spec fn header_path(l: Seq<char>) -> Option<Seq<char>> {
    let body = line_body(l);
    match first_match(body, " b/"@) {
        Some(i) => Some(body.subrange(i + " b/"@.len(), body.len() as int)),
        None => None,
    }
}

/// Position of the last occurrence of `c` in `s`.
pub open spec fn find_last_char(s: Seq<char>, c: char) -> Option<int>
    decreases s.len(),
{
    if s.len() == 0 {
        None
    } else if s.last() == c {
        Some(s.len() - 1)
    } else {
        find_last_char(s.drop_last(), c)
    }
}

/// `find_last_char` returns exactly the greatest position holding `c`,
/// and `None` exactly when `c` does not occur.
pub proof fn lemma_find_last_char(s: Seq<char>, c: char)
    ensures
        match find_last_char(s, c) {
            Some(i) => 0 <= i < s.len() && s[i] == c && (forall|j: int|
                i < j < s.len() ==> s[j] != c),
            None => forall|j: int| 0 <= j < s.len() ==> s[j] != c,
        },
    decreases s.len(),
{
    if s.len() == 0 {
    } else if s.last() == c {
    } else {
        lemma_find_last_char(s.drop_last(), c);
        let t = s.drop_last();
        assert(forall|j: int| 0 <= j < t.len() ==> t[j] == s[j]);
    }
}

/// The filename component of a path: the text after the last `/`.
pub open spec fn file_name_of(p: Seq<char>) -> Seq<char> {
    match find_last_char(p, '/') {
        Some(i) => p.subrange(i + 1, p.len() as int),
        None => p,
    }
}

/// `n` is the name of a dependency lock file of a common ecosystem.
pub open spec fn is_lockfile_name(n: Seq<char>) -> bool {
    ||| n == "Cargo.lock"@
    ||| n == "bun.lock"@
    ||| n == "bun.lockb"@
    ||| n == "package-lock.json"@
    ||| n == "yarn.lock"@
    ||| n == "pnpm-lock.yaml"@
    ||| n == "poetry.lock"@
    ||| n == "Pipfile.lock"@
    ||| n == "composer.lock"@
    ||| n == "Gemfile.lock"@
    ||| n == "go.sum"@
}

/// The views of a vector of pattern strings.
pub open spec fn patterns_view(ps: Seq<String>) -> Seq<Seq<char>> {
    ps.map_values(|p: String| p@)
}

/// `path` contains at least one of the patterns as a substring.
pub open spec fn matches_custom(path: Seq<char>, pats: Seq<Seq<char>>) -> bool {
    exists|k: int| 0 <= k < pats.len() && contains_seq(path, #[trigger] pats[k])
}

/// The ignore rules of one invocation: the built-in lock-file toggle and
/// the user-supplied substring patterns, both read-only.
pub struct IgnoreRules {
    pub ignore_lock_files: bool,
    pub custom_patterns: Vec<String>,
}

impl IgnoreRules {
    /// The pattern texts.
    pub open spec fn pats(&self) -> Seq<Seq<char>> {
        patterns_view(self.custom_patterns@)
    }
}

/// The section opened by header line `l` is dropped under the rules.
pub open spec fn section_dropped(l: Seq<char>, ignore_lock: bool, pats: Seq<Seq<char>>) -> bool {
    match header_path(l) {
        Some(p) => (ignore_lock && is_lockfile_name(file_name_of(p))) || matches_custom(p, pats),
        None => false,
    }
}

/// Filter a line sequence; `keep` says whether the section open at the
/// start is kept. A header line decides anew for its own section.
pub open spec fn filter_lines_from(
    ls: Seq<Seq<char>>,
    keep: bool,
    ignore_lock: bool,
    pats: Seq<Seq<char>>,
) -> Seq<Seq<char>>
    decreases ls.len(),
{
    if ls.len() == 0 {
        Seq::empty()
    } else {
        let l = ls[0];
        let keep2 = if is_header_line(l) {
            !section_dropped(l, ignore_lock, pats)
        } else {
            keep
        };
        let rest = filter_lines_from(ls.drop_first(), keep2, ignore_lock, pats);
        if keep2 {
            seq![l] + rest
        } else {
            rest
        }
    }
}

/// The kept lines of a diff: lines before the first header survive.
pub open spec fn filter_lines(ls: Seq<Seq<char>>, ignore_lock: bool, pats: Seq<Seq<char>>) -> Seq<
    Seq<char>,
> {
    filter_lines_from(ls, true, ignore_lock, pats)
}

/// The filtered diff text.
pub open spec fn filter_spec(s: Seq<char>, ignore_lock: bool, pats: Seq<Seq<char>>) -> Seq<char> {
    concat_lines(filter_lines(lines_of(s), ignore_lock, pats))
}

/// The filename component of `p` as a vector.
fn file_name_chars(p: &Vec<char>) -> (r: Vec<char>)
    ensures
        r@ == file_name_of(p@),
{
    let mut i: usize = p.len();
    while i > 0 && p[i - 1] != '/'
        invariant
            i <= p@.len(),
            forall|j: int| i <= j < p@.len() ==> p@[j] != '/',
        decreases i,
    {
        i = i - 1;
    }
    proof {
        lemma_find_last_char(p@, '/');
        if i > 0 {
            assert(p@[i - 1] == '/');
            match find_last_char(p@, '/') {
                Some(t) => {
                    assert(t == i - 1) by {
                        if t < i - 1 {
                            assert(p@[i - 1] != '/');
                        }
                        if t > i - 1 {
                            assert(p@[t] != '/');
                        }
                    }
                },
                None => {
                    assert(p@[i - 1] != '/');
                },
            }
        }
    }
    let mut r: Vec<char> = Vec::new();
    let mut k: usize = i;
    while k < p.len()
        invariant
            i <= k <= p@.len(),
            r@ == p@.subrange(i as int, k as int),
        decreases p@.len() - k,
    {
        r.push(p[k]);
        k = k + 1;
        proof {
            assert(r@ =~= p@.subrange(i as int, k as int));
        }
    }
    proof {
        if i == 0 {
            assert(p@.subrange(0, p@.len() as int) =~= p@);
        }
    }
    r
}

/// Whether `name` is one of the built-in lock-file names.
fn name_is_lockfile(name: &Vec<char>) -> (r: bool)
    ensures
        r == is_lockfile_name(name@),
{
    let c0 = chars_of("Cargo.lock");
    let c1 = chars_of("bun.lock");
    let c2 = chars_of("bun.lockb");
    let c3 = chars_of("package-lock.json");
    let c4 = chars_of("yarn.lock");
    let c5 = chars_of("pnpm-lock.yaml");
    let c6 = chars_of("poetry.lock");
    let c7 = chars_of("Pipfile.lock");
    let c8 = chars_of("composer.lock");
    let c9 = chars_of("Gemfile.lock");
    let c10 = chars_of("go.sum");
    chars_eq(name, &c0) || chars_eq(name, &c1) || chars_eq(name, &c2) || chars_eq(name, &c3)
        || chars_eq(name, &c4) || chars_eq(name, &c5) || chars_eq(name, &c6) || chars_eq(
        name,
        &c7,
    ) || chars_eq(name, &c8) || chars_eq(name, &c9) || chars_eq(name, &c10)
}

/// Whether the final component of `path` names a dependency lock file.
pub fn should_ignore_file(path: &str) -> (r: bool)
    ensures
        r == is_lockfile_name(file_name_of(path@)),
{
    let p = chars_of(path);
    let name = file_name_chars(&p);
    name_is_lockfile(&name)
}

/// Whether `path` contains one of the patterns as a substring.
fn path_matches_custom(path: &Vec<char>, patterns: &Vec<String>) -> (r: bool)
    ensures
        r == matches_custom(path@, patterns_view(patterns@)),
{
    let mut k: usize = 0;
    while k < patterns.len()
        invariant
            k <= patterns@.len(),
            forall|t: int| 0 <= t < k ==> !contains_seq(path@, patterns_view(patterns@)[t]),
        decreases patterns@.len() - k,
    {
        let pat = chars_of(patterns[k].as_str());
        if contains_sub(path, &pat) {
            proof {
                assert(patterns_view(patterns@)[k as int] == patterns@[k as int]@);
            }
            return true;
        }
        proof {
            assert(patterns_view(patterns@)[k as int] == patterns@[k as int]@);
        }
        k = k + 1;
    }
    false
}

/// Whether `path` contains one of the user-supplied patterns.
pub fn should_ignore_by_custom_patterns(path: &str, patterns: &Vec<String>) -> (r: bool)
    ensures
        r == matches_custom(path@, patterns_view(patterns@)),
{
    let p = chars_of(path);
    path_matches_custom(&p, patterns)
}

/// Whether `l` opens a per-file section.
fn line_is_header(l: &Vec<char>) -> (r: bool)
    ensures
        r == is_header_line(l@),
{
    let marker = chars_of("diff --git ");
    matches_at(l, &marker, 0)
}

/// The path named by a header line, if the ` b/` marker is present.
fn header_path_of(l: &Vec<char>) -> (r: Option<Vec<char>>)
    ensures
        match r {
            Some(p) => header_path(l@) == Some(p@),
            None => header_path(l@) is None,
        },
{
    let end: usize = if l.len() > 0 && l[l.len() - 1] == '\n' {
        l.len() - 1
    } else {
        l.len()
    };
    let mut body: Vec<char> = Vec::new();
    let mut k: usize = 0;
    while k < end
        invariant
            k <= end <= l@.len(),
            body@ == l@.subrange(0, k as int),
        decreases end - k,
    {
        body.push(l[k]);
        k = k + 1;
        proof {
            assert(body@ =~= l@.subrange(0, k as int));
        }
    }
    proof {
        assert(body@ =~= line_body(l@)) by {
            if l@.len() > 0 && l@.last() == '\n' {
                assert(l@.subrange(0, end as int) =~= l@.drop_last());
            } else {
                assert(l@.subrange(0, end as int) =~= l@);
            }
        }
    }
    let marker = chars_of(" b/");
    let blen = body.len();
    match find_sub(&body, &marker) {
        Some(i) => {
            proof {
                crate::text::lemma_first_match_from(body@, marker@, 0);
                assert(match_at(body@, marker@, i as int));
                assert(i + marker@.len() <= blen);
            }
            let mut p: Vec<char> = Vec::new();
            let start = i + marker.len();
            let mut k2: usize = start;
            while k2 < body.len()
                invariant
                    start <= k2 <= body@.len(),
                    p@ == body@.subrange(start as int, k2 as int),
                decreases body@.len() - k2,
            {
                p.push(body[k2]);
                k2 = k2 + 1;
                proof {
                    assert(p@ =~= body@.subrange(start as int, k2 as int));
                }
            }
            Some(p)
        },
        None => None,
    }
}

/// Whether a header line's section is dropped under the rules.
fn line_section_dropped(l: &Vec<char>, rules: &IgnoreRules) -> (r: bool)
    ensures
        r == section_dropped(l@, rules.ignore_lock_files, rules.pats()),
{
    match header_path_of(l) {
        Some(p) => {
            let by_lock = if rules.ignore_lock_files {
                let name = file_name_chars(&p);
                name_is_lockfile(&name)
            } else {
                false
            };
            by_lock || path_matches_custom(&p, &rules.custom_patterns)
        },
        None => false,
    }
}

/// The filtered diff: per-file sections whose path matches the rules are
/// dropped in full; surviving lines keep their order.
pub fn filter_diff(raw: &str, rules: &IgnoreRules) -> (r: String)
    ensures
        r@ == filter_spec(raw@, rules.ignore_lock_files, rules.pats()),
{
    let chars = chars_of(raw);
    let ls = split_lines(&chars);
    let ghost lv = lines_view(ls@);
    let ghost b = rules.ignore_lock_files;
    let ghost pats = rules.pats();
    let mut out: Vec<char> = Vec::new();
    let mut keep = true;
    let mut i: usize = 0;
    proof {
        assert(lv.subrange(0, lv.len() as int) =~= lv);
        assert(Seq::<char>::empty() + concat_lines(filter_lines_from(lv, true, b, pats))
            =~= concat_lines(filter_lines_from(lv, true, b, pats)));
    }
    while i < ls.len()
        invariant
            i <= ls@.len(),
            lv == lines_view(ls@),
            b == rules.ignore_lock_files,
            pats == rules.pats(),
            out@ + concat_lines(
                filter_lines_from(lv.subrange(i as int, lv.len() as int), keep, b, pats),
            ) == filter_spec(raw@, rules.ignore_lock_files, rules.pats()),
        decreases ls@.len() - i,
    {
        let ghost tail = lv.subrange(i as int, lv.len() as int);
        let ghost l = lv[i as int];
        proof {
            assert(tail[0] == l);
            assert(tail.drop_first() =~= lv.subrange(i + 1, lv.len() as int));
            assert(l == ls@[i as int]@);
        }
        let keep2 = if line_is_header(&ls[i]) {
            !line_section_dropped(&ls[i], rules)
        } else {
            keep
        };
        let ghost rest = filter_lines_from(lv.subrange(i + 1, lv.len() as int), keep2, b, pats);
        proof {
            assert(filter_lines_from(tail, keep, b, pats) == if keep2 {
                seq![l] + rest
            } else {
                rest
            });
        }
        if keep2 {
            let ghost out0 = out@;
            push_all(&mut out, &ls[i]);
            proof {
                assert((seq![l] + rest)[0] == l);
                assert((seq![l] + rest).drop_first() =~= rest);
                assert(concat_lines(seq![l] + rest) == l + concat_lines(rest));
                assert((out0 + l) + concat_lines(rest) =~= out0 + (l + concat_lines(rest)));
            }
        }
        keep = keep2;
        i = i + 1;
    }
    proof {
        assert(lv.subrange(i as int, lv.len() as int) =~= Seq::<Seq<char>>::empty());
        assert(out@ + concat_lines(filter_lines_from(Seq::empty(), keep, b, pats)) =~= out@);
    }
    string_of(&out)
}

/// The kept lines form a subsequence of the original lines.
proof fn lemma_filter_subseq_lines(ls: Seq<Seq<char>>, keep: bool, ignore_lock: bool, pats: Seq<Seq<char>>)
    ensures
        is_subseq_of(filter_lines_from(ls, keep, ignore_lock, pats), ls),
    decreases ls.len(),
{
    if ls.len() == 0 {
    } else {
        let l = ls[0];
        let keep2 = if is_header_line(l) {
            !section_dropped(l, ignore_lock, pats)
        } else {
            keep
        };
        let rest = filter_lines_from(ls.drop_first(), keep2, ignore_lock, pats);
        lemma_filter_subseq_lines(ls.drop_first(), keep2, ignore_lock, pats);
        if keep2 {
            let res = seq![l] + rest;
            assert(res[0] == ls[0]);
            assert(res.drop_first() =~= rest);
        }
    }
}

/// Filter output: always a (possibly empty) subsequence of the input's
/// lines, order preserved, no line rewritten.
pub proof fn lemma_filter_is_line_subsequence(s: Seq<char>, ignore_lock: bool, pats: Seq<Seq<char>>)
    ensures
        is_subseq_of(lines_of(filter_spec(s, ignore_lock, pats)), lines_of(s)),
{
    let ls = lines_of(s);
    let f = filter_lines(ls, ignore_lock, pats);
    lemma_wf_lines_of(s);
    lemma_filter_subseq_lines(ls, true, ignore_lock, pats);
    lemma_subseq_wf(f, ls);
    lemma_lines_of_concat(f);
}

/// With the section state fixed by a leading header (or no lines at all),
/// the initial `keep` flag is irrelevant.
proof fn lemma_filter_flag_indep(
    ls: Seq<Seq<char>>,
    k1: bool,
    k2: bool,
    ignore_lock: bool,
    pats: Seq<Seq<char>>,
)
    requires
        ls.len() == 0 || is_header_line(ls[0]),
    ensures
        filter_lines_from(ls, k1, ignore_lock, pats) == filter_lines_from(
            ls,
            k2,
            ignore_lock,
            pats,
        ),
{
}

/// Filtering with the section state `false` yields nothing until a header
/// appears, so the result is empty or starts with a header line.
proof fn lemma_filter_first_header(ls: Seq<Seq<char>>, ignore_lock: bool, pats: Seq<Seq<char>>)
    ensures
        filter_lines_from(ls, false, ignore_lock, pats).len() == 0 || is_header_line(
            filter_lines_from(ls, false, ignore_lock, pats)[0],
        ),
    decreases ls.len(),
{
    if ls.len() == 0 {
    } else {
        let l = ls[0];
        if is_header_line(l) {
            let keep2 = !section_dropped(l, ignore_lock, pats);
            if keep2 {
                let rest = filter_lines_from(ls.drop_first(), keep2, ignore_lock, pats);
                assert((seq![l] + rest)[0] == l);
            } else {
                lemma_filter_first_header(ls.drop_first(), ignore_lock, pats);
            }
        } else {
            lemma_filter_first_header(ls.drop_first(), ignore_lock, pats);
        }
    }
}

/// Filtering a filtered line sequence changes nothing.
proof fn lemma_filter_idem_lines(ls: Seq<Seq<char>>, keep: bool, ignore_lock: bool, pats: Seq<Seq<char>>)
    ensures
        filter_lines_from(filter_lines_from(ls, keep, ignore_lock, pats), keep, ignore_lock, pats)
            == filter_lines_from(ls, keep, ignore_lock, pats),
    decreases ls.len(),
{
    if ls.len() == 0 {
    } else {
        let l = ls[0];
        let keep2 = if is_header_line(l) {
            !section_dropped(l, ignore_lock, pats)
        } else {
            keep
        };
        let rest = filter_lines_from(ls.drop_first(), keep2, ignore_lock, pats);
        if keep2 {
            let res = seq![l] + rest;
            assert(res[0] == l);
            assert(res.drop_first() =~= rest);
            lemma_filter_idem_lines(ls.drop_first(), keep2, ignore_lock, pats);
            assert(filter_lines_from(res, keep, ignore_lock, pats) == seq![l]
                + filter_lines_from(rest, keep2, ignore_lock, pats));
        } else {
            // the head line is dropped, so the result comes from the tail
            // with the section state `false`
            assert(keep2 == false);
            lemma_filter_idem_lines(ls.drop_first(), false, ignore_lock, pats);
            lemma_filter_first_header(ls.drop_first(), ignore_lock, pats);
            lemma_filter_flag_indep(rest, keep, false, ignore_lock, pats);
        }
    }
}

/// With the lock-file toggle off and no pattern, nothing is dropped.
proof fn lemma_filter_no_rules_keeps_lines(ls: Seq<Seq<char>>, keep: bool)
    requires
        keep,
    ensures
        filter_lines_from(ls, keep, false, Seq::empty()) == ls,
    decreases ls.len(),
{
    if ls.len() == 0 {
        assert(filter_lines_from(ls, keep, false, Seq::empty()) =~= ls);
    } else {
        let l = ls[0];
        assert(!section_dropped(l, false, Seq::empty()));
        lemma_filter_no_rules_keeps_lines(ls.drop_first(), true);
        assert(seq![l] + ls.drop_first() =~= ls);
    }
}

/// The absence of any rules is a no-op: with lock-file ignoring off and
/// no custom pattern, the filtered diff is the input unchanged.
pub proof fn lemma_filter_without_rules_is_identity(s: Seq<char>)
    ensures
        filter_spec(s, false, Seq::empty()) == s,
{
    lemma_filter_no_rules_keeps_lines(lines_of(s), true);
    lemma_concat_of_lines(s);
}

/// Filtering is idempotent: filtering an already-filtered diff returns it
/// unchanged.
pub proof fn lemma_filter_idempotent(s: Seq<char>, ignore_lock: bool, pats: Seq<Seq<char>>)
    ensures
        filter_spec(filter_spec(s, ignore_lock, pats), ignore_lock, pats) == filter_spec(
            s,
            ignore_lock,
            pats,
        ),
{
    let ls = lines_of(s);
    let f = filter_lines(ls, ignore_lock, pats);
    lemma_wf_lines_of(s);
    lemma_filter_subseq_lines(ls, true, ignore_lock, pats);
    lemma_subseq_wf(f, ls);
    lemma_lines_of_concat(f);
    lemma_filter_idem_lines(ls, true, ignore_lock, pats);
}

} // verus!
