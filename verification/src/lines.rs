//! Splitting diff text into lines and joining lines back together.
//!
//! A line keeps its terminating `'\n'`; only the last line of a text may
//! lack one. The content filter works at line granularity, so this module
//! provides the split/join pair together with the lemmas that make a
//! join-then-split a round trip.

use vstd::prelude::*;

verus! {

/// The lines of `s`, each keeping its terminating newline; the last line
/// may lack one. The empty text has no lines.
pub open spec fn lines_of(s: Seq<char>) -> Seq<Seq<char>>
    decreases s.len(),
{
    if s.len() == 0 {
        Seq::empty()
    } else if s[0] == '\n' {
        seq![seq!['\n']] + lines_of(s.drop_first())
    } else if s.len() == 1 {
        seq![s]
    } else {
        let rest = lines_of(s.drop_first());
        seq![seq![s[0]] + rest[0]] + rest.drop_first()
    }
}

/// The concatenation of a sequence of lines.
pub open spec fn concat_lines(ls: Seq<Seq<char>>) -> Seq<char>
    decreases ls.len(),
{
    if ls.len() == 0 {
        Seq::empty()
    } else {
        ls[0] + concat_lines(ls.drop_first())
    }
}

/// A single line: nonempty, with `'\n'` allowed only as its last character.
pub open spec fn wf_line(l: Seq<char>) -> bool {
    &&& l.len() > 0
    &&& forall|j: int| 0 <= j < l.len() - 1 ==> l[j] != '\n'
}

/// A well-formed line sequence: every line is a single line, and every line
/// but the last ends with `'\n'`.
pub open spec fn wf_lines(ls: Seq<Seq<char>>) -> bool {
    &&& forall|i: int| 0 <= i < ls.len() ==> wf_line(#[trigger] ls[i])
    &&& forall|i: int| 0 <= i < ls.len() - 1 ==> (#[trigger] ls[i]).last() == '\n'
}

/// A nonempty text splits into at least one line.
pub proof fn lemma_lines_len(s: Seq<char>)
    requires
        s.len() > 0,
    ensures
        lines_of(s).len() >= 1,
{
}

/// Splitting a text that starts with one full newline-terminated line
/// yields that line followed by the split of the remainder.
pub proof fn lemma_lines_single(x: Seq<char>, y: Seq<char>)
    requires
        wf_line(x),
        x.last() == '\n',
    ensures
        lines_of(x + y) == seq![x] + lines_of(y),
    decreases x.len(),
{
    let s = x + y;
    if x.len() == 1 {
        assert(s[0] == '\n');
        assert(s.drop_first() =~= y);
        assert(seq!['\n'] =~= x);
    } else {
        assert(s[0] == x[0]);
        assert(x[0] != '\n');
        assert(s.len() > 1);
        let xt = x.drop_first();
        assert(wf_line(xt)) by {
            assert(forall|j: int| 0 <= j < xt.len() - 1 ==> xt[j] == x[j + 1]);
        }
        assert(xt.last() == '\n');
        lemma_lines_single(xt, y);
        assert(s.drop_first() =~= xt + y);
        let rest = lines_of(s.drop_first());
        assert(rest == seq![xt] + lines_of(y));
        assert(rest[0] == xt);
        assert(seq![s[0]] + rest[0] =~= x);
        assert(rest.drop_first() =~= lines_of(y));
        assert(lines_of(s) =~= seq![x] + lines_of(y));
    }
}

/// A nonempty text without any newline is a single line.
pub proof fn lemma_lines_tail(x: Seq<char>)
    requires
        x.len() > 0,
        forall|j: int| 0 <= j < x.len() ==> x[j] != '\n',
    ensures
        lines_of(x) == seq![x],
    decreases x.len(),
{
    if x.len() == 1 {
    } else {
        let xt = x.drop_first();
        lemma_lines_tail(xt);
        let rest = lines_of(xt);
        assert(rest[0] == xt);
        assert(seq![x[0]] + rest[0] =~= x);
        assert(rest.drop_first() =~= Seq::<Seq<char>>::empty());
        assert(lines_of(x) =~= seq![x]);
    }
}

/// The lines of any text form a well-formed line sequence.
pub proof fn lemma_wf_lines_of(s: Seq<char>)
    ensures
        wf_lines(lines_of(s)),
    decreases s.len(),
{
    if s.len() == 0 {
    } else if s[0] == '\n' {
        lemma_wf_lines_of(s.drop_first());
        let rest = lines_of(s.drop_first());
        let ls = lines_of(s);
        assert(ls == seq![seq!['\n']] + rest);
        assert(wf_line(seq!['\n']));
        assert forall|i: int| 0 <= i < ls.len() implies wf_line(#[trigger] ls[i]) by {
            if i >= 1 {
                assert(ls[i] == rest[i - 1]);
            }
        }
        assert forall|i: int| 0 <= i < ls.len() - 1 implies (#[trigger] ls[i]).last() == '\n' by {
            if i >= 1 {
                assert(ls[i] == rest[i - 1]);
            } else {
                assert(ls[0] == seq!['\n']);
            }
        }
    } else if s.len() == 1 {
        let ls = lines_of(s);
        assert(ls == seq![s]);
        assert(wf_line(s));
    } else {
        lemma_wf_lines_of(s.drop_first());
        let rest = lines_of(s.drop_first());
        lemma_lines_len(s.drop_first());
        let head = seq![s[0]] + rest[0];
        let ls = lines_of(s);
        assert(ls == seq![head] + rest.drop_first());
        assert(wf_line(head)) by {
            assert(wf_line(rest[0]));
            assert forall|j: int| 0 <= j < head.len() - 1 implies head[j] != '\n' by {
                if j >= 1 {
                    assert(head[j] == rest[0][j - 1]);
                }
            }
        }
        assert forall|i: int| 0 <= i < ls.len() implies wf_line(#[trigger] ls[i]) by {
            if i >= 1 {
                assert(ls[i] == rest[i]);
            }
        }
        assert forall|i: int| 0 <= i < ls.len() - 1 implies (#[trigger] ls[i]).last() == '\n' by {
            if i == 0 {
                // rest has a second line, so its first is newline-terminated
                assert(rest[0].last() == '\n');
                assert(head.last() == rest[0].last());
            } else {
                assert(ls[i] == rest[i]);
            }
        }
    }
}

/// Splitting the concatenation of a well-formed line sequence gives back
/// exactly that sequence.
pub proof fn lemma_lines_of_concat(ls: Seq<Seq<char>>)
    requires
        wf_lines(ls),
    ensures
        lines_of(concat_lines(ls)) == ls,
    decreases ls.len(),
{
    if ls.len() == 0 {
        assert(lines_of(concat_lines(ls)) =~= ls);
    } else {
        let l0 = ls[0];
        let rest = ls.drop_first();
        assert(wf_lines(rest)) by {
            assert(forall|i: int| 0 <= i < rest.len() ==> rest[i] == ls[i + 1]);
        }
        lemma_lines_of_concat(rest);
        if ls.len() == 1 {
            assert(concat_lines(rest) =~= Seq::<char>::empty());
            assert(concat_lines(ls) =~= l0);
            if l0.last() == '\n' {
                lemma_lines_single(l0, Seq::<char>::empty());
                assert(l0 + Seq::<char>::empty() =~= l0);
                assert(seq![l0] + lines_of(Seq::<char>::empty()) =~= ls);
            } else {
                assert(forall|j: int| 0 <= j < l0.len() ==> l0[j] != '\n') by {
                    assert(wf_line(l0));
                    assert(l0.last() != '\n');
                    assert(forall|j: int| 0 <= j < l0.len() - 1 ==> l0[j] != '\n');
                }
                lemma_lines_tail(l0);
                assert(seq![l0] =~= ls);
            }
        } else {
            assert(l0.last() == '\n');
            lemma_lines_single(l0, concat_lines(rest));
            assert(seq![l0] + rest =~= ls);
        }
    }
}

/// Joining the lines of a text gives the text back.
pub proof fn lemma_concat_of_lines(s: Seq<char>)
    ensures
        concat_lines(lines_of(s)) == s,
    decreases s.len(),
{
    if s.len() == 0 {
        assert(concat_lines(lines_of(s)) =~= s);
    } else if s[0] == '\n' {
        lemma_concat_of_lines(s.drop_first());
        let ls = lines_of(s);
        assert(ls == seq![seq!['\n']] + lines_of(s.drop_first()));
        assert(ls[0] == seq!['\n']);
        assert(ls.drop_first() =~= lines_of(s.drop_first()));
        assert(concat_lines(ls) == ls[0] + concat_lines(ls.drop_first()));
        assert(seq!['\n'] + s.drop_first() =~= s);
    } else if s.len() == 1 {
        let ls = lines_of(s);
        assert(ls == seq![s]);
        assert(ls[0] == s);
        assert(ls.drop_first() =~= Seq::<Seq<char>>::empty());
        assert(concat_lines(ls) == ls[0] + concat_lines(ls.drop_first()));
        assert(concat_lines(ls.drop_first()) == Seq::<char>::empty());
        assert(s + Seq::<char>::empty() =~= s);
    } else {
        lemma_concat_of_lines(s.drop_first());
        let rest = lines_of(s.drop_first());
        lemma_lines_len(s.drop_first());
        let ls = lines_of(s);
        assert(ls == seq![seq![s[0]] + rest[0]] + rest.drop_first());
        assert(ls[0] == seq![s[0]] + rest[0]);
        assert(ls.drop_first() =~= rest.drop_first());
        assert(concat_lines(ls) == ls[0] + concat_lines(ls.drop_first()));
        assert(concat_lines(rest) == rest[0] + concat_lines(rest.drop_first()));
        assert((seq![s[0]] + rest[0]) + concat_lines(rest.drop_first()) =~= seq![s[0]] + (rest[0]
            + concat_lines(rest.drop_first())));
        assert(seq![s[0]] + s.drop_first() =~= s);
    }
}

/// `xs` is a subsequence of `ys`: the elements of `xs` appear in `ys` in
/// the same order (not necessarily contiguously).
pub open spec fn is_subseq_of<A>(xs: Seq<A>, ys: Seq<A>) -> bool
    decreases xs.len() + ys.len(),
{
    if xs.len() == 0 {
        true
    } else if ys.len() == 0 {
        false
    } else {
        ||| (xs[0] == ys[0] && is_subseq_of(xs.drop_first(), ys.drop_first()))
        ||| is_subseq_of(xs, ys.drop_first())
    }
}

/// A subsequence of a well-formed line sequence is itself well-formed.
pub proof fn lemma_subseq_wf(xs: Seq<Seq<char>>, ys: Seq<Seq<char>>)
    requires
        is_subseq_of(xs, ys),
        wf_lines(ys),
    ensures
        wf_lines(xs),
    decreases xs.len() + ys.len(),
{
    if xs.len() == 0 {
    } else {
        let yt = ys.drop_first();
        assert(wf_lines(yt)) by {
            assert(forall|i: int| 0 <= i < yt.len() ==> yt[i] == ys[i + 1]);
        }
        if xs[0] == ys[0] && is_subseq_of(xs.drop_first(), yt) {
            lemma_subseq_wf(xs.drop_first(), yt);
            let xt = xs.drop_first();
            assert forall|i: int| 0 <= i < xs.len() implies wf_line(#[trigger] xs[i]) by {
                if i >= 1 {
                    assert(xs[i] == xt[i - 1]);
                }
            }
            assert forall|i: int| 0 <= i < xs.len() - 1 implies (#[trigger] xs[i]).last()
                == '\n' by {
                if i == 0 {
                    // xs has a second line, so ys does too and ys[0] is closed
                    assert(xt.len() >= 1);
                    assert(yt.len() >= 1);
                    assert(ys[0].last() == '\n');
                } else {
                    assert(xs[i] == xt[i - 1]);
                }
            }
        } else {
            lemma_subseq_wf(xs, yt);
        }
    }
}

/// The views of a vector of line vectors.
pub open spec fn lines_view(r: Seq<Vec<char>>) -> Seq<Seq<char>> {
    r.map_values(|l: Vec<char>| l@)
}

/// Split `v` into its lines, each line keeping its terminating newline.
pub fn split_lines(v: &Vec<char>) -> (r: Vec<Vec<char>>)
    ensures
        lines_view(r@) == lines_of(v@),
{
    let mut done: Vec<Vec<char>> = Vec::new();
    let mut cur: Vec<char> = Vec::new();
    let mut i: usize = 0;
    proof {
        assert(cur@ + v@.subrange(0, v@.len() as int) =~= v@);
    }
    while i < v.len()
        invariant
            i <= v@.len(),
            forall|j: int| 0 <= j < cur@.len() ==> cur@[j] != '\n',
            lines_of(v@) == lines_view(done@) + lines_of(
                cur@ + v@.subrange(i as int, v@.len() as int),
            ),
        decreases v@.len() - i,
    {
        let ghost prev_cur = cur@;
        let ghost prev_done = done@;
        let c = v[i];
        if c == '\n' {
            cur.push('\n');
            proof {
                let x = cur@;
                let rest = v@.subrange(i + 1, v@.len() as int);
                assert(prev_cur + v@.subrange(i as int, v@.len() as int) =~= x + rest);
                lemma_lines_single(x, rest);
                assert(lines_view(prev_done.push(cur)) =~= lines_view(prev_done).push(x));
                assert(lines_view(prev_done).push(x) =~= lines_view(prev_done) + seq![x]);
                assert(lines_view(prev_done) + (seq![x] + lines_of(rest)) =~= (lines_view(
                    prev_done,
                ) + seq![x]) + lines_of(rest));
                assert(Seq::<char>::empty() + rest =~= rest);
            }
            done.push(cur);
            cur = Vec::new();
        } else {
            cur.push(c);
            proof {
                assert(prev_cur + v@.subrange(i as int, v@.len() as int) =~= cur@ + v@.subrange(
                    i + 1,
                    v@.len() as int,
                ));
            }
        }
        i = i + 1;
    }
    proof {
        assert(cur@ + v@.subrange(i as int, v@.len() as int) =~= cur@);
    }
    if cur.len() > 0 {
        proof {
            lemma_lines_tail(cur@);
            assert(lines_view(done@.push(cur)) =~= lines_view(done@) + seq![cur@]);
        }
        done.push(cur);
    } else {
        proof {
            assert(lines_of(cur@) =~= Seq::<Seq<char>>::empty());
            assert(lines_view(done@) + Seq::<Seq<char>>::empty() =~= lines_view(done@));
        }
    }
    done
}

/// Append all characters of `src` to `dst`.
pub fn push_all(dst: &mut Vec<char>, src: &Vec<char>)
    ensures
        final(dst)@ == old(dst)@ + src@,
{
    let mut i: usize = 0;
    while i < src.len()
        invariant
            i <= src@.len(),
            dst@ == old(dst)@ + src@.subrange(0, i as int),
        decreases src@.len() - i,
    {
        dst.push(src[i]);
        i = i + 1;
        proof {
            assert(old(dst)@ + src@.subrange(0, i - 1) + seq![src@[i - 1]] =~= old(dst)@
                + src@.subrange(0, i as int));
        }
    }
    proof {
        assert(old(dst)@ + src@.subrange(0, src@.len() as int) =~= old(dst)@ + src@);
    }
}

} // verus!
