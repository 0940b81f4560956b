//! The text normalizer: collapses whitespace in literal markup text.
//!
//! Carriage returns are stripped and tabs become single spaces; the text is
//! then split into lines. Every line after the first loses its leading
//! spaces, every line before the last loses its trailing spaces, lines that
//! become empty are dropped, and the retained lines are joined with single
//! spaces. An empty result signals that the text node is elided.

use vstd::prelude::*;

verus! {

/// Carriage returns removed, tabs turned into single spaces.
pub open spec fn strip_cr_tab(s: Seq<char>) -> Seq<char>
    decreases s.len(),
{
    if s.len() == 0 {
        Seq::empty()
    } else {
        let head = if s[0] == '\r' {
            Seq::<char>::empty()
        } else if s[0] == '\t' {
            seq![' ']
        } else {
            seq![s[0]]
        };
        head + strip_cr_tab(s.drop_first())
    }
}

/// Index of the first newline in `s`, or a negative value if there is none.
pub open spec fn first_nl(s: Seq<char>) -> int
    decreases s.len(),
{
    if s.len() == 0 {
        -1
    } else if s[0] == '\n' {
        0
    } else {
        let r = first_nl(s.drop_first());
        if r < 0 {
            -1
        } else {
            r + 1
        }
    }
}

pub open spec fn trim_start_sp(s: Seq<char>) -> Seq<char>
    decreases s.len(),
{
    if s.len() > 0 && s[0] == ' ' {
        trim_start_sp(s.drop_first())
    } else {
        s
    }
}

pub open spec fn trim_end_sp(s: Seq<char>) -> Seq<char>
    decreases s.len(),
{
    if s.len() > 0 && s.last() == ' ' {
        trim_end_sp(s.drop_last())
    } else {
        s
    }
}

/// Whitespace collapse over the tab-and-return-free text `s`. `first` says
/// whether `s` starts at the first line of the original text (only lines
/// after the first are trimmed at the start). A line followed by nothing
/// (the text ends in a newline) counts as the last line and keeps its
/// trailing spaces, as the line-splitting rule of the host language has it.
pub open spec fn norm_from(s: Seq<char>, first: bool) -> Seq<char>
    decreases s.len(),
{
    if s.len() == 0 {
        Seq::empty()
    } else {
        let nl = first_nl(s);
        let line = if nl < 0 {
            s
        } else {
            s.take(nl)
        };
        let has_rest = nl >= 0 && nl + 1 < s.len();
        let t1 = if first {
            line
        } else {
            trim_start_sp(line)
        };
        let t2 = if has_rest {
            trim_end_sp(t1)
        } else {
            t1
        };
        let tail = if has_rest {
            norm_from(s.skip(nl + 1), false)
        } else {
            Seq::<char>::empty()
        };
        if t2.len() == 0 {
            tail
        } else if tail.len() == 0 {
            t2
        } else {
            t2 + seq![' '] + tail
        }
    }
}

/// The whole normalization: what a literal text node contributes to markup.
pub open spec fn normalize_text(s: Seq<char>) -> Seq<char> {
    norm_from(strip_cr_tab(s), true)
}

/// Join two collapsed pieces with a single space, dropping an empty side.
pub open spec fn sp_join(a: Seq<char>, b: Seq<char>) -> Seq<char> {
    if a.len() == 0 {
        b
    } else if b.len() == 0 {
        a
    } else {
        a + seq![' '] + b
    }
}

proof fn lemma_strip_append(a: Seq<char>, b: Seq<char>)
    ensures
        strip_cr_tab(a + b) == strip_cr_tab(a) + strip_cr_tab(b),
    decreases a.len(),
{
    if a.len() == 0 {
        assert(a + b =~= b);
        assert(strip_cr_tab(a) + strip_cr_tab(b) =~= strip_cr_tab(b));
    } else {
        lemma_strip_append(a.drop_first(), b);
        assert((a + b).drop_first() =~= a.drop_first() + b);
        assert(strip_cr_tab(a + b) =~= strip_cr_tab(a) + strip_cr_tab(b));
    }
}

proof fn lemma_strip_one(c: char)
    ensures
        c == '\r' ==> strip_cr_tab(seq![c]) == Seq::<char>::empty(),
        c == '\t' ==> strip_cr_tab(seq![c]) == seq![' '],
        c != '\r' && c != '\t' ==> strip_cr_tab(seq![c]) == seq![c],
{
    assert(seq![c].drop_first() =~= Seq::<char>::empty());
    assert(strip_cr_tab(Seq::<char>::empty()) =~= Seq::<char>::empty());
    if c == '\r' {
        assert(strip_cr_tab(seq![c]) =~= Seq::<char>::empty());
    } else if c == '\t' {
        assert(strip_cr_tab(seq![c]) =~= seq![' ']);
    } else {
        assert(strip_cr_tab(seq![c]) =~= seq![c]);
    }
}

proof fn lemma_first_nl_at(s: Seq<char>, j: int)
    requires
        0 <= j <= s.len(),
        forall|k: int| 0 <= k < j ==> s[k] != '\n',
        j == s.len() || s[j] == '\n',
    ensures
        j == s.len() ==> first_nl(s) < 0,
        j < s.len() ==> first_nl(s) == j,
    decreases j,
{
    if s.len() == 0 {
    } else if j == 0 {
    } else {
        lemma_first_nl_at(s.drop_first(), j - 1);
    }
}

proof fn lemma_trim_start_at(s: Seq<char>, j: int)
    requires
        0 <= j <= s.len(),
        forall|k: int| 0 <= k < j ==> s[k] == ' ',
        j == s.len() || s[j] != ' ',
    ensures
        trim_start_sp(s) == s.skip(j),
    decreases j,
{
    if j == 0 {
        assert(s.skip(0) =~= s);
    } else {
        lemma_trim_start_at(s.drop_first(), j - 1);
        assert(s.drop_first().skip(j - 1) =~= s.skip(j));
    }
}

proof fn lemma_trim_end_at(s: Seq<char>, j: int)
    requires
        0 <= j <= s.len(),
        forall|k: int| j <= k < s.len() ==> s[k] == ' ',
        j == 0 || s[j - 1] != ' ',
    ensures
        trim_end_sp(s) == s.take(j),
    decreases s.len(),
{
    if j == s.len() {
        if s.len() > 0 && s.last() == ' ' {
        } else {
            assert(s.take(j) =~= s);
        }
    } else {
        assert(s.last() == ' ');
        lemma_trim_end_at(s.drop_last(), j);
        assert(s.drop_last().take(j) =~= s.take(j));
    }
}

/// Collect the characters of a string into a vector, so that the normalizer
/// can index them directly.
fn str_chars(t: &str) -> (r: Vec<char>)
    ensures
        r@ == t@,
{
    let n = t.unicode_len();
    let mut r: Vec<char> = Vec::new();
    let mut i: usize = 0;
    while i < n
        invariant
            n == t@.len(),
            i <= n,
            r@ == t@.take(i as int),
        decreases n - i,
    {
        r.push(t.get_char(i));
        assert(t@.take(i + 1) =~= t@.take(i as int).push(t@[i as int]));
        i = i + 1;
    }
    assert(t@.take(n as int) =~= t@);
    r
}

fn strip_chars(v: &Vec<char>) -> (r: Vec<char>)
    ensures
        r@ == strip_cr_tab(v@),
{
    let mut r: Vec<char> = Vec::new();
    let mut i: usize = 0;
    while i < v.len()
        invariant
            i <= v@.len(),
            r@ == strip_cr_tab(v@.take(i as int)),
        decreases v@.len() - i,
    {
        let c = v[i];
        proof {
            lemma_strip_append(v@.take(i as int), seq![v@[i as int]]);
            lemma_strip_one(v@[i as int]);
            assert(v@.take(i + 1) =~= v@.take(i as int) + seq![v@[i as int]]);
        }
        if c == '\r' {
            assert(r@ =~= strip_cr_tab(v@.take(i + 1)));
        } else if c == '\t' {
            r.push(' ');
            assert(r@ =~= strip_cr_tab(v@.take(i + 1)));
        } else {
            r.push(c);
            assert(r@ =~= strip_cr_tab(v@.take(i + 1)));
        }
        i = i + 1;
    }
    assert(v@.take(v@.len() as int) =~= v@);
    r
}

/// Relies on `String::push`: appends exactly the given character.
#[verifier::external_body]
pub(crate) fn push_char(s: &mut String, c: char)
    ensures
        final(s)@ == old(s)@ + seq![c],
{
    s.push(c)
}

fn push_range(buf: &mut String, v: &Vec<char>, lo: usize, hi: usize)
    requires
        lo <= hi <= v@.len(),
    ensures
        final(buf)@ == old(buf)@ + v@.subrange(lo as int, hi as int),
{
    let mut i: usize = lo;
    while i < hi
        invariant
            lo <= i <= hi <= v@.len(),
            buf@ == old(buf)@ + v@.subrange(lo as int, i as int),
        decreases hi - i,
    {
        push_char(buf, v[i]);
        assert(v@.subrange(lo as int, i + 1) =~= v@.subrange(lo as int, i as int) + seq![
            v@[i as int],
        ]);
        i = i + 1;
    }
}

/// One line at a time, starting at `start` in the stripped text.
fn norm_from_exec(v: &Vec<char>, start: usize, first: bool, buf: &mut String)
    requires
        start <= v@.len(),
        first ==> old(buf)@.len() == 0,
    ensures
        final(buf)@ == sp_join(old(buf)@, norm_from(v@.skip(start as int), first)),
    decreases v@.len() - start,
{
    let ghost s = v@.skip(start as int);
    if start == v.len() {
        assert(s =~= Seq::<char>::empty());
        return ;
    }
    // find the end of the current line
    let mut nl: usize = start;
    while nl < v.len() && v[nl] != '\n'
        invariant
            start <= nl <= v@.len(),
            forall|k: int| start <= k < nl ==> v@[k] != '\n',
        decreases v@.len() - nl,
    {
        nl = nl + 1;
    }
    proof {
        lemma_first_nl_at(s, nl - start);
        assert forall|k: int| 0 <= k < nl - start implies s[k] != '\n' by {
            assert(s[k] == v@[start + k]);
        }
        if nl < v.len() {
            assert(s[nl - start] == v@[nl as int]);
        }
        lemma_first_nl_at(s, nl - start);
    }
    let has_nl = nl < v.len();
    let has_rest = has_nl && nl + 1 < v.len();
    let ghost line = if has_nl {
        s.take(nl - start)
    } else {
        s
    };
    proof {
        assert(v@.subrange(start as int, nl as int) =~= line);
    }
    // leading spaces go on every line after the first
    let mut lo: usize = start;
    if !first {
        while lo < nl && v[lo] == ' '
            invariant
                start <= lo <= nl <= v@.len(),
                forall|k: int| start <= k < lo ==> v@[k] == ' ',
            decreases nl - lo,
        {
            lo = lo + 1;
        }
        proof {
            assert forall|k: int| 0 <= k < lo - start implies line[k] == ' ' by {
                assert(line[k] == v@[start + k]);
            }
            if lo < nl {
                assert(line[lo - start] == v@[lo as int]);
            }
            lemma_trim_start_at(line, lo - start);
        }
    }
    let ghost t1 = if first {
        line
    } else {
        trim_start_sp(line)
    };
    proof {
        assert(t1 =~= v@.subrange(lo as int, nl as int));
    }
    // trailing spaces go on every line before the last
    let mut hi: usize = nl;
    if has_rest {
        while hi > lo && v[hi - 1] == ' '
            invariant
                lo <= hi <= nl <= v@.len(),
                forall|k: int| hi <= k < nl ==> v@[k] == ' ',
            decreases hi,
        {
            hi = hi - 1;
        }
        proof {
            assert forall|k: int| hi - lo <= k < t1.len() implies t1[k] == ' ' by {
                assert(t1[k] == v@[lo + k]);
            }
            if hi > lo {
                assert(t1[hi - 1 - lo] == v@[hi - 1]);
            }
            lemma_trim_end_at(t1, hi - lo);
        }
    }
    let ghost t2 = if has_rest {
        trim_end_sp(t1)
    } else {
        t1
    };
    proof {
        assert(t2 =~= v@.subrange(lo as int, hi as int));
    }
    if !first && lo < hi && !buf.as_str().is_empty() {
        push_char(buf, ' ');
    }
    push_range(buf, v, lo, hi);
    let ghost buf1 = buf@;
    proof {
        if t2.len() == 0 {
            assert(lo == hi);
            assert(buf1 =~= old(buf)@);
        } else {
            assert(buf1 =~= sp_join(old(buf)@, t2));
        }
    }
    let ghost tail = if has_rest {
        norm_from(s.skip(nl - start + 1), false)
    } else {
        Seq::<char>::empty()
    };
    if has_rest {
        proof {
            assert(s.skip(nl - start + 1) =~= v@.skip(nl + 1));
        }
        norm_from_exec(v, nl + 1, false, buf);
        assert(buf@ == sp_join(buf1, tail));
    }
    proof {
        let norm = norm_from(s, first);
        if t2.len() == 0 {
            assert(norm == tail);
        } else if tail.len() == 0 {
            assert(norm == t2);
        } else {
            assert(norm == t2 + seq![' '] + tail);
        }
        if old(buf)@.len() == 0 {
            assert(sp_join(old(buf)@, norm) =~= norm);
            assert(buf@ =~= norm);
        } else {
            if t2.len() == 0 {
                assert(buf@ =~= sp_join(old(buf)@, norm));
            } else if tail.len() == 0 {
                assert(buf@ =~= old(buf)@ + seq![' '] + t2);
                assert(sp_join(old(buf)@, norm) =~= old(buf)@ + seq![' '] + t2);
            } else {
                assert(buf@ =~= old(buf)@ + seq![' '] + t2 + seq![' '] + tail);
                assert(sp_join(old(buf)@, norm) =~= old(buf)@ + seq![' '] + t2 + seq![' '] + tail);
            }
        }
    }
}

/// Normalize the raw text of a literal markup text node. An empty result
/// means the node is elided.
pub fn jsx_text_to_str(t: &str) -> (r: String)
    ensures
        r@ == normalize_text(t@),
{
    let chars = str_chars(t);
    let stripped = strip_chars(&chars);
    let mut buf = String::new();
    norm_from_exec(&stripped, 0, true, &mut buf);
    proof {
        assert(stripped@.skip(0) =~= stripped@);
        assert(buf@ =~= normalize_text(t@));
    }
    buf
}

} // verus!
