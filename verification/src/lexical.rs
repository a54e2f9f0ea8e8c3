//! Splitting text into pieces: `split`, `lines`, `split_whitespace`, `trim`.

use vstd::prelude::*;

use crate::text::{char_is_ws, is_ws};

verus! {

// ---------------------------------------------------------------------------
// split(c)
// ---------------------------------------------------------------------------

/// The pieces of `s` between occurrences of `sep`, as `str::split(sep)` gives
/// them: never empty, with empty pieces kept.
pub open spec fn split(s: Seq<char>, sep: char) -> Seq<Seq<char>>
    decreases s.len(),
{
    if s.len() == 0 {
        seq![Seq::<char>::empty()]
    } else {
        let p = split(s.drop_last(), sep);
        if s.last() == sep {
            p.push(Seq::<char>::empty())
        } else {
            p.update(p.len() - 1, p.last().push(s.last()))
        }
    }
}

/// Splitting text with a separator in it gives the pieces before that
/// separator followed by the pieces after it.
pub proof fn split_around_separator(a: Seq<char>, b: Seq<char>, sep: char)
    ensures
        split(a + seq![sep] + b, sep) == split(a, sep) + split(b, sep),
    decreases b.len(),
{
    let s = a + seq![sep] + b;
    if b.len() == 0 {
        assert(s.drop_last() =~= a);
        assert(split(a, sep).push(Seq::<char>::empty()) =~= split(a, sep) + split(b, sep));
    } else {
        split_around_separator(a, b.drop_last(), sep);
        assert(s.drop_last() =~= a + seq![sep] + b.drop_last());
        assert(s.last() == b.last());
        split_nonempty(b.drop_last(), sep);
        let pa = split(a, sep);
        let pb = split(b.drop_last(), sep);
        if b.last() == sep {
            assert((pa + pb).push(Seq::<char>::empty()) =~= pa + pb.push(Seq::<char>::empty()));
        } else {
            let p = pa + pb;
            assert(p.update(p.len() - 1, p.last().push(b.last())) =~= pa + pb.update(
                pb.len() - 1,
                pb.last().push(b.last()),
            ));
        }
    }
}

/// `split` always yields at least one piece.
pub proof fn split_nonempty(s: Seq<char>, sep: char)
    ensures
        split(s, sep).len() >= 1,
    decreases s.len(),
{
    if s.len() > 0 {
        split_nonempty(s.drop_last(), sep);
    }
}

/// A string without the separator is a single piece.
pub proof fn split_without_sep(s: Seq<char>, sep: char)
    requires
        !s.contains(sep),
    ensures
        split(s, sep) == seq![s],
    decreases s.len(),
{
    if s.len() > 0 {
        assert(!s.drop_last().contains(sep)) by {
            if s.drop_last().contains(sep) {
                let k = choose|k: int| 0 <= k < s.drop_last().len() && s.drop_last()[k] == sep;
                assert(s[k] == sep);
            }
        }
        split_without_sep(s.drop_last(), sep);
        assert(s.last() != sep) by {
            assert(s[s.len() - 1] == s.last());
        }
        assert(s.drop_last().push(s.last()) =~= s);
        assert(split(s, sep) =~= seq![s]);
    } else {
        assert(s =~= Seq::<char>::empty());
    }
}

/// The pieces of `s` separated by `sep`.
pub fn split_exec(s: &Vec<char>, sep: char) -> (r: Vec<Vec<char>>)
    ensures
        r@.map_values(|v: Vec<char>| v@) == split(s@, sep),
        r.len() >= 1,
{
    let mut parts: Vec<Vec<char>> = Vec::new();
    let mut cur: Vec<char> = Vec::new();
    let mut i: usize = 0;
    while i < s.len()
        invariant
            i <= s.len(),
            parts@.map_values(|v: Vec<char>| v@).push(cur@) == split(s@.subrange(0, i as int), sep),
        decreases s.len() - i,
    {
        let ghost before = parts@.map_values(|v: Vec<char>| v@).push(cur@);
        let c = s[i];
        assert(s@.subrange(0, i + 1).drop_last() =~= s@.subrange(0, i as int));
        if c == sep {
            parts.push(cur);
            cur = Vec::new();
            assert(parts@.map_values(|v: Vec<char>| v@).push(cur@) =~= before.push(Seq::<char>::empty()));
        } else {
            cur.push(c);
            assert(parts@.map_values(|v: Vec<char>| v@).push(cur@) =~= before.update(
                before.len() - 1,
                before.last().push(c),
            ));
        }
        i = i + 1;
    }
    assert(s@.subrange(0, s.len() as int) =~= s@);
    parts.push(cur);
    assert(parts@.map_values(|v: Vec<char>| v@) =~= split(s@, sep));
    parts
}

// ---------------------------------------------------------------------------
// lines()
// ---------------------------------------------------------------------------

/// `s` without one trailing carriage return.
pub open spec fn strip_cr(s: Seq<char>) -> Seq<char> {
    if s.len() > 0 && s.last() == '\r' {
        s.drop_last()
    } else {
        s
    }
}

/// The lines of `s`, as `str::lines` gives them: split at `\n`, a `\r` just
/// before a `\n` removed, and no line after a final `\n`.
pub open spec fn lines(s: Seq<char>) -> Seq<Seq<char>> {
    let p = split(s, '\n');
    let n = p.len();
    let k = if p[n - 1].len() == 0 {
        n - 1
    } else {
        n as int
    };
    Seq::new(
        k as nat,
        |i: int|
            if i < n - 1 {
                strip_cr(p[i])
            } else {
                p[i]
            },
    )
}

/// `v` without one trailing carriage return.
fn strip_cr_exec(v: Vec<char>) -> (r: Vec<char>)
    ensures
        r@ == strip_cr(v@),
{
    let mut v = v;
    if v.len() > 0 && v[v.len() - 1] == '\r' {
        v.pop();
    }
    v
}

/// The lines of `s`.
pub fn lines_exec(s: &Vec<char>) -> (r: Vec<Vec<char>>)
    ensures
        r@.map_values(|v: Vec<char>| v@) == lines(s@),
{
    let parts = split_exec(s, '\n');
    let ghost p = split(s@, '\n');
    let n = parts.len();
    let k: usize = if parts[n - 1].len() == 0 {
        n - 1
    } else {
        n
    };
    assert(parts@[n - 1]@ == p[n - 1]);
    let mut out: Vec<Vec<char>> = Vec::new();
    let mut i: usize = 0;
    while i < k
        invariant
            k <= n == parts.len(),
            p == parts@.map_values(|v: Vec<char>| v@),
            i <= k,
            out@.map_values(|v: Vec<char>| v@) == lines(s@).subrange(0, i as int),
            lines(s@).len() == k,
            p == split(s@, '\n'),
        decreases k - i,
    {
        let piece = parts[i].clone();
        assert(piece@ == p[i as int]);
        let line = if i + 1 < n {
            strip_cr_exec(piece)
        } else {
            piece
        };
        assert(line@ == lines(s@)[i as int]);
        let ghost prev = out@.map_values(|v: Vec<char>| v@);
        out.push(line);
        assert(out@.map_values(|v: Vec<char>| v@) =~= prev.push(line@));
        assert(lines(s@).subrange(0, i + 1) =~= lines(s@).subrange(0, i as int).push(line@));
        i = i + 1;
        assert(out@.map_values(|v: Vec<char>| v@) =~= lines(s@).subrange(0, i as int));
    }
    assert(lines(s@).subrange(0, k as int) =~= lines(s@));
    out
}

// ---------------------------------------------------------------------------
// split_whitespace()
// ---------------------------------------------------------------------------

/// The maximal runs of non-white-space characters of `s`, as
/// `str::split_whitespace` gives them.
pub open spec fn words(s: Seq<char>) -> Seq<Seq<char>>
    decreases s.len(),
{
    if s.len() == 0 {
        Seq::empty()
    } else {
        let w = words(s.drop_last());
        let c = s.last();
        if is_ws(c) {
            w
        } else if s.len() >= 2 && !is_ws(s[s.len() - 2]) {
            w.update(w.len() - 1, w.last().push(c))
        } else {
            w.push(seq![c])
        }
    }
}

/// A string that ends in a non-white-space character has a word.
pub proof fn words_nonempty(s: Seq<char>)
    requires
        s.len() > 0,
        !is_ws(s.last()),
    ensures
        words(s).len() > 0,
    decreases s.len(),
{
    if s.len() >= 2 && !is_ws(s[s.len() - 2]) {
        assert(s.drop_last().last() == s[s.len() - 2]);
        words_nonempty(s.drop_last());
    }
}

/// The words of `s`.
pub fn words_exec(s: &Vec<char>) -> (r: Vec<Vec<char>>)
    ensures
        r@.map_values(|v: Vec<char>| v@) == words(s@),
{
    let mut out: Vec<Vec<char>> = Vec::new();
    let mut cur: Vec<char> = Vec::new();
    let mut in_word = false;
    let mut i: usize = 0;
    while i < s.len()
        invariant
            i <= s.len(),
            in_word == (i > 0 && !is_ws(s@[i - 1])),
            in_word ==> words(s@.subrange(0, i as int)).len() > 0,
            in_word ==> out@.map_values(|v: Vec<char>| v@).push(cur@) == words(
                s@.subrange(0, i as int),
            ),
            !in_word ==> out@.map_values(|v: Vec<char>| v@) == words(s@.subrange(0, i as int)),
        decreases s.len() - i,
    {
        let c = s[i];
        let ghost pre = s@.subrange(0, i as int);
        let ghost next = s@.subrange(0, i + 1);
        assert(next.drop_last() =~= pre);
        assert(next.last() == c);
        if char_is_ws(c) {
            if in_word {
                out.push(cur);
                cur = Vec::new();
            }
            in_word = false;
        } else {
            if in_word {
                assert(next[next.len() - 2] == s@[i - 1]);
                cur.push(c);
            } else {
                cur = Vec::new();
                cur.push(c);
                assert(cur@ =~= seq![c]);
            }
            in_word = true;
            proof {
                words_nonempty(next);
            }
        }
        i = i + 1;
    }
    assert(s@.subrange(0, s.len() as int) =~= s@);
    if in_word {
        out.push(cur);
    }
    out
}

// ---------------------------------------------------------------------------
// trim()
// ---------------------------------------------------------------------------

/// How many white-space characters `s` starts with.
pub open spec fn leading_ws(s: Seq<char>) -> nat
    decreases s.len(),
{
    if s.len() == 0 {
        0
    } else if is_ws(s[0]) {
        1 + leading_ws(s.drop_first())
    } else {
        0
    }
}

/// How many white-space characters `s` ends with.
pub open spec fn trailing_ws(s: Seq<char>) -> nat
    decreases s.len(),
{
    if s.len() == 0 {
        0
    } else if is_ws(s.last()) {
        1 + trailing_ws(s.drop_last())
    } else {
        0
    }
}

/// `s` without leading white space (`str::trim_start`).
pub open spec fn trim_start(s: Seq<char>) -> Seq<char> {
    s.subrange(leading_ws(s) as int, s.len() as int)
}

/// `s` without trailing white space (`str::trim_end`).
pub open spec fn trim_end(s: Seq<char>) -> Seq<char> {
    s.subrange(0, s.len() - trailing_ws(s))
}

/// `s` without leading and trailing white space (`str::trim`).
pub open spec fn trim(s: Seq<char>) -> Seq<char> {
    trim_end(trim_start(s))
}

proof fn leading_ws_bound(s: Seq<char>)
    ensures
        leading_ws(s) <= s.len(),
        forall|j: int| 0 <= j < leading_ws(s) ==> is_ws(#[trigger] s[j]),
        leading_ws(s) < s.len() ==> !is_ws(s[leading_ws(s) as int]),
    decreases s.len(),
{
    if s.len() > 0 && is_ws(s[0]) {
        leading_ws_bound(s.drop_first());
        assert forall|j: int| 0 <= j < leading_ws(s) implies is_ws(#[trigger] s[j]) by {
            if j > 0 {
                assert(s[j] == s.drop_first()[j - 1]);
            }
        }
    }
}

proof fn leading_ws_step(s: Seq<char>, i: int)
    requires
        0 <= i <= s.len(),
        forall|j: int| 0 <= j < i ==> is_ws(#[trigger] s[j]),
        i == s.len() || !is_ws(s[i]),
    ensures
        leading_ws(s) == i,
    decreases s.len(),
{
    if i > 0 {
        assert(is_ws(s[0]));
        assert forall|j: int| 0 <= j < i - 1 implies is_ws(#[trigger] s.drop_first()[j]) by {
            assert(s.drop_first()[j] == s[j + 1]);
        }
        if i < s.len() {
            assert(s.drop_first()[i - 1] == s[i]);
        }
        leading_ws_step(s.drop_first(), i - 1);
    }
}

proof fn trailing_ws_step(s: Seq<char>, e: int)
    requires
        0 <= e <= s.len(),
        forall|j: int| e <= j < s.len() ==> is_ws(#[trigger] s[j]),
        e == 0 || !is_ws(s[e - 1]),
    ensures
        trailing_ws(s) == s.len() - e,
    decreases s.len(),
{
    if e < s.len() {
        assert(is_ws(s.last()));
        assert forall|j: int| e <= j < s.drop_last().len() implies is_ws(
            #[trigger] s.drop_last()[j],
        ) by {
            assert(s.drop_last()[j] == s[j]);
        }
        if e > 0 {
            assert(s.drop_last()[e - 1] == s[e - 1]);
        }
        trailing_ws_step(s.drop_last(), e);
    }
}

proof fn trailing_ws_bound(s: Seq<char>)
    ensures
        trailing_ws(s) <= s.len(),
        forall|j: int| s.len() - trailing_ws(s) <= j < s.len() ==> is_ws(#[trigger] s[j]),
        trailing_ws(s) < s.len() ==> !is_ws(s[s.len() - trailing_ws(s) - 1]),
    decreases s.len(),
{
    if s.len() > 0 && is_ws(s.last()) {
        trailing_ws_bound(s.drop_last());
        assert forall|j: int| s.len() - trailing_ws(s) <= j < s.len() implies is_ws(#[trigger] s[j]) by {
            if j < s.len() - 1 {
                assert(s[j] == s.drop_last()[j]);
            }
        }
        if trailing_ws(s) < s.len() {
            assert(s[s.len() - trailing_ws(s) - 1] == s.drop_last()[s.drop_last().len() - trailing_ws(s.drop_last()) - 1]);
        }
    }
}

/// Trimming keeps a middle stretch of the text: everything cut off before
/// and after it is white space, and the part kept neither starts nor ends
/// with white space.
pub proof fn trim_cuts_only_white_space(s: Seq<char>)
    ensures
        exists|i: int, j: int|
            0 <= i <= j <= s.len() && trim(s) == s.subrange(i, j) && (forall|k: int|
                0 <= k < i ==> is_ws(#[trigger] s[k])) && (forall|k: int|
                j <= k < s.len() ==> is_ws(#[trigger] s[k])),
        trim(s).len() > 0 ==> !is_ws(trim(s)[0]) && !is_ws(trim(s).last()),
{
    leading_ws_bound(s);
    let i = leading_ws(s) as int;
    let t = trim_start(s);
    trailing_ws_bound(t);
    let j = i + t.len() - trailing_ws(t);
    assert(trim(s) =~= s.subrange(i, j));
    assert forall|k: int| j <= k < s.len() implies is_ws(#[trigger] s[k]) by {
        assert(s[k] == t[k - i]);
    }
    if trim(s).len() > 0 {
        assert(trim(s)[0] == s[i]);
        assert(trim(s).last() == t[t.len() - trailing_ws(t) - 1]);
    }
}

/// `s` without leading and trailing white space.
pub fn trim_exec(s: &Vec<char>) -> (r: Vec<char>)
    ensures
        r@ == trim(s@),
{
    let mut b: usize = 0;
    while b < s.len() && char_is_ws(s[b])
        invariant
            b <= s.len(),
            forall|j: int| 0 <= j < b ==> is_ws(#[trigger] s@[j]),
        decreases s.len() - b,
    {
        b = b + 1;
    }
    proof {
        leading_ws_step(s@, b as int);
    }
    let ghost t = trim_start(s@);
    assert(t =~= s@.subrange(b as int, s.len() as int));
    let mut e: usize = s.len();
    while e > b && char_is_ws(s[e - 1])
        invariant
            b <= e <= s.len(),
            forall|j: int| e <= j < s.len() ==> is_ws(#[trigger] s@[j]),
        decreases e - b,
    {
        e = e - 1;
    }
    proof {
        assert forall|j: int| (e - b) <= j < t.len() implies is_ws(#[trigger] t[j]) by {
            assert(t[j] == s@[j + b]);
        }
        if e > b {
            assert(t[e - b - 1] == s@[e - 1]);
        }
        trailing_ws_step(t, e - b);
    }
    let r = vec_slice_local(s, b, e);
    assert(r@ =~= trim(s@));
    r
}

fn vec_slice_local(s: &Vec<char>, from: usize, to: usize) -> (r: Vec<char>)
    requires
        from <= to <= s.len(),
    ensures
        r@ == s@.subrange(from as int, to as int),
{
    crate::text::vec_slice(s, from, to)
}

} // verus!
