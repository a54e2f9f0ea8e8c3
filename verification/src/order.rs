//! The lexicographic order of strings.

use vstd::prelude::*;

verus! {

/// The outcome of comparing two values.
#[derive(Clone, Copy, Debug, PartialEq, Eq, Structural)]
pub enum Rank {
    /// The first comes before the second.
    Less,
    /// Both are the same.
    Equal,
    /// The first comes after the second.
    Greater,
}

/// `Rank` seen the other way round.
pub open spec fn flip(r: Rank) -> Rank {
    match r {
        Rank::Less => Rank::Greater,
        Rank::Equal => Rank::Equal,
        Rank::Greater => Rank::Less,
    }
}

/// The lexicographic order of two character sequences, which is the order
/// `str::cmp` gives (UTF-8 keeps the order of code points).
pub open spec fn lex_rank(a: Seq<char>, b: Seq<char>) -> Rank
    decreases a.len(),
{
    if a.len() == 0 && b.len() == 0 {
        Rank::Equal
    } else if a.len() == 0 {
        Rank::Less
    } else if b.len() == 0 {
        Rank::Greater
    } else if a[0] < b[0] {
        Rank::Less
    } else if a[0] > b[0] {
        Rank::Greater
    } else {
        lex_rank(a.drop_first(), b.drop_first())
    }
}

/// The order of two numbers.
pub open spec fn num_rank(a: int, b: int) -> Rank {
    if a < b {
        Rank::Less
    } else if a == b {
        Rank::Equal
    } else {
        Rank::Greater
    }
}

proof fn lex_rank_skip(a: Seq<char>, b: Seq<char>, i: int)
    requires
        0 <= i <= a.len(),
        i <= b.len(),
        forall|j: int| 0 <= j < i ==> a[j] == b[j],
    ensures
        lex_rank(a, b) == lex_rank(a.skip(i), b.skip(i)),
    decreases i,
{
    if i > 0 {
        assert(a[0] == b[0]);
        assert forall|j: int| 0 <= j < i - 1 implies a.drop_first()[j] == b.drop_first()[j] by {
            assert(a.drop_first()[j] == a[j + 1]);
            assert(b.drop_first()[j] == b[j + 1]);
        }
        lex_rank_skip(a.drop_first(), b.drop_first(), i - 1);
        assert(a.drop_first().skip(i - 1) =~= a.skip(i));
        assert(b.drop_first().skip(i - 1) =~= b.skip(i));
    } else {
        assert(a.skip(0) =~= a);
        assert(b.skip(0) =~= b);
    }
}

/// The lexicographic order of `a` and `b`.
pub fn lex_rank_exec(a: &Vec<char>, b: &Vec<char>) -> (r: Rank)
    ensures
        r == lex_rank(a@, b@),
{
    let mut i: usize = 0;
    while i < a.len() && i < b.len() && a[i] == b[i]
        invariant
            i <= a.len(),
            i <= b.len(),
            forall|j: int| 0 <= j < i ==> a@[j] == b@[j],
        decreases a.len() - i,
    {
        i = i + 1;
    }
    proof {
        lex_rank_skip(a@, b@, i as int);
    }
    let ghost ra = a@.skip(i as int);
    let ghost rb = b@.skip(i as int);
    if i == a.len() && i == b.len() {
        Rank::Equal
    } else if i == a.len() {
        Rank::Less
    } else if i == b.len() {
        Rank::Greater
    } else if a[i] < b[i] {
        assert(ra[0] == a@[i as int] && rb[0] == b@[i as int]);
        Rank::Less
    } else {
        assert(ra[0] == a@[i as int] && rb[0] == b@[i as int]);
        Rank::Greater
    }
}

/// Swapping the arguments flips the order.
pub proof fn lex_rank_flip(a: Seq<char>, b: Seq<char>)
    ensures
        lex_rank(b, a) == flip(lex_rank(a, b)),
    decreases a.len(),
{
    if a.len() > 0 && b.len() > 0 && a[0] == b[0] {
        lex_rank_flip(a.drop_first(), b.drop_first());
    }
}

/// Every sequence is equal to itself.
pub proof fn lex_rank_same(a: Seq<char>)
    ensures
        lex_rank(a, a) == Rank::Equal,
    decreases a.len(),
{
    if a.len() > 0 {
        lex_rank_same(a.drop_first());
    }
}

/// The standard `Ordering` of a `Rank`.
pub open spec fn ordering_of(r: Rank) -> core::cmp::Ordering {
    match r {
        Rank::Less => core::cmp::Ordering::Less,
        Rank::Equal => core::cmp::Ordering::Equal,
        Rank::Greater => core::cmp::Ordering::Greater,
    }
}

/// The standard `Ordering` of a `Rank`.
pub fn to_ordering(r: Rank) -> (o: core::cmp::Ordering)
    ensures
        o == ordering_of(r),
{
    match r {
        Rank::Less => core::cmp::Ordering::Less,
        Rank::Equal => core::cmp::Ordering::Equal,
        Rank::Greater => core::cmp::Ordering::Greater,
    }
}

} // verus!
