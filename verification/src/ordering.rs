//! Stable ordering of rows by a rank.
//!
//! A query that promises an order arranges its rows here. Rows of equal rank
//! keep the order in which they were given.

use vstd::prelude::*;

verus! {

/// A value with a place in an order: a smaller rank comes first.
pub trait Ranked: Copy {
    /// The rank by which values are ordered.
    spec fn rank(&self) -> int;

    /// Whether `self` may stand before `other`.
    fn not_after(&self, other: &Self) -> (fits: bool)
        ensures
            fits == (self.rank() <= other.rank()),
    ;
}

/// Ranks never decrease along the sequence.
pub open spec fn is_ascending<T: Ranked>(s: Seq<T>) -> bool {
    forall|i: int, j: int| 0 <= i < j < s.len() ==> s[i].rank() <= s[j].rank()
}

/// The sequence `s` with `x` put behind the last element that may stand
/// before it.
pub open spec fn place<T: Ranked>(s: Seq<T>, x: T) -> Seq<T>
    decreases s.len(),
{
    if s.len() == 0 {
        seq![x]
    } else if s.last().rank() <= x.rank() {
        s.push(x)
    } else {
        place(s.drop_last(), x).push(s.last())
    }
}

/// The elements of `s` in ascending order of rank, equal ranks in the order
/// they have in `s`.
pub open spec fn arranged<T: Ranked>(s: Seq<T>) -> Seq<T>
    decreases s.len(),
{
    if s.len() == 0 {
        s
    } else {
        place(arranged(s.drop_last()), s.last())
    }
}

/// Where `place` puts `x`: at `k`, if everything from `k` on must stand after
/// `x` and the element before `k`, if there is one, may stand before it.
pub proof fn lemma_place_is_insert<T: Ranked>(s: Seq<T>, x: T, k: int)
    requires
        0 <= k <= s.len(),
        forall|i: int| k <= i < s.len() ==> s[i].rank() > x.rank(),
        k > 0 ==> s[k - 1].rank() <= x.rank(),
    ensures
        place(s, x) == s.insert(k, x),
    decreases s.len(),
{
    if s.len() == 0 {
        assert(s.insert(k, x) =~= seq![x]);
    } else if s.last().rank() <= x.rank() {
        assert(k == s.len());
        assert(s.insert(k, x) =~= s.push(x));
    } else {
        assert(k < s.len());
        lemma_place_is_insert(s.drop_last(), x, k);
        assert(s.drop_last().insert(k, x).push(s.last()) =~= s.insert(k, x));
    }
}

/// Placing a value keeps an ascending sequence ascending and adds exactly
/// that value.
pub proof fn lemma_place<T: Ranked>(s: Seq<T>, x: T)
    requires
        is_ascending(s),
    ensures
        is_ascending(place(s, x)),
        place(s, x).to_multiset() == s.to_multiset().insert(x),
        place(s, x).len() == s.len() + 1,
    decreases s.len(),
{
    broadcast use vstd::seq_lib::to_multiset_build;

    if s.len() == 0 {
        assert(seq![x] =~= Seq::<T>::empty().push(x));
        assert(s =~= Seq::<T>::empty());
    } else if s.last().rank() <= x.rank() {
    } else {
        let front = s.drop_last();
        lemma_place(front, x);
        let placed = place(front, x);
        assert(s =~= front.push(s.last()));
        assert(placed.push(s.last()).to_multiset() =~= s.to_multiset().insert(x));
        assert forall|i: int, j: int| 0 <= i < j < placed.push(s.last()).len() implies placed.push(
            s.last(),
        )[i].rank() <= placed.push(s.last())[j].rank() by {
            if j < placed.len() {
            } else {
                // every element of `placed` is `x` or an element of `front`
                let e = placed[i];
                assert(placed.contains(e));
                vstd::seq_lib::to_multiset_contains(placed, e);
                vstd::seq_lib::to_multiset_contains(front, e);
                if e != x {
                    assert(front.contains(e));
                    let w = choose|w: int| 0 <= w < front.len() && front[w] == e;
                    assert(s[w] == front[w]);
                    assert(s[w].rank() <= s[s.len() - 1].rank());
                }
            }
        }
    }
}

/// `arranged` orders its argument and neither drops nor adds an element.
pub proof fn lemma_arranged<T: Ranked>(s: Seq<T>)
    ensures
        is_ascending(arranged(s)),
        arranged(s).to_multiset() == s.to_multiset(),
        arranged(s).len() == s.len(),
    decreases s.len(),
{
    broadcast use vstd::seq_lib::to_multiset_build;

    if s.len() == 0 {
    } else {
        lemma_arranged(s.drop_last());
        lemma_place(arranged(s.drop_last()), s.last());
        assert(s =~= s.drop_last().push(s.last()));
    }
}

/// Every element of `arranged(s)` is an element of `s`.
pub proof fn lemma_arranged_members<T: Ranked>(s: Seq<T>)
    ensures
        forall|i: int| 0 <= i < arranged(s).len() ==> s.contains(#[trigger] arranged(s)[i]),
{
    lemma_arranged(s);
    assert forall|i: int| 0 <= i < arranged(s).len() implies s.contains(
        #[trigger] arranged(s)[i],
    ) by {
        let e = arranged(s)[i];
        assert(arranged(s).contains(e));
        vstd::seq_lib::to_multiset_contains(arranged(s), e);
        vstd::seq_lib::to_multiset_contains(s, e);
    }
}

/// Arranges the rows in ascending order of rank; rows of equal rank keep
/// their order.
pub fn sort<T: Ranked>(rows: &Vec<T>) -> (sorted: Vec<T>)
    ensures
        sorted@ == arranged(rows@),
        is_ascending(sorted@),
        sorted@.to_multiset() == rows@.to_multiset(),
        sorted@.len() == rows@.len(),
{
    let mut sorted: Vec<T> = Vec::new();
    let mut next: usize = 0;
    proof {
        assert(rows@.take(0) =~= Seq::<T>::empty());
    }
    while next < rows.len()
        invariant
            0 <= next <= rows.len(),
            sorted@ == arranged(rows@.take(next as int)),
        decreases rows.len() - next,
    {
        let row = rows[next];
        let mut at: usize = sorted.len();
        while at > 0 && !sorted[at - 1].not_after(&row)
            invariant
                0 <= at <= sorted.len(),
                forall|i: int| at <= i < sorted.len() ==> sorted[i].rank() > row.rank(),
            decreases at,
        {
            at = at - 1;
        }
        proof {
            lemma_place_is_insert(sorted@, row, at as int);
            assert(rows@.take(next + 1).drop_last() =~= rows@.take(next as int));
            assert(rows@.take(next + 1).last() == row);
        }
        sorted.insert(at, row);
        next = next + 1;
    }
    proof {
        assert(rows@.take(rows.len() as int) =~= rows@);
        lemma_arranged(rows@);
    }
    sorted
}

} // verus!
