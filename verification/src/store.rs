//! The two record holders of the checkout engine.
//!
//! [`ActiveCheckoutStore`] holds the loans that are out, [`CheckoutHistoryStore`]
//! the loans that came back. Both are passive: the only rule that a store
//! keeps by itself is that the current loans have distinct checkout
//! identifiers. That a book is lent at most once is the coordinator's affair.

use crate::database::model::checkout::{ActiveCheckout, ReturnedCheckout};
use crate::id::{BookId, CheckoutId, UserId};
use crate::ordering::Ranked;
use vstd::prelude::*;

verus! {

impl Ranked for ActiveCheckout {
    /// Current loans are listed oldest first.
    open spec fn rank(&self) -> int {
        self.checked_out_at as int
    }

    fn not_after(&self, other: &Self) -> (fits: bool) {
        self.checked_out_at <= other.checked_out_at
    }
}

impl Ranked for ReturnedCheckout {
    /// Past loans are listed latest return first.
    open spec fn rank(&self) -> int {
        -(self.returned_at as int)
    }

    fn not_after(&self, other: &Self) -> (fits: bool) {
        self.returned_at >= other.returned_at
    }
}

/// The least index of `s` whose element satisfies `p`, or the length of `s`
/// if no element does.
pub open spec fn first_where<T>(s: Seq<T>, p: spec_fn(T) -> bool) -> int
    decreases s.len(),
{
    if s.len() == 0 {
        0
    } else if p(s[0]) {
        0
    } else {
        1 + first_where(s.drop_first(), p)
    }
}

/// The first element of `s` that satisfies `p`.
pub open spec fn find_first<T>(s: Seq<T>, p: spec_fn(T) -> bool) -> Option<T> {
    let at = first_where(s, p);
    if at < s.len() {
        Some(s[at])
    } else {
        None
    }
}

/// `first_where` is in range, nothing before it satisfies `p`, and the
/// element at it does.
pub proof fn lemma_first_where<T>(s: Seq<T>, p: spec_fn(T) -> bool)
    ensures
        0 <= first_where(s, p) <= s.len(),
        forall|k: int| 0 <= k < first_where(s, p) ==> !p(#[trigger] s[k]),
        first_where(s, p) < s.len() ==> p(s[first_where(s, p)]),
    decreases s.len(),
{
    if s.len() > 0 && !p(s[0]) {
        let rest = s.drop_first();
        lemma_first_where(rest, p);
        assert forall|k: int| 0 <= k < first_where(s, p) implies !p(#[trigger] s[k]) by {
            if k > 0 {
                assert(s[k] == rest[k - 1]);
            }
        }
        if first_where(s, p) < s.len() {
            assert(s[first_where(s, p)] == rest[first_where(rest, p)]);
        }
    }
}

/// An index with the two properties of `first_where` is `first_where`.
pub proof fn lemma_first_where_is<T>(s: Seq<T>, p: spec_fn(T) -> bool, at: int)
    requires
        0 <= at <= s.len(),
        forall|k: int| 0 <= k < at ==> !p(#[trigger] s[k]),
        at < s.len() ==> p(s[at]),
    ensures
        first_where(s, p) == at,
{
    lemma_first_where(s, p);
    let found = first_where(s, p);
    if found < at {
        assert(!p(s[found]));
    } else if found > at {
        assert(!p(s[at]));
    }
}

/// The first match of a sequence with one more element at its end: the
/// first match of the sequence if it has one, else the new element if it
/// matches.
pub proof fn lemma_find_first_push<T>(s: Seq<T>, x: T, p: spec_fn(T) -> bool)
    ensures
        find_first(s.push(x), p) == if find_first(s, p) is Some {
            find_first(s, p)
        } else if p(x) {
            Some(x)
        } else {
            None
        },
{
    lemma_first_where(s, p);
    let at = first_where(s, p);
    let longer = s.push(x);
    assert forall|k: int| 0 <= k < at implies !p(#[trigger] longer[k]) by {
        assert(longer[k] == s[k]);
    }
    if at < s.len() {
        assert(longer[at] == s[at]);
        lemma_first_where_is(longer, p, at);
    } else if p(x) {
        assert(longer[at] == x);
        lemma_first_where_is(longer, p, at);
    } else {
        assert(longer[s.len() as int] == x);
        assert forall|k: int| 0 <= k < longer.len() implies !p(#[trigger] longer[k]) by {
            if k < s.len() {
                assert(longer[k] == s[k]);
            }
        }
        lemma_first_where_is(longer, p, longer.len() as int);
    }
}

/// Taking out an element that does not match leaves the first match as it
/// was.
pub proof fn lemma_find_first_remove<T>(s: Seq<T>, at: int, p: spec_fn(T) -> bool)
    requires
        0 <= at < s.len(),
        !p(s[at]),
    ensures
        find_first(s.remove(at), p) == find_first(s, p),
{
    lemma_first_where(s, p);
    let found = first_where(s, p);
    let shorter = s.remove(at);
    let moved = if found < at { found } else { found - 1 };
    assert forall|k: int| 0 <= k < moved implies !p(#[trigger] shorter[k]) by {
        let from = if k < at { k } else { k + 1 };
        assert(shorter[k] == s[from]);
    }
    if found < s.len() {
        assert(found != at);
        assert(shorter[moved] == s[found]);
    }
    lemma_first_where_is(shorter, p, moved);
}

/// The loans with the given checkout identifier.
pub open spec fn with_checkout_id(id: CheckoutId) -> spec_fn(ActiveCheckout) -> bool {
    |row: ActiveCheckout| row.checkout_id == id
}

/// The loans of the given book.
pub open spec fn of_book(book_id: BookId) -> spec_fn(ActiveCheckout) -> bool {
    |row: ActiveCheckout| row.book_id == book_id
}

/// The loans to the given borrower.
pub open spec fn lent_to(user_id: UserId) -> spec_fn(ActiveCheckout) -> bool {
    |row: ActiveCheckout| row.user_id == user_id
}

/// The past loans with the given checkout identifier.
pub open spec fn returned_with_checkout_id(id: CheckoutId) -> spec_fn(ReturnedCheckout) -> bool {
    |row: ReturnedCheckout| row.checkout_id == id
}

/// The past loans of the given book.
pub open spec fn returned_of_book(book_id: BookId) -> spec_fn(ReturnedCheckout) -> bool {
    |row: ReturnedCheckout| row.book_id == book_id
}

/// No two rows share a checkout identifier.
pub open spec fn distinct_checkout_ids(rows: Seq<ActiveCheckout>) -> bool {
    forall|i: int, j: int|
        0 <= i < j < rows.len() ==> rows[i].checkout_id != rows[j].checkout_id
}

/// The loans that are out, in the order in which they were recorded.
pub struct ActiveCheckoutStore {
    rows: Vec<ActiveCheckout>,
}

impl View for ActiveCheckoutStore {
    type V = Seq<ActiveCheckout>;

    closed spec fn view(&self) -> Seq<ActiveCheckout> {
        self.rows@
    }
}

impl ActiveCheckoutStore {
    /// The store's own rule: checkout identifiers are unique.
    pub open spec fn wf(&self) -> bool {
        distinct_checkout_ids(self@)
    }

    /// An empty store.
    pub fn new() -> (store: Self)
        ensures
            store@ == Seq::<ActiveCheckout>::empty(),
            store.wf(),
    {
        ActiveCheckoutStore { rows: Vec::new() }
    }

    /// The number of loans that are out.
    pub fn len(&self) -> (n: usize)
        ensures
            n == self@.len(),
    {
        self.rows.len()
    }

    /// All rows, in the order in which they were recorded.
    pub fn rows(&self) -> (rows: &Vec<ActiveCheckout>)
        ensures
            rows@ == self@,
    {
        &self.rows
    }

    /// The first loan of the given book, if the book is out.
    pub fn find_by_book(&self, book_id: BookId) -> (found: Option<ActiveCheckout>)
        ensures
            found == find_first(self@, of_book(book_id)),
    {
        let mut at: usize = 0;
        while at < self.rows.len()
            invariant
                0 <= at <= self.rows.len(),
                forall|k: int| 0 <= k < at ==> !of_book(book_id)(#[trigger] self.rows@[k]),
            decreases self.rows.len() - at,
        {
            if self.rows[at].book_id == book_id {
                proof {
                    lemma_first_where_is(self.rows@, of_book(book_id), at as int);
                }
                return Some(self.rows[at]);
            }
            at = at + 1;
        }
        proof {
            lemma_first_where_is(self.rows@, of_book(book_id), at as int);
        }
        None
    }

    /// Whether a loan with the given identifier is out.
    pub fn holds(&self, checkout_id: CheckoutId) -> (held: bool)
        ensures
            held == (find_first(self@, with_checkout_id(checkout_id)) is Some),
    {
        let mut at: usize = 0;
        while at < self.rows.len()
            invariant
                0 <= at <= self.rows.len(),
                forall|k: int|
                    0 <= k < at ==> !with_checkout_id(checkout_id)(#[trigger] self.rows@[k]),
            decreases self.rows.len() - at,
        {
            if self.rows[at].checkout_id == checkout_id {
                proof {
                    lemma_first_where_is(self.rows@, with_checkout_id(checkout_id), at as int);
                }
                return true;
            }
            at = at + 1;
        }
        proof {
            lemma_first_where_is(self.rows@, with_checkout_id(checkout_id), at as int);
        }
        false
    }

    /// Records a loan and says how many rows that added: one, or none where a
    /// loan with the same checkout identifier is already out.
    pub fn insert(&mut self, row: ActiveCheckout) -> (affected: u64)
        requires
            old(self).wf(),
        ensures
            final(self).wf(),
            find_first(old(self)@, with_checkout_id(row.checkout_id)) is Some ==> affected == 0
                && final(self)@ == old(self)@,
            find_first(old(self)@, with_checkout_id(row.checkout_id)) is None ==> affected == 1
                && final(self)@ == old(self)@.push(row),
    {
        if self.holds(row.checkout_id) {
            0
        } else {
            proof {
                lemma_first_where(self.rows@, with_checkout_id(row.checkout_id));
                assert forall|i: int| 0 <= i < self.rows@.len() implies self.rows@[i].checkout_id
                    != row.checkout_id by {
                    assert(!with_checkout_id(row.checkout_id)(self.rows@[i]));
                }
            }
            self.rows.push(row);
            1
        }
    }

    /// Removes the loan with the given checkout identifier and hands it out;
    /// `None`, and nothing removed, where no such loan is out.
    pub fn take(&mut self, checkout_id: CheckoutId) -> (taken: Option<ActiveCheckout>)
        requires
            old(self).wf(),
        ensures
            final(self).wf(),
            taken == find_first(old(self)@, with_checkout_id(checkout_id)),
            taken is Some ==> final(self)@ == old(self)@.remove(
                first_where(old(self)@, with_checkout_id(checkout_id)),
            ),
            taken is None ==> final(self)@ == old(self)@,
    {
        let mut at: usize = 0;
        while at < self.rows.len()
            invariant
                0 <= at <= self.rows.len(),
                *self == *old(self),
                self.wf(),
                forall|k: int|
                    0 <= k < at ==> !with_checkout_id(checkout_id)(#[trigger] self.rows@[k]),
            decreases self.rows.len() - at,
        {
            if self.rows[at].checkout_id == checkout_id {
                proof {
                    lemma_first_where_is(self.rows@, with_checkout_id(checkout_id), at as int);
                }
                let row = self.rows.remove(at);
                proof {
                    let before = old(self).rows@;
                    let after = self.rows@;
                    assert forall|i: int, j: int| 0 <= i < j < after.len() implies after[i].checkout_id
                        != after[j].checkout_id by {
                        let from_i = if i < at { i } else { i + 1 };
                        let from_j = if j < at { j } else { j + 1 };
                        assert(after[i] == before[from_i]);
                        assert(after[j] == before[from_j]);
                    }
                }
                return Some(row);
            }
            at = at + 1;
        }
        proof {
            lemma_first_where_is(self.rows@, with_checkout_id(checkout_id), at as int);
        }
        None
    }

    /// The loans to the given borrower, in the order in which they were
    /// recorded.
    pub fn find_by_user(&self, user_id: UserId) -> (found: Vec<ActiveCheckout>)
        ensures
            found@ == self@.filter(lent_to(user_id)),
    {
        let mut found: Vec<ActiveCheckout> = Vec::new();
        let mut at: usize = 0;
        proof {
            assert(self.rows@.take(0) =~= Seq::<ActiveCheckout>::empty());
            self.rows@.take(0).lemma_filter_len(lent_to(user_id));
        }
        while at < self.rows.len()
            invariant
                0 <= at <= self.rows.len(),
                found@ == self.rows@.take(at as int).filter(lent_to(user_id)),
            decreases self.rows.len() - at,
        {
            let row = self.rows[at];
            proof {
                assert(self.rows@.take(at + 1) =~= self.rows@.take(at as int).push(row));
                self.rows@.take(at as int).lemma_filter_push(row, lent_to(user_id));
            }
            if row.user_id == user_id {
                found.push(row);
            }
            at = at + 1;
        }
        proof {
            assert(self.rows@.take(at as int) =~= self.rows@);
        }
        found
    }
}

/// The loans that came back, in the order of their recording. Rows are only
/// ever added.
pub struct CheckoutHistoryStore {
    rows: Vec<ReturnedCheckout>,
}

impl View for CheckoutHistoryStore {
    type V = Seq<ReturnedCheckout>;

    closed spec fn view(&self) -> Seq<ReturnedCheckout> {
        self.rows@
    }
}

impl CheckoutHistoryStore {
    /// An empty history.
    pub fn new() -> (store: Self)
        ensures
            store@ == Seq::<ReturnedCheckout>::empty(),
    {
        CheckoutHistoryStore { rows: Vec::new() }
    }

    /// The number of past loans.
    pub fn len(&self) -> (n: usize)
        ensures
            n == self@.len(),
    {
        self.rows.len()
    }

    /// Adds a past loan at the end.
    pub fn append(&mut self, row: ReturnedCheckout)
        ensures
            final(self)@ == old(self)@.push(row),
    {
        self.rows.push(row);
    }

    /// Whether a past loan has the given checkout identifier.
    pub fn holds(&self, checkout_id: CheckoutId) -> (held: bool)
        ensures
            held == (find_first(self@, returned_with_checkout_id(checkout_id)) is Some),
    {
        let mut at: usize = 0;
        while at < self.rows.len()
            invariant
                0 <= at <= self.rows.len(),
                forall|k: int|
                    0 <= k < at ==> !returned_with_checkout_id(checkout_id)(
                        #[trigger] self.rows@[k],
                    ),
            decreases self.rows.len() - at,
        {
            if self.rows[at].checkout_id == checkout_id {
                proof {
                    lemma_first_where_is(
                        self.rows@,
                        returned_with_checkout_id(checkout_id),
                        at as int,
                    );
                }
                return true;
            }
            at = at + 1;
        }
        proof {
            lemma_first_where_is(self.rows@, returned_with_checkout_id(checkout_id), at as int);
        }
        false
    }

    /// The past loans of the given book, in the order of their recording.
    pub fn find_by_book(&self, book_id: BookId) -> (found: Vec<ReturnedCheckout>)
        ensures
            found@ == self@.filter(returned_of_book(book_id)),
    {
        let mut found: Vec<ReturnedCheckout> = Vec::new();
        let mut at: usize = 0;
        proof {
            assert(self.rows@.take(0) =~= Seq::<ReturnedCheckout>::empty());
            self.rows@.take(0).lemma_filter_len(returned_of_book(book_id));
        }
        while at < self.rows.len()
            invariant
                0 <= at <= self.rows.len(),
                found@ == self.rows@.take(at as int).filter(returned_of_book(book_id)),
            decreases self.rows.len() - at,
        {
            let row = self.rows[at];
            proof {
                assert(self.rows@.take(at + 1) =~= self.rows@.take(at as int).push(row));
                self.rows@.take(at as int).lemma_filter_push(row, returned_of_book(book_id));
            }
            if row.book_id == book_id {
                found.push(row);
            }
            at = at + 1;
        }
        proof {
            assert(self.rows@.take(at as int) =~= self.rows@);
        }
        found
    }
}

} // verus!
