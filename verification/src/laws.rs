//! What holds of the checkout engine in every state.
//!
//! Each statement is about [`CheckoutState`], the mathematical state of the
//! coordinator, and about the transitions that its commands are proved to
//! make.

use crate::database::model::checkout::{ActiveCheckout, ReturnedCheckout};
use crate::error::AppErrorView;
use crate::id::{BookId, CheckoutId};
use crate::model::checkout::{CreateCheckout, UpdateReturned};
use crate::repository::checkout::{
    return_refusal, BookStatus, CheckoutState, Transaction, ALREADY_CHECKED_OUT, NOT_CHECKED_OUT,
    TRANSACTION_ABORTED,
};
use crate::store::{
    find_first, first_where, lemma_find_first_push, lemma_find_first_remove, lemma_first_where,
    lemma_first_where_is, of_book, returned_with_checkout_id, with_checkout_id,
};
use vstd::prelude::*;

verus! {

/// A sequence without an element that satisfies `p` has an empty selection.
pub proof fn lemma_filter_none<T>(s: Seq<T>, p: spec_fn(T) -> bool)
    requires
        forall|i: int| 0 <= i < s.len() ==> !p(#[trigger] s[i]),
    ensures
        s.filter(p).len() == 0,
    decreases s.len(),
{
    reveal(Seq::filter);
    if s.len() > 0 {
        lemma_filter_none(s.drop_last(), p);
    }
}

/// Among rows of pairwise different books, a book has one row or none.
pub proof fn lemma_loans_of_book(rows: Seq<ActiveCheckout>, book_id: BookId)
    requires
        forall|i: int, j: int| 0 <= i < j < rows.len() ==> rows[i].book_id != rows[j].book_id,
    ensures
        rows.filter(of_book(book_id)).len() == if find_first(rows, of_book(book_id)) is Some {
            1int
        } else {
            0int
        },
    decreases rows.len(),
{
    lemma_first_where(rows, of_book(book_id));
    if rows.len() == 0 {
        lemma_filter_none(rows, of_book(book_id));
    } else {
        let front = rows.drop_last();
        let last = rows.last();
        assert(rows =~= front.push(last));
        front.lemma_filter_push(last, of_book(book_id));
        lemma_first_where(front, of_book(book_id));
        if last.book_id == book_id {
            assert forall|i: int| 0 <= i < front.len() implies !of_book(book_id)(
                #[trigger] front[i],
            ) by {
                assert(front[i] == rows[i]);
            }
            lemma_filter_none(front, of_book(book_id));
            if first_where(rows, of_book(book_id)) >= rows.len() {
                assert(!of_book(book_id)(rows[rows.len() - 1]));
            }
        } else {
            assert forall|i: int, j: int| 0 <= i < j < front.len() implies front[i].book_id
                != front[j].book_id by {
                assert(front[i] == rows[i]);
                assert(front[j] == rows[j]);
            }
            lemma_loans_of_book(front, book_id);
            if first_where(front, of_book(book_id)) < front.len() {
                let at = first_where(front, of_book(book_id));
                assert(front[at] == rows[at]);
                assert forall|k: int| 0 <= k < at implies !of_book(book_id)(#[trigger] rows[k]) by {
                    assert(front[k] == rows[k]);
                }
                lemma_first_where_is(rows, of_book(book_id), at);
            } else {
                assert forall|k: int| 0 <= k < rows.len() implies !of_book(book_id)(
                    #[trigger] rows[k],
                ) by {
                    if k < front.len() {
                        assert(front[k] == rows[k]);
                    }
                }
                lemma_first_where_is(rows, of_book(book_id), rows.len() as int);
            }
        }
    }
}

/// A checkout that commits keeps the engine's invariant.
pub proof fn lemma_checkout_keeps_invariant(
    state: CheckoutState,
    checkout_id: CheckoutId,
    event: CreateCheckout,
)
    requires
        state.wf(),
        state.lend_refusal(checkout_id, event) is None,
    ensures
        state.lent(checkout_id, event).wf(),
{
    let after = state.lent(checkout_id, event);
    lemma_first_where(state.active, of_book(event.book_id));
    lemma_first_where(state.active, with_checkout_id(checkout_id));
    lemma_first_where(state.history, returned_with_checkout_id(checkout_id));
    assert forall|i: int| 0 <= i < state.active.len() implies state.active[i].book_id
        != event.book_id && state.active[i].checkout_id != checkout_id by {
        assert(!of_book(event.book_id)(state.active[i]));
        assert(!with_checkout_id(checkout_id)(state.active[i]));
    }
    assert forall|j: int| 0 <= j < state.history.len() implies state.history[j].checkout_id
        != checkout_id by {
        assert(!returned_with_checkout_id(checkout_id)(state.history[j]));
    }
    assert(after.one_loan_per_book());
    assert(after.checkout_ids_unique());
    assert(after.books_known());
}

/// In a state that allows the return, the loan that is out of the book is
/// the one that the return names: the first loan of the book is the first
/// loan with the identifier.
pub proof fn lemma_returned_loan(state: CheckoutState, event: UpdateReturned)
    requires
        state.wf(),
        return_refusal(state.state_row(event.book_id), event) is None,
    ensures
        first_where(state.active, of_book(event.book_id)) < state.active.len(),
        first_where(state.active, with_checkout_id(event.checkout_id)) == first_where(
            state.active,
            of_book(event.book_id),
        ),
{
    let at = first_where(state.active, of_book(event.book_id));
    lemma_first_where(state.active, of_book(event.book_id));
    assert(state.active[at].checkout_id == event.checkout_id);
    assert forall|k: int| 0 <= k < at implies !with_checkout_id(event.checkout_id)(
        #[trigger] state.active[k],
    ) by {}
    lemma_first_where_is(state.active, with_checkout_id(event.checkout_id), at);
}

/// A return that commits keeps the engine's invariant.
pub proof fn lemma_return_keeps_invariant(state: CheckoutState, event: UpdateReturned)
    requires
        state.wf(),
        return_refusal(state.state_row(event.book_id), event) is None,
    ensures
        state.returned(event).wf(),
{
    let after = state.returned(event);
    let at = first_where(state.active, of_book(event.book_id));
    lemma_first_where(state.active, of_book(event.book_id));
    lemma_returned_loan(state, event);
    assert(after.active.len() == state.active.len() - 1);
    assert(after.one_loan_per_book()) by {
        assert forall|i: int, j: int| 0 <= i < j < after.active.len() implies after.active[i].book_id
            != after.active[j].book_id by {
            let from_i = if i < at { i } else { i + 1 };
            let from_j = if j < at { j } else { j + 1 };
            assert(after.active[i] == state.active[from_i]);
            assert(after.active[j] == state.active[from_j]);
        }
    }
    assert(after.checkout_ids_unique()) by {
        assert forall|i: int, j: int| 0 <= i < j < after.active.len() implies after.active[i].checkout_id
            != after.active[j].checkout_id by {
            let from_i = if i < at { i } else { i + 1 };
            let from_j = if j < at { j } else { j + 1 };
            assert(after.active[i] == state.active[from_i]);
            assert(after.active[j] == state.active[from_j]);
        }
        assert forall|i: int, j: int|
            0 <= i < after.active.len() && 0 <= j < after.history.len() implies after.active[i].checkout_id
            != after.history[j].checkout_id by {
            let from_i = if i < at { i } else { i + 1 };
            assert(after.active[i] == state.active[from_i]);
            if j < state.history.len() {
                assert(after.history[j] == state.history[j]);
            }
        }
        assert forall|i: int, j: int| 0 <= i < j < after.history.len() implies after.history[i].checkout_id
            != after.history[j].checkout_id by {
            assert(after.history[i] == state.history[i]);
            if j < state.history.len() {
                assert(after.history[j] == state.history[j]);
            }
        }
    }
    assert(after.books_known()) by {
        assert forall|i: int| 0 <= i < after.active.len() implies after.has_book(
            after.active[i].book_id,
        ) by {
            let from_i = if i < at { i } else { i + 1 };
            assert(after.active[i] == state.active[from_i]);
        }
        assert forall|j: int| 0 <= j < after.history.len() implies after.has_book(
            after.history[j].book_id,
        ) by {
            if j < state.history.len() {
                assert(after.history[j] == state.history[j]);
            }
        }
    }
}

/// In every state that the engine can be in, a book has at most one loan
/// that is out: one if it is lent, none if it is not.
pub proof fn lemma_at_most_one_loan(state: CheckoutState, book_id: BookId)
    requires
        state.wf(),
    ensures
        state.active.filter(of_book(book_id)).len() <= 1,
        state.active.filter(of_book(book_id)).len() == 1 <==> state.loan_of(book_id) is Some,
{
    lemma_loans_of_book(state.active, book_id);
}

/// A book that was lent is out.
pub proof fn lemma_lent_is_out(state: CheckoutState, checkout_id: CheckoutId, event: CreateCheckout)
    ensures
        state.lent(checkout_id, event).loan_of(event.book_id) is Some,
{
    let lent = state.lent(checkout_id, event);
    lemma_first_where(lent.active, of_book(event.book_id));
    if first_where(lent.active, of_book(event.book_id)) >= lent.active.len() {
        assert(!of_book(event.book_id)(lent.active[state.active.len() as int]));
    }
}

/// The state `before` lies before the state `after`: the history has grown,
/// or it is as long as it was and more loans are out.
pub open spec fn precedes(before: CheckoutState, after: CheckoutState) -> bool {
    before.history.len() < after.history.len() || (before.history.len() == after.history.len()
        && before.active.len() < after.active.len())
}

/// Every commit moves the state on.
pub proof fn lemma_commit_advances(
    state: CheckoutState,
    checkout_id: CheckoutId,
    lending: CreateCheckout,
    returning: UpdateReturned,
)
    ensures
        precedes(state, state.lent(checkout_id, lending)),
        precedes(state, state.returned(returning)),
{
}

/// No state lies before itself, and what lies before an earlier state lies
/// before every later one: however many commits follow, the state never
/// comes back to where it was.
pub proof fn lemma_precedes_is_an_order(a: CheckoutState, b: CheckoutState, c: CheckoutState)
    ensures
        !precedes(a, a),
        precedes(a, b) && precedes(b, c) ==> precedes(a, c),
{
}

/// A transaction that began before a commit is never current after it, so
/// its command fails as the loser of the race and changes nothing.
pub proof fn lemma_stale_transaction(
    before: CheckoutState,
    after: CheckoutState,
    tx: Transaction,
    checkout_id: CheckoutId,
    lending: CreateCheckout,
    returning: UpdateReturned,
)
    requires
        before.is_current(tx),
        precedes(before, after),
    ensures
        !after.is_current(tx),
        after.create_refusal(tx, checkout_id, lending) == Some(
            AppErrorView::TransactionError(TRANSACTION_ABORTED@),
        ),
        after.update_refusal(tx, returning) == Some(
            AppErrorView::TransactionError(TRANSACTION_ABORTED@),
        ),
{
}

/// A book that was lent and then returned, under the same identifiers, is
/// no longer out: the loans that are out are those from before the checkout,
/// and the history has gained exactly one row, which holds both times.
pub proof fn lemma_checkout_then_return(
    state: CheckoutState,
    checkout_id: CheckoutId,
    event: CreateCheckout,
    returned_at: i64,
)
    requires
        state.wf(),
        state.lend_refusal(checkout_id, event) is None,
    ensures
        ({
            let lent = state.lent(checkout_id, event);
            let back = UpdateReturned {
                checkout_id,
                book_id: event.book_id,
                returned_by: event.checked_out_by,
                returned_at,
            };
            &&& return_refusal(lent.state_row(event.book_id), back) is None
            &&& lent.returned(back).loan_of(event.book_id) is None
            &&& lent.returned(back).active == state.active
            &&& lent.returned(back).history == state.history.push(
                ReturnedCheckout {
                    checkout_id,
                    book_id: event.book_id,
                    user_id: event.checked_out_by,
                    checked_out_at: event.checked_out_at,
                    returned_at,
                },
            )
        }),
{
    let lent = state.lent(checkout_id, event);
    let row = CheckoutState::loan_row(checkout_id, event);
    lemma_first_where(state.active, of_book(event.book_id));
    assert forall|k: int| 0 <= k < state.active.len() implies !of_book(event.book_id)(
        #[trigger] lent.active[k],
    ) by {
        assert(lent.active[k] == state.active[k]);
        assert(!of_book(event.book_id)(state.active[k]));
    }
    assert(lent.active[state.active.len() as int] == row);
    lemma_first_where_is(lent.active, of_book(event.book_id), state.active.len() as int);
    assert(lent.active.remove(state.active.len() as int) =~= state.active);
}

/// A return that is issued a second time fails, because the book is no
/// longer out, and the history holds the returned loan exactly once.
pub proof fn lemma_return_twice(state: CheckoutState, event: UpdateReturned)
    requires
        state.wf(),
        return_refusal(state.state_row(event.book_id), event) is None,
    ensures
        ({
            let after = state.returned(event);
            &&& return_refusal(after.state_row(event.book_id), event) == Some(
                AppErrorView::NotFoundError(NOT_CHECKED_OUT@),
            )
            &&& after.history.filter(returned_with_checkout_id(event.checkout_id)).len() == 1
        }),
{
    let after = state.returned(event);
    let at = first_where(state.active, of_book(event.book_id));
    lemma_first_where(state.active, of_book(event.book_id));
    assert(state.active[at].checkout_id == event.checkout_id);
    // the book is out no more
    assert forall|k: int| 0 <= k < after.active.len() implies !of_book(event.book_id)(
        #[trigger] after.active[k],
    ) by {
        let from = if k < at { k } else { k + 1 };
        assert(after.active[k] == state.active[from]);
    }
    lemma_first_where_is(after.active, of_book(event.book_id), after.active.len() as int);
    // the identifier was in no row of the history before
    assert forall|j: int| 0 <= j < state.history.len() implies !returned_with_checkout_id(
        event.checkout_id,
    )(#[trigger] state.history[j]) by {}
    lemma_filter_none(state.history, returned_with_checkout_id(event.checkout_id));
    state.history.lemma_filter_push(
        CheckoutState::returned_row(state.active[at], event.returned_at),
        returned_with_checkout_id(event.checkout_id),
    );
}

/// A checkout moves its book from the shelf to the borrower and leaves
/// every other book where it was.
pub proof fn lemma_checkout_transition(
    state: CheckoutState,
    checkout_id: CheckoutId,
    event: CreateCheckout,
    other: BookId,
)
    requires
        state.lend_refusal(checkout_id, event) is None,
    ensures
        state.status(event.book_id) == Some(BookStatus::Available),
        state.lent(checkout_id, event).status(event.book_id) == Some(BookStatus::CheckedOut),
        other != event.book_id ==> state.lent(checkout_id, event).status(other) == state.status(
            other,
        ),
{
    let row = CheckoutState::loan_row(checkout_id, event);
    lemma_find_first_push(state.active, row, of_book(event.book_id));
    lemma_find_first_push(state.active, row, of_book(other));
}

/// A return moves its book from the borrower to the shelf and leaves every
/// other book where it was.
pub proof fn lemma_return_transition(state: CheckoutState, event: UpdateReturned, other: BookId)
    requires
        state.wf(),
        return_refusal(state.state_row(event.book_id), event) is None,
    ensures
        state.status(event.book_id) == Some(BookStatus::CheckedOut),
        state.returned(event).status(event.book_id) == Some(BookStatus::Available),
        other != event.book_id ==> state.returned(event).status(other) == state.status(other),
{
    lemma_return_twice(state, event);
    let at = first_where(state.active, of_book(event.book_id));
    lemma_first_where(state.active, of_book(event.book_id));
    if other != event.book_id {
        lemma_find_first_remove(state.active, at, of_book(other));
    }
}

/// The history only grows: a checkout leaves it as it is, and a return adds
/// one row at its end. No row of it is ever changed or removed.
pub proof fn lemma_history_only_grows(
    state: CheckoutState,
    checkout_id: CheckoutId,
    lending: CreateCheckout,
    returning: UpdateReturned,
)
    ensures
        state.lent(checkout_id, lending).history == state.history,
        state.returned(returning).history.len() == state.history.len() + 1,
        state.returned(returning).history.take(state.history.len() as int) == state.history,
{
    assert(state.returned(returning).history.take(state.history.len() as int) =~= state.history);
}

/// Two checkouts of one book race: both begin at the same state, in which
/// the book exists and is not out. The one that runs first commits, given
/// that its identifier is fresh. The other then fails in whatever
/// transaction it runs: as the loser of the race in the transaction it
/// began, or in any other that is not current, and because the book is out
/// in one that began after the commit. Its failure is never that the book
/// is missing and never the fatal one, and the two failures it can have
/// are different errors. Afterwards the book has exactly one loan, that of
/// the checkout that committed, and the history is as it was.
///
/// Which of the two runs first is for the caller to say: the statement
/// holds of either order.
pub proof fn lemma_concurrent_checkouts(
    state: CheckoutState,
    tx: Transaction,
    first_id: CheckoutId,
    first: CreateCheckout,
    second_id: CheckoutId,
    second: CreateCheckout,
    other: Transaction,
)
    requires
        state.wf(),
        state.has_book(first.book_id),
        state.loan_of(first.book_id) is None,
        second.book_id == first.book_id,
        state.is_current(tx),
        !state.id_in_use(first_id),
    ensures
        ({
            let after = state.lent(first_id, first);
            let lost = AppErrorView::TransactionError(TRANSACTION_ABORTED@);
            let taken = AppErrorView::UnprocessableEntity(ALREADY_CHECKED_OUT@);
            &&& state.create_refusal(tx, first_id, first) is None
            &&& after.wf()
            &&& after.create_refusal(tx, second_id, second) == Some(lost)
            &&& after.create_refusal(other, second_id, second) == Some(
                if after.is_current(other) {
                    taken
                } else {
                    lost
                },
            )
            &&& lost != taken
            &&& !(lost is NotFoundError) && !(lost is NoRowsAffectedError)
            &&& !(taken is NotFoundError) && !(taken is NoRowsAffectedError)
            &&& after.active.filter(of_book(first.book_id)).len() == 1
            &&& after.loan_of(first.book_id) == Some(CheckoutState::loan_row(first_id, first))
            &&& after.history == state.history
        }),
{
    let after = state.lent(first_id, first);
    let row = CheckoutState::loan_row(first_id, first);
    lemma_checkout_keeps_invariant(state, first_id, first);
    lemma_find_first_push(state.active, row, of_book(first.book_id));
    lemma_first_where(state.active, of_book(first.book_id));
    assert forall|k: int| 0 <= k < state.active.len() implies !of_book(first.book_id)(
        #[trigger] state.active[k],
    ) by {}
    lemma_filter_none(state.active, of_book(first.book_id));
    state.active.lemma_filter_push(row, of_book(first.book_id));
}

} // verus!
