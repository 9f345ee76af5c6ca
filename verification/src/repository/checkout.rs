//! The checkout engine.
//!
//! [`CheckoutRepositoryImpl`] is the coordinator: the only owner of the two
//! checkout stores and the only code that changes them. Each command runs as
//! one transaction: it inspects the state, decides, and either commits its
//! whole effect or leaves the state as it found it.
//!
//! The decisions themselves are plain functions
//! ([`check_can_checkout`], [`check_can_return`], [`check_affected`]), so that
//! a coordinator over another store takes exactly the same ones, step by
//! step, as the module `protocol` lays them out.

use crate::database::model::checkout::{
    ActiveCheckout, CheckoutRow, CheckoutStateRow, ReturnedCheckout, ReturnedCheckoutRow,
};
use crate::error::{AppError, AppErrorView};
use crate::id::{is_random_uuid, BookId, CheckoutId, UserId};
use crate::model::checkout::{
    Checkout, CheckoutBook, CheckoutBookView, CheckoutView, CreateCheckout, UpdateReturned,
};
use crate::laws::{
    lemma_checkout_keeps_invariant, lemma_return_keeps_invariant, lemma_returned_loan,
};
use crate::ordering::{arranged, lemma_arranged_members, sort};
use crate::store::{
    distinct_checkout_ids, find_first, first_where, lemma_first_where, lemma_first_where_is,
    lent_to, of_book, returned_of_book, returned_with_checkout_id, with_checkout_id,
    ActiveCheckoutStore, CheckoutHistoryStore,
};
use vstd::prelude::*;

verus! {

/// The message of the error for a book that does not exist.
pub const BOOK_NOT_FOUND: &'static str = "book not found";

/// The message of the error for lending a book that is out.
pub const ALREADY_CHECKED_OUT: &'static str = "book already checked out";

/// The message of the error for returning a book that is not out.
pub const NOT_CHECKED_OUT: &'static str = "book is not checked out";

/// The message of the error for returning another loan than the current one.
pub const CHECKOUT_MISMATCH: &'static str = "checkout does not match requested identity";

/// The message of the error for a checkout that recorded no row.
pub const CHECKOUT_NOT_RECORDED: &'static str = "checkout was not recorded";

/// The message of the error for a return that moved no row.
pub const RETURN_NOT_RECORDED: &'static str = "return was not recorded";

/// The message of the error for a transaction that lost against another.
pub const TRANSACTION_ABORTED: &'static str = "transaction aborted by a concurrent commit";

/// `outcome` is a failure with exactly the error `refusal`, or a success
/// where there is none.
pub open spec fn follows<T>(outcome: Result<T, AppError>, refusal: Option<AppErrorView>) -> bool {
    match refusal {
        Some(e) => outcome is Err && outcome->Err_0@ == e,
        None => outcome is Ok,
    }
}

/// Why a book in the given state cannot be lent: it does not exist, or it
/// is out. `None` where it can.
pub open spec fn checkout_refusal(state: Option<CheckoutStateRow>) -> Option<AppErrorView> {
    match state {
        None => Some(AppErrorView::NotFoundError(BOOK_NOT_FOUND@)),
        Some(row) => if row.checkout_id is Some {
            Some(AppErrorView::UnprocessableEntity(ALREADY_CHECKED_OUT@))
        } else {
            None
        },
    }
}

/// Why the return `event` cannot be taken for a book in the given state: the
/// book does not exist, it is not out, or the loan that is out is not the
/// one named, by its identifier and its borrower. `None` where it can.
pub open spec fn return_refusal(
    state: Option<CheckoutStateRow>,
    event: UpdateReturned,
) -> Option<AppErrorView> {
    match state {
        None => Some(AppErrorView::NotFoundError(BOOK_NOT_FOUND@)),
        Some(row) => if row.checkout_id is None {
            Some(AppErrorView::NotFoundError(NOT_CHECKED_OUT@))
        } else if row.checkout_id != Some(event.checkout_id) || row.user_id != Some(
            event.returned_by,
        ) {
            Some(AppErrorView::UnprocessableEntity(CHECKOUT_MISMATCH@))
        } else {
            None
        },
    }
}

/// Decides whether a book in the given state can be lent.
pub fn check_can_checkout(state: Option<CheckoutStateRow>) -> (verdict: Result<(), AppError>)
    ensures
        follows(verdict, checkout_refusal(state)),
{
    match state {
        None => Err(AppError::NotFoundError(BOOK_NOT_FOUND.to_owned())),
        Some(row) => match row.checkout_id {
            Some(_) => Err(AppError::UnprocessableEntity(ALREADY_CHECKED_OUT.to_owned())),
            None => Ok(()),
        },
    }
}

/// Decides whether the return `event` can be taken for a book in the given
/// state.
pub fn check_can_return(state: Option<CheckoutStateRow>, event: &UpdateReturned) -> (verdict:
    Result<(), AppError>)
    ensures
        follows(verdict, return_refusal(state, *event)),
{
    match state {
        None => Err(AppError::NotFoundError(BOOK_NOT_FOUND.to_owned())),
        Some(row) => match row.checkout_id {
            None => Err(AppError::NotFoundError(NOT_CHECKED_OUT.to_owned())),
            Some(checkout_id) => {
                let same_borrower = match row.user_id {
                    Some(user_id) => user_id == event.returned_by,
                    None => false,
                };
                if checkout_id == event.checkout_id && same_borrower {
                    Ok(())
                } else {
                    Err(AppError::UnprocessableEntity(CHECKOUT_MISMATCH.to_owned()))
                }
            },
        },
    }
}

/// Decides whether a step that had to change a row did: a step that changed
/// none is a fatal failure with the given message.
pub fn check_affected(affected: u64, message: &str) -> (verdict: Result<(), AppError>)
    ensures
        follows(
            verdict,
            if affected < 1 {
                Some(AppErrorView::NoRowsAffectedError(message@))
            } else {
                None
            },
        ),
{
    if affected < 1 {
        Err(AppError::NoRowsAffectedError(message.to_owned()))
    } else {
        Ok(())
    }
}

/// Whether a failure that the store reports means that the transaction lost
/// against a concurrent one, or ran out of time: the store names a
/// serialization failure (`40001`) or a deadlock (`40P01`), or the call
/// timed out.
pub open spec fn is_retryable_failure(sqlstate: Option<Seq<char>>, timed_out: bool) -> bool {
    timed_out || sqlstate == Some("40001"@) || sqlstate == Some("40P01"@)
}

/// The error for a failure that the store reports: a `TransactionError`,
/// which the caller may answer by trying again, where the transaction lost
/// against a concurrent one or ran out of time, and a
/// `DatabaseOperationError` for every other failure.
pub fn classify_store_failure(sqlstate: Option<&str>, timed_out: bool, message: String) -> (error:
    AppError)
    ensures
        error@ == if is_retryable_failure(
            match sqlstate {
                Some(code) => Some(code@),
                None => None,
            },
            timed_out,
        ) {
            AppErrorView::TransactionError(message@)
        } else {
            AppErrorView::DatabaseOperationError(message@)
        },
{
    let lost = match sqlstate {
        Some(code) => {
            let code = code.to_owned();
            code == "40001".to_owned() || code == "40P01".to_owned()
        },
        None => false,
    };
    if timed_out || lost {
        AppError::TransactionError(message)
    } else {
        AppError::DatabaseOperationError(message)
    }
}

/// The books with the given identifier.
pub open spec fn book_with_id(book_id: BookId) -> spec_fn(CheckoutBookView) -> bool {
    |book: CheckoutBookView| book.book_id == book_id
}

/// The values of a list of books, in the list's order.
pub open spec fn book_views(books: Seq<CheckoutBook>) -> Seq<CheckoutBookView> {
    Seq::new(books.len(), |i: int| books[i]@)
}

/// The mark of a snapshot: how many loans were out and how many had come
/// back when a transaction began. Every commit changes the mark, and no
/// earlier mark comes again, so a transaction whose mark differs from the
/// state's has lost against a commit.
#[derive(Debug, Clone, Copy, PartialEq, Eq, Structural)]
pub struct Transaction {
    pub active: usize,
    pub returned: usize,
}

/// Where a book is: on the shelf, or with a borrower.
#[derive(Debug, Clone, Copy, PartialEq, Eq, Structural)]
pub enum BookStatus {
    Available,
    CheckedOut,
}

/// The mathematical state of the engine: the books it knows, the loans that
/// are out, and the loans that came back.
pub struct CheckoutState {
    pub books: Seq<CheckoutBookView>,
    pub active: Seq<ActiveCheckout>,
    pub history: Seq<ReturnedCheckout>,
}

impl CheckoutState {
    /// Whether the book exists.
    pub open spec fn has_book(self, book_id: BookId) -> bool {
        find_first(self.books, book_with_id(book_id)) is Some
    }

    /// The loan of the book that is out, if one is.
    pub open spec fn loan_of(self, book_id: BookId) -> Option<ActiveCheckout> {
        find_first(self.active, of_book(book_id))
    }

    /// Whether a loan, current or past, has the identifier.
    pub open spec fn id_in_use(self, checkout_id: CheckoutId) -> bool {
        find_first(self.active, with_checkout_id(checkout_id)) is Some || find_first(
            self.history,
            returned_with_checkout_id(checkout_id),
        ) is Some
    }

    /// Where the book is, if it exists.
    pub open spec fn status(self, book_id: BookId) -> Option<BookStatus> {
        if !self.has_book(book_id) {
            None
        } else if self.loan_of(book_id) is Some {
            Some(BookStatus::CheckedOut)
        } else {
            Some(BookStatus::Available)
        }
    }

    /// What a command learns of the book before it decides.
    pub open spec fn state_row(self, book_id: BookId) -> Option<CheckoutStateRow> {
        if !self.has_book(book_id) {
            None
        } else {
            Some(
                match self.loan_of(book_id) {
                    Some(loan) => CheckoutStateRow {
                        book_id,
                        checkout_id: Some(loan.checkout_id),
                        user_id: Some(loan.user_id),
                    },
                    None => CheckoutStateRow { book_id, checkout_id: None, user_id: None },
                },
            )
        }
    }

    /// Whether `tx` began at this very state.
    pub open spec fn is_current(self, tx: Transaction) -> bool {
        tx.active == self.active.len() && tx.returned == self.history.len()
    }

    /// No book is out twice.
    pub open spec fn one_loan_per_book(self) -> bool {
        forall|i: int, j: int|
            0 <= i < j < self.active.len() ==> self.active[i].book_id != self.active[j].book_id
    }

    /// No checkout identifier stands for two loans, current or past.
    pub open spec fn checkout_ids_unique(self) -> bool {
        &&& distinct_checkout_ids(self.active)
        &&& forall|i: int, j: int|
            0 <= i < j < self.history.len() ==> self.history[i].checkout_id
                != self.history[j].checkout_id
        &&& forall|i: int, j: int|
            0 <= i < self.active.len() && 0 <= j < self.history.len()
                ==> self.active[i].checkout_id != self.history[j].checkout_id
    }

    /// Every loan, current or past, is of a book that exists.
    pub open spec fn books_known(self) -> bool {
        &&& forall|i: int| 0 <= i < self.active.len() ==> self.has_book(self.active[i].book_id)
        &&& forall|j: int|
            0 <= j < self.history.len() ==> self.has_book(self.history[j].book_id)
    }

    /// The engine's invariant.
    pub open spec fn wf(self) -> bool {
        &&& self.one_loan_per_book()
        &&& self.checkout_ids_unique()
        &&& self.books_known()
    }

    /// The row that lending records.
    pub open spec fn loan_row(checkout_id: CheckoutId, event: CreateCheckout) -> ActiveCheckout {
        ActiveCheckout {
            checkout_id,
            book_id: event.book_id,
            user_id: event.checked_out_by,
            checked_out_at: event.checked_out_at,
        }
    }

    /// The state after the book of `event` was lent under `checkout_id`.
    pub open spec fn lent(self, checkout_id: CheckoutId, event: CreateCheckout) -> CheckoutState {
        CheckoutState { active: self.active.push(Self::loan_row(checkout_id, event)), ..self }
    }

    /// Why the book of `event` cannot be lent under `checkout_id`: the book
    /// cannot be lent, or the identifier is not fresh. `None` where it can.
    pub open spec fn lend_refusal(
        self,
        checkout_id: CheckoutId,
        event: CreateCheckout,
    ) -> Option<AppErrorView> {
        if checkout_refusal(self.state_row(event.book_id)) is Some {
            checkout_refusal(self.state_row(event.book_id))
        } else if self.id_in_use(checkout_id) {
            Some(AppErrorView::NoRowsAffectedError(CHECKOUT_NOT_RECORDED@))
        } else {
            None
        }
    }

    /// Why lending cannot commit in the transaction `tx`: the transaction
    /// lost against a commit, or the book cannot be lent. `None` where it
    /// commits.
    pub open spec fn create_refusal(
        self,
        tx: Transaction,
        checkout_id: CheckoutId,
        event: CreateCheckout,
    ) -> Option<AppErrorView> {
        if !self.is_current(tx) {
            Some(AppErrorView::TransactionError(TRANSACTION_ABORTED@))
        } else {
            self.lend_refusal(checkout_id, event)
        }
    }

    /// The row that a return adds to the history.
    pub open spec fn returned_row(loan: ActiveCheckout, returned_at: i64) -> ReturnedCheckout {
        ReturnedCheckout {
            checkout_id: loan.checkout_id,
            book_id: loan.book_id,
            user_id: loan.user_id,
            checked_out_at: loan.checked_out_at,
            returned_at,
        }
    }

    /// The state after the book of `event` came back: its loan has left the
    /// current loans and stands at the end of the history.
    pub open spec fn returned(self, event: UpdateReturned) -> CheckoutState {
        let at = first_where(self.active, of_book(event.book_id));
        CheckoutState {
            active: self.active.remove(at),
            history: self.history.push(Self::returned_row(self.active[at], event.returned_at)),
            ..self
        }
    }

    /// Why the return cannot commit in the transaction `tx`: the transaction
    /// lost against a commit, or the return cannot be taken. `None` where it
    /// commits.
    pub open spec fn update_refusal(self, tx: Transaction, event: UpdateReturned) -> Option<
        AppErrorView,
    > {
        if !self.is_current(tx) {
            Some(AppErrorView::TransactionError(TRANSACTION_ABORTED@))
        } else {
            return_refusal(self.state_row(event.book_id), event)
        }
    }
}

/// The coordinator of checkouts and returns, over stores held in memory.
pub struct CheckoutRepositoryImpl {
    books: Vec<CheckoutBook>,
    active: ActiveCheckoutStore,
    history: CheckoutHistoryStore,
}

impl View for CheckoutRepositoryImpl {
    type V = CheckoutState;

    closed spec fn view(&self) -> CheckoutState {
        CheckoutState {
            books: book_views(self.books@),
            active: self.active@,
            history: self.history@,
        }
    }
}

impl CheckoutRepositoryImpl {
    /// The engine's invariant holds of this value.
    pub open spec fn wf(&self) -> bool {
        self@.wf()
    }

    /// An engine that knows no book and no loan.
    pub fn new() -> (repository: Self)
        ensures
            repository.wf(),
            repository@.books.len() == 0,
            repository@.active.len() == 0,
            repository@.history.len() == 0,
    {
        CheckoutRepositoryImpl {
            books: Vec::new(),
            active: ActiveCheckoutStore::new(),
            history: CheckoutHistoryStore::new(),
        }
    }

    /// Where the book stands in the list of books.
    fn book_index(&self, book_id: BookId) -> (at: usize)
        ensures
            at == first_where(self@.books, book_with_id(book_id)),
            at <= self.books@.len(),
    {
        let mut at: usize = 0;
        while at < self.books.len()
            invariant
                0 <= at <= self.books.len(),
                forall|k: int|
                    0 <= k < at ==> !book_with_id(book_id)(#[trigger] book_views(self.books@)[k]),
            decreases self.books.len() - at,
        {
            if self.books[at].book_id == book_id {
                proof {
                    lemma_first_where_is(book_views(self.books@), book_with_id(book_id), at as int);
                }
                return at;
            }
            at = at + 1;
        }
        proof {
            lemma_first_where_is(book_views(self.books@), book_with_id(book_id), at as int);
        }
        at
    }

    /// Makes a book known to the engine and says whether it was new. A book
    /// whose identifier is known already is left as it is.
    pub fn register_book(&mut self, book: CheckoutBook) -> (added: bool)
        requires
            old(self).wf(),
        ensures
            final(self).wf(),
            added == !old(self)@.has_book(book.book_id),
            final(self)@.active == old(self)@.active,
            final(self)@.history == old(self)@.history,
            added ==> final(self)@.books == old(self)@.books.push(book@),
            !added ==> final(self)@.books == old(self)@.books,
    {
        let at = self.book_index(book.book_id);
        if at < self.books.len() {
            false
        } else {
            let ghost before = self@;
            self.books.push(book);
            proof {
                let after = self@;
                assert(after.books =~= before.books.push(book@));
                assert(after.active == before.active);
                assert(after.history == before.history);
                assert forall|id: BookId| before.has_book(id) implies after.has_book(id) by {
                    lemma_first_where(before.books, book_with_id(id));
                    lemma_first_where_is(
                        after.books,
                        book_with_id(id),
                        first_where(before.books, book_with_id(id)),
                    );
                }
                assert(after.books_known());
            }
            true
        }
    }

    /// Begins a transaction on the current state.
    pub fn begin(&self) -> (tx: Transaction)
        ensures
            self@.is_current(tx),
    {
        Transaction { active: self.active.len(), returned: self.history.len() }
    }

    /// What a command learns of the book before it decides: `None` where the
    /// book does not exist, else the loan and borrower if it is out.
    pub fn checkout_state(&self, book_id: BookId) -> (state: Option<CheckoutStateRow>)
        ensures
            state == self@.state_row(book_id),
    {
        let at = self.book_index(book_id);
        if at >= self.books.len() {
            return None;
        }
        match self.active.find_by_book(book_id) {
            Some(loan) => Some(
                CheckoutStateRow {
                    book_id,
                    checkout_id: Some(loan.checkout_id),
                    user_id: Some(loan.user_id),
                },
            ),
            None => Some(CheckoutStateRow { book_id, checkout_id: None, user_id: None }),
        }
    }

    /// Where the book is: `None` for a book that does not exist.
    pub fn book_status(&self, book_id: BookId) -> (status: Option<BookStatus>)
        ensures
            status == self@.status(book_id),
    {
        match self.checkout_state(book_id) {
            None => None,
            Some(row) => match row.checkout_id {
                Some(_) => Some(BookStatus::CheckedOut),
                None => Some(BookStatus::Available),
            },
        }
    }

    /// Lends a book within the transaction `tx`, under the identifier
    /// `checkout_id`.
    ///
    /// The command commits if and only if the transaction began at the
    /// current state, the book exists and is not out, and the identifier is
    /// fresh; it then records the loan. Otherwise it fails, with the error
    /// that [`CheckoutState::create_refusal`] gives, and changes nothing.
    pub fn create_checkout_in(
        &mut self,
        tx: Transaction,
        checkout_id: CheckoutId,
        event: CreateCheckout,
    ) -> (outcome: Result<CheckoutId, AppError>)
        requires
            old(self).wf(),
        ensures
            final(self).wf(),
            follows(outcome, old(self)@.create_refusal(tx, checkout_id, event)),
            outcome is Ok ==> outcome->Ok_0 == checkout_id && final(self)@ == old(self)@.lent(
                checkout_id,
                event,
            ),
            outcome is Err ==> final(self)@ == old(self)@,
    {
        let now = self.begin();
        if now != tx {
            return Err(AppError::TransactionError(TRANSACTION_ABORTED.to_owned()));
        }
        let state = self.checkout_state(event.book_id);
        match check_can_checkout(state) {
            Err(e) => {
                return Err(e);
            },
            Ok(()) => {},
        }
        let row = ActiveCheckout {
            checkout_id,
            book_id: event.book_id,
            user_id: event.checked_out_by,
            checked_out_at: event.checked_out_at,
        };
        let affected: u64 = if self.history.holds(checkout_id) {
            0
        } else {
            self.active.insert(row)
        };
        match check_affected(affected, CHECKOUT_NOT_RECORDED) {
            Err(e) => {
                return Err(e);
            },
            Ok(()) => {},
        }
        proof {
            assert(self@ == old(self)@.lent(checkout_id, event));
            lemma_checkout_keeps_invariant(old(self)@, checkout_id, event);
        }
        Ok(checkout_id)
    }
}

impl CheckoutRepositoryImpl {
    /// Lends a book: one transaction on the current state, under a fresh
    /// random identifier, which is returned.
    ///
    /// The command draws an identifier and ends as
    /// [`CheckoutState::lend_refusal`] says for it. So a book that does not
    /// exist gives `NotFoundError`, and a book that is out
    /// `UnprocessableEntity`. Otherwise the loan is recorded, unless the
    /// identifier that was drawn is one that a loan already has: that is the
    /// fatal `NoRowsAffectedError`, and it cannot come where no identifier
    /// is in use. A failure changes nothing.
    pub fn create_checkout(&mut self, event: CreateCheckout) -> (outcome: Result<
        CheckoutId,
        AppError,
    >)
        requires
            old(self).wf(),
        ensures
            final(self).wf(),
            exists|drawn: CheckoutId|
                {
                    &&& is_random_uuid(drawn.0)
                    &&& follows(outcome, #[trigger] old(self)@.lend_refusal(drawn, event))
                    &&& outcome is Ok ==> outcome->Ok_0 == drawn
                },
            checkout_refusal(old(self)@.state_row(event.book_id)) is Some ==> follows(
                outcome,
                checkout_refusal(old(self)@.state_row(event.book_id)),
            ),
            checkout_refusal(old(self)@.state_row(event.book_id)) is None ==> outcome is Ok
                || outcome->Err_0@ == AppErrorView::NoRowsAffectedError(CHECKOUT_NOT_RECORDED@),
            match outcome {
                Ok(checkout_id) => old(self)@.lend_refusal(checkout_id, event) is None
                    && final(self)@ == old(self)@.lent(checkout_id, event),
                Err(_) => final(self)@ == old(self)@,
            },
    {
        let tx = self.begin();
        let checkout_id = CheckoutId::new();
        let outcome = self.create_checkout_in(tx, checkout_id, event);
        proof {
            assert(follows(outcome, old(self)@.lend_refusal(checkout_id, event)));
        }
        outcome
    }

    /// Takes a book back within the transaction `tx`.
    ///
    /// The command commits if and only if the transaction began at the
    /// current state, the book exists and is out, and the loan that is out
    /// has the identifier and the borrower that `event` names; the loan then
    /// moves from the current loans to the end of the history, with
    /// `returned_at` set. Otherwise it fails, with the error that
    /// [`CheckoutState::update_refusal`] gives, and changes nothing.
    pub fn update_returned_in(&mut self, tx: Transaction, event: UpdateReturned) -> (outcome:
        Result<(), AppError>)
        requires
            old(self).wf(),
        ensures
            final(self).wf(),
            follows(outcome, old(self)@.update_refusal(tx, event)),
            outcome is Ok ==> final(self)@ == old(self)@.returned(event),
            outcome is Err ==> final(self)@ == old(self)@,
    {
        let now = self.begin();
        if now != tx {
            return Err(AppError::TransactionError(TRANSACTION_ABORTED.to_owned()));
        }
        let state = self.checkout_state(event.book_id);
        match check_can_return(state, &event) {
            Err(e) => {
                return Err(e);
            },
            Ok(()) => {},
        }
        let ghost before = self@;
        proof {
            lemma_returned_loan(before, event);
            lemma_return_keeps_invariant(before, event);
        }
        match self.active.take(event.checkout_id) {
            None => Err(AppError::NoRowsAffectedError(RETURN_NOT_RECORDED.to_owned())),
            Some(loan) => {
                self.history.append(
                    ReturnedCheckout {
                        checkout_id: loan.checkout_id,
                        book_id: loan.book_id,
                        user_id: loan.user_id,
                        checked_out_at: loan.checked_out_at,
                        returned_at: event.returned_at,
                    },
                );
                proof {
                    assert(self@ == before.returned(event));
                }
                Ok(())
            },
        }
    }

    /// Takes a book back: one transaction on the current state.
    ///
    /// A book that does not exist, or that is not out, gives
    /// `NotFoundError`; a loan other than the one named, by identifier or by
    /// borrower, gives `UnprocessableEntity`. Otherwise the loan moves to the
    /// history. A failure changes nothing.
    pub fn update_returned(&mut self, event: UpdateReturned) -> (outcome: Result<(), AppError>)
        requires
            old(self).wf(),
        ensures
            final(self).wf(),
            follows(outcome, return_refusal(old(self)@.state_row(event.book_id), event)),
            outcome is Ok ==> final(self)@ == old(self)@.returned(event),
            outcome is Err ==> final(self)@ == old(self)@,
    {
        let tx = self.begin();
        self.update_returned_in(tx, event)
    }
}

/// Puts a book's loans together: the loan that is out, if there is one,
/// goes before the loans that came back.
pub fn assemble_history(current: Option<Checkout>, past: Vec<Checkout>) -> (history: Vec<Checkout>)
    ensures
        history@ == match current {
            Some(loan) => past@.insert(0, loan),
            None => past@,
        },
{
    let mut history = past;
    if let Some(loan) = current {
        history.insert(0, loan);
    }
    history
}

/// A current loan as shown to callers: the row with its book.
pub open spec fn active_entry(books: Seq<CheckoutBookView>, row: ActiveCheckout) -> CheckoutView {
    CheckoutView {
        id: row.checkout_id,
        checked_out_by: row.user_id,
        checked_out_at: row.checked_out_at,
        returned_at: None,
        book: find_first(books, book_with_id(row.book_id))->Some_0,
    }
}

/// A past loan as shown to callers: the row with its book.
pub open spec fn returned_entry(
    books: Seq<CheckoutBookView>,
    row: ReturnedCheckout,
) -> CheckoutView {
    CheckoutView {
        id: row.checkout_id,
        checked_out_by: row.user_id,
        checked_out_at: row.checked_out_at,
        returned_at: Some(row.returned_at),
        book: find_first(books, book_with_id(row.book_id))->Some_0,
    }
}

/// The current loans `rows` as shown to callers, in the order of `rows`.
pub open spec fn active_entries(
    books: Seq<CheckoutBookView>,
    rows: Seq<ActiveCheckout>,
) -> Seq<CheckoutView> {
    Seq::new(rows.len(), |i: int| active_entry(books, rows[i]))
}

/// The past loans `rows` as shown to callers, in the order of `rows`.
pub open spec fn returned_entries(
    books: Seq<CheckoutBookView>,
    rows: Seq<ReturnedCheckout>,
) -> Seq<CheckoutView> {
    Seq::new(rows.len(), |i: int| returned_entry(books, rows[i]))
}

/// The list never goes back in time of checkout.
pub open spec fn oldest_first(list: Seq<CheckoutView>) -> bool {
    forall|i: int, j: int|
        0 <= i < j < list.len() ==> list[i].checked_out_at <= list[j].checked_out_at
}

/// Only the first entry may be a loan that is still out, and the loans that
/// came back stand in the order of their return, the latest first.
pub open spec fn current_then_latest_return_first(list: Seq<CheckoutView>) -> bool {
    forall|i: int, j: int|
        0 <= i < j < list.len() ==> list[j].returned_at is Some && (list[i].returned_at is Some
            ==> list[i].returned_at->Some_0 >= list[j].returned_at->Some_0)
}

impl CheckoutState {
    /// All loans that are out, oldest first; loans of one instant in the
    /// order of their recording.
    pub open spec fn unreturned_all(self) -> Seq<CheckoutView> {
        active_entries(self.books, arranged(self.active))
    }

    /// The loans to one borrower that are out, oldest first.
    pub open spec fn unreturned_by_user(self, user_id: UserId) -> Seq<CheckoutView> {
        active_entries(self.books, arranged(self.active.filter(lent_to(user_id))))
    }

    /// The loan of one book that is out, if there is one.
    pub open spec fn unreturned_by_book(self, book_id: BookId) -> Option<CheckoutView> {
        match self.loan_of(book_id) {
            Some(loan) => Some(active_entry(self.books, loan)),
            None => None,
        }
    }

    /// The loans of one book that came back, latest return first; returns of
    /// one instant in the order of their recording.
    pub open spec fn returned_by_book(self, book_id: BookId) -> Seq<CheckoutView> {
        returned_entries(self.books, arranged(self.history.filter(returned_of_book(book_id))))
    }

    /// All loans of one book: the one that is out, if any, and then those
    /// that came back, latest return first.
    pub open spec fn history_by_book(self, book_id: BookId) -> Seq<CheckoutView> {
        match self.unreturned_by_book(book_id) {
            Some(current) => self.returned_by_book(book_id).insert(0, current),
            None => self.returned_by_book(book_id),
        }
    }
}

impl CheckoutRepositoryImpl {
    /// A copy of the book at `at`.
    fn book_at(&self, at: usize) -> (book: CheckoutBook)
        requires
            at < self@.books.len(),
        ensures
            book@ == self@.books[at as int],
    {
        self.books[at].clone()
    }

    /// The current loan `row` with its book.
    fn present_active(&self, row: ActiveCheckout) -> (entry: Checkout)
        requires
            self@.has_book(row.book_id),
        ensures
            entry@ == active_entry(self@.books, row),
    {
        let book = self.book_at(self.book_index(row.book_id));
        Checkout::from(
            CheckoutRow {
                checkout_id: row.checkout_id,
                book_id: book.book_id,
                user_id: row.user_id,
                checked_out_at: row.checked_out_at,
                title: book.title,
                author: book.author,
                isbn: book.isbn,
            },
        )
    }

    /// The past loan `row` with its book.
    fn present_returned(&self, row: ReturnedCheckout) -> (entry: Checkout)
        requires
            self@.has_book(row.book_id),
        ensures
            entry@ == returned_entry(self@.books, row),
    {
        let book = self.book_at(self.book_index(row.book_id));
        Checkout::from(
            ReturnedCheckoutRow {
                checkout_id: row.checkout_id,
                book_id: book.book_id,
                user_id: row.user_id,
                checked_out_at: row.checked_out_at,
                returned_at: row.returned_at,
                title: book.title,
                author: book.author,
                isbn: book.isbn,
            },
        )
    }

    /// The current loans `rows` with their books, in the order of `rows`.
    fn present_all_active(&self, rows: &Vec<ActiveCheckout>) -> (list: Vec<Checkout>)
        requires
            forall|i: int| 0 <= i < rows@.len() ==> self@.has_book(#[trigger] rows@[i].book_id),
        ensures
            crate::model::checkout::checkout_views(list@) == active_entries(self@.books, rows@),
    {
        let mut list: Vec<Checkout> = Vec::new();
        let mut at: usize = 0;
        while at < rows.len()
            invariant
                0 <= at <= rows.len(),
                list@.len() == at,
                forall|k: int| 0 <= k < at ==> list@[k]@ == active_entry(self@.books, rows@[k]),
                forall|i: int| 0 <= i < rows@.len() ==> self@.has_book(#[trigger] rows@[i].book_id),
            decreases rows.len() - at,
        {
            let entry = self.present_active(rows[at]);
            list.push(entry);
            at = at + 1;
        }
        proof {
            assert(crate::model::checkout::checkout_views(list@) =~= active_entries(
                self@.books,
                rows@,
            ));
        }
        list
    }

    /// The past loans `rows` with their books, in the order of `rows`.
    fn present_all_returned(&self, rows: &Vec<ReturnedCheckout>) -> (list: Vec<Checkout>)
        requires
            forall|i: int| 0 <= i < rows@.len() ==> self@.has_book(#[trigger] rows@[i].book_id),
        ensures
            crate::model::checkout::checkout_views(list@) == returned_entries(self@.books, rows@),
    {
        let mut list: Vec<Checkout> = Vec::new();
        let mut at: usize = 0;
        while at < rows.len()
            invariant
                0 <= at <= rows.len(),
                list@.len() == at,
                forall|k: int| 0 <= k < at ==> list@[k]@ == returned_entry(self@.books, rows@[k]),
                forall|i: int| 0 <= i < rows@.len() ==> self@.has_book(#[trigger] rows@[i].book_id),
            decreases rows.len() - at,
        {
            let entry = self.present_returned(rows[at]);
            list.push(entry);
            at = at + 1;
        }
        proof {
            assert(crate::model::checkout::checkout_views(list@) =~= returned_entries(
                self@.books,
                rows@,
            ));
        }
        list
    }

    /// The loan of the book that is out, if there is one.
    pub fn find_unreturned_by_book_id(&self, book_id: BookId) -> (outcome: Result<
        Option<Checkout>,
        AppError,
    >)
        requires
            self.wf(),
        ensures
            outcome is Ok,
            match outcome->Ok_0 {
                Some(entry) => self@.unreturned_by_book(book_id) == Some(entry@),
                None => self@.unreturned_by_book(book_id) is None,
            },
    {
        match self.active.find_by_book(book_id) {
            Some(loan) => {
                proof {
                    lemma_first_where(self@.active, of_book(book_id));
                }
                Ok(Some(self.present_active(loan)))
            },
            None => Ok(None),
        }
    }

    /// All loans that are out, oldest first.
    pub fn find_unreturned_all(&self) -> (outcome: Result<Vec<Checkout>, AppError>)
        requires
            self.wf(),
        ensures
            outcome is Ok,
            crate::model::checkout::checkout_views(outcome->Ok_0@) == self@.unreturned_all(),
            oldest_first(self@.unreturned_all()),
            self@.unreturned_all().len() == self@.active.len(),
    {
        let rows = sort(self.active.rows());
        proof {
            lemma_arranged_members(self@.active);
            assert forall|i: int| 0 <= i < rows@.len() implies self@.has_book(
                #[trigger] rows@[i].book_id,
            ) by {
                assert(self@.active.contains(arranged(self@.active)[i]));
                let w = choose|w: int| 0 <= w < self@.active.len() && self@.active[w] == rows@[i];
            }
        }
        Ok(self.present_all_active(&rows))
    }

    /// The loans to one borrower that are out, oldest first.
    pub fn find_unreturned_by_user_id(&self, user_id: UserId) -> (outcome: Result<
        Vec<Checkout>,
        AppError,
    >)
        requires
            self.wf(),
        ensures
            outcome is Ok,
            crate::model::checkout::checkout_views(outcome->Ok_0@) == self@.unreturned_by_user(
                user_id,
            ),
            oldest_first(self@.unreturned_by_user(user_id)),
            forall|i: int|
                0 <= i < self@.unreturned_by_user(user_id).len() ==> (
                #[trigger] self@.unreturned_by_user(user_id)[i]).checked_out_by == user_id,
    {
        let found = self.active.find_by_user(user_id);
        let rows = sort(&found);
        proof {
            lemma_arranged_members(found@);
            assert forall|i: int| 0 <= i < rows@.len() implies self@.has_book(
                #[trigger] rows@[i].book_id,
            ) && rows@[i].user_id == user_id by {
                assert(found@.contains(arranged(found@)[i]));
                let w = choose|w: int| 0 <= w < found@.len() && found@[w] == rows@[i];
                assert(found@.contains(found@[w]));
                self@.active.lemma_filter_contains_rev(lent_to(user_id), found@[w]);
                self@.active.lemma_filter_pred(lent_to(user_id), w);
                let v = choose|v: int| 0 <= v < self@.active.len() && self@.active[v] == found@[w];
            }
        }
        Ok(self.present_all_active(&rows))
    }

    /// All loans of one book: the one that is out, if any, first, and then
    /// those that came back, latest return first.
    pub fn find_history_by_book_id(&self, book_id: BookId) -> (outcome: Result<
        Vec<Checkout>,
        AppError,
    >)
        requires
            self.wf(),
        ensures
            outcome is Ok,
            crate::model::checkout::checkout_views(outcome->Ok_0@) == self@.history_by_book(
                book_id,
            ),
            current_then_latest_return_first(self@.history_by_book(book_id)),
    {
        let unreturned = match self.find_unreturned_by_book_id(book_id) {
            Ok(found) => found,
            Err(e) => {
                return Err(e);
            },
        };
        let found = self.history.find_by_book(book_id);
        let rows = sort(&found);
        proof {
            lemma_arranged_members(found@);
            assert forall|i: int| 0 <= i < rows@.len() implies self@.has_book(
                #[trigger] rows@[i].book_id,
            ) by {
                assert(found@.contains(arranged(found@)[i]));
                let w = choose|w: int| 0 <= w < found@.len() && found@[w] == rows@[i];
                assert(found@.contains(found@[w]));
                self@.history.lemma_filter_contains_rev(returned_of_book(book_id), found@[w]);
                let v = choose|v: int|
                    0 <= v < self@.history.len() && self@.history[v] == found@[w];
            }
        }
        let past = self.present_all_returned(&rows);
        let ghost shown = crate::model::checkout::checkout_views(past@);
        let ghost found = unreturned;
        let list = assemble_history(unreturned, past);
        proof {
            match found {
                Some(current) => {
                    assert(crate::model::checkout::checkout_views(list@) =~= shown.insert(
                        0,
                        current@,
                    ));
                },
                None => {},
            }
        }
        Ok(list)
    }
}

} // verus!
