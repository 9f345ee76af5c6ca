//! Lending and returning books, and listing loans.

use crate::api::extractor::AuthorizedUser;
use crate::api::model::checkout::CheckoutsResponse;
use crate::error::{AppError, AppErrorView};
use crate::id::{is_random_uuid, BookId, CheckoutId};
use crate::model::checkout::{checkout_views, CreateCheckout, UpdateReturned};
use crate::repository::checkout::{
    checkout_refusal, follows, return_refusal, CheckoutRepositoryImpl, CHECKOUT_NOT_RECORDED,
};
use vstd::prelude::*;

verus! {

/// The status of a request that was carried out.
pub const OK: u16 = 200;

/// The status of a request that recorded something new.
pub const CREATED: u16 = 201;

/// `chrono::Utc::now`, as microseconds since the Unix epoch
/// (`DateTime::timestamp_micros`). Nothing is promised of the value. The
/// call takes no argument; it ends the program where the machine's clock
/// stands before 1970.
#[verifier::external_body]
fn now_micros() -> i64 {
    chrono::Utc::now().timestamp_micros()
}

/// The command that the caller's checkout of a book at `now` stands for.
pub open spec fn checkout_event(user: &AuthorizedUser, book_id: BookId, now: i64) -> CreateCheckout {
    CreateCheckout { book_id, checked_out_by: user.user.id, checked_out_at: now }
}

/// Lends the book to the caller at the time `now`.
///
/// The command draws an identifier for the loan and ends as
/// [`CheckoutState::lend_refusal`](crate::repository::checkout::CheckoutState::lend_refusal)
/// says for it: it answers `CREATED` and the loan is recorded, or it fails
/// and nothing changes. A book that does not exist gives `NotFoundError`, a
/// book that is out `UnprocessableEntity`; a book that can be lent is lent,
/// unless the identifier that was drawn is one that a loan already has.
pub fn checkout_book_at(
    user: &AuthorizedUser,
    book_id: BookId,
    now: i64,
    registry: &mut CheckoutRepositoryImpl,
) -> (outcome: Result<u16, AppError>)
    requires
        old(registry).wf(),
    ensures
        final(registry).wf(),
        exists|drawn: CheckoutId|
            {
                &&& is_random_uuid(drawn.0)
                &&& follows(
                    outcome,
                    #[trigger] old(registry)@.lend_refusal(
                        drawn,
                        checkout_event(user, book_id, now),
                    ),
                )
                &&& outcome is Ok ==> final(registry)@ == old(registry)@.lent(
                    drawn,
                    checkout_event(user, book_id, now),
                )
            },
        checkout_refusal(old(registry)@.state_row(book_id)) is Some ==> follows(
            outcome,
            checkout_refusal(old(registry)@.state_row(book_id)),
        ),
        checkout_refusal(old(registry)@.state_row(book_id)) is None ==> outcome is Ok
            || outcome->Err_0@ == AppErrorView::NoRowsAffectedError(CHECKOUT_NOT_RECORDED@),
        outcome is Ok ==> outcome->Ok_0 == CREATED,
        outcome is Err ==> final(registry)@ == old(registry)@,
{
    let event = CreateCheckout::new(book_id, user.id(), now);
    let ghost before = registry@;
    let recorded = registry.create_checkout(event);
    let outcome = match recorded {
        Ok(_) => Ok(CREATED),
        Err(e) => Err(e),
    };
    proof {
        let drawn = choose|drawn: CheckoutId|
            {
                &&& is_random_uuid(drawn.0)
                &&& follows(recorded, #[trigger] before.lend_refusal(drawn, event))
                &&& recorded is Ok ==> recorded->Ok_0 == drawn
            };
        assert(follows(outcome, before.lend_refusal(drawn, checkout_event(user, book_id, now))));
    }
    outcome
}

/// Lends the book to the caller, now: [`checkout_book_at`] at the time that
/// the clock shows.
pub fn checkout_book(
    user: &AuthorizedUser,
    book_id: BookId,
    registry: &mut CheckoutRepositoryImpl,
) -> (outcome: Result<u16, AppError>)
    requires
        old(registry).wf(),
    ensures
        final(registry).wf(),
        exists|drawn: CheckoutId, now: i64|
            {
                &&& is_random_uuid(drawn.0)
                &&& follows(
                    outcome,
                    #[trigger] old(registry)@.lend_refusal(
                        drawn,
                        checkout_event(user, book_id, now),
                    ),
                )
                &&& outcome is Ok ==> final(registry)@ == old(registry)@.lent(
                    drawn,
                    checkout_event(user, book_id, now),
                )
            },
        checkout_refusal(old(registry)@.state_row(book_id)) is Some ==> follows(
            outcome,
            checkout_refusal(old(registry)@.state_row(book_id)),
        ),
        checkout_refusal(old(registry)@.state_row(book_id)) is None ==> outcome is Ok
            || outcome->Err_0@ == AppErrorView::NoRowsAffectedError(CHECKOUT_NOT_RECORDED@),
        outcome is Ok ==> outcome->Ok_0 == CREATED,
        outcome is Err ==> final(registry)@ == old(registry)@,
{
    let now = now_micros();
    let ghost before = registry@;
    let outcome = checkout_book_at(user, book_id, now, registry);
    proof {
        let drawn = choose|drawn: CheckoutId|
            {
                &&& is_random_uuid(drawn.0)
                &&& follows(
                    outcome,
                    #[trigger] before.lend_refusal(drawn, checkout_event(user, book_id, now)),
                )
                &&& outcome is Ok ==> registry@ == before.lent(
                    drawn,
                    checkout_event(user, book_id, now),
                )
            };
        assert(follows(outcome, before.lend_refusal(drawn, checkout_event(user, book_id, now))));
    }
    outcome
}

/// The command that the caller's return of a book at `now` stands for.
pub open spec fn return_event(
    user: &AuthorizedUser,
    book_id: BookId,
    checkout_id: CheckoutId,
    now: i64,
) -> UpdateReturned {
    UpdateReturned { checkout_id, book_id, returned_by: user.user.id, returned_at: now }
}

/// Takes the book back from the caller at the time `now`.
///
/// Answers `OK` if the loan moved to the history. A book that does not
/// exist or is not out gives `NotFoundError`; a loan that is not the
/// caller's, or not the one named, gives `UnprocessableEntity`; and nothing
/// changes.
pub fn return_book_at(
    user: &AuthorizedUser,
    book_id: BookId,
    checkout_id: CheckoutId,
    now: i64,
    registry: &mut CheckoutRepositoryImpl,
) -> (outcome: Result<u16, AppError>)
    requires
        old(registry).wf(),
    ensures
        final(registry).wf(),
        follows(
            outcome,
            return_refusal(
                old(registry)@.state_row(book_id),
                return_event(user, book_id, checkout_id, now),
            ),
        ),
        outcome is Ok ==> outcome->Ok_0 == OK && final(registry)@ == old(registry)@.returned(
            return_event(user, book_id, checkout_id, now),
        ),
        outcome is Err ==> final(registry)@ == old(registry)@,
{
    let event = UpdateReturned::new(checkout_id, book_id, user.id(), now);
    match registry.update_returned(event) {
        Ok(()) => Ok(OK),
        Err(e) => Err(e),
    }
}

/// Takes the book back from the caller, now.
pub fn return_book(
    user: &AuthorizedUser,
    book_id: BookId,
    checkout_id: CheckoutId,
    registry: &mut CheckoutRepositoryImpl,
) -> (outcome: Result<u16, AppError>)
    requires
        old(registry).wf(),
    ensures
        final(registry).wf(),
        exists|now: i64|
            {
                &&& follows(
                    outcome,
                    return_refusal(
                        old(registry)@.state_row(book_id),
                        #[trigger] return_event(user, book_id, checkout_id, now),
                    ),
                )
                &&& outcome is Ok ==> final(registry)@ == old(registry)@.returned(
                    return_event(user, book_id, checkout_id, now),
                )
            },
        outcome is Ok ==> outcome->Ok_0 == OK,
        outcome is Err ==> final(registry)@ == old(registry)@,
{
    let now = now_micros();
    let ghost before = registry@;
    let outcome = return_book_at(user, book_id, checkout_id, now, registry);
    proof {
        let event = return_event(user, book_id, checkout_id, now);
        assert(follows(outcome, return_refusal(before.state_row(book_id), event)));
    }
    outcome
}

/// All loans that are out, oldest first.
pub fn show_checked_out_list(_user: &AuthorizedUser, registry: &CheckoutRepositoryImpl) -> (outcome:
    Result<CheckoutsResponse, AppError>)
    requires
        registry.wf(),
    ensures
        outcome is Ok,
        outcome->Ok_0.items@.len() == registry@.unreturned_all().len(),
        forall|i: int|
            0 <= i < outcome->Ok_0.items@.len() ==> response_shows(
                #[trigger] outcome->Ok_0.items@[i],
                registry@.unreturned_all()[i],
            ),
{
    match registry.find_unreturned_all() {
        Ok(list) => {
            let response = CheckoutsResponse::from(list);
            proof {
                assert forall|i: int| 0 <= i < response.items@.len() implies response_shows(
                    #[trigger] response.items@[i],
                    registry@.unreturned_all()[i],
                ) by {
                    assert(checkout_views(list@)[i] == list@[i]@);
                }
            }
            Ok(response)
        },
        Err(e) => Err(e),
    }
}

/// All loans of one book: the one that is out first, then those that came
/// back, latest return first.
pub fn checkout_history_by_book(
    _user: &AuthorizedUser,
    book_id: BookId,
    registry: &CheckoutRepositoryImpl,
) -> (outcome: Result<CheckoutsResponse, AppError>)
    requires
        registry.wf(),
    ensures
        outcome is Ok,
        outcome->Ok_0.items@.len() == registry@.history_by_book(book_id).len(),
        forall|i: int|
            0 <= i < outcome->Ok_0.items@.len() ==> response_shows(
                #[trigger] outcome->Ok_0.items@[i],
                registry@.history_by_book(book_id)[i],
            ),
{
    match registry.find_history_by_book_id(book_id) {
        Ok(list) => {
            let response = CheckoutsResponse::from(list);
            proof {
                assert forall|i: int| 0 <= i < response.items@.len() implies response_shows(
                    #[trigger] response.items@[i],
                    registry@.history_by_book(book_id)[i],
                ) by {
                    assert(checkout_views(list@)[i] == list@[i]@);
                }
            }
            Ok(response)
        },
        Err(e) => Err(e),
    }
}

/// The response shows exactly the loan `entry`.
pub open spec fn response_shows(
    response: crate::api::model::checkout::CheckoutResponse,
    entry: crate::model::checkout::CheckoutView,
) -> bool {
    &&& response.id == entry.id
    &&& response.checked_out_by == entry.checked_out_by
    &&& response.checked_out_at == entry.checked_out_at
    &&& response.returned_at == entry.returned_at
    &&& response.book.id == entry.book.book_id
    &&& response.book.title@ == entry.book.title
    &&& response.book.author@ == entry.book.author
    &&& response.book.isbn@ == entry.book.isbn
}

} // verus!
