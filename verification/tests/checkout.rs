use bookmanager::error::AppError;
use bookmanager::id::{BookId, CheckoutId, UserId};
use bookmanager::model::checkout::{Checkout, CheckoutBook, CreateCheckout, UpdateReturned};
use bookmanager::repository::checkout::{
    check_affected, check_can_checkout, check_can_return, BookStatus, CheckoutRepositoryImpl,
    Transaction,
};
use bookmanager::database::model::checkout::CheckoutStateRow;

const T_10_00: i64 = 36_000_000_000;
const T_10_01: i64 = 36_060_000_000;
const T_11_00: i64 = 39_600_000_000;

fn book(n: u128, title: &str) -> CheckoutBook {
    CheckoutBook {
        book_id: BookId(n),
        title: title.to_string(),
        author: format!("author of {}", title),
        isbn: format!("isbn-{}", n),
    }
}

fn engine_with_books(ids: &[u128]) -> CheckoutRepositoryImpl {
    let mut engine = CheckoutRepositoryImpl::new();
    for id in ids {
        assert!(engine.register_book(book(*id, "a book")));
    }
    engine
}

fn ids(list: &[Checkout]) -> Vec<CheckoutId> {
    list.iter().map(|c| c.id).collect()
}

#[test]
fn checkout_then_second_checkout_conflicts_then_return_succeeds() {
    let b1 = BookId(1);
    let u1 = UserId(101);
    let u2 = UserId(102);
    let mut engine = engine_with_books(&[1]);

    let first = engine.create_checkout(CreateCheckout::new(b1, u1, T_10_00)).unwrap();

    let second = engine.create_checkout(CreateCheckout::new(b1, u2, T_10_01));
    match second {
        Err(AppError::UnprocessableEntity(message)) => {
            assert_eq!(message, "book already checked out")
        }
        other => panic!("expected a conflict, got {:?}", other),
    }
    assert_eq!(engine.find_unreturned_all().unwrap().len(), 1);

    engine.update_returned(UpdateReturned::new(first, b1, u1, T_11_00)).unwrap();
    assert!(engine.find_unreturned_by_book_id(b1).unwrap().is_none());
    assert!(engine.find_unreturned_all().unwrap().is_empty());
}

#[test]
fn checkout_of_unknown_book_is_not_found() {
    let mut engine = engine_with_books(&[1]);
    let outcome = engine.create_checkout(CreateCheckout::new(BookId(2), UserId(5), T_10_00));
    match outcome {
        Err(AppError::NotFoundError(message)) => assert_eq!(message, "book not found"),
        other => panic!("expected not found, got {:?}", other),
    }
    assert!(engine.find_unreturned_all().unwrap().is_empty());
}

#[test]
fn round_trip_leaves_one_history_row_with_both_times() {
    let b = BookId(7);
    let u = UserId(70);
    let mut engine = engine_with_books(&[7]);
    let id = engine.create_checkout(CreateCheckout::new(b, u, T_10_00)).unwrap();
    engine.update_returned(UpdateReturned::new(id, b, u, T_11_00)).unwrap();

    assert!(engine.find_unreturned_by_book_id(b).unwrap().is_none());
    let history = engine.find_history_by_book_id(b).unwrap();
    assert_eq!(history.len(), 1);
    assert_eq!(history[0].id, id);
    assert_eq!(history[0].checked_out_by, u);
    assert_eq!(history[0].checked_out_at, T_10_00);
    assert_eq!(history[0].returned_at, Some(T_11_00));
    assert_eq!(history[0].book.book_id, b);
}

#[test]
fn second_return_fails_and_adds_no_history_row() {
    let b = BookId(7);
    let u = UserId(70);
    let mut engine = engine_with_books(&[7]);
    let id = engine.create_checkout(CreateCheckout::new(b, u, T_10_00)).unwrap();
    let back = UpdateReturned::new(id, b, u, T_11_00);
    engine.update_returned(back).unwrap();

    match engine.update_returned(back) {
        Err(AppError::NotFoundError(message)) => assert_eq!(message, "book is not checked out"),
        other => panic!("expected not found, got {:?}", other),
    }
    assert_eq!(engine.find_history_by_book_id(b).unwrap().len(), 1);
}

#[test]
fn return_of_unknown_book_is_not_found() {
    let mut engine = engine_with_books(&[1]);
    let back = UpdateReturned::new(CheckoutId(9), BookId(2), UserId(3), T_11_00);
    match engine.update_returned(back) {
        Err(AppError::NotFoundError(message)) => assert_eq!(message, "book not found"),
        other => panic!("expected not found, got {:?}", other),
    }
}

#[test]
fn return_with_other_checkout_id_conflicts() {
    let b = BookId(1);
    let u = UserId(10);
    let mut engine = engine_with_books(&[1]);
    let id = engine.create_checkout(CreateCheckout::new(b, u, T_10_00)).unwrap();
    let stale = CheckoutId(id.0.wrapping_add(1));
    match engine.update_returned(UpdateReturned::new(stale, b, u, T_11_00)) {
        Err(AppError::UnprocessableEntity(message)) => {
            assert_eq!(message, "checkout does not match requested identity")
        }
        other => panic!("expected a conflict, got {:?}", other),
    }
    assert!(engine.find_unreturned_by_book_id(b).unwrap().is_some());
    assert!(engine.find_history_by_book_id(b).unwrap()[0].returned_at.is_none());
}

#[test]
fn return_by_other_borrower_conflicts() {
    let b = BookId(1);
    let mut engine = engine_with_books(&[1]);
    let id = engine.create_checkout(CreateCheckout::new(b, UserId(10), T_10_00)).unwrap();
    match engine.update_returned(UpdateReturned::new(id, b, UserId(11), T_11_00)) {
        Err(AppError::UnprocessableEntity(message)) => {
            assert_eq!(message, "checkout does not match requested identity")
        }
        other => panic!("expected a conflict, got {:?}", other),
    }
    assert_eq!(engine.find_unreturned_all().unwrap().len(), 1);
}

#[test]
fn concurrent_checkouts_of_one_book_commit_once() {
    let b = BookId(1);
    let mut engine = engine_with_books(&[1]);
    let tx_one = engine.begin();
    let tx_two = engine.begin();
    assert_eq!(tx_one, tx_two);

    let first =
        engine.create_checkout_in(tx_one, CheckoutId(1000), CreateCheckout::new(b, UserId(1), T_10_00));
    assert_eq!(first.unwrap(), CheckoutId(1000));

    let second =
        engine.create_checkout_in(tx_two, CheckoutId(1001), CreateCheckout::new(b, UserId(2), T_10_00));
    match second {
        Err(e) => {
            assert!(matches!(e, AppError::TransactionError(_)));
            assert!(e.is_retryable());
            assert_eq!(e.status_code(), 503);
        }
        Ok(_) => panic!("both checkouts committed"),
    }

    // the retry begins anew and finds the book out
    let retry_tx = engine.begin();
    let retry =
        engine.create_checkout_in(retry_tx, CheckoutId(1001), CreateCheckout::new(b, UserId(2), T_10_00));
    match retry {
        Err(e) => {
            assert!(matches!(e, AppError::UnprocessableEntity(_)));
            assert!(!e.is_retryable());
            assert_eq!(e.status_code(), 422);
        }
        Ok(_) => panic!("both checkouts committed"),
    }

    let out = engine.find_unreturned_all().unwrap();
    assert_eq!(ids(&out), vec![CheckoutId(1000)]);
    assert_eq!(out[0].checked_out_by, UserId(1));
}

#[test]
fn stale_transaction_cannot_return() {
    let b = BookId(1);
    let other = BookId(2);
    let u = UserId(1);
    let mut engine = engine_with_books(&[1, 2]);
    let id = engine.create_checkout(CreateCheckout::new(b, u, T_10_00)).unwrap();
    let tx = engine.begin();
    engine.create_checkout(CreateCheckout::new(other, u, T_10_01)).unwrap();

    let outcome = engine.update_returned_in(tx, UpdateReturned::new(id, b, u, T_11_00));
    assert!(matches!(outcome, Err(AppError::TransactionError(_))));
    assert_eq!(engine.find_unreturned_all().unwrap().len(), 2);
    assert!(engine.find_history_by_book_id(b).unwrap()[0].returned_at.is_none());

    let fresh = engine.begin();
    assert_ne!(fresh, tx);
    engine.update_returned_in(fresh, UpdateReturned::new(id, b, u, T_11_00)).unwrap();
    assert_eq!(engine.find_unreturned_all().unwrap().len(), 1);
}

#[test]
fn used_checkout_id_records_nothing() {
    let mut engine = engine_with_books(&[1, 2]);
    let id = CheckoutId(77);
    let tx = engine.begin();
    engine.create_checkout_in(tx, id, CreateCheckout::new(BookId(1), UserId(1), T_10_00)).unwrap();

    // the identifier of a loan that is out
    let tx = engine.begin();
    let again = engine.create_checkout_in(tx, id, CreateCheckout::new(BookId(2), UserId(1), T_10_01));
    match again {
        Err(e) => {
            match &e {
                AppError::NoRowsAffectedError(message) => {
                    assert_eq!(message, "checkout was not recorded")
                }
                other => panic!("expected a fatal failure, got {:?}", other),
            }
            assert_eq!(e.status_code(), 500);
            assert!(!e.is_retryable());
        }
        Ok(_) => panic!("an identifier was used twice"),
    }
    assert_eq!(engine.find_unreturned_all().unwrap().len(), 1);

    // the identifier of a loan that came back
    engine.update_returned(UpdateReturned::new(id, BookId(1), UserId(1), T_11_00)).unwrap();
    let tx = engine.begin();
    let again = engine.create_checkout_in(tx, id, CreateCheckout::new(BookId(2), UserId(1), T_11_00));
    assert!(matches!(again, Err(AppError::NoRowsAffectedError(_))));
    assert!(engine.find_unreturned_all().unwrap().is_empty());
    assert_eq!(engine.find_history_by_book_id(BookId(1)).unwrap().len(), 1);
}

#[test]
fn unreturned_by_borrower_is_oldest_first() {
    let u = UserId(1);
    let v = UserId(2);
    let mut engine = engine_with_books(&[1, 2, 3, 4]);
    let late = engine.create_checkout(CreateCheckout::new(BookId(1), u, 300)).unwrap();
    let other = engine.create_checkout(CreateCheckout::new(BookId(2), v, 50)).unwrap();
    let early = engine.create_checkout(CreateCheckout::new(BookId(3), u, 100)).unwrap();
    let middle = engine.create_checkout(CreateCheckout::new(BookId(4), u, 200)).unwrap();

    let mine = engine.find_unreturned_by_user_id(u).unwrap();
    assert_eq!(ids(&mine), vec![early, middle, late]);
    assert_eq!(
        mine.iter().map(|c| c.checked_out_at).collect::<Vec<i64>>(),
        vec![100, 200, 300]
    );
    assert!(mine.iter().all(|c| c.checked_out_by == u && c.returned_at.is_none()));

    let all = engine.find_unreturned_all().unwrap();
    assert_eq!(ids(&all), vec![other, early, middle, late]);

    assert!(engine.find_unreturned_by_user_id(UserId(3)).unwrap().is_empty());
}

#[test]
fn loans_of_one_instant_keep_their_order() {
    let u = UserId(1);
    let mut engine = engine_with_books(&[1, 2, 3]);
    let a = engine.create_checkout(CreateCheckout::new(BookId(1), u, 10)).unwrap();
    let b = engine.create_checkout(CreateCheckout::new(BookId(2), u, 10)).unwrap();
    let c = engine.create_checkout(CreateCheckout::new(BookId(3), u, 5)).unwrap();
    assert_eq!(ids(&engine.find_unreturned_all().unwrap()), vec![c, a, b]);
}

#[test]
fn history_shows_current_loan_first_then_latest_return() {
    let b = BookId(1);
    let mut engine = engine_with_books(&[1, 2]);

    let first = engine.create_checkout(CreateCheckout::new(b, UserId(1), 100)).unwrap();
    engine.update_returned(UpdateReturned::new(first, b, UserId(1), 900)).unwrap();
    let second = engine.create_checkout(CreateCheckout::new(b, UserId(2), 910)).unwrap();
    // an earlier return time, recorded later
    engine.update_returned(UpdateReturned::new(second, b, UserId(2), 500)).unwrap();
    let current = engine.create_checkout(CreateCheckout::new(b, UserId(3), 1000)).unwrap();
    // another book's loans stay out of it
    engine.create_checkout(CreateCheckout::new(BookId(2), UserId(3), 1001)).unwrap();

    let history = engine.find_history_by_book_id(b).unwrap();
    assert_eq!(history.len(), 3);
    assert_eq!(ids(&history), vec![current, first, second]);
    assert_eq!(
        history.iter().map(|c| c.returned_at).collect::<Vec<Option<i64>>>(),
        vec![None, Some(900), Some(500)]
    );
    assert_eq!(history[0].checked_out_by, UserId(3));
    assert!(history.iter().all(|c| c.book.book_id == b));
}

#[test]
fn history_of_a_book_never_lent_is_empty() {
    let engine = engine_with_books(&[1]);
    assert!(engine.find_history_by_book_id(BookId(1)).unwrap().is_empty());
    assert!(engine.find_history_by_book_id(BookId(2)).unwrap().is_empty());
}

#[test]
fn a_book_has_at_most_one_active_row_through_many_commands() {
    let mut engine = engine_with_books(&[1, 2]);
    let count = |engine: &CheckoutRepositoryImpl, book: BookId| {
        engine.find_unreturned_all().unwrap().iter().filter(|c| c.book.book_id == book).count()
    };
    for round in 0..5i64 {
        for n in [1u128, 2u128] {
            let book = BookId(n);
            let id = engine
                .create_checkout(CreateCheckout::new(book, UserId(1), round))
                .unwrap();
            assert_eq!(count(&engine, book), 1);
            assert!(engine.create_checkout(CreateCheckout::new(book, UserId(2), round)).is_err());
            assert_eq!(count(&engine, book), 1);
            if round % 2 == 0 {
                engine.update_returned(UpdateReturned::new(id, book, UserId(1), round + 1)).unwrap();
                assert_eq!(count(&engine, book), 0);
            } else {
                assert!(engine
                    .update_returned(UpdateReturned::new(id, book, UserId(9), round + 1))
                    .is_err());
                engine.update_returned(UpdateReturned::new(id, book, UserId(1), round + 1)).unwrap();
            }
        }
    }
    assert_eq!(engine.find_history_by_book_id(BookId(1)).unwrap().len(), 5);
}

#[test]
fn loans_carry_their_book() {
    let mut engine = CheckoutRepositoryImpl::new();
    assert!(engine.register_book(book(1, "Dune")));
    assert!(engine.register_book(book(2, "Emma")));
    // a second book under a known identifier is not taken
    assert!(!engine.register_book(book(1, "Ulysses")));

    let id = engine.create_checkout(CreateCheckout::new(BookId(2), UserId(1), 5)).unwrap();
    let loan = engine.find_unreturned_by_book_id(BookId(2)).unwrap().unwrap();
    assert_eq!(loan.id, id);
    assert_eq!(loan.book.title, "Emma");
    assert_eq!(loan.book.author, "author of Emma");
    assert_eq!(loan.book.isbn, "isbn-2");

    engine.create_checkout(CreateCheckout::new(BookId(1), UserId(1), 6)).unwrap();
    let all = engine.find_unreturned_all().unwrap();
    assert_eq!(all[1].book.title, "Dune");
}

#[test]
fn fresh_checkout_ids_differ() {
    let mut engine = engine_with_books(&[1, 2]);
    let a = engine.create_checkout(CreateCheckout::new(BookId(1), UserId(1), 1)).unwrap();
    let b = engine.create_checkout(CreateCheckout::new(BookId(2), UserId(1), 2)).unwrap();
    assert_ne!(a, b);
}

#[test]
fn transaction_mark_counts_both_stores() {
    let mut engine = engine_with_books(&[1]);
    assert_eq!(engine.begin(), Transaction { active: 0, returned: 0 });
    let id = engine.create_checkout(CreateCheckout::new(BookId(1), UserId(1), 1)).unwrap();
    assert_eq!(engine.begin(), Transaction { active: 1, returned: 0 });
    engine.update_returned(UpdateReturned::new(id, BookId(1), UserId(1), 2)).unwrap();
    assert_eq!(engine.begin(), Transaction { active: 0, returned: 1 });
}

#[test]
fn checkout_state_tells_book_and_loan() {
    let mut engine = engine_with_books(&[1]);
    assert_eq!(engine.checkout_state(BookId(2)), None);
    assert_eq!(
        engine.checkout_state(BookId(1)),
        Some(CheckoutStateRow { book_id: BookId(1), checkout_id: None, user_id: None })
    );
    let id = engine.create_checkout(CreateCheckout::new(BookId(1), UserId(4), 1)).unwrap();
    assert_eq!(
        engine.checkout_state(BookId(1)),
        Some(CheckoutStateRow {
            book_id: BookId(1),
            checkout_id: Some(id),
            user_id: Some(UserId(4))
        })
    );
}

#[test]
fn decisions_on_checkout() {
    let free = CheckoutStateRow { book_id: BookId(1), checkout_id: None, user_id: None };
    let out = CheckoutStateRow {
        book_id: BookId(1),
        checkout_id: Some(CheckoutId(5)),
        user_id: None,
    };
    assert!(check_can_checkout(Some(free)).is_ok());
    assert!(matches!(check_can_checkout(None), Err(AppError::NotFoundError(_))));
    assert!(matches!(check_can_checkout(Some(out)), Err(AppError::UnprocessableEntity(_))));
}

#[test]
fn decisions_on_return() {
    let event = UpdateReturned::new(CheckoutId(5), BookId(1), UserId(2), 9);
    let row = |checkout_id, user_id| Some(CheckoutStateRow { book_id: BookId(1), checkout_id, user_id });
    assert!(check_can_return(row(Some(CheckoutId(5)), Some(UserId(2))), &event).is_ok());
    assert!(matches!(check_can_return(None, &event), Err(AppError::NotFoundError(_))));
    assert!(matches!(check_can_return(row(None, None), &event), Err(AppError::NotFoundError(_))));
    assert!(matches!(
        check_can_return(row(Some(CheckoutId(6)), Some(UserId(2))), &event),
        Err(AppError::UnprocessableEntity(_))
    ));
    assert!(matches!(
        check_can_return(row(Some(CheckoutId(5)), Some(UserId(3))), &event),
        Err(AppError::UnprocessableEntity(_))
    ));
    assert!(matches!(
        check_can_return(row(Some(CheckoutId(5)), None), &event),
        Err(AppError::UnprocessableEntity(_))
    ));
}

#[test]
fn decisions_on_affected_rows() {
    assert!(check_affected(1, "nothing").is_ok());
    assert!(check_affected(2, "nothing").is_ok());
    match check_affected(0, "nothing changed") {
        Err(AppError::NoRowsAffectedError(message)) => assert_eq!(message, "nothing changed"),
        other => panic!("expected a fatal failure, got {:?}", other),
    }
}

#[test]
fn store_failures_are_classified() {
    let retry = bookmanager::repository::checkout::classify_store_failure(
        Some("40001"),
        false,
        "could not serialize access".to_string(),
    );
    assert!(retry.is_retryable());
    assert_eq!(retry.to_string(), "could not serialize access");
    assert_eq!(retry.status_code(), 503);
    let deadlock =
        bookmanager::repository::checkout::classify_store_failure(Some("40P01"), false, "d".to_string());
    assert!(matches!(deadlock, AppError::TransactionError(_)));
    let timeout = bookmanager::repository::checkout::classify_store_failure(None, true, "t".to_string());
    assert!(matches!(timeout, AppError::TransactionError(_)));
    let timeout =
        bookmanager::repository::checkout::classify_store_failure(Some("23505"), true, "t".to_string());
    assert!(matches!(timeout, AppError::TransactionError(_)));
    let unique =
        bookmanager::repository::checkout::classify_store_failure(Some("23505"), false, "u".to_string());
    assert!(matches!(unique, AppError::DatabaseOperationError(_)));
    assert_eq!(unique.status_code(), 500);
    let other = bookmanager::repository::checkout::classify_store_failure(None, false, "o".to_string());
    assert!(matches!(other, AppError::DatabaseOperationError(_)));
    assert!(!other.is_retryable());
}

#[test]
fn the_current_loan_goes_before_the_past_ones() {
    let loan = |id: u128, returned_at: Option<i64>| Checkout {
        id: CheckoutId(id),
        checked_out_by: UserId(1),
        checked_out_at: 0,
        returned_at,
        book: book(1, "t"),
    };
    let history = bookmanager::repository::checkout::assemble_history(
        Some(loan(3, None)),
        vec![loan(2, Some(9)), loan(1, Some(5))],
    );
    assert_eq!(ids(&history), vec![CheckoutId(3), CheckoutId(2), CheckoutId(1)]);
    let history = bookmanager::repository::checkout::assemble_history(
        None,
        vec![loan(2, Some(9)), loan(1, Some(5))],
    );
    assert_eq!(ids(&history), vec![CheckoutId(2), CheckoutId(1)]);
    let history = bookmanager::repository::checkout::assemble_history(Some(loan(3, None)), Vec::new());
    assert_eq!(ids(&history), vec![CheckoutId(3)]);
    assert!(bookmanager::repository::checkout::assemble_history(None, Vec::new()).is_empty());
}

#[test]
fn a_book_is_on_the_shelf_or_with_a_borrower() {
    let mut engine = engine_with_books(&[1, 2]);
    assert_eq!(engine.book_status(BookId(3)), None);
    assert_eq!(engine.book_status(BookId(1)), Some(BookStatus::Available));
    let id = engine.create_checkout(CreateCheckout::new(BookId(1), UserId(1), 1)).unwrap();
    assert_eq!(engine.book_status(BookId(1)), Some(BookStatus::CheckedOut));
    assert_eq!(engine.book_status(BookId(2)), Some(BookStatus::Available));
    // a refused command moves nothing
    assert!(engine.create_checkout(CreateCheckout::new(BookId(1), UserId(2), 2)).is_err());
    assert!(engine.update_returned(UpdateReturned::new(id, BookId(1), UserId(2), 3)).is_err());
    assert_eq!(engine.book_status(BookId(1)), Some(BookStatus::CheckedOut));
    engine.update_returned(UpdateReturned::new(id, BookId(1), UserId(1), 3)).unwrap();
    assert_eq!(engine.book_status(BookId(1)), Some(BookStatus::Available));
    // and the book can be lent again
    engine.create_checkout(CreateCheckout::new(BookId(1), UserId(2), 4)).unwrap();
    assert_eq!(engine.book_status(BookId(1)), Some(BookStatus::CheckedOut));
}

#[test]
fn the_first_checkout_of_the_only_book_succeeds() {
    // 2024-01-01T10:00:00Z
    let at: i64 = 1_704_103_200_000_000;
    let b1 = BookId(11);
    let u1 = UserId(21);
    let mut engine = engine_with_books(&[11]);
    assert!(engine.find_unreturned_all().unwrap().is_empty());
    assert!(engine.find_history_by_book_id(b1).unwrap().is_empty());

    let id = engine.create_checkout(CreateCheckout::new(b1, u1, at)).unwrap();

    let active = engine.find_unreturned_all().unwrap();
    assert_eq!(active.len(), 1);
    assert_eq!(active[0].id, id);
    assert_eq!(active[0].book.book_id, b1);
    assert_eq!(active[0].checked_out_by, u1);
    assert_eq!(active[0].checked_out_at, at);
    assert_eq!(active[0].returned_at, None);
    // the history holds the current loan only: nothing has come back
    let history = engine.find_history_by_book_id(b1).unwrap();
    assert_eq!(ids(&history), vec![id]);
    assert_eq!(engine.begin(), Transaction { active: 1, returned: 0 });
}

#[test]
fn of_two_racing_checkouts_the_loser_may_be_either() {
    for first_wins in [true, false] {
        let b = BookId(1);
        let mut engine = engine_with_books(&[1]);
        let tx_one = engine.begin();
        let tx_two = engine.begin();
        let one = CreateCheckout::new(b, UserId(1), 100);
        let two = CreateCheckout::new(b, UserId(2), 200);
        let (won, lost) = if first_wins {
            let won = engine.create_checkout_in(tx_one, CheckoutId(1), one);
            (won, engine.create_checkout_in(tx_two, CheckoutId(2), two))
        } else {
            let won = engine.create_checkout_in(tx_two, CheckoutId(2), two);
            (won, engine.create_checkout_in(tx_one, CheckoutId(1), one))
        };
        assert!(won.is_ok());
        let lost = lost.unwrap_err();
        assert!(matches!(lost, AppError::TransactionError(_)));
        let rows = engine.find_unreturned_all().unwrap();
        assert_eq!(rows.len(), 1);
        let (winner, time) = if first_wins { (UserId(1), 100) } else { (UserId(2), 200) };
        assert_eq!(rows[0].checked_out_by, winner);
        assert_eq!(rows[0].checked_out_at, time);
        assert_eq!(rows[0].id, won.unwrap());
    }
}
