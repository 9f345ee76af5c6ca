use bookmanager::database::model::checkout::{ActiveCheckout, CheckoutStateRow};
use bookmanager::error::AppError;
use bookmanager::id::{BookId, CheckoutId, UserId};
use bookmanager::model::checkout::{CreateCheckout, UpdateReturned};
use bookmanager::protocol::{advance, start, Command, Course, Reply, Request};
use bookmanager::repository::checkout::CheckoutRepositoryImpl;
use bookmanager::model::checkout::CheckoutBook;

fn checkout() -> Command {
    Command::Checkout {
        checkout_id: CheckoutId(9),
        lending: CreateCheckout::new(BookId(1), UserId(2), 100),
    }
}

fn give_back() -> Command {
    Command::Return { returning: UpdateReturned::new(CheckoutId(9), BookId(1), UserId(2), 200) }
}

fn asks(course: Course) -> Request {
    match course {
        Course::Ask(request) => request,
        Course::Finish(outcome) => panic!("the command ended early: {:?}", outcome),
    }
}

fn ends(course: Course) -> Result<(), AppError> {
    match course {
        Course::Finish(outcome) => outcome,
        Course::Ask(request) => panic!("the command went on with {:?}", request),
    }
}

fn free() -> Reply {
    Reply::State(Some(CheckoutStateRow { book_id: BookId(1), checkout_id: None, user_id: None }))
}

fn out(checkout_id: u128, user_id: u128) -> Reply {
    Reply::State(Some(CheckoutStateRow {
        book_id: BookId(1),
        checkout_id: Some(CheckoutId(checkout_id)),
        user_id: Some(UserId(user_id)),
    }))
}

#[test]
fn a_checkout_runs_from_begin_to_commit() {
    let command = checkout();
    let mut asked = start();
    assert_eq!(asked, Request::Begin);
    asked = asks(advance(command, asked, Reply::Done));
    assert_eq!(asked, Request::Isolate);
    asked = asks(advance(command, asked, Reply::Done));
    assert_eq!(asked, Request::ReadState { book_id: BookId(1) });
    asked = asks(advance(command, asked, free()));
    assert_eq!(
        asked,
        Request::InsertCheckout {
            row: ActiveCheckout {
                checkout_id: CheckoutId(9),
                book_id: BookId(1),
                user_id: UserId(2),
                checked_out_at: 100,
            }
        }
    );
    asked = asks(advance(command, asked, Reply::Affected(1)));
    assert_eq!(asked, Request::Commit);
    assert!(ends(advance(command, asked, Reply::Done)).is_ok());
}

#[test]
fn a_return_runs_from_begin_to_commit() {
    let command = give_back();
    let mut asked = asks(advance(command, start(), Reply::Done));
    asked = asks(advance(command, asked, Reply::Done));
    assert_eq!(asked, Request::ReadState { book_id: BookId(1) });
    asked = asks(advance(command, asked, out(9, 2)));
    assert_eq!(asked, Request::ArchiveCheckout { checkout_id: CheckoutId(9), returned_at: 200 });
    asked = asks(advance(command, asked, Reply::Affected(1)));
    assert_eq!(asked, Request::DeleteCheckout { checkout_id: CheckoutId(9) });
    asked = asks(advance(command, asked, Reply::Affected(1)));
    assert_eq!(asked, Request::Commit);
    assert!(ends(advance(command, asked, Reply::Done)).is_ok());
}

#[test]
fn a_checkout_ends_where_the_book_cannot_be_lent() {
    let read = Request::ReadState { book_id: BookId(1) };
    let missing = ends(advance(checkout(), read, Reply::State(None))).unwrap_err();
    assert!(matches!(missing, AppError::NotFoundError(_)));
    let taken = ends(advance(checkout(), read, out(3, 4))).unwrap_err();
    assert_eq!(taken.to_string(), "book already checked out");
    assert!(matches!(taken, AppError::UnprocessableEntity(_)));
}

#[test]
fn a_return_ends_where_it_cannot_be_taken() {
    let read = Request::ReadState { book_id: BookId(1) };
    let missing = ends(advance(give_back(), read, Reply::State(None))).unwrap_err();
    assert_eq!(missing.to_string(), "book not found");
    let not_out = ends(advance(give_back(), read, free())).unwrap_err();
    assert_eq!(not_out.to_string(), "book is not checked out");
    assert!(matches!(not_out, AppError::NotFoundError(_)));
    let other_loan = ends(advance(give_back(), read, out(8, 2))).unwrap_err();
    assert_eq!(other_loan.to_string(), "checkout does not match requested identity");
    let other_user = ends(advance(give_back(), read, out(9, 3))).unwrap_err();
    assert!(matches!(other_user, AppError::UnprocessableEntity(_)));
}

#[test]
fn a_change_that_touched_no_row_is_fatal() {
    let row = ActiveCheckout {
        checkout_id: CheckoutId(9),
        book_id: BookId(1),
        user_id: UserId(2),
        checked_out_at: 100,
    };
    let insert = ends(advance(checkout(), Request::InsertCheckout { row }, Reply::Affected(0)));
    match insert {
        Err(AppError::NoRowsAffectedError(message)) => assert_eq!(message, "checkout was not recorded"),
        other => panic!("expected a fatal failure, got {:?}", other),
    }
    let archive = Request::ArchiveCheckout { checkout_id: CheckoutId(9), returned_at: 200 };
    match ends(advance(give_back(), archive, Reply::Affected(0))) {
        Err(AppError::NoRowsAffectedError(message)) => assert_eq!(message, "return was not recorded"),
        other => panic!("expected a fatal failure, got {:?}", other),
    }
    // the race against a duplicate return: the copy was made, the row is gone
    let delete = Request::DeleteCheckout { checkout_id: CheckoutId(9) };
    match ends(advance(give_back(), delete, Reply::Affected(0))) {
        Err(AppError::NoRowsAffectedError(message)) => assert_eq!(message, "return was not recorded"),
        other => panic!("expected a fatal failure, got {:?}", other),
    }
}

#[test]
fn a_failure_of_the_store_ends_the_command_with_it() {
    for asked in [
        Request::Begin,
        Request::Isolate,
        Request::ReadState { book_id: BookId(1) },
        Request::DeleteCheckout { checkout_id: CheckoutId(9) },
        Request::Commit,
    ] {
        let lost = Reply::Failed(AppError::TransactionError("could not serialize".to_string()));
        let outcome = ends(advance(give_back(), asked, lost)).unwrap_err();
        assert!(outcome.is_retryable());
        assert_eq!(outcome.to_string(), "could not serialize");
    }
}

#[test]
fn a_reply_that_was_not_asked_for_is_an_internal_error() {
    let cases = [
        (Request::Begin, Reply::Affected(1)),
        (Request::Isolate, Reply::State(None)),
        (Request::ReadState { book_id: BookId(1) }, Reply::Done),
        (Request::ReadState { book_id: BookId(1) }, Reply::Affected(1)),
        (Request::DeleteCheckout { checkout_id: CheckoutId(9) }, Reply::Done),
        (Request::Commit, Reply::Affected(1)),
    ];
    for (asked, reply) in cases {
        let outcome = ends(advance(checkout(), asked, reply)).unwrap_err();
        assert!(matches!(outcome, AppError::InternalError(_)));
        assert_eq!(outcome.status_code(), 500);
    }
}

#[test]
fn the_course_agrees_with_the_engine_in_memory() {
    // answer each request from the engine held in memory, and compare the end
    let mut engine = CheckoutRepositoryImpl::new();
    engine.register_book(CheckoutBook {
        book_id: BookId(1),
        title: "t".to_string(),
        author: "a".to_string(),
        isbn: "i".to_string(),
    });
    let command = checkout();
    let mut asked = start();
    let outcome = loop {
        let reply = match asked {
            Request::ReadState { book_id } => Reply::State(engine.checkout_state(book_id)),
            Request::InsertCheckout { row } => {
                let tx = engine.begin();
                let event =
                    CreateCheckout::new(row.book_id, row.user_id, row.checked_out_at);
                match engine.create_checkout_in(tx, row.checkout_id, event) {
                    Ok(_) => Reply::Affected(1),
                    Err(_) => Reply::Affected(0),
                }
            }
            _ => Reply::Done,
        };
        match advance(command, asked, reply) {
            Course::Ask(request) => asked = request,
            Course::Finish(outcome) => break outcome,
        }
    };
    assert!(outcome.is_ok());
    let loan = engine.find_unreturned_by_book_id(BookId(1)).unwrap().unwrap();
    assert_eq!(loan.id, CheckoutId(9));
    assert_eq!(command.book_id(), BookId(1));
    assert_eq!(give_back().book_id(), BookId(1));
}
