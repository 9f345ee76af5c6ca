//! Requests about books.

use crate::api::model::book::{book_response, BookResponse};
use crate::error::{AppError, AppErrorView};
use crate::model::book::Book;
use vstd::prelude::*;

verus! {

/// The message of the error for a book that was asked for and is not
/// there.
pub const BOOK_NOT_SHOWN: &'static str = "The book_id book not found";

/// The answer to a request for one book: the book as a response, or
/// `NotFoundError` where there is none.
pub fn show_book(found: Option<Book>) -> (outcome: Result<BookResponse, AppError>)
    ensures
        match found {
            Some(book) => outcome == Ok::<BookResponse, AppError>(book_response(book)),
            None => outcome is Err && outcome->Err_0@ == AppErrorView::NotFoundError(
                BOOK_NOT_SHOWN@,
            ),
        },
{
    match found {
        Some(book) => Ok(BookResponse::from(book)),
        None => Err(AppError::NotFoundError(BOOK_NOT_SHOWN.to_owned())),
    }
}

} // verus!
