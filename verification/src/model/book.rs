//! Books, and the commands that change them.

use crate::id::{BookId, CheckoutId, UserId};
use crate::model::user::{BookOwner, CheckOutUser};
use vstd::prelude::*;

verus! {

/// The loan of a book that is out, as shown with the book. The time is in
/// microseconds since the Unix epoch.
#[derive(Debug)]
pub struct CheckoutInfo {
    pub checkout_id: CheckoutId,
    pub checked_out_by: CheckOutUser,
    pub checked_out_at: i64,
}

/// A book of the library.
#[derive(Debug)]
pub struct Book {
    pub id: BookId,
    pub title: String,
    pub author: String,
    pub isbn: String,
    pub description: String,
    pub owner: BookOwner,
    pub checkout_info: Option<CheckoutInfo>,
}

/// The window of a list of books: how many, and from where.
#[derive(Debug, Clone, Copy, PartialEq, Eq, Structural)]
pub struct BookListOptions {
    pub limit: i64,
    pub offset: i64,
}

/// The command to add a book.
#[derive(Debug)]
pub struct CreateBook {
    pub title: String,
    pub author: String,
    pub isbn: String,
    pub description: String,
}

/// The command to change a book's description.
#[derive(Debug)]
pub struct UpdateBook {
    pub book_id: BookId,
    pub title: String,
    pub author: String,
    pub isbn: String,
    pub description: String,
    pub requested_user: UserId,
}

/// The command to remove a book.
#[derive(Debug, Clone, Copy, PartialEq, Eq, Structural)]
pub struct DeleteBook {
    pub book_id: BookId,
    pub requested_user: UserId,
}

} // verus!
