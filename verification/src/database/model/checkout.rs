//! Rows of the two checkout relations, and of the queries over them.

use crate::id::{BookId, CheckoutId, UserId};
use crate::model::checkout::{Checkout, CheckoutBook};
use vstd::prelude::*;
use vstd::std_specs::convert::FromSpecImpl;

verus! {

/// A row of the relation of current loans: the book is out.
#[derive(Debug, Clone, Copy, PartialEq, Eq, Structural)]
pub struct ActiveCheckout {
    pub checkout_id: CheckoutId,
    pub book_id: BookId,
    pub user_id: UserId,
    pub checked_out_at: i64,
}

/// A row of the relation of past loans: the book came back at `returned_at`.
#[derive(Debug, Clone, Copy, PartialEq, Eq, Structural)]
pub struct ReturnedCheckout {
    pub checkout_id: CheckoutId,
    pub book_id: BookId,
    pub user_id: UserId,
    pub checked_out_at: i64,
    pub returned_at: i64,
}

/// What a command learns of a book before it changes anything: that the book
/// exists, and the loan and borrower if it is out.
#[derive(Debug, Clone, Copy, PartialEq, Eq, Structural)]
pub struct CheckoutStateRow {
    pub book_id: BookId,
    pub checkout_id: Option<CheckoutId>,
    pub user_id: Option<UserId>,
}

/// A current loan joined with its book.
#[derive(Debug)]
pub struct CheckoutRow {
    pub checkout_id: CheckoutId,
    pub book_id: BookId,
    pub user_id: UserId,
    pub checked_out_at: i64,
    pub title: String,
    pub author: String,
    pub isbn: String,
}

/// A past loan joined with its book.
#[derive(Debug)]
pub struct ReturnedCheckoutRow {
    pub checkout_id: CheckoutId,
    pub book_id: BookId,
    pub user_id: UserId,
    pub checked_out_at: i64,
    pub returned_at: i64,
    pub title: String,
    pub author: String,
    pub isbn: String,
}

impl From<CheckoutRow> for Checkout {
    fn from(value: CheckoutRow) -> (checkout: Self) {
        let CheckoutRow { checkout_id, book_id, user_id, checked_out_at, title, author, isbn } =
            value;
        Checkout {
            id: checkout_id,
            checked_out_by: user_id,
            checked_out_at,
            returned_at: None,
            book: CheckoutBook { book_id, title, author, isbn },
        }
    }
}

impl FromSpecImpl<CheckoutRow> for Checkout {
    open spec fn obeys_from_spec() -> bool {
        true
    }

    open spec fn from_spec(value: CheckoutRow) -> Self {
        Checkout {
            id: value.checkout_id,
            checked_out_by: value.user_id,
            checked_out_at: value.checked_out_at,
            returned_at: None,
            book: CheckoutBook {
                book_id: value.book_id,
                title: value.title,
                author: value.author,
                isbn: value.isbn,
            },
        }
    }
}

impl From<ReturnedCheckoutRow> for Checkout {
    fn from(value: ReturnedCheckoutRow) -> (checkout: Self) {
        let ReturnedCheckoutRow {
            checkout_id,
            book_id,
            user_id,
            checked_out_at,
            returned_at,
            title,
            author,
            isbn,
        } = value;
        Checkout {
            id: checkout_id,
            checked_out_by: user_id,
            checked_out_at,
            returned_at: Some(returned_at),
            book: CheckoutBook { book_id, title, author, isbn },
        }
    }
}

impl FromSpecImpl<ReturnedCheckoutRow> for Checkout {
    open spec fn obeys_from_spec() -> bool {
        true
    }

    open spec fn from_spec(value: ReturnedCheckoutRow) -> Self {
        Checkout {
            id: value.checkout_id,
            checked_out_by: value.user_id,
            checked_out_at: value.checked_out_at,
            returned_at: Some(value.returned_at),
            book: CheckoutBook {
                book_id: value.book_id,
                title: value.title,
                author: value.author,
                isbn: value.isbn,
            },
        }
    }
}

} // verus!
