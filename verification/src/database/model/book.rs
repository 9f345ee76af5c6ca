//! Rows of the relation of books, and of the queries over it.

use crate::id::{BookId, CheckoutId, UserId};
use crate::model::book::{Book, CheckoutInfo};
use crate::model::user::{BookOwner, CheckOutUser};
use vstd::prelude::*;
use vstd::std_specs::convert::FromSpecImpl;

verus! {

/// A book joined with the name of its owner.
#[derive(Debug)]
pub struct BookRow {
    pub book_id: BookId,
    pub title: String,
    pub author: String,
    pub isbn: String,
    pub description: String,
    pub owned_by: UserId,
    pub owner_name: String,
}

impl BookRow {
    /// The book of this row, with the loan that is out, if any.
    pub fn into_book(self, checkout: Option<CheckoutInfo>) -> (book: Book)
        ensures
            book == (Book {
                id: self.book_id,
                title: self.title,
                author: self.author,
                isbn: self.isbn,
                description: self.description,
                owner: BookOwner { id: self.owned_by, name: self.owner_name },
                checkout_info: checkout,
            }),
    {
        let BookRow { book_id, title, author, isbn, description, owned_by, owner_name } = self;
        Book {
            id: book_id,
            title,
            author,
            isbn,
            description,
            owner: BookOwner { id: owned_by, name: owner_name },
            checkout_info: checkout,
        }
    }
}

/// One identifier of a page of books, with the size of the whole list.
#[derive(Debug, Clone, Copy, PartialEq, Eq, Structural)]
pub struct PaginatedBookRow {
    pub total: i64,
    pub id: BookId,
}

/// A loan that is out, joined with the name of the borrower.
#[derive(Debug)]
pub struct BookCheckoutRow {
    pub checkout_id: CheckoutId,
    pub book_id: BookId,
    pub user_id: UserId,
    pub user_name: String,
    pub checked_out_at: i64,
}

impl From<BookCheckoutRow> for CheckoutInfo {
    fn from(value: BookCheckoutRow) -> (info: Self) {
        let BookCheckoutRow { checkout_id, book_id: _, user_id, user_name, checked_out_at } = value;
        CheckoutInfo {
            checkout_id,
            checked_out_by: CheckOutUser { id: user_id, name: user_name },
            checked_out_at,
        }
    }
}

impl FromSpecImpl<BookCheckoutRow> for CheckoutInfo {
    open spec fn obeys_from_spec() -> bool {
        true
    }

    open spec fn from_spec(value: BookCheckoutRow) -> Self {
        CheckoutInfo {
            checkout_id: value.checkout_id,
            checked_out_by: CheckOutUser { id: value.user_id, name: value.user_name },
            checked_out_at: value.checked_out_at,
        }
    }
}

} // verus!
