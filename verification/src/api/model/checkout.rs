//! Loans as responses.

use crate::id::{BookId, CheckoutId, UserId};
use crate::model::checkout::{Checkout, CheckoutBook};
use vstd::prelude::*;

verus! {

/// The book of a loan.
#[derive(Debug)]
pub struct CheckoutBookResponse {
    pub id: BookId,
    pub title: String,
    pub author: String,
    pub isbn: String,
}

/// The book of a loan as a response.
pub open spec fn checkout_book_response(value: CheckoutBook) -> CheckoutBookResponse {
    CheckoutBookResponse {
        id: value.book_id,
        title: value.title,
        author: value.author,
        isbn: value.isbn,
    }
}

impl From<CheckoutBook> for CheckoutBookResponse {
    fn from(value: CheckoutBook) -> (response: Self) {
        let CheckoutBook { book_id, title, author, isbn } = value;
        CheckoutBookResponse { id: book_id, title, author, isbn }
    }
}

impl vstd::std_specs::convert::FromSpecImpl<CheckoutBook> for CheckoutBookResponse {
    open spec fn obeys_from_spec() -> bool {
        true
    }

    open spec fn from_spec(value: CheckoutBook) -> Self {
        checkout_book_response(value)
    }
}

/// One loan, current or past.
#[derive(Debug)]
pub struct CheckoutResponse {
    pub id: CheckoutId,
    pub checked_out_by: UserId,
    pub checked_out_at: i64,
    pub returned_at: Option<i64>,
    pub book: CheckoutBookResponse,
}

/// A loan as a response.
pub open spec fn checkout_response(value: Checkout) -> CheckoutResponse {
    CheckoutResponse {
        id: value.id,
        checked_out_by: value.checked_out_by,
        checked_out_at: value.checked_out_at,
        returned_at: value.returned_at,
        book: checkout_book_response(value.book),
    }
}

impl From<Checkout> for CheckoutResponse {
    fn from(value: Checkout) -> (response: Self) {
        let Checkout { id, checked_out_by, checked_out_at, returned_at, book } = value;
        CheckoutResponse {
            id,
            checked_out_by,
            checked_out_at,
            returned_at,
            book: CheckoutBookResponse::from(book),
        }
    }
}

impl vstd::std_specs::convert::FromSpecImpl<Checkout> for CheckoutResponse {
    open spec fn obeys_from_spec() -> bool {
        true
    }

    open spec fn from_spec(value: Checkout) -> Self {
        checkout_response(value)
    }
}

/// A list of loans.
#[derive(Debug)]
pub struct CheckoutsResponse {
    pub items: Vec<CheckoutResponse>,
}

impl CheckoutsResponse {
    /// The loans of `value` as responses, in the same order.
    pub fn from(value: Vec<Checkout>) -> (response: Self)
        ensures
            response.items@.len() == value@.len(),
            forall|i: int|
                0 <= i < value@.len() ==> response.items@[i] == checkout_response(value@[i]),
    {
        let mut items: Vec<CheckoutResponse> = Vec::new();
        for checkout in iter: value.into_iter()
            invariant
                iter.seq() == value@,
                items@.len() == iter.index(),
                forall|i: int|
                    0 <= i < items@.len() ==> items@[i] == checkout_response(value@[i]),
        {
            items.push(CheckoutResponse::from(checkout));
        }
        CheckoutsResponse { items }
    }
}

} // verus!
