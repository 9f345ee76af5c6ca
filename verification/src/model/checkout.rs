//! Loans as the outside world sees them, and the two commands that change
//! them.

use crate::id::{BookId, CheckoutId, UserId};
use vstd::prelude::*;

verus! {

/// The book of a loan, as shown with it.
#[derive(Debug)]
pub struct CheckoutBook {
    pub book_id: BookId,
    pub title: String,
    pub author: String,
    pub isbn: String,
}

/// The mathematical value of a [`CheckoutBook`].
pub struct CheckoutBookView {
    pub book_id: BookId,
    pub title: Seq<char>,
    pub author: Seq<char>,
    pub isbn: Seq<char>,
}

impl View for CheckoutBook {
    type V = CheckoutBookView;

    open spec fn view(&self) -> CheckoutBookView {
        CheckoutBookView {
            book_id: self.book_id,
            title: self.title@,
            author: self.author@,
            isbn: self.isbn@,
        }
    }
}

impl Clone for CheckoutBook {
    fn clone(&self) -> (copy: Self)
        ensures
            copy@ == self@,
    {
        CheckoutBook {
            book_id: self.book_id,
            title: self.title.clone(),
            author: self.author.clone(),
            isbn: self.isbn.clone(),
        }
    }
}

/// One loan, current or past. Times are microseconds since the Unix epoch;
/// `returned_at` is `None` while the book is still out.
#[derive(Debug)]
pub struct Checkout {
    pub id: CheckoutId,
    pub checked_out_by: UserId,
    pub checked_out_at: i64,
    pub returned_at: Option<i64>,
    pub book: CheckoutBook,
}

/// The mathematical value of a [`Checkout`].
pub struct CheckoutView {
    pub id: CheckoutId,
    pub checked_out_by: UserId,
    pub checked_out_at: i64,
    pub returned_at: Option<i64>,
    pub book: CheckoutBookView,
}

impl View for Checkout {
    type V = CheckoutView;

    open spec fn view(&self) -> CheckoutView {
        CheckoutView {
            id: self.id,
            checked_out_by: self.checked_out_by,
            checked_out_at: self.checked_out_at,
            returned_at: self.returned_at,
            book: self.book@,
        }
    }
}

impl Clone for Checkout {
    fn clone(&self) -> (copy: Self)
        ensures
            copy@ == self@,
    {
        Checkout {
            id: self.id,
            checked_out_by: self.checked_out_by,
            checked_out_at: self.checked_out_at,
            returned_at: self.returned_at,
            book: self.book.clone(),
        }
    }
}

/// The values of a list of loans, in the list's order.
pub open spec fn checkout_views(list: Seq<Checkout>) -> Seq<CheckoutView> {
    list.map_values(|c: Checkout| c@)
}

/// The command to lend a book.
#[derive(Debug, Clone, Copy, PartialEq, Eq, Structural)]
pub struct CreateCheckout {
    pub book_id: BookId,
    pub checked_out_by: UserId,
    pub checked_out_at: i64,
}

impl CreateCheckout {
    pub fn new(book_id: BookId, checked_out_by: UserId, checked_out_at: i64) -> (event: Self)
        ensures
            event == (CreateCheckout { book_id, checked_out_by, checked_out_at }),
    {
        CreateCheckout { book_id, checked_out_by, checked_out_at }
    }
}

/// The command to take a book back.
#[derive(Debug, Clone, Copy, PartialEq, Eq, Structural)]
pub struct UpdateReturned {
    pub checkout_id: CheckoutId,
    pub book_id: BookId,
    pub returned_by: UserId,
    pub returned_at: i64,
}

impl UpdateReturned {
    pub fn new(
        checkout_id: CheckoutId,
        book_id: BookId,
        returned_by: UserId,
        returned_at: i64,
    ) -> (event: Self)
        ensures
            event == (UpdateReturned { checkout_id, book_id, returned_by, returned_at }),
    {
        UpdateReturned { checkout_id, book_id, returned_by, returned_at }
    }
}

} // verus!
