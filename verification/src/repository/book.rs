//! The assembly of books from rows, and the decisions of the operations on
//! books.

use crate::database::model::book::{BookCheckoutRow, BookRow, PaginatedBookRow};
use crate::error::{AppError, AppErrorView};
use crate::id::BookId;
use crate::model::book::{Book, BookListOptions, CheckoutInfo};
use crate::model::list::PaginatedList;
use crate::model::user::{BookOwner, CheckOutUser};
use std::collections::HashMap;
use vstd::prelude::*;

verus! {

broadcast use vstd::std_specs::hash::group_hash_axioms;

/// The message of the error for a book that does not exist, or that the
/// caller does not own.
pub const BOOK_ABSENT: &'static str = "specified book not found";

/// The loan that a row of current loans describes.
pub open spec fn checkout_info_of(row: BookCheckoutRow) -> CheckoutInfo {
    CheckoutInfo {
        checkout_id: row.checkout_id,
        checked_out_by: CheckOutUser { id: row.user_id, name: row.user_name },
        checked_out_at: row.checked_out_at,
    }
}

/// The loans of `rows`, each under the number of its book. Of two rows of
/// one book the later one stays.
pub open spec fn checkouts_by_book(rows: Seq<BookCheckoutRow>) -> Map<u128, CheckoutInfo>
    decreases rows.len(),
{
    if rows.len() == 0 {
        Map::empty()
    } else {
        checkouts_by_book(rows.drop_last()).insert(
            rows.last().book_id.0,
            checkout_info_of(rows.last()),
        )
    }
}

/// The loan of a book in `table`, if it has one.
pub open spec fn checkout_in(table: Map<u128, CheckoutInfo>, book_id: BookId) -> Option<
    CheckoutInfo,
> {
    if table.contains_key(book_id.0) {
        Some(table[book_id.0])
    } else {
        None
    }
}

/// The book of a row, with the given loan.
pub open spec fn book_of(row: BookRow, checkout: Option<CheckoutInfo>) -> Book {
    Book {
        id: row.book_id,
        title: row.title,
        author: row.author,
        isbn: row.isbn,
        description: row.description,
        owner: BookOwner { id: row.owned_by, name: row.owner_name },
        checkout_info: checkout,
    }
}

/// The books of `rows`, in the same order, each with its loan from `table`.
/// A loan goes to the first row of its book only.
pub open spec fn with_checkouts(rows: Seq<BookRow>, table: Map<u128, CheckoutInfo>) -> Seq<Book>
    decreases rows.len(),
{
    if rows.len() == 0 {
        Seq::empty()
    } else {
        seq![book_of(rows[0], checkout_in(table, rows[0].book_id))] + with_checkouts(
            rows.drop_first(),
            table.remove(rows[0].book_id.0),
        )
    }
}

/// Puts the current loans under the numbers of their books.
pub fn index_checkouts(rows: Vec<BookCheckoutRow>) -> (table: HashMap<u128, CheckoutInfo>)
    ensures
        table@ == checkouts_by_book(rows@),
{
    let mut table: HashMap<u128, CheckoutInfo> = HashMap::new();
    proof {
        assert(rows@.take(0) =~= Seq::<BookCheckoutRow>::empty());
    }
    for row in iter: rows.into_iter()
        invariant
            iter.seq() == rows@,
            table@ == checkouts_by_book(rows@.take(iter.index() as int)),
    {
        proof {
            let upto = rows@.take(iter.index() + 1);
            assert(upto.drop_last() =~= rows@.take(iter.index() as int));
            assert(upto.last() == row);
        }
        let key = row.book_id.0;
        table.insert(key, CheckoutInfo::from(row));
    }
    proof {
        assert(rows@.take(rows@.len() as int) =~= rows@);
    }
    table
}

/// Makes books of rows: each row becomes a book, with its loan from
/// `checkouts` if the book is out.
pub fn attach_checkouts(rows: Vec<BookRow>, checkouts: HashMap<u128, CheckoutInfo>) -> (books: Vec<
    Book,
>)
    ensures
        books@ == with_checkouts(rows@, checkouts@),
{
    let mut checkouts = checkouts;
    let ghost table = checkouts@;
    let mut books: Vec<Book> = Vec::new();
    proof {
        assert(rows@.skip(0) =~= rows@);
    }
    for row in iter: rows.into_iter()
        invariant
            iter.seq() == rows@,
            books@ + with_checkouts(rows@.skip(iter.index() as int), checkouts@) == with_checkouts(
                rows@,
                table,
            ),
    {
        let ghost rest = rows@.skip(iter.index() as int);
        let ghost before = checkouts@;
        let ghost so_far = books@;
        let key = row.book_id.0;
        let checkout = checkouts.remove(&key);
        proof {
            assert(rest[0] == row);
            assert(rest.drop_first() =~= rows@.skip(iter.index() + 1));
            assert(checkouts@ =~= before.remove(key));
            assert(checkout == checkout_in(before, row.book_id));
            assert(so_far.push(book_of(row, checkout)) + with_checkouts(
                rest.drop_first(),
                before.remove(key),
            ) =~= so_far + with_checkouts(rest, before));
        }
        books.push(row.into_book(checkout));
    }
    proof {
        assert(rows@.skip(rows@.len() as int) =~= Seq::<BookRow>::empty());
        assert(books@ + Seq::<Book>::empty() =~= books@);
    }
    books
}

/// The size of the whole list, as the rows of one page tell it: every row
/// carries it, and a page without rows tells nothing, which counts as 0.
pub fn total_of(rows: &Vec<PaginatedBookRow>) -> (total: i64)
    ensures
        total == if rows@.len() > 0 {
            rows@[0].total
        } else {
            0
        },
{
    if rows.len() > 0 {
        rows[0].total
    } else {
        0
    }
}

/// The identifiers of the books of one page, in the page's order.
pub fn ids_of(rows: &Vec<PaginatedBookRow>) -> (ids: Vec<BookId>)
    ensures
        ids@.len() == rows@.len(),
        forall|i: int| 0 <= i < rows@.len() ==> ids@[i] == rows@[i].id,
{
    let mut ids: Vec<BookId> = Vec::new();
    let mut at: usize = 0;
    while at < rows.len()
        invariant
            0 <= at <= rows.len(),
            ids@.len() == at,
            forall|i: int| 0 <= i < at ==> ids@[i] == rows@[i].id,
        decreases rows.len() - at,
    {
        ids.push(rows[at].id);
        at = at + 1;
    }
    ids
}

/// One page of books: the rows of the page with the loans of their books,
/// the size of the whole list, and the window that was asked for.
pub fn page_of(
    total: i64,
    options: BookListOptions,
    rows: Vec<BookRow>,
    checkouts: Vec<BookCheckoutRow>,
) -> (page: PaginatedList<Book>)
    ensures
        page.total == total,
        page.limit == options.limit,
        page.offset == options.offset,
        page.items@ == with_checkouts(rows@, checkouts_by_book(checkouts@)),
{
    let BookListOptions { limit, offset } = options;
    let table = index_checkouts(checkouts);
    let items = attach_checkouts(rows, table);
    PaginatedList { total, limit, offset, items }
}

/// The book of one row, if there is a row, with the loan of that book.
pub fn book_with_checkout(row: Option<BookRow>, checkouts: Vec<BookCheckoutRow>) -> (book: Option<
    Book,
>)
    ensures
        book == match row {
            Some(r) => Some(book_of(r, checkout_in(checkouts_by_book(checkouts@), r.book_id))),
            None => None,
        },
{
    match row {
        Some(r) => {
            let mut table = index_checkouts(checkouts);
            let key = r.book_id.0;
            let checkout = table.remove(&key);
            Some(r.into_book(checkout))
        },
        None => None,
    }
}

/// Decides on a change or removal of a book: one that touched no row means
/// that the book does not exist, or is not the caller's.
pub fn check_book_found(affected: u64) -> (verdict: Result<(), AppError>)
    ensures
        affected == 0 ==> verdict is Err && verdict->Err_0@ == AppErrorView::NotFoundError(
            BOOK_ABSENT@,
        ),
        affected != 0 ==> verdict is Ok,
{
    if affected == 0 {
        return Err(AppError::NotFoundError(BOOK_ABSENT.to_owned()));
    }
    Ok(())
}

} // verus!
