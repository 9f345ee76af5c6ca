//! Books as requests and responses.

use crate::api::model::user::{
    book_owner_response, check_out_user_response, BookOwner, CheckOutUser,
};
use crate::api::validation::{
    accepts, empty_refusal, negative_refusal, or_else, require_filled, require_not_negative,
};
use crate::error::{AppError, AppErrorView};
use crate::id::{BookId, CheckoutId, UserId};
use crate::model::book::{Book, BookListOptions, CheckoutInfo, CreateBook, UpdateBook};
use crate::model::list::PaginatedList;
use vstd::prelude::*;

verus! {

/// The request to add a book.
#[derive(Debug)]
pub struct CreateBookRequest {
    pub title: String,
    pub author: String,
    pub isbn: String,
    pub description: String,
}

/// Why the texts of a book cannot be taken: the title, the author or the
/// ISBN is empty. The first of these decides.
pub open spec fn book_texts_refusal(
    title: Seq<char>,
    author: Seq<char>,
    isbn: Seq<char>,
) -> Option<AppErrorView> {
    or_else(
        empty_refusal(title, "title"@),
        or_else(empty_refusal(author, "author"@), empty_refusal(isbn, "isbn"@)),
    )
}

/// The command that a request to add a book stands for.
pub open spec fn create_book_event(value: CreateBookRequest) -> CreateBook {
    CreateBook {
        title: value.title,
        author: value.author,
        isbn: value.isbn,
        description: value.description,
    }
}

impl CreateBookRequest {
    /// Accepts the request if title, author and ISBN are filled in.
    pub fn validate(&self) -> (outcome: Result<(), AppError>)
        ensures
            accepts(outcome, book_texts_refusal(self.title@, self.author@, self.isbn@)),
    {
        match require_filled(&self.title, "title") {
            Err(e) => {
                return Err(e);
            },
            Ok(()) => {},
        }
        match require_filled(&self.author, "author") {
            Err(e) => {
                return Err(e);
            },
            Ok(()) => {},
        }
        require_filled(&self.isbn, "isbn")
    }
}

impl From<CreateBookRequest> for CreateBook {
    fn from(value: CreateBookRequest) -> (event: Self) {
        let CreateBookRequest { title, author, isbn, description } = value;
        CreateBook { title, author, isbn, description }
    }
}

impl vstd::std_specs::convert::FromSpecImpl<CreateBookRequest> for CreateBook {
    open spec fn obeys_from_spec() -> bool {
        true
    }

    open spec fn from_spec(value: CreateBookRequest) -> Self {
        create_book_event(value)
    }
}

/// The request to change a book's description.
#[derive(Debug)]
pub struct UpdateBookRequest {
    pub title: String,
    pub author: String,
    pub isbn: String,
    pub description: String,
}

impl UpdateBookRequest {
    /// Accepts the request if title, author and ISBN are filled in.
    pub fn validate(&self) -> (outcome: Result<(), AppError>)
        ensures
            accepts(outcome, book_texts_refusal(self.title@, self.author@, self.isbn@)),
    {
        match require_filled(&self.title, "title") {
            Err(e) => {
                return Err(e);
            },
            Ok(()) => {},
        }
        match require_filled(&self.author, "author") {
            Err(e) => {
                return Err(e);
            },
            Ok(()) => {},
        }
        require_filled(&self.isbn, "isbn")
    }
}

/// A request to change a book, with the book and the caller it is about.
#[derive(Debug)]
pub struct UpdateBookRequestWithIds(pub BookId, pub UserId, pub UpdateBookRequest);

/// The command that a request to change a book stands for.
pub open spec fn update_book_event(value: UpdateBookRequestWithIds) -> UpdateBook {
    UpdateBook {
        book_id: value.0,
        title: value.2.title,
        author: value.2.author,
        isbn: value.2.isbn,
        description: value.2.description,
        requested_user: value.1,
    }
}

impl UpdateBookRequestWithIds {
    pub fn new(book_id: BookId, user_id: UserId, request: UpdateBookRequest) -> (with_ids: Self)
        ensures
            with_ids == UpdateBookRequestWithIds(book_id, user_id, request),
    {
        UpdateBookRequestWithIds(book_id, user_id, request)
    }
}

impl From<UpdateBookRequestWithIds> for UpdateBook {
    fn from(value: UpdateBookRequestWithIds) -> (event: Self) {
        let UpdateBookRequestWithIds(
            book_id,
            user_id,
            UpdateBookRequest { title, author, isbn, description },
        ) = value;
        UpdateBook { book_id, title, author, isbn, description, requested_user: user_id }
    }
}

impl vstd::std_specs::convert::FromSpecImpl<UpdateBookRequestWithIds> for UpdateBook {
    open spec fn obeys_from_spec() -> bool {
        true
    }

    open spec fn from_spec(value: UpdateBookRequestWithIds) -> Self {
        update_book_event(value)
    }
}

/// How many books a page holds where the request does not say.
pub const DEFAULT_LIMIT: i64 = 20;

/// How many books a page holds where the request does not say.
pub fn default_limit() -> (limit: i64)
    ensures
        limit == DEFAULT_LIMIT,
{
    DEFAULT_LIMIT
}

/// The request for one page of the list of books.
#[derive(Debug, Clone, Copy, PartialEq, Eq, Structural)]
pub struct BookListQuery {
    pub limit: i64,
    pub offset: i64,
}

/// The window that a request for a page stands for.
pub open spec fn book_list_options(value: BookListQuery) -> BookListOptions {
    BookListOptions { limit: value.limit, offset: value.offset }
}

impl BookListQuery {
    /// The request that names neither limit nor offset.
    pub fn new() -> (query: Self)
        ensures
            query == (BookListQuery { limit: DEFAULT_LIMIT, offset: 0 }),
    {
        BookListQuery { limit: default_limit(), offset: 0 }
    }

    /// Accepts the request if neither limit nor offset is negative.
    pub fn validate(&self) -> (outcome: Result<(), AppError>)
        ensures
            accepts(
                outcome,
                or_else(
                    negative_refusal(self.limit, "limit"@),
                    negative_refusal(self.offset, "offset"@),
                ),
            ),
    {
        match require_not_negative(self.limit, "limit") {
            Err(e) => {
                return Err(e);
            },
            Ok(()) => {},
        }
        require_not_negative(self.offset, "offset")
    }
}

impl From<BookListQuery> for BookListOptions {
    fn from(value: BookListQuery) -> (options: Self) {
        let BookListQuery { limit, offset } = value;
        BookListOptions { limit, offset }
    }
}

impl vstd::std_specs::convert::FromSpecImpl<BookListQuery> for BookListOptions {
    open spec fn obeys_from_spec() -> bool {
        true
    }

    open spec fn from_spec(value: BookListQuery) -> Self {
        book_list_options(value)
    }
}

/// The loan of a book that is out, as part of the book's response.
#[derive(Debug)]
pub struct BookCheckoutResponse {
    pub id: CheckoutId,
    pub checked_out_by: CheckOutUser,
    pub checked_out_at: i64,
}

/// The loan of a book as a response.
pub open spec fn book_checkout_response(value: CheckoutInfo) -> BookCheckoutResponse {
    BookCheckoutResponse {
        id: value.checkout_id,
        checked_out_by: check_out_user_response(value.checked_out_by),
        checked_out_at: value.checked_out_at,
    }
}

impl From<CheckoutInfo> for BookCheckoutResponse {
    fn from(value: CheckoutInfo) -> (response: Self) {
        let CheckoutInfo { checkout_id, checked_out_by, checked_out_at } = value;
        BookCheckoutResponse {
            id: checkout_id,
            checked_out_by: CheckOutUser::from(checked_out_by),
            checked_out_at,
        }
    }
}

impl vstd::std_specs::convert::FromSpecImpl<CheckoutInfo> for BookCheckoutResponse {
    open spec fn obeys_from_spec() -> bool {
        true
    }

    open spec fn from_spec(value: CheckoutInfo) -> Self {
        book_checkout_response(value)
    }
}

/// A book as a response.
#[derive(Debug)]
pub struct BookResponse {
    pub id: BookId,
    pub title: String,
    pub author: String,
    pub isbn: String,
    pub description: String,
    pub owner: BookOwner,
    pub checkout_info: Option<BookCheckoutResponse>,
}

/// A book as a response.
pub open spec fn book_response(value: Book) -> BookResponse {
    BookResponse {
        id: value.id,
        title: value.title,
        author: value.author,
        isbn: value.isbn,
        description: value.description,
        owner: book_owner_response(value.owner),
        checkout_info: match value.checkout_info {
            Some(info) => Some(book_checkout_response(info)),
            None => None,
        },
    }
}

impl From<Book> for BookResponse {
    fn from(value: Book) -> (response: Self) {
        let Book { id, title, author, isbn, description, owner, checkout_info } = value;
        BookResponse {
            id,
            title,
            author,
            isbn,
            description,
            owner: BookOwner::from(owner),
            checkout_info: match checkout_info {
                Some(info) => Some(BookCheckoutResponse::from(info)),
                None => None,
            },
        }
    }
}

impl vstd::std_specs::convert::FromSpecImpl<Book> for BookResponse {
    open spec fn obeys_from_spec() -> bool {
        true
    }

    open spec fn from_spec(value: Book) -> Self {
        book_response(value)
    }
}

/// One page of the list of books as a response.
#[derive(Debug)]
pub struct PaginatedBookResponse {
    pub total: i64,
    pub limit: i64,
    pub offset: i64,
    pub items: Vec<BookResponse>,
}

impl PaginatedBookResponse {
    /// The page `value` as a response: the same numbers, and the books as
    /// responses in the same order.
    pub fn from(value: PaginatedList<Book>) -> (response: Self)
        ensures
            response.total == value.total,
            response.limit == value.limit,
            response.offset == value.offset,
            response.items@.len() == value.items@.len(),
            forall|i: int|
                0 <= i < value.items@.len() ==> response.items@[i] == book_response(
                    value.items@[i],
                ),
    {
        let PaginatedList { total, limit, offset, items } = value;
        let mut responses: Vec<BookResponse> = Vec::new();
        for book in iter: items.into_iter()
            invariant
                iter.seq() == items@,
                responses@.len() == iter.index(),
                forall|i: int|
                    0 <= i < responses@.len() ==> responses@[i] == book_response(items@[i]),
        {
            responses.push(BookResponse::from(book));
        }
        PaginatedBookResponse { total, limit, offset, items: responses }
    }
}

} // verus!
