//! The error type shared by every layer of the library.

use vstd::prelude::*;

verus! {

/// Everything that can go wrong in the library.
///
/// The checkout engine uses four of the variants:
/// `NotFoundError` (the book, or the loan to return, is absent),
/// `UnprocessableEntity` (the request conflicts with the current state),
/// `TransactionError` (the transaction lost against a concurrent one and may
/// be retried) and `NoRowsAffectedError` (a step that had to change exactly
/// one row changed none; never to be retried blindly).
#[derive(Debug)]
pub enum AppError {
    UnprocessableEntity(String),
    NotFoundError(String),
    ValidationError(String),
    TransactionError(String),
    DatabaseOperationError(String),
    NoRowsAffectedError(String),
    KVSError(String),
    BcryptError(String),
    ConvertToUuidError(String),
    UnauthenticatedError,
    UnauthorizedError,
    ForbiddenError,
    ConversionEntityError(String),
    InternalError(String),
}

/// The mathematical value of an [`AppError`]: the variant and its message.
pub enum AppErrorView {
    UnprocessableEntity(Seq<char>),
    NotFoundError(Seq<char>),
    ValidationError(Seq<char>),
    TransactionError(Seq<char>),
    DatabaseOperationError(Seq<char>),
    NoRowsAffectedError(Seq<char>),
    KVSError(Seq<char>),
    BcryptError(Seq<char>),
    ConvertToUuidError(Seq<char>),
    UnauthenticatedError,
    UnauthorizedError,
    ForbiddenError,
    ConversionEntityError(Seq<char>),
    InternalError(Seq<char>),
}

impl View for AppError {
    type V = AppErrorView;

    open spec fn view(&self) -> AppErrorView {
        match self {
            AppError::UnprocessableEntity(m) => AppErrorView::UnprocessableEntity(m@),
            AppError::NotFoundError(m) => AppErrorView::NotFoundError(m@),
            AppError::ValidationError(m) => AppErrorView::ValidationError(m@),
            AppError::TransactionError(m) => AppErrorView::TransactionError(m@),
            AppError::DatabaseOperationError(m) => AppErrorView::DatabaseOperationError(m@),
            AppError::NoRowsAffectedError(m) => AppErrorView::NoRowsAffectedError(m@),
            AppError::KVSError(m) => AppErrorView::KVSError(m@),
            AppError::BcryptError(m) => AppErrorView::BcryptError(m@),
            AppError::ConvertToUuidError(m) => AppErrorView::ConvertToUuidError(m@),
            AppError::UnauthenticatedError => AppErrorView::UnauthenticatedError,
            AppError::UnauthorizedError => AppErrorView::UnauthorizedError,
            AppError::ForbiddenError => AppErrorView::ForbiddenError,
            AppError::ConversionEntityError(m) => AppErrorView::ConversionEntityError(m@),
            AppError::InternalError(m) => AppErrorView::InternalError(m@),
        }
    }
}

/// The HTTP status that stands for an error towards the caller.
///
/// Absent resources answer 404, requests that the current state forbids 422,
/// malformed input 400, a lost transaction 503 (temporarily unavailable, the
/// caller may retry), and every other internal failure 500.
pub open spec fn status_of(e: AppErrorView) -> u16 {
    match e {
        AppErrorView::UnprocessableEntity(_) => 422,
        AppErrorView::NotFoundError(_) => 404,
        AppErrorView::ValidationError(_) | AppErrorView::ConvertToUuidError(_) => 400,
        AppErrorView::UnauthenticatedError | AppErrorView::ForbiddenError => 403,
        AppErrorView::UnauthorizedError => 401,
        AppErrorView::TransactionError(_) => 503,
        AppErrorView::DatabaseOperationError(_)
        | AppErrorView::NoRowsAffectedError(_)
        | AppErrorView::KVSError(_)
        | AppErrorView::BcryptError(_)
        | AppErrorView::ConversionEntityError(_)
        | AppErrorView::InternalError(_) => 500,
    }
}

/// The message that an error carries; the variants without one have a fixed
/// text.
pub open spec fn message_of(e: AppErrorView) -> Seq<char> {
    match e {
        AppErrorView::UnprocessableEntity(m) => m,
        AppErrorView::NotFoundError(m) => m,
        AppErrorView::ValidationError(m) => m,
        AppErrorView::TransactionError(m) => m,
        AppErrorView::DatabaseOperationError(m) => m,
        AppErrorView::NoRowsAffectedError(m) => m,
        AppErrorView::KVSError(m) => m,
        AppErrorView::BcryptError(m) => m,
        AppErrorView::ConvertToUuidError(m) => m,
        AppErrorView::UnauthenticatedError => "login failed"@,
        AppErrorView::UnauthorizedError => "authorization failed"@,
        AppErrorView::ForbiddenError => "operation not permitted"@,
        AppErrorView::ConversionEntityError(m) => m,
        AppErrorView::InternalError(m) => m,
    }
}

impl AppError {
    /// The HTTP status to answer with.
    pub fn status_code(&self) -> (code: u16)
        ensures
            code == status_of(self@),
    {
        match self {
            AppError::UnprocessableEntity(_) => 422,
            AppError::NotFoundError(_) => 404,
            AppError::ValidationError(_) | AppError::ConvertToUuidError(_) => 400,
            AppError::UnauthenticatedError | AppError::ForbiddenError => 403,
            AppError::UnauthorizedError => 401,
            AppError::TransactionError(_) => 503,
            _ => 500,
        }
    }

    /// Whether the caller may simply issue the same command again: true of a
    /// lost transaction and of nothing else.
    pub fn is_retryable(&self) -> (retry: bool)
        ensures
            retry == (self@ is TransactionError),
    {
        match self {
            AppError::TransactionError(_) => true,
            _ => false,
        }
    }

    /// The error's message as text.
    pub fn to_string(&self) -> (text: String)
        ensures
            text@ == message_of(self@),
    {
        match self {
            AppError::UnprocessableEntity(m) => m.clone(),
            AppError::NotFoundError(m) => m.clone(),
            AppError::ValidationError(m) => m.clone(),
            AppError::TransactionError(m) => m.clone(),
            AppError::DatabaseOperationError(m) => m.clone(),
            AppError::NoRowsAffectedError(m) => m.clone(),
            AppError::KVSError(m) => m.clone(),
            AppError::BcryptError(m) => m.clone(),
            AppError::ConvertToUuidError(m) => m.clone(),
            AppError::UnauthenticatedError => "login failed".to_owned(),
            AppError::UnauthorizedError => "authorization failed".to_owned(),
            AppError::ForbiddenError => "operation not permitted".to_owned(),
            AppError::ConversionEntityError(m) => m.clone(),
            AppError::InternalError(m) => m.clone(),
        }
    }
}

} // verus!
