use bookmanager::error::AppError;

fn text(s: &str) -> String {
    s.to_string()
}

#[test]
fn every_error_has_its_status() {
    assert_eq!(AppError::UnprocessableEntity(text("x")).status_code(), 422);
    assert_eq!(AppError::NotFoundError(text("x")).status_code(), 404);
    assert_eq!(AppError::ValidationError(text("x")).status_code(), 400);
    assert_eq!(AppError::ConvertToUuidError(text("x")).status_code(), 400);
    assert_eq!(AppError::UnauthenticatedError.status_code(), 403);
    assert_eq!(AppError::ForbiddenError.status_code(), 403);
    assert_eq!(AppError::UnauthorizedError.status_code(), 401);
    assert_eq!(AppError::TransactionError(text("x")).status_code(), 503);
    assert_eq!(AppError::DatabaseOperationError(text("x")).status_code(), 500);
    assert_eq!(AppError::NoRowsAffectedError(text("x")).status_code(), 500);
    assert_eq!(AppError::KVSError(text("x")).status_code(), 500);
    assert_eq!(AppError::BcryptError(text("x")).status_code(), 500);
    assert_eq!(AppError::ConversionEntityError(text("x")).status_code(), 500);
    assert_eq!(AppError::InternalError(text("x")).status_code(), 500);
}

#[test]
fn only_a_lost_transaction_is_retryable() {
    assert!(AppError::TransactionError(text("x")).is_retryable());
    assert!(!AppError::UnprocessableEntity(text("x")).is_retryable());
    assert!(!AppError::NotFoundError(text("x")).is_retryable());
    assert!(!AppError::NoRowsAffectedError(text("x")).is_retryable());
    assert!(!AppError::DatabaseOperationError(text("x")).is_retryable());
    assert!(!AppError::UnauthenticatedError.is_retryable());
    assert!(!AppError::InternalError(text("x")).is_retryable());
}

#[test]
fn an_error_prints_its_message() {
    assert_eq!(AppError::NotFoundError(text("no such book")).to_string(), "no such book");
    assert_eq!(AppError::UnprocessableEntity(text("conflict")).to_string(), "conflict");
    assert_eq!(AppError::NoRowsAffectedError(text("nothing")).to_string(), "nothing");
    assert_eq!(AppError::UnauthenticatedError.to_string(), "login failed");
    assert_eq!(AppError::UnauthorizedError.to_string(), "authorization failed");
    assert_eq!(AppError::ForbiddenError.to_string(), "operation not permitted");
}
