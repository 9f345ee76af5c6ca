//! Passwords, and the decisions of the operations on users.

use crate::error::{AppError, AppErrorView};
use crate::id::UserId;
use crate::model::role::Role;
use crate::model::user::{CreateUser, User};
use vstd::prelude::*;

verus! {

/// `bcrypt::BcryptError`: why a password could not be hashed or checked.
/// The library carries it through and looks only at its text.
#[verifier::external_type_specification]
#[verifier::external_body]
pub struct ExBcryptError(bcrypt::BcryptError);

/// What `bcrypt::verify` makes of a password and a hash: whether the
/// password is the one that was hashed, or `None` where it rejects the hash.
pub uninterp spec fn bcrypt_verify(password: Seq<char>, hash: Seq<char>) -> Option<bool>;

/// The message of the error for a user that does not exist.
pub const USER_NOT_FOUND: &'static str = "Specified user not found";

/// The message of the error for a user that was not recorded.
pub const USER_NOT_CREATED: &'static str = "No user has been created";

/// `bcrypt::hash` at the cost `bcrypt::DEFAULT_COST`: the hash of the
/// password under a random salt. The hash differs from call to call, so the
/// contract gives it no name. It claims what holds of every hash that comes
/// back: `bcrypt::verify` takes the password for the one that was hashed,
/// because it hashes the password again, under the salt and the cost that
/// the hash carries, and compares.
#[verifier::external_body]
fn bcrypt_hash(password: &str) -> (hashed: Result<String, bcrypt::BcryptError>)
    ensures
        hashed is Ok ==> bcrypt_verify(password@, hashed->Ok_0@) == Some(true),
{
    bcrypt::hash(password, bcrypt::DEFAULT_COST)
}

/// `bcrypt::verify`. The contract only names the outcome: it is
/// [`bcrypt_verify`] of the two texts, an error standing for `None`.
#[verifier::external_body]
fn bcrypt_check(password: &str, hash: &str) -> (checked: Result<bool, bcrypt::BcryptError>)
    ensures
        match checked {
            Ok(same) => bcrypt_verify(password@, hash@) == Some(same),
            Err(_) => bcrypt_verify(password@, hash@) is None,
        },
{
    bcrypt::verify(password, hash)
}

/// The `Display` text of a `bcrypt::BcryptError`. Nothing is promised of it.
#[verifier::external_body]
fn describe_bcrypt_error(error: &bcrypt::BcryptError) -> String {
    error.to_string()
}

/// Hashes a password for storage. The hash differs from call to call, and
/// every one of them verifies the password it was made from; a failure of
/// the hashing is a `BcryptError`.
pub fn hash_password(password: &str) -> (hashed: Result<String, AppError>)
    ensures
        match hashed {
            Ok(hash) => bcrypt_verify(password@, hash@) == Some(true),
            Err(e) => e@ is BcryptError,
        },
{
    match bcrypt_hash(password) {
        Ok(hash) => Ok(hash),
        Err(e) => Err(AppError::BcryptError(describe_bcrypt_error(&e))),
    }
}

/// Decides on a checked password: one that is not the stored one fails the
/// login.
pub fn password_verdict(same: bool) -> (verdict: Result<(), AppError>)
    ensures
        same ==> verdict is Ok,
        !same ==> verdict is Err && verdict->Err_0@ == AppErrorView::UnauthenticatedError,
{
    if !same {
        return Err(AppError::UnauthenticatedError);
    }
    Ok(())
}

/// Checks a password against a stored hash: the right password passes, a
/// wrong one fails the login, and a text that is no hash is a
/// `BcryptError`.
pub fn verify_password(password: &str, hash: &str) -> (verdict: Result<(), AppError>)
    ensures
        match bcrypt_verify(password@, hash@) {
            Some(true) => verdict is Ok,
            Some(false) => verdict is Err && verdict->Err_0@ == AppErrorView::UnauthenticatedError,
            None => verdict is Err && verdict->Err_0@ is BcryptError,
        },
{
    match bcrypt_check(password, hash) {
        Ok(same) => password_verdict(same),
        Err(e) => Err(AppError::BcryptError(describe_bcrypt_error(&e))),
    }
}

/// The user that a command to add one creates: with the given identifier
/// and the role of an ordinary user.
pub fn new_user(id: UserId, event: CreateUser) -> (user: User)
    ensures
        user == (User { id, name: event.name, email: event.email, role: Role::User }),
{
    User { id, name: event.name, email: event.email, role: Role::User }
}

/// Decides on the insertion of a user: one that added no row is a fatal
/// failure.
pub fn check_user_created(affected: u64) -> (verdict: Result<(), AppError>)
    ensures
        affected < 1 ==> verdict is Err && verdict->Err_0@ == AppErrorView::NoRowsAffectedError(
            USER_NOT_CREATED@,
        ),
        affected >= 1 ==> verdict is Ok,
{
    if affected < 1 {
        return Err(AppError::NoRowsAffectedError(USER_NOT_CREATED.to_owned()));
    }
    Ok(())
}

/// Decides on a change or removal of a user: one that touched no row means
/// that the user does not exist.
pub fn check_user_found(affected: u64) -> (verdict: Result<(), AppError>)
    ensures
        affected < 1 ==> verdict is Err && verdict->Err_0@ == AppErrorView::NotFoundError(
            USER_NOT_FOUND@,
        ),
        affected >= 1 ==> verdict is Ok,
{
    if affected < 1 {
        return Err(AppError::NotFoundError(USER_NOT_FOUND.to_owned()));
    }
    Ok(())
}

} // verus!
