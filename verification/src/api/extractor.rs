//! The identity of the caller.

use crate::error::{AppError, AppErrorView};
use crate::id::UserId;
use crate::model::auth::AccessToken;
use crate::model::role::Role;
use crate::model::user::User;
use vstd::prelude::*;

verus! {

/// A caller who presented a valid access token.
#[derive(Debug)]
pub struct AuthorizedUser {
    pub access_token: AccessToken,
    pub user: User,
}

/// The text before the token in an `Authorization` header.
pub const BEARER: &'static str = "Bearer ";

/// Decides on what the token store knows of an access token: a token that
/// stands for no user fails the login.
pub fn user_id_of_token(found: Option<UserId>) -> (outcome: Result<UserId, AppError>)
    ensures
        match found {
            Some(user_id) => outcome == Ok::<UserId, AppError>(user_id),
            None => outcome is Err && outcome->Err_0@ == AppErrorView::UnauthenticatedError,
        },
{
    match found {
        Some(user_id) => Ok(user_id),
        None => Err(AppError::UnauthenticatedError),
    }
}

/// Decides on the user that an access token stands for: a user who is no
/// longer there fails the login; otherwise the caller is that user, with
/// the token.
pub fn authorize(access_token: AccessToken, user: Option<User>) -> (outcome: Result<
    AuthorizedUser,
    AppError,
>)
    ensures
        match user {
            Some(u) => outcome == Ok::<AuthorizedUser, AppError>(
                AuthorizedUser { access_token, user: u },
            ),
            None => outcome is Err && outcome->Err_0@ == AppErrorView::UnauthenticatedError,
        },
{
    match user {
        Some(u) => Ok(AuthorizedUser { access_token, user: u }),
        None => Err(AppError::UnauthenticatedError),
    }
}

/// Decides on a request without a bearer token: it is not authorized.
pub fn token_of_header(token: Option<String>) -> (outcome: Result<AccessToken, AppError>)
    ensures
        match token {
            Some(text) => outcome == Ok::<AccessToken, AppError>(AccessToken(text)),
            None => outcome is Err && outcome->Err_0@ == AppErrorView::UnauthorizedError,
        },
{
    match token {
        Some(text) => Ok(AccessToken(text)),
        None => Err(AppError::UnauthorizedError),
    }
}

impl AuthorizedUser {
    /// The caller's identifier.
    pub fn id(&self) -> (id: UserId)
        ensures
            id == self.user.id,
    {
        self.user.id
    }

    /// Whether the caller is an administrator.
    pub fn is_admin(&self) -> (admin: bool)
        ensures
            admin == (self.user.role == Role::Admin),
    {
        self.user.role == Role::Admin
    }
}

} // verus!
