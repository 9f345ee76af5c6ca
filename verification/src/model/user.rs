//! Users, and the commands that change them.

use crate::id::UserId;
use crate::model::role::Role;
use vstd::prelude::*;

verus! {

/// A user of the library.
#[derive(Debug)]
pub struct User {
    pub id: UserId,
    pub name: String,
    pub email: String,
    pub role: Role,
}

/// The user who owns a book.
#[derive(Debug)]
pub struct BookOwner {
    pub id: UserId,
    pub name: String,
}

/// The user who has a book out.
#[derive(Debug)]
pub struct CheckOutUser {
    pub id: UserId,
    pub name: String,
}

/// The command to add a user.
#[derive(Debug)]
pub struct CreateUser {
    pub name: String,
    pub email: String,
    pub password: String,
}

/// The command to give a user another role.
#[derive(Debug)]
pub struct UpdateUserRole {
    pub user_id: UserId,
    pub role: Role,
}

/// The command to change a user's password.
#[derive(Debug)]
pub struct UpdateUserPassword {
    pub user_id: UserId,
    pub current_password: String,
    pub new_password: String,
}

/// The command to remove a user.
#[derive(Debug)]
pub struct DeleteUser {
    pub user_id: UserId,
}

} // verus!
