//! The roles a user can have.

use crate::error::{AppError, AppErrorView};
use vstd::prelude::*;

verus! {

/// What a user may do: administrators manage users, everyone lends books.
#[derive(Debug, Clone, Copy, PartialEq, Eq, Structural)]
pub enum Role {
    Admin,
    User,
}

/// The name under which a role is stored.
pub open spec fn role_name(role: Role) -> Seq<char> {
    match role {
        Role::Admin => "Admin"@,
        Role::User => "User"@,
    }
}

/// The role that is stored under a name, if the name is one of a role.
pub open spec fn role_named(name: Seq<char>) -> Option<Role> {
    if name == "Admin"@ {
        Some(Role::Admin)
    } else if name == "User"@ {
        Some(Role::User)
    } else {
        None
    }
}

impl Role {
    /// Reads a role from the name under which it is stored. A name of no
    /// role is a `ConversionEntityError` that carries the name.
    pub fn from_str(name: &str) -> (parsed: Result<Role, AppError>)
        ensures
            match role_named(name@) {
                Some(role) => parsed == Ok::<Role, AppError>(role),
                None => parsed is Err && parsed->Err_0@ == AppErrorView::ConversionEntityError(
                    name@,
                ),
            },
    {
        let text = name.to_owned();
        if text == "Admin".to_owned() {
            Ok(Role::Admin)
        } else if text == "User".to_owned() {
            Ok(Role::User)
        } else {
            Err(AppError::ConversionEntityError(text))
        }
    }

    /// The name under which the role is stored.
    pub fn as_ref(&self) -> (name: &'static str)
        ensures
            name@ == role_name(*self),
    {
        match self {
            Role::Admin => "Admin",
            Role::User => "User",
        }
    }
}

} // verus!
