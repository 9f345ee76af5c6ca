//! Users as requests and responses.

use crate::api::validation::{
    accepts, email_refusal, empty_refusal, garde_parse_email, or_else, require_email, require_filled,
};
use crate::error::AppError;
use crate::id::UserId;
use crate::model::role::Role;
use crate::model::user::{CreateUser, UpdateUserPassword, UpdateUserRole, User};
use vstd::prelude::*;

verus! {

/// A role as requests and responses name it.
#[derive(Debug, Clone, Copy, PartialEq, Eq, Structural)]
pub enum RoleName {
    Admin,
    User,
}

/// The role that a name stands for.
pub open spec fn role_of(name: RoleName) -> Role {
    match name {
        RoleName::Admin => Role::Admin,
        RoleName::User => Role::User,
    }
}

/// The name that stands for a role.
pub open spec fn name_of(role: Role) -> RoleName {
    match role {
        Role::Admin => RoleName::Admin,
        Role::User => RoleName::User,
    }
}

/// Names and roles stand for each other, one for one.
pub proof fn lemma_role_names(role: Role, name: RoleName)
    ensures
        role_of(name_of(role)) == role,
        name_of(role_of(name)) == name,
{
}

impl From<Role> for RoleName {
    fn from(value: Role) -> (name: Self) {
        match value {
            Role::Admin => RoleName::Admin,
            Role::User => RoleName::User,
        }
    }
}

impl vstd::std_specs::convert::FromSpecImpl<Role> for RoleName {
    open spec fn obeys_from_spec() -> bool {
        true
    }

    open spec fn from_spec(value: Role) -> Self {
        name_of(value)
    }
}

impl From<RoleName> for Role {
    fn from(value: RoleName) -> (role: Self) {
        match value {
            RoleName::Admin => Role::Admin,
            RoleName::User => Role::User,
        }
    }
}

impl vstd::std_specs::convert::FromSpecImpl<RoleName> for Role {
    open spec fn obeys_from_spec() -> bool {
        true
    }

    open spec fn from_spec(value: RoleName) -> Self {
        role_of(value)
    }
}

/// A user as a response.
#[derive(Debug)]
pub struct UserResponse {
    pub id: UserId,
    pub name: String,
    pub email: String,
    pub role: RoleName,
}

/// A user as a response.
pub open spec fn user_response(value: User) -> UserResponse {
    UserResponse { id: value.id, name: value.name, email: value.email, role: name_of(value.role) }
}

impl From<User> for UserResponse {
    fn from(value: User) -> (response: Self) {
        let User { id, name, email, role } = value;
        UserResponse { id, name, email, role: RoleName::from(role) }
    }
}

impl vstd::std_specs::convert::FromSpecImpl<User> for UserResponse {
    open spec fn obeys_from_spec() -> bool {
        true
    }

    open spec fn from_spec(value: User) -> Self {
        user_response(value)
    }
}

/// A list of users as a response.
#[derive(Debug)]
pub struct UsersResponse {
    pub users: Vec<UserResponse>,
}

impl UsersResponse {
    /// The users of `value` as responses, in the same order.
    pub fn from(value: Vec<User>) -> (response: Self)
        ensures
            response.users@.len() == value@.len(),
            forall|i: int|
                0 <= i < value@.len() ==> response.users@[i] == user_response(value@[i]),
    {
        let mut users: Vec<UserResponse> = Vec::new();
        for user in iter: value.into_iter()
            invariant
                iter.seq() == value@,
                users@.len() == iter.index(),
                forall|i: int| 0 <= i < users@.len() ==> users@[i] == user_response(value@[i]),
        {
            users.push(UserResponse::from(user));
        }
        UsersResponse { users }
    }
}

/// The request to change one's password.
#[derive(Debug)]
pub struct UpdateUserPasswordRequest {
    pub current_password: String,
    pub new_password: String,
}

impl UpdateUserPasswordRequest {
    /// Accepts the request if both passwords are filled in.
    pub fn validate(&self) -> (outcome: Result<(), AppError>)
        ensures
            accepts(
                outcome,
                or_else(
                    empty_refusal(self.current_password@, "current_password"@),
                    empty_refusal(self.new_password@, "new_password"@),
                ),
            ),
    {
        match require_filled(&self.current_password, "current_password") {
            Err(e) => {
                return Err(e);
            },
            Ok(()) => {},
        }
        require_filled(&self.new_password, "new_password")
    }
}

/// A request to change a password, with the user it is about.
#[derive(Debug)]
pub struct UpdateUserPasswordRequestWithUserId(pub UserId, pub UpdateUserPasswordRequest);

/// The command that a request to change a password stands for.
pub open spec fn update_user_password_event(
    value: UpdateUserPasswordRequestWithUserId,
) -> UpdateUserPassword {
    UpdateUserPassword {
        user_id: value.0,
        current_password: value.1.current_password,
        new_password: value.1.new_password,
    }
}

impl UpdateUserPasswordRequestWithUserId {
    pub fn new(user_id: UserId, request: UpdateUserPasswordRequest) -> (with_id: Self)
        ensures
            with_id == UpdateUserPasswordRequestWithUserId(user_id, request),
    {
        UpdateUserPasswordRequestWithUserId(user_id, request)
    }
}

impl From<UpdateUserPasswordRequestWithUserId> for UpdateUserPassword {
    fn from(value: UpdateUserPasswordRequestWithUserId) -> (event: Self) {
        let UpdateUserPasswordRequestWithUserId(
            user_id,
            UpdateUserPasswordRequest { current_password, new_password },
        ) = value;
        UpdateUserPassword { user_id, current_password, new_password }
    }
}

impl vstd::std_specs::convert::FromSpecImpl<UpdateUserPasswordRequestWithUserId> for UpdateUserPassword {
    open spec fn obeys_from_spec() -> bool {
        true
    }

    open spec fn from_spec(value: UpdateUserPasswordRequestWithUserId) -> Self {
        update_user_password_event(value)
    }
}

/// The request to add a user.
#[derive(Debug)]
pub struct CreateUserRequest {
    pub name: String,
    pub email: String,
    pub password: String,
}

/// The command that a request to add a user stands for.
pub open spec fn create_user_event(value: CreateUserRequest) -> CreateUser {
    CreateUser { name: value.name, email: value.email, password: value.password }
}

impl CreateUserRequest {
    /// Accepts the request if the name and the password are filled in and
    /// the e-mail address is one.
    pub fn validate(&self) -> (outcome: Result<(), AppError>)
        ensures
            accepts(
                outcome,
                or_else(
                    empty_refusal(self.name@, "name"@),
                    or_else(
                        email_refusal(garde_parse_email(self.email@), "email"@),
                        empty_refusal(self.password@, "password"@),
                    ),
                ),
            ),
    {
        match require_filled(&self.name, "name") {
            Err(e) => {
                return Err(e);
            },
            Ok(()) => {},
        }
        match require_email(&self.email, "email") {
            Err(e) => {
                return Err(e);
            },
            Ok(()) => {},
        }
        require_filled(&self.password, "password")
    }
}

impl From<CreateUserRequest> for CreateUser {
    fn from(value: CreateUserRequest) -> (event: Self) {
        let CreateUserRequest { name, email, password } = value;
        CreateUser { name, email, password }
    }
}

impl vstd::std_specs::convert::FromSpecImpl<CreateUserRequest> for CreateUser {
    open spec fn obeys_from_spec() -> bool {
        true
    }

    open spec fn from_spec(value: CreateUserRequest) -> Self {
        create_user_event(value)
    }
}

/// The request to give a user another role.
#[derive(Debug, Clone, Copy, PartialEq, Eq, Structural)]
pub struct UpdateUserRoleRequest {
    pub role: RoleName,
}

/// A request to change a role, with the user it is about.
#[derive(Debug, Clone, Copy, PartialEq, Eq, Structural)]
pub struct UpdateUserRoleRequestWithUserId(pub UserId, pub UpdateUserRoleRequest);

/// The command that a request to change a role stands for.
pub open spec fn update_user_role_event(value: UpdateUserRoleRequestWithUserId) -> UpdateUserRole {
    UpdateUserRole { user_id: value.0, role: role_of(value.1.role) }
}

impl UpdateUserRoleRequestWithUserId {
    pub fn new(user_id: UserId, request: UpdateUserRoleRequest) -> (with_id: Self)
        ensures
            with_id == UpdateUserRoleRequestWithUserId(user_id, request),
    {
        UpdateUserRoleRequestWithUserId(user_id, request)
    }
}

impl From<UpdateUserRoleRequestWithUserId> for UpdateUserRole {
    fn from(value: UpdateUserRoleRequestWithUserId) -> (event: Self) {
        let UpdateUserRoleRequestWithUserId(user_id, UpdateUserRoleRequest { role }) = value;
        UpdateUserRole { user_id, role: Role::from(role) }
    }
}

impl vstd::std_specs::convert::FromSpecImpl<UpdateUserRoleRequestWithUserId> for UpdateUserRole {
    open spec fn obeys_from_spec() -> bool {
        true
    }

    open spec fn from_spec(value: UpdateUserRoleRequestWithUserId) -> Self {
        update_user_role_event(value)
    }
}

/// The owner of a book, as part of the book's response.
#[derive(Debug)]
pub struct BookOwner {
    pub id: UserId,
    pub name: String,
}

/// The owner of a book as a response.
pub open spec fn book_owner_response(value: crate::model::user::BookOwner) -> BookOwner {
    BookOwner { id: value.id, name: value.name }
}

impl From<crate::model::user::BookOwner> for BookOwner {
    fn from(value: crate::model::user::BookOwner) -> (response: Self) {
        let crate::model::user::BookOwner { id, name } = value;
        BookOwner { id, name }
    }
}

impl vstd::std_specs::convert::FromSpecImpl<crate::model::user::BookOwner> for BookOwner {
    open spec fn obeys_from_spec() -> bool {
        true
    }

    open spec fn from_spec(value: crate::model::user::BookOwner) -> Self {
        book_owner_response(value)
    }
}

/// The borrower of a book, as part of the book's response.
#[derive(Debug)]
pub struct CheckOutUser {
    pub id: UserId,
    pub name: String,
}

/// The borrower of a book as a response.
pub open spec fn check_out_user_response(value: crate::model::user::CheckOutUser) -> CheckOutUser {
    CheckOutUser { id: value.id, name: value.name }
}

impl From<crate::model::user::CheckOutUser> for CheckOutUser {
    fn from(value: crate::model::user::CheckOutUser) -> (response: Self) {
        let crate::model::user::CheckOutUser { id, name } = value;
        CheckOutUser { id, name }
    }
}

impl vstd::std_specs::convert::FromSpecImpl<crate::model::user::CheckOutUser> for CheckOutUser {
    open spec fn obeys_from_spec() -> bool {
        true
    }

    open spec fn from_spec(value: crate::model::user::CheckOutUser) -> Self {
        check_out_user_response(value)
    }
}

} // verus!
