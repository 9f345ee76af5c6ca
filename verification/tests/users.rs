use bookmanager::api::extractor::{
    authorize, token_of_header, user_id_of_token, AuthorizedUser, BEARER,
};
use bookmanager::api::handler::user::{get_current_user, require_admin};
use bookmanager::api::model::user::{
    CreateUserRequest, RoleName, UpdateUserPasswordRequest, UpdateUserPasswordRequestWithUserId,
    UpdateUserRoleRequest, UpdateUserRoleRequestWithUserId, UserResponse, UsersResponse,
};
use bookmanager::api::validation::{email_verdict, require_email};
use bookmanager::error::AppError;
use bookmanager::id::UserId;
use bookmanager::model::auth::AccessToken;
use bookmanager::model::role::Role;
use bookmanager::model::user::{CreateUser, UpdateUserPassword, UpdateUserRole, User};
use bookmanager::repository::user::{
    check_user_created, check_user_found, hash_password, new_user, password_verdict,
    verify_password,
};

fn user(id: u128, role: Role) -> User {
    User { id: UserId(id), name: format!("user {}", id), email: format!("u{}@example.com", id), role }
}

fn caller(id: u128, role: Role) -> AuthorizedUser {
    AuthorizedUser { access_token: AccessToken("token".to_string()), user: user(id, role) }
}

#[test]
fn the_caller_has_an_id_and_maybe_admin_rights() {
    let admin = caller(1, Role::Admin);
    let plain = caller(2, Role::User);
    assert_eq!(admin.id(), UserId(1));
    assert_eq!(plain.id(), UserId(2));
    assert!(admin.is_admin());
    assert!(!plain.is_admin());
}

#[test]
fn only_admins_pass_the_gate() {
    assert!(require_admin(&caller(1, Role::Admin)).is_ok());
    let refused = require_admin(&caller(2, Role::User)).unwrap_err();
    assert!(matches!(refused, AppError::ForbiddenError));
    assert_eq!(refused.status_code(), 403);
}

#[test]
fn the_caller_is_shown_as_a_response() {
    let response = get_current_user(caller(7, Role::Admin));
    assert_eq!(response.id, UserId(7));
    assert_eq!(response.name, "user 7");
    assert_eq!(response.email, "u7@example.com");
    assert_eq!(response.role, RoleName::Admin);
}

#[test]
fn roles_and_names_convert_both_ways() {
    assert_eq!(RoleName::from(Role::Admin), RoleName::Admin);
    assert_eq!(RoleName::from(Role::User), RoleName::User);
    assert_eq!(Role::from(RoleName::Admin), Role::Admin);
    assert_eq!(Role::from(RoleName::User), Role::User);
    assert_eq!(Role::Admin.as_ref(), "Admin");
    assert_eq!(Role::User.as_ref(), "User");
}

#[test]
fn users_become_responses_in_order() {
    let response = UsersResponse::from(vec![user(3, Role::User), user(1, Role::Admin)]);
    assert_eq!(response.users.len(), 2);
    assert_eq!(response.users[0].id, UserId(3));
    assert_eq!(response.users[0].role, RoleName::User);
    assert_eq!(response.users[1].id, UserId(1));
    assert_eq!(response.users[1].name, "user 1");
    assert_eq!(response.users[1].role, RoleName::Admin);
    assert!(UsersResponse::from(Vec::new()).users.is_empty());
    let one = UserResponse::from(user(4, Role::User));
    assert_eq!(one.email, "u4@example.com");
}

#[test]
fn requests_become_commands() {
    let event = CreateUser::from(CreateUserRequest {
        name: "n".to_string(),
        email: "e@example.com".to_string(),
        password: "p".to_string(),
    });
    assert_eq!((event.name.as_str(), event.email.as_str(), event.password.as_str()), ("n", "e@example.com", "p"));

    let event = UpdateUserPassword::from(UpdateUserPasswordRequestWithUserId::new(
        UserId(5),
        UpdateUserPasswordRequest {
            current_password: "old".to_string(),
            new_password: "new".to_string(),
        },
    ));
    assert_eq!(event.user_id, UserId(5));
    assert_eq!(event.current_password, "old");
    assert_eq!(event.new_password, "new");

    let event = UpdateUserRole::from(UpdateUserRoleRequestWithUserId::new(
        UserId(6),
        UpdateUserRoleRequest { role: RoleName::Admin },
    ));
    assert_eq!(event.user_id, UserId(6));
    assert_eq!(event.role, Role::Admin);
}

#[test]
fn a_password_request_needs_both_passwords() {
    let request = |current: &str, new: &str| UpdateUserPasswordRequest {
        current_password: current.to_string(),
        new_password: new.to_string(),
    };
    assert!(request("a", "b").validate().is_ok());
    match request("", "b").validate() {
        Err(AppError::ValidationError(field)) => assert_eq!(field, "current_password"),
        other => panic!("expected a validation error, got {:?}", other),
    }
    match request("a", "").validate() {
        Err(AppError::ValidationError(field)) => assert_eq!(field, "new_password"),
        other => panic!("expected a validation error, got {:?}", other),
    }
    match request("", "").validate() {
        Err(AppError::ValidationError(field)) => assert_eq!(field, "current_password"),
        other => panic!("expected a validation error, got {:?}", other),
    }
}

#[test]
fn a_known_hash_verifies_its_password() {
    let hash = "$2b$04$EGdrhbKUv8Oc9vGiXX0HQOxSg445d458Muh7DAHskb6QbtCvdxcie";
    assert!(verify_password("correctbatteryhorsestapler", hash).is_ok());
}

#[test]
fn a_wrong_password_fails_the_login() {
    let hash = "$2b$04$EGdrhbKUv8Oc9vGiXX0HQOxSg445d458Muh7DAHskb6QbtCvdxcie";
    let refused = verify_password("wrong", hash).unwrap_err();
    assert!(matches!(refused, AppError::UnauthenticatedError));
    assert_eq!(refused.status_code(), 403);
}

#[test]
fn a_text_that_is_no_hash_is_an_error() {
    let refused = verify_password("password", "not a hash").unwrap_err();
    assert!(matches!(refused, AppError::BcryptError(_)));
    assert_eq!(refused.status_code(), 500);
    assert!(matches!(verify_password("password", ""), Err(AppError::BcryptError(_))));
}

#[test]
fn a_hashed_password_verifies() {
    let hash = hash_password("test_password").unwrap();
    assert_ne!(hash, "test_password");
    assert!(hash.starts_with("$2b$12$"));
    assert!(verify_password("test_password", &hash).is_ok());
}

#[test]
fn the_verdict_follows_the_comparison() {
    assert!(password_verdict(true).is_ok());
    assert!(matches!(password_verdict(false), Err(AppError::UnauthenticatedError)));
}

#[test]
fn a_new_user_is_an_ordinary_user() {
    let created = new_user(
        UserId(9),
        CreateUser {
            name: "Test User".to_string(),
            email: "test@example.com".to_string(),
            password: "test_password".to_string(),
        },
    );
    assert_eq!(created.id, UserId(9));
    assert_eq!(created.name, "Test User");
    assert_eq!(created.email, "test@example.com");
    assert_eq!(created.role, Role::User);
}

#[test]
fn untouched_rows_decide_the_error() {
    assert!(check_user_created(1).is_ok());
    match check_user_created(0) {
        Err(AppError::NoRowsAffectedError(message)) => assert_eq!(message, "No user has been created"),
        other => panic!("expected a fatal failure, got {:?}", other),
    }
    assert!(check_user_found(1).is_ok());
    match check_user_found(0) {
        Err(AppError::NotFoundError(message)) => assert_eq!(message, "Specified user not found"),
        other => panic!("expected not found, got {:?}", other),
    }
}

#[test]
fn a_user_request_needs_name_email_and_password() {
    let request = |name: &str, email: &str, password: &str| CreateUserRequest {
        name: name.to_string(),
        email: email.to_string(),
        password: password.to_string(),
    };
    let field = |outcome: Result<(), AppError>| match outcome {
        Err(AppError::ValidationError(field)) => field,
        other => panic!("expected a validation error, got {:?}", other),
    };
    assert!(request("Test User", "test@example.com", "test_password").validate().is_ok());
    assert_eq!(field(request("", "test@example.com", "p").validate()), "name");
    assert_eq!(field(request("n", "", "p").validate()), "email");
    assert_eq!(field(request("n", "no-at-sign", "p").validate()), "email");
    assert_eq!(field(request("n", "a@b@c", "p").validate()), "email");
    assert_eq!(field(request("n", "a b@example.com", "p").validate()), "email");
    assert_eq!(field(request("n", "test@example.com", "").validate()), "password");
    assert_eq!(field(request("", "nope", "").validate()), "name");
}

#[test]
fn e_mail_addresses_are_checked() {
    assert!(require_email(&"someone@example.com".to_string(), "email").is_ok());
    assert!(require_email(&"first.last+tag@sub.example.org".to_string(), "email").is_ok());
    assert!(require_email(&"someone@[127.0.0.1]".to_string(), "email").is_ok());
    assert!(require_email(&"someone@".to_string(), "email").is_err());
    assert!(require_email(&"@example.com".to_string(), "email").is_err());
    assert!(email_verdict(true, "email").is_ok());
    assert!(matches!(email_verdict(false, "email"), Err(AppError::ValidationError(_))));
}

#[test]
fn a_token_must_stand_for_a_user() {
    assert_eq!(BEARER, "Bearer ");
    let token = token_of_header(Some("abc".to_string())).unwrap();
    assert_eq!(token.0, "abc");
    assert!(matches!(token_of_header(None), Err(AppError::UnauthorizedError)));
    assert_eq!(token_of_header(None).unwrap_err().status_code(), 401);

    assert_eq!(user_id_of_token(Some(UserId(3))).unwrap(), UserId(3));
    assert!(matches!(user_id_of_token(None), Err(AppError::UnauthenticatedError)));

    let known = authorize(AccessToken("abc".to_string()), Some(user(3, Role::Admin))).unwrap();
    assert_eq!(known.access_token.0, "abc");
    assert_eq!(known.id(), UserId(3));
    assert!(known.is_admin());
    let gone = authorize(AccessToken("abc".to_string()), None);
    assert!(matches!(gone, Err(AppError::UnauthenticatedError)));
}

#[test]
fn roles_are_read_from_their_stored_names() {
    assert_eq!(Role::from_str("Admin").unwrap(), Role::Admin);
    assert_eq!(Role::from_str("User").unwrap(), Role::User);
    for name in ["admin", "USER", "", "Owner"] {
        match Role::from_str(name) {
            Err(AppError::ConversionEntityError(carried)) => assert_eq!(carried, name),
            other => panic!("expected a conversion error, got {:?}", other),
        }
    }
    assert_eq!(Role::from_str(Role::Admin.as_ref()).unwrap(), Role::Admin);
    assert_eq!(Role::from_str(Role::User.as_ref()).unwrap(), Role::User);
}

#[test]
fn a_hashed_password_rejects_another_password() {
    let hash = hash_password("test_password").unwrap();
    assert_eq!(hash.len(), 60);
    let refused = verify_password("test_passwore", &hash).unwrap_err();
    assert!(matches!(refused, AppError::UnauthenticatedError));
}

#[test]
fn two_hashes_of_one_password_differ_and_both_verify() {
    let password = "correct horse";
    let first = hash_password(password).unwrap();
    let second = hash_password(password).unwrap();
    assert_ne!(first, second);
    assert!(verify_password(password, &first).is_ok());
    assert!(verify_password(password, &second).is_ok());
}
