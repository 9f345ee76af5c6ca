//! Requests about users.

use crate::api::extractor::AuthorizedUser;
use crate::api::handler::checkout::response_shows;
use crate::api::model::checkout::CheckoutsResponse;
use crate::api::model::user::{user_response, UserResponse};
use crate::error::{AppError, AppErrorView};
use crate::model::checkout::checkout_views;
use crate::model::role::Role;
use crate::repository::checkout::CheckoutRepositoryImpl;
use vstd::prelude::*;

verus! {

/// Lets only administrators pass: everyone else is forbidden.
pub fn require_admin(user: &AuthorizedUser) -> (verdict: Result<(), AppError>)
    ensures
        user.user.role == Role::Admin ==> verdict is Ok,
        user.user.role != Role::Admin ==> verdict is Err && verdict->Err_0@
            == AppErrorView::ForbiddenError,
{
    if !user.is_admin() {
        return Err(AppError::ForbiddenError);
    }
    Ok(())
}

/// The caller, as a response.
pub fn get_current_user(user: AuthorizedUser) -> (response: UserResponse)
    ensures
        response == user_response(user.user),
{
    UserResponse::from(user.user)
}

/// The caller's loans that are out, oldest first.
pub fn get_checkouts(user: &AuthorizedUser, registry: &CheckoutRepositoryImpl) -> (outcome: Result<
    CheckoutsResponse,
    AppError,
>)
    requires
        registry.wf(),
    ensures
        outcome is Ok,
        outcome->Ok_0.items@.len() == registry@.unreturned_by_user(user.user.id).len(),
        forall|i: int|
            0 <= i < outcome->Ok_0.items@.len() ==> response_shows(
                #[trigger] outcome->Ok_0.items@[i],
                registry@.unreturned_by_user(user.user.id)[i],
            ),
{
    match registry.find_unreturned_by_user_id(user.id()) {
        Ok(list) => {
            let response = CheckoutsResponse::from(list);
            proof {
                assert forall|i: int| 0 <= i < response.items@.len() implies response_shows(
                    #[trigger] response.items@[i],
                    registry@.unreturned_by_user(user.user.id)[i],
                ) by {
                    assert(checkout_views(list@)[i] == list@[i]@);
                }
            }
            Ok(response)
        },
        Err(e) => Err(e),
    }
}

} // verus!
