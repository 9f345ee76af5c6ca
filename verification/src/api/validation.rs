//! The rules that requests must meet before they are taken.

use crate::error::{AppError, AppErrorView};
use vstd::prelude::*;

verus! {

/// The refusal of an empty text: a validation error that names the field.
pub open spec fn empty_refusal(value: Seq<char>, field: Seq<char>) -> Option<AppErrorView> {
    if value.len() == 0 {
        Some(AppErrorView::ValidationError(field))
    } else {
        None
    }
}

/// The refusal of a negative number: a validation error that names the
/// field.
pub open spec fn negative_refusal(value: i64, field: Seq<char>) -> Option<AppErrorView> {
    if value < 0 {
        Some(AppErrorView::ValidationError(field))
    } else {
        None
    }
}

/// What `garde::rules::email::parse_email` makes of a text: whether it
/// takes the text for an e-mail address.
pub uninterp spec fn garde_parse_email(text: Seq<char>) -> bool;

/// The refusal of a text that is no e-mail address: a validation error that
/// names the field.
pub open spec fn email_refusal(valid: bool, field: Seq<char>) -> Option<AppErrorView> {
    if valid {
        None
    } else {
        Some(AppErrorView::ValidationError(field))
    }
}

/// The first refusal of the two, if there is one.
pub open spec fn or_else(first: Option<AppErrorView>, second: Option<AppErrorView>) -> Option<
    AppErrorView,
> {
    if first is Some {
        first
    } else {
        second
    }
}

/// `outcome` is a failure with exactly the error `refusal`, or a success
/// where there is none.
pub open spec fn accepts(outcome: Result<(), AppError>, refusal: Option<AppErrorView>) -> bool {
    match refusal {
        Some(e) => outcome is Err && outcome->Err_0@ == e,
        None => outcome is Ok,
    }
}

/// Requires a text to have at least one character.
pub fn require_filled(value: &String, field: &str) -> (outcome: Result<(), AppError>)
    ensures
        accepts(outcome, empty_refusal(value@, field@)),
{
    if value.as_str().is_empty() {
        Err(AppError::ValidationError(field.to_owned()))
    } else {
        Ok(())
    }
}

/// `garde::rules::email::parse_email`. The contract only names the outcome:
/// it is [`garde_parse_email`] of the text.
#[verifier::external_body]
fn is_email(text: &str) -> (valid: bool)
    ensures
        valid == garde_parse_email(text@),
{
    garde::rules::email::parse_email(text).is_ok()
}

/// Decides on a text that was checked for being an e-mail address.
pub fn email_verdict(valid: bool, field: &str) -> (outcome: Result<(), AppError>)
    ensures
        accepts(outcome, email_refusal(valid, field@)),
{
    if valid {
        Ok(())
    } else {
        Err(AppError::ValidationError(field.to_owned()))
    }
}

/// Requires a text to be an e-mail address.
pub fn require_email(value: &String, field: &str) -> (outcome: Result<(), AppError>)
    ensures
        accepts(outcome, email_refusal(garde_parse_email(value@), field@)),
{
    email_verdict(is_email(value.as_str()), field)
}

/// Requires a number to be zero or more.
pub fn require_not_negative(value: i64, field: &str) -> (outcome: Result<(), AppError>)
    ensures
        accepts(outcome, negative_refusal(value, field@)),
{
    if value < 0 {
        Err(AppError::ValidationError(field.to_owned()))
    } else {
        Ok(())
    }
}

} // verus!
