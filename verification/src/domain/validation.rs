//! The rules for user names and email addresses.
use vstd::prelude::*;
use crate::domain::error::{AccountError, Result};
use crate::handler::types::{email_rejection, name_rejection, user_email_problem, user_name_problem};

verus! {

/// The outcome of a rule: `Ok` exactly when there is no reason to refuse,
/// otherwise `InvalidUserId` carrying the reason.
pub open spec fn account_user_id_outcome(r: Result<()>, rejection: Option<Seq<char>>) -> bool {
    match rejection {
        None => r is Ok,
        Some(reason) => r matches Err(AccountError::InvalidUserId { reason: got }) && got@ == reason,
    }
}

/// Checks a user name: after trimming it must be 2 to 255 characters long and made of
/// letters, digits, spaces, hyphens, apostrophes and dots.
pub fn validate_user_name(name: &str) -> (r: Result<()>)
    ensures
        account_user_id_outcome(r, name_rejection(name@)),
{
    match user_name_problem(name) {
        None => Ok(()),
        Some(reason) => Err(AccountError::InvalidUserId { reason }),
    }
}

/// Checks an email address: after trimming it must be non-empty, at most 254
/// characters, hold exactly one `@` with text on both sides, and be made of letters,
/// digits, `.`, `-`, `_`, `+` and `@`.
pub fn validate_user_email(email: &str) -> (r: Result<()>)
    ensures
        account_user_id_outcome(r, email_rejection(email@)),
{
    match user_email_problem(email) {
        None => Ok(()),
        Some(reason) => Err(AccountError::InvalidUserId { reason }),
    }
}

} // verus!
