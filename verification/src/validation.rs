use vstd::prelude::*;
use crate::errors::UserError;
use crate::models::NewUser;

verus! {

/// What validator's email check returns on a string: a function of the
/// characters alone.
pub uninterp spec fn email_accepted(s: Seq<char>) -> bool;

/// Relies on validator's `ValidateEmail::validate_email` for `&str`: whether
/// the string is a well-formed email address under the HTML5 rules. The
/// result depends on the characters alone; the source rejects the empty
/// string and any string without an `'@'`.
#[verifier::external_body]
fn check_email(s: &str) -> (r: bool)
    ensures
        r == email_accepted(s@),
        s@.len() == 0 ==> !r,
        !s@.contains('@') ==> !r,
{
    validator::ValidateEmail::validate_email(&s)
}

/// A creation request is accepted exactly when its email passes the email
/// check and its password is not empty.
pub open spec fn new_user_accepted(u: NewUser) -> bool {
    email_accepted(u.email@) && u.password@.len() > 0
}

impl NewUser {
    /// The acceptance decision of the creation route: the input is taken
    /// exactly when it is accepted, and rejected with a validation error
    /// otherwise.
    pub fn validate(&self) -> (r: Result<(), UserError>)
        ensures
            r is Ok <==> new_user_accepted(*self),
            r is Err ==> r == Err::<(), UserError>(UserError::ValidationError),
    {
        if check_email(self.email.as_str()) && !self.password.as_str().is_empty() {
            Ok(())
        } else {
            Err(UserError::ValidationError)
        }
    }
}

} // verus!
