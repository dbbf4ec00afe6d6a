use vstd::prelude::*;
use crate::errors::UserError;
use crate::models::{JWTResponse, User};

verus! {

/// The first step of every route that reads the datastore: a connection that
/// could not be acquired is answered with an internal error, and an acquired
/// one is handed on unchanged.
pub fn connection_outcome<T>(conn: Option<T>) -> (r: Result<T, UserError>)
    ensures
        conn matches Some(c) ==> r == Ok::<T, UserError>(c),
        conn is None ==> r == Err::<T, UserError>(UserError::InternalError),
{
    match conn {
        Some(c) => Ok(c),
        None => Err(UserError::InternalError),
    }
}

/// The answer of the single-user route: the record found under the requested
/// identifier is returned unchanged, and a miss is answered with not-found.
pub fn find_outcome(found: Option<User>) -> (r: Result<User, UserError>)
    ensures
        found matches Some(u) ==> r == Ok::<User, UserError>(u),
        found is None ==> r == Err::<User, UserError>(UserError::NotFound),
{
    match found {
        Some(u) => Ok(u),
        None => Err(UserError::NotFound),
    }
}

/// The decision of the login route: the caller is logged in exactly when a
/// record with the given email exists and its password matched; a missing
/// record and a wrong password are answered with the same authentication
/// error, so the two cannot be told apart.
pub fn login_outcome(found: Option<User>, password_matches: bool) -> (r: Result<User, UserError>)
    ensures
        found matches Some(u) ==> password_matches ==> r == Ok::<User, UserError>(u),
        (found is None || !password_matches) ==> r == Err::<User, UserError>(
            UserError::AuthenticationError,
        ),
{
    match found {
        Some(u) => if password_matches {
            Ok(u)
        } else {
            Err(UserError::AuthenticationError)
        },
        None => Err(UserError::AuthenticationError),
    }
}

/// The last step of the login and refresh routes: a token that was produced
/// is wrapped into the response body, and a failure of the token issuer is
/// passed through unchanged.
pub fn token_outcome(token: Result<String, UserError>) -> (r: Result<JWTResponse, UserError>)
    ensures
        token matches Ok(t) ==> r == Ok::<JWTResponse, UserError>(JWTResponse { token: t }),
        token matches Err(e) ==> r == Err::<JWTResponse, UserError>(e),
{
    match token {
        Ok(t) => Ok(JWTResponse::new(t)),
        Err(e) => Err(e),
    }
}

} // verus!
