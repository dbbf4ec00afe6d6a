use vstd::prelude::*;

verus! {

/// The failures a route handler can answer with, one per class of HTTP error
/// the API reports.
#[derive(Clone, Copy, Debug, PartialEq, Eq, Structural)]
pub enum UserError {
    /// The datastore connection could not be acquired, or another fault of
    /// the server itself.
    InternalError,
    /// The input of the creation route was rejected.
    ValidationError,
    /// No user record carries the requested identifier.
    NotFound,
    /// The login credentials or the presented token were not accepted.
    AuthenticationError,
}

impl UserError {
    /// The HTTP status code each error is mapped to.
    pub open spec fn spec_status_code(self) -> u16 {
        match self {
            UserError::InternalError => 500,
            UserError::ValidationError => 400,
            UserError::NotFound => 404,
            UserError::AuthenticationError => 401,
        }
    }

    /// The status code of the response that reports this error.
    pub fn status_code(&self) -> (code: u16)
        ensures
            code == self.spec_status_code(),
    {
        match self {
            UserError::InternalError => 500,
            UserError::ValidationError => 400,
            UserError::NotFound => 404,
            UserError::AuthenticationError => 401,
        }
    }
}

} // verus!
