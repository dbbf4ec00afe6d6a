use vstd::prelude::*;

verus! {

/// A user's identifier: the 128 bits of the UUID under which the record is
/// stored.
#[derive(Clone, Copy, Debug, PartialEq, Eq, Hash, Structural)]
pub struct UserId {
    pub value: u128,
}

/// A stored user record, as the routes hand it out.
#[derive(Clone, Debug)]
pub struct User {
    pub id: UserId,
    pub email: String,
}

/// The input of the creation route.
#[derive(Clone, Debug)]
pub struct NewUser {
    pub email: String,
    pub password: String,
}

/// The credentials handed to the login route.
#[derive(Clone, Debug)]
pub struct LoginData {
    pub email: String,
    pub password: String,
}

/// The claims carried by an accepted token, as the refresh route reads them.
#[derive(Clone, Debug)]
pub struct UserToken {
    pub id: UserId,
    pub email: String,
}

/// The body of a successful login or refresh answer.
#[derive(Clone, Debug)]
pub struct JWTResponse {
    pub token: String,
}

impl JWTResponse {
    /// Wraps a freshly issued token for the response body.
    pub fn new(token: String) -> (r: JWTResponse)
        ensures
            r.token == token,
    {
        JWTResponse { token }
    }
}

impl User {
    /// The record stored for a creation request once the identifier `id` was
    /// assigned to it.
    pub fn from_new(id: UserId, new_user: &NewUser) -> (u: User)
        ensures
            u.id == id,
            u.email == new_user.email,
    {
        User { id, email: new_user.email.clone() }
    }
}

} // verus!
