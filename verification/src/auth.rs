//! What the application exchanges when a user signs in, and the lifetime of
//! the token that a sign-in gives.

use crate::error::sql_error_text;
use crate::text::concat;
use vstd::prelude::*;

verus! {

/// Why a sign-in could not be checked.
#[derive(Debug)]
pub enum AuthError {
    /// The store failed.
    DatabaseError(rusqlite::Error),
}

impl AuthError {
    /// The error in words: a heading, then the store's own words.
    pub fn to_string(&self) -> (text: String)
        ensures
            exists|detail: Seq<char>| text@ == "Database error: "@ + detail,
    {
        match self {
            AuthError::DatabaseError(error) => {
                let detail = sql_error_text(error);
                concat("Database error: ", detail.as_str())
            },
        }
    }
}

impl From<rusqlite::Error> for AuthError {
    fn from(error: rusqlite::Error) -> (res: AuthError)
        ensures
            res == AuthError::DatabaseError(error),
    {
        AuthError::DatabaseError(error)
    }
}

impl vstd::std_specs::convert::FromSpecImpl<rusqlite::Error> for AuthError {
    open spec fn obeys_from_spec() -> bool {
        true
    }

    open spec fn from_spec(error: rusqlite::Error) -> AuthError {
        AuthError::DatabaseError(error)
    }
}

/// How long a token is valid, in seconds: 24 hours.
pub const JWT_EXPIRATION: i64 = 86400;

/// What a user sends to sign in.
#[derive(Debug)]
pub struct LoginRequest {
    pub email: String,
    pub password: String,
}

/// What a user sends to sign up.
#[derive(Debug)]
pub struct RegisterRequest {
    pub email: String,
    pub password: String,
    pub first_name: String,
    pub last_name: String,
}

/// What a token states: whose it is and when it ends.
#[derive(Debug)]
pub struct Claims {
    /// The user's id.
    pub sub: String,
    /// The time at which the token expires, in seconds since the epoch.
    pub exp: i64,
}

/// What a user gets back after signing in: who they are, and their token.
#[derive(Debug)]
pub struct AuthResponse {
    pub id: String,
    pub email: String,
    pub token: String,
}

/// Whom a token belongs to.
#[derive(Debug)]
pub struct UserInfo {
    pub id: String,
    pub email: String,
}

impl Claims {
    /// The claims of a token issued to `user_id` at `now` (seconds since the
    /// epoch): it expires `JWT_EXPIRATION` seconds later. There are none
    /// where that time cannot be represented.
    pub fn issue(user_id: String, now: i64) -> (claims: Option<Claims>)
        ensures
            claims is Some <==> now + JWT_EXPIRATION <= i64::MAX,
            claims matches Some(c) ==> c.sub@ == user_id@ && c.exp == now + JWT_EXPIRATION,
    {
        match now.checked_add(JWT_EXPIRATION) {
            Some(exp) => Some(Claims { sub: user_id, exp }),
            None => None,
        }
    }

    /// Whether the token has expired at `now`: a token is valid up to and
    /// including its expiry time.
    pub fn is_expired(&self, now: i64) -> (expired: bool)
        ensures
            expired == (now > self.exp),
    {
        now > self.exp
    }
}

} // verus!
