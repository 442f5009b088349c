//! Users: the stored record, and what is needed to create or change one.

use crate::ids::{parse_uuid, uuid_of};
use crate::models::decode::{id_or, time_or, Column, DecodeError};
use crate::models::types::Email;
use crate::timestamps::{parse_rfc3339, rfc3339_millis_of};
use vstd::prelude::*;

verus! {

/// A user as stored. The id is the number of a UUID; times are in
/// milliseconds since the epoch.
#[derive(Debug)]
pub struct User {
    pub id: u128,
    pub email: Email,
    pub password_hash: String,
    pub first_name: String,
    pub last_name: String,
    pub created_at: i64,
    pub updated_at: i64,
}

/// A stored user's name and password hash, which need no reading.
#[derive(Debug)]
pub struct UserDetails {
    pub password_hash: String,
    pub first_name: String,
    pub last_name: String,
}

/// What is needed to create a user.
#[derive(Debug, Clone)]
pub struct NewUser {
    pub email: Email,
    pub password: String,
}

/// A change to a user: each field that is given replaces the user's.
#[derive(Debug, Clone)]
pub struct UpdateUser {
    pub email: Option<Email>,
    pub password: Option<String>,
}

/// What a stored user's columns are owed to be read as: the first column
/// that cannot be read is named, in the order id, email, created at,
/// updated at; if all can, the user is made of what they hold.
pub open spec fn user_of_columns(
    id: Seq<char>,
    email: Seq<char>,
    details: UserDetails,
    created_at: Seq<char>,
    updated_at: Seq<char>,
    res: Result<User, DecodeError>,
) -> bool {
    if uuid_of(id) is None {
        res == Err::<User, DecodeError>(DecodeError::InvalidId(Column::Id))
    } else if !email.contains('@') {
        res == Err::<User, DecodeError>(DecodeError::InvalidEmail(Column::Email))
    } else if rfc3339_millis_of(created_at) is None {
        res == Err::<User, DecodeError>(DecodeError::InvalidTimestamp(Column::CreatedAt))
    } else if rfc3339_millis_of(updated_at) is None {
        res == Err::<User, DecodeError>(DecodeError::InvalidTimestamp(Column::UpdatedAt))
    } else {
        &&& res matches Ok(user)
        &&& Some(user.id) == uuid_of(id)
        &&& user.email@ == email
        &&& user.email.wf()
        &&& user.password_hash == details.password_hash
        &&& user.first_name == details.first_name
        &&& user.last_name == details.last_name
        &&& Some(user.created_at) == rfc3339_millis_of(created_at)
        &&& Some(user.updated_at) == rfc3339_millis_of(updated_at)
    }
}

impl User {
    /// The user that a stored row stands for, or the first of its columns
    /// that cannot be read.
    pub fn from_columns(
        id: &str,
        email: String,
        details: UserDetails,
        created_at: &str,
        updated_at: &str,
    ) -> (res: Result<User, DecodeError>)
        ensures
            user_of_columns(id@, email@, details, created_at@, updated_at@, res),
    {
        let id = match id_or(parse_uuid(id), Column::Id) {
            Ok(id) => id,
            Err(e) => return Err(e),
        };
        let email = match Email::new(email) {
            Ok(email) => email,
            Err(_) => return Err(DecodeError::InvalidEmail(Column::Email)),
        };
        let created_at = match time_or(parse_rfc3339(created_at), Column::CreatedAt) {
            Ok(t) => t,
            Err(e) => return Err(e),
        };
        let updated_at = match time_or(parse_rfc3339(updated_at), Column::UpdatedAt) {
            Ok(t) => t,
            Err(e) => return Err(e),
        };
        Ok(
            User {
                id,
                email,
                password_hash: details.password_hash,
                first_name: details.first_name,
                last_name: details.last_name,
                created_at,
                updated_at,
            },
        )
    }

    /// A user's password is replaced by storing the new hash, at `now`.
    pub fn update_password(&mut self, new_password_hash: String, now: i64)
        ensures
            final(self).password_hash == new_password_hash,
            final(self).updated_at == now,
            final(self).id == old(self).id,
            final(self).email == old(self).email,
            final(self).first_name == old(self).first_name,
            final(self).last_name == old(self).last_name,
            final(self).created_at == old(self).created_at,
    {
        self.password_hash = new_password_hash;
        self.updated_at = now;
    }
}

} // verus!
