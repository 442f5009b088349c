//! Reading records from the columns of a stored row.
//!
//! Each record has one function that takes the columns as the store gives
//! them and returns the record, or says which column could not be read.

use crate::text::concat;
use vstd::prelude::*;

verus! {

/// The columns that need reading.
#[derive(Debug, Clone, Copy, PartialEq, Eq, Structural)]
pub enum Column {
    Id,
    UserId,
    Email,
    PostedAt,
    CreatedAt,
    UpdatedAt,
    Skills,
}

/// Why a row could not be read.
#[derive(Debug, Clone, Copy, PartialEq, Eq, Structural)]
pub enum DecodeError {
    /// The column holds no UUID.
    InvalidId(Column),
    /// The column holds no email address.
    InvalidEmail(Column),
    /// The column holds no RFC 3339 date and time.
    InvalidTimestamp(Column),
    /// The column holds no JSON array of strings.
    InvalidList(Column),
}

impl Column {
    /// The column's name in the store.
    pub open spec fn name(self) -> Seq<char> {
        match self {
            Column::Id => "id"@,
            Column::UserId => "user_id"@,
            Column::Email => "email"@,
            Column::PostedAt => "posted_at"@,
            Column::CreatedAt => "created_at"@,
            Column::UpdatedAt => "updated_at"@,
            Column::Skills => "skills"@,
        }
    }

    /// The column's name in the store.
    pub fn as_str(&self) -> (name: &'static str)
        ensures
            name@ == self.name(),
    {
        match self {
            Column::Id => "id",
            Column::UserId => "user_id",
            Column::Email => "email",
            Column::PostedAt => "posted_at",
            Column::CreatedAt => "created_at",
            Column::UpdatedAt => "updated_at",
            Column::Skills => "skills",
        }
    }
}

impl DecodeError {
    /// The column that could not be read.
    pub open spec fn column(self) -> Column {
        match self {
            DecodeError::InvalidId(c) => c,
            DecodeError::InvalidEmail(c) => c,
            DecodeError::InvalidTimestamp(c) => c,
            DecodeError::InvalidList(c) => c,
        }
    }

    /// What the column was expected to hold.
    pub open spec fn expected(self) -> Seq<char> {
        match self {
            DecodeError::InvalidId(_) => "a UUID"@,
            DecodeError::InvalidEmail(_) => "an email address"@,
            DecodeError::InvalidTimestamp(_) => "an RFC 3339 date and time"@,
            DecodeError::InvalidList(_) => "a JSON array of strings"@,
        }
    }

    /// The error in words.
    pub open spec fn message(self) -> Seq<char> {
        "column "@ + self.column().name() + " does not hold "@ + self.expected()
    }

    /// The error in words.
    pub fn to_string(&self) -> (text: String)
        ensures
            text@ == self.message(),
    {
        let (column, expected) = match self {
            DecodeError::InvalidId(c) => (c, "a UUID"),
            DecodeError::InvalidEmail(c) => (c, "an email address"),
            DecodeError::InvalidTimestamp(c) => (c, "an RFC 3339 date and time"),
            DecodeError::InvalidList(c) => (c, "a JSON array of strings"),
        };
        let mut text = concat("column ", column.as_str());
        text.append(" does not hold ");
        text.append(expected);
        text
    }
}

/// What reading an id comes to.
pub fn id_or(parsed: Option<u128>, column: Column) -> (res: Result<u128, DecodeError>)
    ensures
        match parsed {
            Some(id) => res == Ok::<u128, DecodeError>(id),
            None => res == Err::<u128, DecodeError>(DecodeError::InvalidId(column)),
        },
{
    match parsed {
        Some(id) => Ok(id),
        None => Err(DecodeError::InvalidId(column)),
    }
}

/// What reading a time comes to.
pub fn time_or(parsed: Option<i64>, column: Column) -> (res: Result<i64, DecodeError>)
    ensures
        match parsed {
            Some(t) => res == Ok::<i64, DecodeError>(t),
            None => res == Err::<i64, DecodeError>(DecodeError::InvalidTimestamp(column)),
        },
{
    match parsed {
        Some(t) => Ok(t),
        None => Err(DecodeError::InvalidTimestamp(column)),
    }
}

} // verus!
