//! Points in time: held as milliseconds since the epoch, stored as text.

use vstd::prelude::*;

verus! {

/// The time that a text stands for when it is read as an RFC 3339 date and
/// time, in milliseconds since the epoch, as chrono reads it. `None` for a
/// text that is no such date and time.
pub uninterp spec fn rfc3339_millis_of(text: Seq<char>) -> Option<i64>;

/// `DateTime::parse_from_rfc3339`, with the time given by
/// `DateTime::timestamp_millis`. The result is a function of the text
/// alone and is known here only by its name.
#[verifier::external_body]
pub(crate) fn parse_rfc3339(text: &str) -> (millis: Option<i64>)
    ensures
        millis == rfc3339_millis_of(text@),
{
    match chrono::DateTime::parse_from_rfc3339(text) {
        Ok(time) => Some(time.timestamp_millis()),
        Err(_) => None,
    }
}

} // verus!
