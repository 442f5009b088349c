//! Identifiers: UUIDs, held as their 128-bit numbers.

use vstd::prelude::*;

verus! {

/// The number that a text stands for when it is read as a UUID, in any of
/// the forms that the `uuid` crate reads: 32 hexadecimal digits, plain, in
/// five groups with hyphens, in braces, or after `urn:uuid:`. `None` for
/// every other text.
pub uninterp spec fn uuid_of(text: Seq<char>) -> Option<u128>;

/// `Uuid::parse_str`, with the id given as its 128-bit number. The result
/// is a function of the text alone and is known here only by its name.
#[verifier::external_body]
pub(crate) fn parse_uuid(text: &str) -> (id: Option<u128>)
    ensures
        id == uuid_of(text@),
{
    match uuid::Uuid::parse_str(text) {
        Ok(id) => Some(id.as_u128()),
        Err(_) => None,
    }
}

} // verus!
