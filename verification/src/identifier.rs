//! Identifiers: the 128-bit values of UUIDs, read from their text.

use vstd::prelude::*;

verus! {

/// The identifier that no stored record has. A text that is no UUID is read
/// as this one, so that it finds nothing.
pub const NIL_ID: u128 = 0;

/// What the `uuid` crate reads from a text: the 128-bit value of the UUID
/// that the text spells in one of the formats the crate accepts, or `None`
/// where it spells none. The answer depends on the text alone.
pub uninterp spec fn uuid_value(text: Seq<char>) -> Option<u128>;

/// Parses `text` with `uuid::Uuid::parse_str` and takes the value of the
/// result with `uuid::Uuid::as_u128`; an error becomes `None`. Nothing here
/// is proved: the contract only gives the crate's answer its name,
/// [`uuid_value`].
#[verifier::external_body]
pub(crate) fn parse_uuid(text: &str) -> (r: Option<u128>)
    ensures
        r == uuid_value(text@),
{
    match uuid::Uuid::parse_str(text) {
        Ok(id) => Some(id.as_u128()),
        Err(_) => None,
    }
}

/// The identifier that a parse stands for: its value, or [`NIL_ID`] where
/// the text was no UUID.
pub open spec fn id_or_nil(parsed: Option<u128>) -> u128 {
    match parsed {
        Some(id) => id,
        None => NIL_ID,
    }
}

/// The identifier that `text` stands for.
pub open spec fn id_of_text(text: Seq<char>) -> u128 {
    id_or_nil(uuid_value(text))
}

/// Computes [`id_or_nil`].
pub fn identifier_from(parsed: Option<u128>) -> (r: u128)
    ensures
        r == id_or_nil(parsed),
{
    match parsed {
        Some(id) => id,
        None => NIL_ID,
    }
}

/// Reads an identifier from its text. This never fails: a text that is no
/// UUID gives [`NIL_ID`].
pub fn parse_id(text: &str) -> (r: u128)
    ensures
        r == id_of_text(text@),
{
    identifier_from(parse_uuid(text))
}

} // verus!
