//! Identifiers on the wire: the hyphenated UUID text form and its 128-bit
//! value, through the uuid crate.

use vstd::prelude::*;

verus! {

/// What `uuid::Uuid::parse_str` accepts: the 128-bit value a well-formed
/// UUID string denotes, or nothing when the string is malformed.
pub uninterp spec fn uuid_parsed(s: Seq<char>) -> Option<u128>;

/// The hyphenated lower-case text of a 128-bit identifier, as the uuid
/// crate's display form writes it.
pub uninterp spec fn uuid_text(v: u128) -> Seq<char>;

/// Relies on `uuid::Uuid::parse_str`: parsing is a function of the string
/// alone.
#[verifier::external_body]
pub fn parse_uuid(s: &str) -> (r: Option<u128>)
    ensures
        r == uuid_parsed(s@),
{
    match uuid::Uuid::parse_str(s) {
        Ok(u) => Some(u.as_u128()),
        Err(_) => None,
    }
}

/// Relies on `uuid::Uuid::to_string` over `from_u128`: the hyphenated text
/// is a function of the value alone, is 36 characters long, and parsing it
/// back yields the same value.
#[verifier::external_body]
pub fn uuid_to_string(v: u128) -> (r: String)
    ensures
        r@ == uuid_text(v),
        r@.len() == 36,
        uuid_parsed(r@) == Some(v),
{
    uuid::Uuid::from_u128(v).to_string()
}

} // verus!
