//! Public identifiers. An identifier is the 128-bit value of a UUID.

use vstd::prelude::*;

verus! {

/// The bits that hold the version and the variant of a UUID.
pub const UUID_KIND_MASK: u128 = 0x0000_0000_0000_f000_c000_0000_0000_0000;

/// Those bits in a random (version 4, RFC 4122) UUID.
pub const UUID_RANDOM_KIND: u128 = 0x0000_0000_0000_4000_8000_0000_0000_0000;

/// The identifier that a text denotes, in any form that `uuid` reads
/// (hyphenated, simple, URN, braced); `None` where it reads none.
pub uninterp spec fn uuid_of_text(text: Seq<char>) -> Option<u128>;

/// Reads an identifier with `uuid::Uuid::parse_str` and takes its value with
/// `as_u128`. Trusted: the result is the one that `uuid_of_text` names.
#[verifier::external_body]
pub(crate) fn parse_uuid_text(text: &str) -> (r: Option<u128>)
    ensures
        r == uuid_of_text(text@),
{
    match uuid::Uuid::parse_str(text) {
        Ok(id) => Some(id.as_u128()),
        Err(_) => None,
    }
}

/// A fresh random identifier from `uuid::Uuid::new_v4`. Trusted: the value is
/// random but for the version and variant bits, which `new_v4` fixes.
#[verifier::external_body]
pub(crate) fn random_uuid() -> (r: u128)
    ensures
        r & UUID_KIND_MASK == UUID_RANDOM_KIND,
{
    uuid::Uuid::new_v4().as_u128()
}

/// Reads an identifier from text.
pub fn parse_public_id(text: &str) -> (r: Option<u128>)
    ensures
        r == uuid_of_text(text@),
{
    parse_uuid_text(text)
}

/// A fresh random identifier. It is never the nil identifier.
pub fn new_public_id() -> (r: u128)
    ensures
        r & UUID_KIND_MASK == UUID_RANDOM_KIND,
        r != 0,
{
    let id = random_uuid();
    assert(id & 0x0000_0000_0000_f000_c000_0000_0000_0000u128
        == 0x0000_0000_0000_4000_8000_0000_0000_0000u128 ==> id != 0) by (bit_vector);
    id
}

} // verus!
