//! Identifiers: UUIDs, held as the 128-bit number that `Uuid::as_u128` gives.

use vstd::prelude::*;

verus! {

#[verifier::external_type_specification]
#[verifier::external_body]
pub struct ExUuidError(uuid::Error);

/// The UUID that a text writes, in any of the forms that `Uuid::parse_str`
/// reads, as a number; `None` for a text that writes none.
pub uninterp spec fn uuid_value(text: Seq<char>) -> Option<u128>;

/// The bits of a UUID that hold its version and variant.
pub const VERSION_AND_VARIANT: u128 = 0xF000_C000_0000_0000_0000;

/// Those bits in a random (version 4) UUID.
pub const RANDOM_UUID: u128 = 0x4000_8000_0000_0000_0000;

/// Reads a UUID through `uuid::Uuid::parse_str` and converts it with
/// `Uuid::as_u128`.
///
/// Trusted. The claim is that the outcome is a function of the text alone,
/// which `uuid_value` names: the number on success, `None` on an error.
#[verifier::external_body]
fn parse_uuid(text: &str) -> (r: Result<u128, uuid::Error>)
    ensures
        match r {
            Ok(id) => uuid_value(text@) == Some(id),
            Err(_) => uuid_value(text@) is None,
        },
{
    match uuid::Uuid::parse_str(text) {
        Ok(uuid) => Ok(uuid.as_u128()),
        Err(e) => Err(e),
    }
}

/// Makes a random UUID through `uuid::Uuid::new_v4` and converts it with
/// `Uuid::as_u128`.
///
/// Trusted. Chance decides the value; the claim is what `new_v4` forces on
/// every value: version 4 and the RFC variant.
#[verifier::external_body]
pub(crate) fn fresh_id() -> (id: u128)
    ensures
        id & VERSION_AND_VARIANT == RANDOM_UUID,
{
    uuid::Uuid::new_v4().as_u128()
}

/// Reads an identifier from its text.
pub fn parse_id(text: &str) -> (id: Option<u128>)
    ensures
        id == uuid_value(text@),
{
    match parse_uuid(text) {
        Ok(id) => Some(id),
        Err(_) => None,
    }
}

} // verus!
