//! Identifiers: fresh random UUIDs and UUIDs read from text, both through
//! the `uuid` crate. A UUID is carried as its 128-bit big-endian value.

use vstd::prelude::*;

verus! {

/// The error type of `uuid::Uuid::parse_str`.
#[verifier::external_type_specification]
#[verifier::external_body]
pub struct ExUuidError(uuid::Error);

/// The value of the UUID that `uuid::Uuid::parse_str` reads from the text,
/// or `None` where it refuses the text.
pub uninterp spec fn uuid_parse_str(s: Seq<char>) -> Option<u128>;

/// A random (version 4, RFC 4122 variant) UUID: the version nibble is 4 and
/// the two variant bits are `10`.
pub open spec fn is_random_uuid(v: u128) -> bool {
    &&& (v >> 76u128) & 0xfu128 == 4
    &&& (v >> 62u128) & 0x3u128 == 2
}

/// A fresh id: calls `uuid::Uuid::new_v4` and takes its 128-bit value.
/// The value is random; the contract states only the version and variant
/// bits that `new_v4` sets on every value it returns.
#[verifier::external_body]
pub(crate) fn id_generator() -> (r: u128)
    ensures
        is_random_uuid(r),
{
    uuid::Uuid::new_v4().as_u128()
}

/// Calls `uuid::Uuid::parse_str` and takes the 128-bit value of what it
/// reads; the result is named by `uuid_parse_str`.
#[verifier::external_body]
fn uuid_parse(s: &str) -> (r: Result<u128, uuid::Error>)
    ensures
        match r {
            Ok(v) => uuid_parse_str(s@) == Some(v),
            Err(_) => uuid_parse_str(s@) is None,
        },
{
    uuid::Uuid::parse_str(s).map(|u| u.as_u128())
}

/// Reads a UUID from text in any of the forms the `uuid` crate accepts.
pub fn parse_uuid(s: &str) -> (r: Option<u128>)
    ensures
        r == uuid_parse_str(s@),
{
    match uuid_parse(s) {
        Ok(v) => Some(v),
        Err(_) => None,
    }
}

} // verus!
