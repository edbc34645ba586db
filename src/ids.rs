use vstd::prelude::*;

verus! {

/// What `uuid::Uuid::parse_str` makes of a text, as the UUID's 128-bit value.
pub uninterp spec fn uuid_parse(s: Seq<char>) -> Option<u128>;

/// Relies on uuid::Uuid::parse_str (with Uuid::as_u128): the UUID written in `s`
/// in any of the simple, hyphenated, braced or URN forms; an empty text is refused.
#[verifier::external_body]
fn parse_uuid(s: &str) -> (r: Option<u128>)
    ensures
        r == uuid_parse(s@),
        s@.len() == 0 ==> r is None,
{
    uuid::Uuid::parse_str(s).ok().map(|u| u.as_u128())
}

/// Relies on uuid::Uuid::new_v4 (with Uuid::as_u128): a random UUID of version 4.
#[verifier::external_body]
pub(crate) fn random_uuid() -> (r: u128)
    ensures
        uuid_version(r) == 4,
{
    uuid::Uuid::new_v4().as_u128()
}

/// The version field of a UUID held as its 128-bit big-endian value.
pub open spec fn uuid_version(v: u128) -> u128 {
    (v >> 76u128) & 0xfu128
}

/// The identifier of an authenticated user, which is the text of a UUID.
pub fn parse_user_id(s: &str) -> (r: Option<u128>)
    ensures
        r == uuid_parse(s@),
{
    parse_uuid(s)
}

} // verus!
