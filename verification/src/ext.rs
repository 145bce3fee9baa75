//! Declarations and wrappers for the outside crates the library leans on:
//! identifiers (uuid), wall-clock time (chrono), generated id strings
//! (nanoid), and opaque diagnostic causes (anyhow).

use vstd::prelude::*;

verus! {

#[verifier::external_type_specification]
#[verifier::external_body]
pub struct ExUuid(uuid::Uuid);

#[verifier::external_type_specification]
#[verifier::external_body]
pub struct ExAnyhowError(anyhow::Error);

/// Relies on the derived Clone of uuid::Uuid, which copies the 128-bit
/// value.
pub assume_specification[ <uuid::Uuid as Clone>::clone ](u: &uuid::Uuid) -> (r: uuid::Uuid)
    ensures
        r == *u,
;

/// Relies on uuid::Uuid::new_v4 for a freshly generated random identifier.
/// Nothing is promised of the value.
#[verifier::external_body]
pub(crate) fn uuid_new_v4() -> uuid::Uuid {
    uuid::Uuid::new_v4()
}

/// Relies on the derived PartialEq of uuid::Uuid, which compares the
/// 128-bit values bytewise.
#[verifier::external_body]
pub(crate) fn uuid_eq(a: &uuid::Uuid, b: &uuid::Uuid) -> (r: bool)
    ensures
        r == (*a == *b),
{
    a == b
}

/// Whether uuid::Uuid::is_nil holds of an identifier; it depends on the
/// value alone.
pub uninterp spec fn spec_uuid_is_nil(u: uuid::Uuid) -> bool;

/// Relies on uuid::Uuid::is_nil: true exactly of the all-zero identifier,
/// a function of the value alone.
#[verifier::external_body]
pub(crate) fn uuid_is_nil(u: &uuid::Uuid) -> (r: bool)
    ensures
        r == spec_uuid_is_nil(*u),
{
    u.is_nil()
}

/// Relies on chrono::Utc::now for the current wall-clock time, reported in
/// unix milliseconds. Nothing is promised of the value.
#[verifier::external_body]
pub(crate) fn now_millis() -> i64 {
    chrono::Utc::now().timestamp_millis()
}

/// The URL-safe alphabet that generated identifier strings draw from.
pub open spec fn is_id_char(c: char) -> bool {
    ||| c == '_'
    ||| c == '-'
    ||| '0' <= c && c <= '9'
    ||| 'a' <= c && c <= 'z'
    ||| 'A' <= c && c <= 'Z'
}

/// Relies on nanoid::format with the URL-safe alphabet: the result has
/// exactly `len` characters, each drawn from that alphabet.
#[verifier::external_body]
pub(crate) fn nanoid_string(len: usize) -> (r: String)
    ensures
        r@.len() == len,
        forall|i: int| 0 <= i < r@.len() ==> is_id_char(#[trigger] r@[i]),
{
    nanoid::format(nanoid::rngs::default, &nanoid::alphabet::SAFE, len)
}

/// Relies on anyhow::Error::msg: wraps a message string as an opaque
/// diagnostic error.
#[verifier::external_body]
pub(crate) fn anyhow_from_msg(m: String) -> anyhow::Error {
    anyhow::Error::msg(m)
}

} // verus!
