//! Server-assigned values: record ids and timestamps.
use vstd::prelude::*;

verus! {

/// The version field of a UUID held as its 128-bit (big-endian) value.
pub open spec fn uuid_version(id: u128) -> u128 {
    (id >> 76u128) & 0xfu128
}

/// The variant field (its two top bits) of a UUID held as its 128-bit value.
pub open spec fn uuid_variant(id: u128) -> u128 {
    (id >> 62u128) & 0x3u128
}

/// A version-4 (random) UUID of the RFC 4122 variant.
pub open spec fn is_random_uuid(id: u128) -> bool {
    uuid_version(id) == 4 && uuid_variant(id) == 2
}

/// Relies on `uuid::Uuid::new_v4` and `Uuid::as_u128`: random bits with the
/// version field set to 4 and the variant field set to RFC 4122's.
#[verifier::external_body]
pub(crate) fn random_id() -> (r: u128)
    ensures
        is_random_uuid(r),
{
    uuid::Uuid::new_v4().as_u128()
}

/// Relies on `chrono::Utc::now` and `DateTime::timestamp_micros`: the current
/// time in microseconds since the Unix epoch. Nothing is known of its value;
/// chrono panics only where the system clock reads before 1970.
#[verifier::external_body]
pub(crate) fn now_micros() -> (r: i64) {
    chrono::Utc::now().timestamp_micros()
}

} // verus!
