//! The values that the repository mints itself: film ids and timestamps.

use vstd::prelude::*;
use crate::models::{FilmId, Timestamp};

verus! {

/// The id is a version-4 UUID: version nibble 4, RFC 4122 variant bits `10`.
pub open spec fn is_v4(id: FilmId) -> bool {
    (id >> 76u128) & 0xfu128 == 4u128 && (id >> 62u128) & 0x3u128 == 2u128
}

/// A version-4 UUID is never the nil UUID.
pub proof fn lemma_v4_not_nil(id: FilmId)
    requires
        is_v4(id),
    ensures
        id != 0,
{
    assert(((id >> 76u128) & 0xfu128 == 4u128) ==> id != 0u128) by (bit_vector);
}

/// Relies on uuid::Uuid::new_v4: a random UUID whose version and variant bits
/// are fixed (it masks them in), read as its 128-bit value by Uuid::as_u128.
/// It panics only when the system's random source fails.
#[verifier::external_body]
pub(crate) fn random_id() -> (r: FilmId)
    ensures
        is_v4(r),
{
    uuid::Uuid::new_v4().as_u128()
}

/// Relies on chrono::Utc::now, read by DateTime::timestamp_micros: the system
/// time, which Utc::now takes to be after the Unix epoch (it panics otherwise).
#[verifier::external_body]
pub(crate) fn current_time() -> (r: Timestamp)
    ensures
        r.micros >= 0,
{
    Timestamp { micros: chrono::Utc::now().timestamp_micros() }
}

/// The lowercase hexadecimal digit of `d < 16`.
pub open spec fn hex_digit(d: u128) -> char {
    seq!['0', '1', '2', '3', '4', '5', '6', '7', '8', '9', 'a', 'b', 'c', 'd', 'e', 'f'][d as int]
}

/// The `n` lowest hexadecimal digits of `v`, most significant first.
pub open spec fn hex_digits(v: u128, n: nat) -> Seq<char>
    decreases n,
{
    if n == 0 {
        Seq::empty()
    } else {
        hex_digits(v / 16, (n - 1) as nat).push(hex_digit(v % 16))
    }
}

/// The hyphenated text of a UUID: its 32 hexadecimal digits in groups of 8, 4, 4, 4 and 12.
pub open spec fn hyphenated(id: FilmId) -> Seq<char> {
    hex_digits(id >> 96u128, 8) + seq!['-'] + hex_digits(id >> 80u128, 4) + seq!['-']
        + hex_digits(id >> 64u128, 4) + seq!['-'] + hex_digits(id >> 48u128, 4) + seq!['-']
        + hex_digits(id, 12)
}

/// Relies on uuid's Display for Uuid (LowerHex, the hyphenated form) applied
/// to Uuid::from_u128(id).
#[verifier::external_body]
pub(crate) fn id_text(id: FilmId) -> (r: String)
    ensures
        r@ == hyphenated(id),
{
    uuid::Uuid::from_u128(id).to_string()
}

} // verus!
