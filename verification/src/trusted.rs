//! The calls that leave this crate. Verus takes the contract of each function
//! here on trust; everything else in the crate is proved from them.

use vstd::prelude::*;

verus! {

/// The lowercase hexadecimal digit for a value below sixteen.
pub open spec fn hex_digit(value: int) -> char {
    seq!['0', '1', '2', '3', '4', '5', '6', '7', '8', '9', 'a', 'b', 'c', 'd', 'e', 'f'][value]
}

/// The four bits of `id` at `place`, where place 0 holds the most significant
/// four bits and place 31 the least significant.
pub open spec fn uuid_nibble(id: u128, place: int) -> int {
    ((id >> ((4 * (31 - place)) as u128)) & 0xf) as int
}

/// How many hyphens the hyphenated form of a UUID holds before position `at`.
pub open spec fn hyphens_before(at: int) -> int {
    if at < 8 {
        0
    } else if at < 13 {
        1
    } else if at < 18 {
        2
    } else if at < 23 {
        3
    } else {
        4
    }
}

/// The hyphenated lowercase form of the UUID whose 128-bit value is `id`:
/// 32 hexadecimal digits, most significant first, in groups of 8, 4, 4, 4 and
/// 12 with a hyphen between the groups.
pub open spec fn uuid_text(id: u128) -> Seq<char> {
    Seq::new(
        36,
        |at: int|
            if at == 8 || at == 13 || at == 18 || at == 23 {
                '-'
            } else {
                hex_digit(uuid_nibble(id, at - hyphens_before(at)))
            },
    )
}

/// `id` carries the marks of a random UUID: version 4 and the RFC 4122
/// variant.
pub open spec fn is_random_uuid(id: u128) -> bool {
    &&& (id >> 76u128) & 0xf == 4
    &&& (id >> 62u128) & 0x3 == 2
}

/// Draws a fresh random UUID and hands back its 128-bit value.
///
/// Calls `uuid::Uuid::new_v4` and reads the value with `Uuid::as_u128`. The
/// value is random, so the contract states only what `new_v4` fixes in every
/// UUID it makes: the version and variant bits. `new_v4` panics where the
/// operating system cannot supply random bytes.
#[verifier::external_body]
pub(crate) fn fresh_uuid() -> (id: u128)
    ensures
        is_random_uuid(id),
{
    uuid::Uuid::new_v4().as_u128()
}

/// Writes the UUID with the 128-bit value `id` in its hyphenated lowercase
/// form.
///
/// Calls `uuid::Uuid::from_u128` and the `Display` of `Uuid`, which writes
/// the big-endian bytes of `id` as lowercase hexadecimal digits with hyphens
/// after the 8th, 12th, 16th and 20th digit.
#[verifier::external_body]
pub(crate) fn uuid_to_text(id: u128) -> (text: String)
    ensures
        text@ == uuid_text(id),
{
    uuid::Uuid::from_u128(id).to_string()
}

/// Reads the clock: the current time in microseconds since the Unix epoch.
///
/// Calls `chrono::Utc::now` and `DateTime::timestamp_micros`. Nothing is
/// stated of the value. `Utc::now` panics where the system clock stands
/// before the Unix epoch.
#[verifier::external_body]
pub(crate) fn now_micros() -> (micros: i64)
{
    chrono::Utc::now().timestamp_micros()
}

} // verus!
