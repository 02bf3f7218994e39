//! The calls into `uuid` that the identifiers make: each identifier holds
//! the 128 bits of a UUID, and these wrappers create, parse and print them.

use vstd::prelude::*;

verus! {

/// The version number that a UUID stores in bits 76 to 79 of its value.
pub open spec fn uuid_version(bits: u128) -> u128 {
    (bits >> 76u128) & 0xfu128
}

/// The variant field that a UUID stores in bits 62 and 63 of its value;
/// 2 (binary 10) marks the RFC 4122 / RFC 9562 layout.
pub open spec fn uuid_variant(bits: u128) -> u128 {
    (bits >> 62u128) & 0x3u128
}

/// A fresh version 7 UUID, as its 128-bit value.
///
/// Calls `uuid::Uuid::now_v7` and `Uuid::as_u128`. The value depends on the
/// clock and on random bits, so the contract states only what every outcome
/// shares: the version field reads 7 and the variant field reads 2.
#[verifier::external_body]
pub fn new_v7_bits() -> (r: u128)
    ensures
        uuid_version(r) == 7,
        uuid_variant(r) == 2,
{
    uuid::Uuid::now_v7().as_u128()
}

/// What `uuid::Uuid::parse_str` makes of `text`: the 128-bit value of the
/// UUID it reads, or `None` where it refuses the text. The accepted formats
/// (simple, hyphenated, braced, URN) are not restated here.
pub uninterp spec fn uuid_text_bits(text: Seq<char>) -> Option<u128>;

/// Parses a UUID from `text`.
///
/// Calls `uuid::Uuid::parse_str` and `Uuid::as_u128`; the contract names the
/// outcome `uuid_text_bits(text@)` and says nothing more of the grammar.
#[verifier::external_body]
pub fn parse_uuid_bits(text: &str) -> (r: Option<u128>)
    ensures
        r == uuid_text_bits(text@),
{
    match uuid::Uuid::parse_str(text) {
        Ok(u) => Some(u.as_u128()),
        Err(_) => None,
    }
}

/// The lower-case hexadecimal digit of value `n` (0 to 15).
pub open spec fn hex_digit(n: int) -> char {
    if n == 0 { '0' } else if n == 1 { '1' } else if n == 2 { '2' } else if n == 3 { '3' }
    else if n == 4 { '4' } else if n == 5 { '5' } else if n == 6 { '6' } else if n == 7 { '7' }
    else if n == 8 { '8' } else if n == 9 { '9' } else if n == 10 { 'a' } else if n == 11 { 'b' }
    else if n == 12 { 'c' } else if n == 13 { 'd' } else if n == 14 { 'e' } else { 'f' }
}

/// The `k`-th of the 32 hexadecimal digits of `bits`, counted from the most
/// significant one.
pub open spec fn uuid_nibble(bits: u128, k: int) -> int {
    ((bits as nat) / vstd::arithmetic::power2::pow2((4 * (31 - k)) as nat)) as int % 16
}

/// Whether position `i` of the hyphenated text holds a hyphen.
pub open spec fn uuid_hyphen_at(i: int) -> bool {
    i == 8 || i == 13 || i == 18 || i == 23
}

/// Which of the 32 digits position `i` of the hyphenated text shows.
pub open spec fn uuid_digit_index(i: int) -> int {
    if i > 23 {
        i - 4
    } else if i > 18 {
        i - 3
    } else if i > 13 {
        i - 2
    } else if i > 8 {
        i - 1
    } else {
        i
    }
}

/// The hyphenated, lower-case text of the UUID with value `bits`: its 32
/// hexadecimal digits, most significant first, in groups of 8, 4, 4, 4 and
/// 12 joined by hyphens.
pub open spec fn uuid_bits_text(bits: u128) -> Seq<char> {
    Seq::new(
        36,
        |i: int|
            if uuid_hyphen_at(i) {
                '-'
            } else {
                hex_digit(uuid_nibble(bits, uuid_digit_index(i)))
            },
    )
}

/// The hyphenated, lower-case text of the UUID with value `bits`.
///
/// Calls `uuid::Uuid::from_u128` and `to_string`, whose `Display` writes
/// the big-endian bytes as hyphenated lower-case hexadecimal. The contract
/// states that text, `uuid_bits_text(bits)`, and that `parse_str` reads it
/// back as the same value (the hyphenated form is one of the forms that
/// `parse_str` accepts).
#[verifier::external_body]
pub fn uuid_bits_to_string(bits: u128) -> (r: String)
    ensures
        r@ == uuid_bits_text(bits),
        uuid_text_bits(r@) == Some(bits),
{
    uuid::Uuid::from_u128(bits).to_string()
}

} // verus!
