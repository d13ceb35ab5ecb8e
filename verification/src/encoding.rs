//! Text forms of bytes and of points in time.

use vstd::prelude::*;

verus! {

/// The lowercase hexadecimal digit of a value below sixteen.
pub open spec fn hex_digit(nibble: u8) -> char {
    if nibble == 0 {
        '0'
    } else if nibble == 1 {
        '1'
    } else if nibble == 2 {
        '2'
    } else if nibble == 3 {
        '3'
    } else if nibble == 4 {
        '4'
    } else if nibble == 5 {
        '5'
    } else if nibble == 6 {
        '6'
    } else if nibble == 7 {
        '7'
    } else if nibble == 8 {
        '8'
    } else if nibble == 9 {
        '9'
    } else if nibble == 10 {
        'a'
    } else if nibble == 11 {
        'b'
    } else if nibble == 12 {
        'c'
    } else if nibble == 13 {
        'd'
    } else if nibble == 14 {
        'e'
    } else {
        'f'
    }
}

/// Lowercase hexadecimal text of `bytes`: two digits per byte, the high
/// half first.
pub open spec fn hex_lower(bytes: Seq<u8>) -> Seq<char> {
    Seq::new(
        2 * bytes.len(),
        |i: int| if i % 2 == 0 { hex_digit(bytes[i / 2] / 16) } else { hex_digit(bytes[i / 2] % 16) },
    )
}

/// `0x` followed by the lowercase hexadecimal text of `bytes`.
pub open spec fn hex_prefixed(bytes: Seq<u8>) -> Seq<char> {
    seq!['0', 'x'] + hex_lower(bytes)
}

/// The last millisecond that RFC 3339 can express:
/// 9999-12-31T23:59:59.999Z.
pub const RFC3339_MAX_MILLIS: u64 = 253_402_300_799_999;

/// The RFC 3339 text, in UTC, of the instant `millis` milliseconds after
/// the Unix epoch, as the `time` crate formats an `OffsetDateTime`.
pub uninterp spec fn rfc3339_text(millis: u64) -> Seq<char>;

/// Calls `const_hex::encode_prefixed`. Trusted: the text is `0x` and
/// then two lowercase hexadecimal digits per byte, in order.
#[verifier::external_body]
pub(crate) fn encode_prefixed(bytes: &Vec<u8>) -> (text: String)
    ensures
        text@ == hex_prefixed(bytes@),
{
    const_hex::encode_prefixed(bytes)
}

/// Calls `hex::encode`. Trusted: the text holds two lowercase hexadecimal
/// digits per byte, in order.
#[verifier::external_body]
pub(crate) fn encode(bytes: &Vec<u8>) -> (text: String)
    ensures
        text@ == hex_lower(bytes@),
{
    hex::encode(bytes)
}

/// Adds `millis` milliseconds to `OffsetDateTime::UNIX_EPOCH` and formats
/// the sum with `Rfc3339`. Trusted: the text is the one named by
/// [`rfc3339_text`]; up to the bound the sum stays within the dates of
/// the `time` crate and the year has four digits, so neither step fails.
#[verifier::external_body]
pub(crate) fn rfc3339(millis: u64) -> (text: String)
    requires
        millis <= RFC3339_MAX_MILLIS,
    ensures
        text@ == rfc3339_text(millis),
{
    let instant = time::OffsetDateTime::UNIX_EPOCH + core::time::Duration::from_millis(millis);
    instant.format(&time::format_description::well_known::Rfc3339).unwrap()
}

} // verus!
