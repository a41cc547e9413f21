//! Calls into the clock, the random source, and std's text conversions.
//! Verus trusts the contracts written here; each states only what the called
//! function documents.
use vstd::prelude::*;
use vstd::utf8::{decode_utf8, valid_utf8};

verus! {

/// Whether `c` is an ASCII decimal digit.
pub open spec fn is_ascii_digit(c: char) -> bool {
    '0' <= c && c <= '9'
}

/// Whether `c` is a lowercase hexadecimal digit.
pub open spec fn is_lower_hex_digit(c: char) -> bool {
    ('0' <= c && c <= '9') || ('a' <= c && c <= 'f')
}

/// The number written by the two decimal digits `hi` and `lo`.
pub open spec fn two_digit_value(hi: char, lo: char) -> int {
    (hi as int - '0' as int) * 10 + (lo as int - '0' as int)
}

/// A wall-clock time written as `HH:MM:SS`: hour 00 to 23, minute 00 to 59,
/// second 00 to 60 (60 for a leap second).
pub open spec fn is_clock_text(s: Seq<char>) -> bool {
    &&& s.len() == 8
    &&& s[2] == ':'
    &&& s[5] == ':'
    &&& forall|i: int| 0 <= i < 8 && i != 2 && i != 5 ==> is_ascii_digit(#[trigger] s[i])
    &&& two_digit_value(s[0], s[1]) <= 23
    &&& two_digit_value(s[3], s[4]) <= 59
    &&& two_digit_value(s[6], s[7]) <= 60
}

/// The shape of a random (version 4) UUID in its hyphenated lowercase form,
/// such as `67e55044-10b1-426f-9247-bb680e5fe0c8`.
pub open spec fn is_uuid_v4_text(s: Seq<char>) -> bool {
    &&& s.len() == 36
    &&& s[8] == '-'
    &&& s[13] == '-'
    &&& s[18] == '-'
    &&& s[23] == '-'
    &&& forall|i: int|
        0 <= i < 36 && i != 8 && i != 13 && i != 18 && i != 23 ==> is_lower_hex_digit(
            #[trigger] s[i],
        )
    &&& s[14] == '4'
    &&& (s[19] == '8' || s[19] == '9' || s[19] == 'a' || s[19] == 'b')
}

/// What `String::from_utf8_lossy` makes of a byte sequence.
pub uninterp spec fn lossy_utf8(bytes: Seq<u8>) -> Seq<char>;

/// What `format!("{:?}", s)` writes for a string slice: the text in double
/// quotes, with std's escapes.
pub uninterp spec fn debug_str(s: Seq<char>) -> Seq<char>;

/// The local wall-clock time, from `chrono::Local::now()` formatted with
/// `"%H:%M:%S"`. chrono documents `%H` as the hour 00 to 23, `%M` as the
/// minute 00 to 59 and `%S` as the second 00 to 60, each zero-padded to two
/// digits; the contract states that and nothing of which time it is.
#[verifier::external_body]
pub(crate) fn local_clock_text() -> (r: String)
    ensures
        is_clock_text(r@),
{
    chrono::Local::now().format("%H:%M:%S").to_string()
}

/// Seconds since the Unix epoch, from `chrono::Utc::now().timestamp()`.
/// `Utc::now` refuses (panics on) a clock set before the epoch, so what it
/// returns is never negative; which value it is depends on the clock.
#[verifier::external_body]
pub(crate) fn utc_unix_seconds() -> (r: i64)
    ensures
        r >= 0,
{
    chrono::Utc::now().timestamp()
}

/// A fresh random identifier, from `uuid::Uuid::new_v4()` written with
/// `to_string()`. The uuid crate writes the hyphenated lowercase form and sets
/// the version nibble to 4 and the variant bits to `10`; which identifier comes
/// out is chance and is not stated.
#[verifier::external_body]
pub(crate) fn random_uuid_text() -> (r: String)
    ensures
        is_uuid_v4_text(r@),
{
    uuid::Uuid::new_v4().to_string()
}

/// `String::from_utf8` on a copy of `bytes`: the decoded text when the bytes
/// are valid UTF-8, and nothing otherwise.
#[verifier::external_body]
pub(crate) fn decode_utf8_text(bytes: &[u8]) -> (r: Option<String>)
    ensures
        match r {
            Some(s) => valid_utf8(bytes@) && s@ == decode_utf8(bytes@),
            None => !valid_utf8(bytes@),
        },
{
    String::from_utf8(bytes.to_vec()).ok()
}

/// `String::from_utf8_lossy`, turned into an owned `String`. std documents that
/// valid UTF-8 is decoded unchanged; what replaces invalid sequences is left
/// under the name `lossy_utf8`.
#[verifier::external_body]
pub(crate) fn lossy_text(bytes: &[u8]) -> (r: String)
    ensures
        r@ == lossy_utf8(bytes@),
        valid_utf8(bytes@) ==> r@ == decode_utf8(bytes@),
{
    String::from_utf8_lossy(bytes).to_string()
}

/// `format!("{:?}", s)` for a string slice. std writes the text between
/// double quotes; what it escapes inside them is left under `debug_str`.
#[verifier::external_body]
pub(crate) fn debug_quoted(s: &str) -> (r: String)
    ensures
        r@ == debug_str(s@),
        r@.len() >= 2,
        r@[0] == '"',
        r@.last() == '"',
{
    format!("{:?}", s)
}

/// `std::path::MAIN_SEPARATOR`, the path separator of the platform the code
/// was built for: a slash, or a backslash on Windows. Which of the two it is
/// depends on the platform.
#[verifier::external_body]
pub(crate) fn main_separator() -> (r: char)
    ensures
        r == '/' || r == '\\',
{
    std::path::MAIN_SEPARATOR
}

} // verus!
