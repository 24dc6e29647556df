use vstd::prelude::*;

use crate::json::hex_digit;

verus! {

/// The number of hexadecimal digits that come before position `k` of a
/// hyphenated UUID text (hyphens stand at positions 8, 13, 18 and 23).
pub open spec fn uuid_digit_index(k: int) -> int {
    if k < 8 {
        k
    } else if k < 13 {
        k - 1
    } else if k < 18 {
        k - 2
    } else if k < 23 {
        k - 3
    } else {
        k - 4
    }
}

/// The character at position `k` of the hyphenated text of `id`: a hyphen, or
/// the lower-case hexadecimal digit of the next four bits, most significant first.
pub open spec fn uuid_char(id: u128, k: int) -> char {
    if k == 8 || k == 13 || k == 18 || k == 23 {
        '-'
    } else {
        hex_digit(((id >> ((4 * (31 - uuid_digit_index(k))) as u128)) & 0xfu128) as int)
    }
}

/// The text `uuid::Uuid::to_string` gives for the UUID with this 128-bit value:
/// 32 lower-case hexadecimal digits of the value, most significant first, in
/// groups of 8, 4, 4, 4 and 12 joined by hyphens.
pub open spec fn uuid_text(id: u128) -> Seq<char> {
    Seq::new(36, |k: int| uuid_char(id, k))
}

/// What `uuid::Uuid::parse_str` makes of a text, read with `as_u128`: the UUID's
/// value, or nothing where the text is no UUID.
pub uninterp spec fn uuid_parse(text: Seq<char>) -> Option<u128>;

/// A fresh random session id: `uuid::Uuid::new_v4()`, read with `as_u128`.
/// Nothing is claimed of the value.
#[verifier::external_body]
pub(crate) fn new_session_id() -> (id: u128) {
    uuid::Uuid::new_v4().as_u128()
}

/// Writes a session id with `uuid::Uuid::from_u128(id).to_string()`: the
/// `Display` impl writes the big-endian bytes of the value as lower-case
/// hexadecimal in the hyphenated form. The contract also claims that
/// `Uuid::parse_str` reads that text back as the same id: it accepts the
/// hyphenated form.
#[verifier::external_body]
pub(crate) fn session_id_text(id: u128) -> (s: String)
    ensures
        s@ == uuid_text(id),
        uuid_parse(s@) == Some(id),
{
    uuid::Uuid::from_u128(id).to_string()
}

/// Reads a session id with `uuid::Uuid::parse_str(text)` and `as_u128`.
#[verifier::external_body]
pub(crate) fn parse_session_id(text: &str) -> (r: Option<u128>)
    ensures
        r == uuid_parse(text@),
{
    uuid::Uuid::parse_str(text).ok().map(|u| u.as_u128())
}

} // verus!
