//! User and order identifiers: UUIDs held as their 128-bit value.

use vstd::arithmetic::power::pow;
use vstd::prelude::*;

verus! {

/// What `Uuid::parse_str` gives on a text: the UUID's 128-bit value, or
/// `None` where the text is not a UUID.
pub uninterp spec fn uuid_parse(s: Seq<char>) -> Option<u128>;

/// The lowercase hexadecimal digit of `v`, from 0 to 15.
pub open spec fn hex_digit(v: int) -> char {
    if v < 10 {
        (v + 48) as char
    } else {
        (v + 87) as char
    }
}

/// Which of the 32 hexadecimal digits (most significant first) stands at
/// position `p` of the hyphenated text, the hyphens being at 8, 13, 18 and 23.
pub open spec fn uuid_digit_index(p: int) -> int {
    if p < 8 {
        p
    } else if p < 13 {
        p - 1
    } else if p < 18 {
        p - 2
    } else if p < 23 {
        p - 3
    } else {
        p - 4
    }
}

/// The hyphenated lowercase text of a UUID (`8-4-4-4-12` hexadecimal digits,
/// most significant first), as `Uuid`'s `Display` writes it.
pub open spec fn uuid_text(id: u128) -> Seq<char> {
    Seq::new(
        36,
        |p: int|
            if p == 8 || p == 13 || p == 18 || p == 23 {
                '-'
            } else {
                hex_digit((id as int / pow(16, (31 - uuid_digit_index(p)) as nat)) % 16)
            },
    )
}

/// `Uuid::parse_str` (`uuid`), read back with `Uuid::as_u128`.
/// Trusted: the result is `uuid_parse` of the text.
#[verifier::external_body]
pub(crate) fn parse_uuid(s: &str) -> (r: Option<u128>)
    ensures
        r == uuid_parse(s@),
{
    match uuid::Uuid::parse_str(s) {
        Ok(id) => Some(id.as_u128()),
        Err(_) => None,
    }
}

/// `Uuid::to_string` (`uuid`) of `Uuid::from_u128(id)`. Trusted: the text is
/// the hyphenated lowercase hexadecimal form of the value (`Display` writes
/// `LowerHex`, which is hyphenated), [`uuid_text`].
#[verifier::external_body]
pub(crate) fn uuid_to_string(id: u128) -> (r: String)
    ensures
        r@ == uuid_text(id),
{
    uuid::Uuid::from_u128(id).to_string()
}

} // verus!
