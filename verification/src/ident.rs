//! Identifiers. Every account, profile and instance is named by a UUID, held
//! here as its 128-bit value so that it can key maps and be compared in
//! contracts. The `uuid` crate derives, draws, parses and prints them.

use vstd::prelude::*;

verus! {

/// A UUID as the 128-bit number its sixteen bytes spell, most significant
/// byte first.
pub type Uuid = u128;

/// The version-3 (MD5, name-based) UUID of `name` in the X.500 namespace.
pub uninterp spec fn uuid_v3_x500(name: Seq<u8>) -> u128;

/// The UUID that `text` parses to, if it is one of the accepted spellings.
pub uninterp spec fn uuid_parsed(text: Seq<char>) -> Option<u128>;

/// The words with which a `text` that parses to no UUID is refused.
pub uninterp spec fn uuid_rejection(text: Seq<char>) -> Seq<char>;

/// The digit that stands for a value below sixteen in lower-case
/// hexadecimal.
pub open spec fn hex_digit(value: u128) -> char {
    if value == 0 {
        '0'
    } else if value == 1 {
        '1'
    } else if value == 2 {
        '2'
    } else if value == 3 {
        '3'
    } else if value == 4 {
        '4'
    } else if value == 5 {
        '5'
    } else if value == 6 {
        '6'
    } else if value == 7 {
        '7'
    } else if value == 8 {
        '8'
    } else if value == 9 {
        '9'
    } else if value == 10 {
        'a'
    } else if value == 11 {
        'b'
    } else if value == 12 {
        'c'
    } else if value == 13 {
        'd'
    } else if value == 14 {
        'e'
    } else {
        'f'
    }
}

/// Which of the thirty-two digits of a UUID stands at the place `at` of its
/// hyphenated spelling, counted from the most significant.
pub open spec fn digit_at(at: int) -> int {
    if at > 23 {
        at - 4
    } else if at > 18 {
        at - 3
    } else if at > 13 {
        at - 2
    } else if at > 8 {
        at - 1
    } else {
        at
    }
}

/// The lower-case hyphenated spelling of a UUID: thirty-two hexadecimal
/// digits, most significant first, in groups of eight, four, four, four and
/// twelve with a hyphen between them.
pub open spec fn uuid_text(id: u128) -> Seq<char> {
    Seq::new(
        36,
        |at: int|
            if at == 8 || at == 13 || at == 18 || at == 23 {
                '-'
            } else {
                hex_digit((id >> ((4 * (31 - digit_at(at))) as u128)) & 0xf)
            },
    )
}

/// Calls `uuid::Uuid::new_v3` with `uuid::Uuid::NAMESPACE_X500` as the
/// namespace. The result depends on `name` alone.
#[verifier::external_body]
pub(crate) fn new_v3_x500(name: &[u8]) -> (id: Uuid)
    ensures
        id == uuid_v3_x500(name@),
{
    uuid::Uuid::new_v3(&uuid::Uuid::NAMESPACE_X500, name).as_u128()
}

/// Calls `uuid::Uuid::new_v4`, which draws a random UUID from the operating
/// system. Nothing is promised of the value.
#[verifier::external_body]
pub(crate) fn new_v4() -> Uuid {
    uuid::Uuid::new_v4().as_u128()
}

/// Calls `uuid::Uuid::parse_str`, which reads any of the spellings that the
/// crate writes, and `to_string` on the `uuid::Error` of a text that it
/// does not read. Whether it succeeds, with what, and with what words it
/// refuses, depends on `text` alone.
#[verifier::external_body]
pub(crate) fn parse_str(text: &str) -> (parsed: Result<Uuid, String>)
    ensures
        match parsed {
            Ok(id) => uuid_parsed(text@) == Some(id),
            Err(reason) => uuid_parsed(text@) is None && reason@ == uuid_rejection(text@),
        },
{
    match uuid::Uuid::parse_str(text) {
        Ok(id) => Ok(id.as_u128()),
        Err(error) => Err(error.to_string()),
    }
}

/// Why a text was not taken for a UUID, in words.
#[derive(Debug)]
pub struct InvalidUuid(pub String);

/// Reads a UUID from `text`, or says why it is none.
pub fn parse(text: &str) -> (parsed: Result<Uuid, InvalidUuid>)
    ensures
        match parsed {
            Ok(id) => uuid_parsed(text@) == Some(id),
            Err(error) => uuid_parsed(text@) is None && error.0@ == uuid_rejection(text@),
        },
{
    match parse_str(text) {
        Ok(id) => Ok(id),
        Err(reason) => Err(InvalidUuid(reason)),
    }
}

/// Calls `to_string` on a `uuid::Uuid`, whose `Display` writes the
/// lower-case hyphenated spelling.
#[verifier::external_body]
pub(crate) fn to_text(id: Uuid) -> (text: String)
    ensures
        text@ == uuid_text(id),
{
    uuid::Uuid::from_u128(id).to_string()
}

} // verus!
