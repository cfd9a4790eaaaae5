//! Identity identifiers: 128-bit values with the textual forms of a UUID.

use vstd::prelude::*;

verus! {

/// The identifier that `uuid::Uuid::parse_str` reads from a text, if it
/// accepts the text.
pub uninterp spec fn uuid_value(text: Seq<char>) -> Option<u128>;

/// The text that `uuid::Uuid` displays for an identifier: lower-case
/// hexadecimal digits in five hyphenated groups.
pub uninterp spec fn uuid_text(id: u128) -> Seq<char>;

/// The words in which `uuid::Uuid::parse_str` turns a text down: the
/// `Display` text of the error it returns for that text.
pub uninterp spec fn uuid_refusal(text: Seq<char>) -> Seq<char>;

/// The bits that mark a random (version 4, RFC variant) identifier.
pub open spec fn is_random_id(id: u128) -> bool {
    id & 0x0000_0000_0000_f000_c000_0000_0000_0000u128
        == 0x0000_0000_0000_4000_8000_0000_0000_0000u128
}

/// `uuid::Uuid::parse_str`, then `as_u128` on what it accepted, or the
/// `Display` text of the error on what it did not. Trusted: either is the
/// named function of the text.
#[verifier::external_body]
fn parse_uuid(text: &str) -> (parsed: Result<u128, String>)
    ensures
        match parsed {
            Ok(id) => uuid_value(text@) == Some(id),
            Err(words) => uuid_value(text@) is None && words@ == uuid_refusal(text@),
        },
{
    match uuid::Uuid::parse_str(text) {
        Ok(id) => Ok(id.as_u128()),
        Err(error) => Err(error.to_string()),
    }
}

/// `uuid::Uuid::from_u128`, then the `Display` text. Trusted: the text is
/// the named one, and `parse_str` reads the identifier back from it, as the
/// crate documents for every format it writes.
#[verifier::external_body]
pub(crate) fn format_uuid(id: u128) -> (text: String)
    ensures
        text@ == uuid_text(id),
        uuid_value(text@) == Some(id),
{
    uuid::Uuid::from_u128(id).to_string()
}

/// `uuid::Uuid::new_v4`, as a number. Trusted: only the version and variant
/// bits, which the crate sets on every value it draws.
#[verifier::external_body]
pub(crate) fn random_uuid() -> (id: u128)
    ensures
        is_random_id(id),
{
    uuid::Uuid::new_v4().as_u128()
}

/// Reads an identifier. A text that is none yields the reason, in the
/// words of the parser.
pub fn parse_id(text: &str) -> (parsed: Result<u128, String>)
    ensures
        match parsed {
            Ok(id) => uuid_value(text@) == Some(id),
            Err(words) => uuid_value(text@) is None && words@ == uuid_refusal(text@),
        },
{
    parse_uuid(text)
}

} // verus!
