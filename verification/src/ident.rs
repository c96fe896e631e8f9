//! 128-bit identifiers and their texts.

use vstd::prelude::*;
use vstd::utf8::encode_utf8;

use crate::codec::quoted;
use crate::text::digit;

verus! {

/// The `i`-th of the 32 hexadecimal digits of an identifier.
pub open spec fn id_digit(id: u128, i: int) -> char {
    digit((id as nat / vstd::arithmetic::power::pow(16, (31 - i) as nat) as nat) % 16)
}

/// An identifier in five groups of lower-case hexadecimal digits.
pub open spec fn hyphenated(id: u128) -> Seq<char> {
    Seq::new(
        36,
        |i: int|
            if i == 8 || i == 13 || i == 18 || i == 23 {
                '-'
            } else if i < 8 {
                id_digit(id, i)
            } else if i < 13 {
                id_digit(id, i - 1)
            } else if i < 18 {
                id_digit(id, i - 2)
            } else if i < 23 {
                id_digit(id, i - 3)
            } else {
                id_digit(id, i - 4)
            },
    )
}

/// The identifier that `uuid::Uuid::parse_str` reads from a text, or why it reads
/// none.
pub uninterp spec fn uuid_reading(text: Seq<char>) -> Result<u128, Seq<char>>;

/// The identifier in a text, if there is one.
pub open spec fn uuid_value(text: Seq<char>) -> Option<u128> {
    match uuid_reading(text) {
        Ok(id) => Some(id),
        Err(_) => None,
    }
}

/// Calls `uuid::Uuid::to_string`: the hyphenated lower-case form, which
/// `uuid::Uuid::parse_str` reads back.
#[verifier::external_body]
pub(crate) fn id_text(id: u128) -> (result: String)
    ensures
        result@ == hyphenated(id),
        uuid_value(result@) == Some(id),
{
    uuid::Uuid::from_u128(id).to_string()
}

/// Calls `uuid::Uuid::parse_str`. The contract names the identifier that it
/// reads, and is silent on which forms besides the hyphenated one it accepts.
#[verifier::external_body]
pub(crate) fn read_id(text: &str) -> (result: Result<u128, String>)
    ensures
        match result {
            Ok(id) => uuid_reading(text@) == Ok::<u128, Seq<char>>(id),
            Err(message) => uuid_reading(text@) == Err::<u128, Seq<char>>(message@),
        },
{
    uuid::Uuid::parse_str(text).map(|id| id.as_u128()).map_err(|error| error.to_string())
}

/// The identifier that a JSON document holds, or why it holds none.
pub uninterp spec fn json_id_reading(bytes: Seq<u8>) -> Result<u128, Seq<char>>;

/// Calls `serde_json::from_slice` for a `serde_json::Value` and
/// `serde_json::from_value` on it for a `uuid::Uuid`. The contract names the result,
/// and says that an identifier in hyphenated form is read.
#[verifier::external_body]
pub(crate) fn read_json_id(bytes: &[u8]) -> (result: Result<u128, String>)
    ensures
        match result {
            Ok(id) => json_id_reading(bytes@) == Ok::<u128, Seq<char>>(id),
            Err(message) => json_id_reading(bytes@) == Err::<u128, Seq<char>>(message@),
        },
        forall|id: u128|
            bytes@ == encode_utf8(quoted(#[trigger] hyphenated(id))) ==> result is Ok
                && result->Ok_0 == id,
{
    let read = serde_json::from_slice(bytes).and_then(serde_json::from_value::<uuid::Uuid>);
    read.map(|id| id.as_u128()).map_err(|error| error.to_string())
}

/// Reads an identifier.
pub fn parse_id(text: &str) -> (result: Option<u128>)
    ensures
        result == uuid_value(text@),
{
    match read_id(text) {
        Ok(id) => Some(id),
        Err(_) => None,
    }
}

} // verus!
