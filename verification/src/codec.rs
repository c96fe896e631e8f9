//! Bytes as text, and texts inside JSON documents.

use vstd::prelude::*;
use vstd::utf8::encode_utf8;

use crate::text::{decimal, digit, join, numeral, numeral_is_read, views};

verus! {

/// Lower-case hexadecimal, two digits for each byte.
pub open spec fn hex_text(bytes: Seq<u8>) -> Seq<char> {
    Seq::new(
        2 * bytes.len(),
        |i: int|
            if i % 2 == 0 {
                digit((bytes[i / 2] / 16) as nat)
            } else {
                digit((bytes[i / 2] % 16) as nat)
            },
    )
}

/// Calls `hex::encode`, which writes two lower-case digits for each byte.
#[verifier::external_body]
pub(crate) fn hex_encode(bytes: &[u8]) -> (result: String)
    ensures
        result@ == hex_text(bytes@),
{
    hex::encode(bytes)
}

/// The text of bytes in padded base64 with the standard alphabet.
pub uninterp spec fn base64_text(bytes: Seq<u8>) -> Seq<char>;

/// The bytes that a text in padded base64 with the standard alphabet denotes.
pub uninterp spec fn base64_bytes(text: Seq<char>) -> Option<Seq<u8>>;

/// Calls `encode` of base64's `STANDARD` engine; decoding its result gives the
/// bytes back.
#[verifier::external_body]
pub(crate) fn base64_encode(bytes: &[u8]) -> (result: String)
    ensures
        result@ == base64_text(bytes@),
        base64_bytes(result@) == Some(bytes@),
{
    base64::Engine::encode(&base64::engine::general_purpose::STANDARD, bytes)
}

/// Calls `decode` of base64's `STANDARD` engine. The contract names the result.
#[verifier::external_body]
pub(crate) fn base64_decode(text: &str) -> (result: Option<Vec<u8>>)
    ensures
        match result {
            Some(bytes) => base64_bytes(text@) == Some(bytes@),
            None => base64_bytes(text@) is None,
        },
{
    base64::Engine::decode(&base64::engine::general_purpose::STANDARD, text).ok()
}

/// The text of bytes in unpadded base64 with the URL-safe alphabet.
pub uninterp spec fn base64url_text(bytes: Seq<u8>) -> Seq<char>;

/// The bytes that a text in unpadded base64 with the URL-safe alphabet denotes.
pub uninterp spec fn base64url_bytes(text: Seq<char>) -> Option<Seq<u8>>;

/// Calls `encode` of base64's `URL_SAFE_NO_PAD` engine. Decoding its result
/// gives the bytes back, it has four characters for each three bytes, and it
/// holds only the characters of its alphabet, so never a dot.
#[verifier::external_body]
pub(crate) fn base64url_encode(bytes: &[u8]) -> (result: String)
    ensures
        result@ == base64url_text(bytes@),
        base64url_bytes(result@) == Some(bytes@),
        result@.len() == (bytes@.len() * 4 + 2) / 3,
        forall|i: int| 0 <= i < result@.len() ==> base64url_character(#[trigger] result@[i]),
{
    base64::Engine::encode(&base64::engine::general_purpose::URL_SAFE_NO_PAD, bytes)
}

/// The alphabet of URL-safe base64.
pub open spec fn base64url_character(c: char) -> bool {
    'A' <= c <= 'Z' || 'a' <= c <= 'z' || '0' <= c <= '9' || c == '-' || c == '_'
}

/// Whether a text is the one that bytes take in unpadded base64 with the URL-safe
/// alphabet, and stands for them: it has four characters for each three bytes, all
/// of the alphabet.
pub open spec fn base64url_field(text: Seq<char>, bytes: Seq<u8>) -> bool {
    &&& text == base64url_text(bytes)
    &&& base64url_bytes(text) == Some(bytes)
    &&& text.len() == (bytes.len() * 4 + 2) / 3
    &&& forall|i: int| 0 <= i < text.len() ==> base64url_character(#[trigger] text[i])
}

/// Calls `decode` of base64's `URL_SAFE_NO_PAD` engine. The contract names the
/// result, and says that a text is taken only if it is the one that its bytes
/// take: there is no padding, and no bit is left over.
#[verifier::external_body]
pub(crate) fn base64url_decode(text: &str) -> (result: Option<Vec<u8>>)
    ensures
        match result {
            Some(bytes) => base64url_field(text@, bytes@),
            None => base64url_bytes(text@) is None,
        },
{
    base64::Engine::decode(&base64::engine::general_purpose::URL_SAFE_NO_PAD, text).ok()
}

/// Whether bytes are a JSON document that is an object.
pub uninterp spec fn json_object(bytes: Seq<u8>) -> bool;

/// Calls `serde_json::from_slice` for a `serde_json::Value` and asks whether the
/// value is an object. The contract names the answer.
#[verifier::external_body]
pub(crate) fn is_json_object(bytes: &[u8]) -> (result: bool)
    ensures
        result == json_object(bytes@),
{
    matches!(serde_json::from_slice(bytes), Ok(serde_json::Value::Object(_)))
}

/// The text of a member of a JSON document: none where the bytes are no document,
/// and then none where it has no such member that is a text.
pub uninterp spec fn json_text_member(bytes: Seq<u8>, name: Seq<char>) -> Option<Option<Seq<char>>>;

/// A JSON object with two members.
pub open spec fn two_members(
    first: Seq<char>,
    value: Seq<char>,
    second: Seq<char>,
    other: Seq<char>,
) -> Seq<char> {
    object(seq![member(first, value), member(second, other)])
}

/// Whether two names need no escapes and are in order by their first characters.
pub open spec fn in_order(first: Seq<char>, second: Seq<char>) -> bool {
    &&& quoted(first) == json_string(first)
    &&& quoted(second) == json_string(second)
    &&& first.len() > 0
    &&& second.len() > 0
    &&& first[0] < second[0]
}

/// Whether a text is a JSON string.
pub open spec fn is_json_string(value: Seq<char>) -> bool {
    exists|text: Seq<char>| value == #[trigger] json_string(text)
}

/// Whether a text is a JSON string, or an object with two of them in order.
pub open spec fn text_or_pair(value: Seq<char>) -> bool {
    is_json_string(value) || exists|
        first: Seq<char>,
        text: Seq<char>,
        second: Seq<char>,
        other: Seq<char>,
    |
        in_order(first, second) && is_json_string(text) && is_json_string(other) && value
            == #[trigger] two_members(first, text, second, other)
}

/// Calls `serde_json::from_slice` for a `serde_json::Value`, and `get` and
/// `as_str` of the value. The contract names the result, and says that the first
/// text of an object with two members is read back.
#[verifier::external_body]
pub(crate) fn json_member_text(bytes: &[u8], name: &str) -> (result: Option<Option<String>>)
    ensures
        match result {
            Some(Some(text)) => json_text_member(bytes@, name@) == Some(Some(text@)),
            Some(None) => json_text_member(bytes@, name@) == Some(None::<Seq<char>>),
            None => json_text_member(bytes@, name@) is None,
        },
        forall|text: Seq<char>, second: Seq<char>, other: Seq<char>|
            bytes@ == encode_utf8(#[trigger] two_members(name@, json_string(text), second, other))
                && in_order(name@, second) && text_or_pair(other) ==> result is Some
                && result->0 is Some && result->0->0@ == text,
{
    let document: serde_json::Value = serde_json::from_slice(bytes).ok()?;
    Some(document.get(name).and_then(serde_json::Value::as_str).map(str::to_owned))
}

/// A member of a JSON document, without needless white space: none where the bytes
/// are no document, and then none where it has no such member.
pub uninterp spec fn json_member_form(bytes: Seq<u8>, name: Seq<char>) -> Option<Option<Seq<u8>>>;

/// Calls `serde_json::from_slice` for a `serde_json::Value`, `get` of the value and
/// `serde_json::to_vec` on what it gives. The contract names the result, and says
/// that what an object with two members was written with is read back.
#[verifier::external_body]
pub(crate) fn json_member(bytes: &[u8], name: &str) -> (result: Option<Option<Vec<u8>>>)
    ensures
        match result {
            Some(Some(form)) => json_member_form(bytes@, name@) == Some(Some(form@)),
            Some(None) => json_member_form(bytes@, name@) == Some(None::<Seq<u8>>),
            None => json_member_form(bytes@, name@) is None,
        },
        forall|first: Seq<char>, value: Seq<char>, second: Seq<char>, other: Seq<char>|
            bytes@ == encode_utf8(#[trigger] two_members(first, value, second, other)) && in_order(
                first,
                second,
            ) && text_or_pair(value) && text_or_pair(other) && (name@ == first || name@ == second)
                ==> result is Some && result->0 is Some && result->0->0@ == encode_utf8(
                if name@ == first {
                    value
                } else {
                    other
                },
            ),
{
    let document: serde_json::Value = serde_json::from_slice(bytes).ok()?;
    document.get(name).map(serde_json::to_vec).transpose().ok()
}

/// A JSON document without needless white space.
pub uninterp spec fn json_compact_form(bytes: Seq<u8>) -> Option<Seq<u8>>;

/// Calls `serde_json::from_slice` for a `serde_json::Value` and
/// `serde_json::to_vec` on it. The contract names the result.
#[verifier::external_body]
pub(crate) fn json_compact(bytes: &[u8]) -> (result: Option<Vec<u8>>)
    ensures
        match result {
            Some(compact) => json_compact_form(bytes@) == Some(compact@),
            None => json_compact_form(bytes@) is None,
        },
{
    let document: serde_json::Value = serde_json::from_slice(bytes).ok()?;
    serde_json::to_vec(&document).ok()
}

/// A text as it is shown for debugging: in quotation marks, with escapes.
pub uninterp spec fn debug_form(text: Seq<char>) -> Seq<char>;

/// Formats a text with `core::fmt::Debug`. The contract names the result.
#[verifier::external_body]
pub(crate) fn debug_text(text: &str) -> (result: String)
    ensures
        result@ == debug_form(text@),
{
    format!("{text:?}")
}

/// A character inside a JSON string.
pub open spec fn json_character(c: char) -> Seq<char> {
    if c == '"' {
        seq!['\\', '"']
    } else if c == '\\' {
        seq!['\\', '\\']
    } else if c == '\u{8}' {
        seq!['\\', 'b']
    } else if c == '\t' {
        seq!['\\', 't']
    } else if c == '\n' {
        seq!['\\', 'n']
    } else if c == '\u{c}' {
        seq!['\\', 'f']
    } else if c == '\r' {
        seq!['\\', 'r']
    } else if c <= '\u{1f}' {
        seq!['\\', 'u', '0', '0', digit((c as nat) / 16), digit((c as nat) % 16)]
    } else {
        seq![c]
    }
}

/// The characters of `s` as they stand inside a JSON string.
pub open spec fn json_characters(s: Seq<char>) -> Seq<char>
    decreases s.len(),
{
    if s.len() == 0 {
        Seq::empty()
    } else {
        json_characters(s.drop_last()) + json_character(s.last())
    }
}

/// `s` as a JSON string.
pub open spec fn json_string(s: Seq<char>) -> Seq<char> {
    seq!['"'] + json_characters(s) + seq!['"']
}

/// Calls `serde_json::to_string` on a text: quotation marks around it, with
/// quotation marks, backslashes and control characters below the space escaped.
#[verifier::external_body]
pub(crate) fn json_text(text: &str) -> (result: String)
    ensures
        result@ == json_string(text@),
{
    serde_json::to_string(text).unwrap_or_default()
}

/// A text that needs no escapes as a JSON string.
pub open spec fn quoted(s: Seq<char>) -> Seq<char> {
    seq!['"'] + s + seq!['"']
}

/// A member of a JSON object: a name and the text of its value.
pub open spec fn member(name: Seq<char>, value: Seq<char>) -> Seq<char> {
    quoted(name).push(':') + value
}

/// A JSON object without white space.
pub open spec fn object(members: Seq<Seq<char>>) -> Seq<char> {
    seq!['{'] + join(members, ',') + seq!['}']
}

/// A character that stands for itself inside a JSON string.
pub open spec fn unescaped(c: char) -> bool {
    c > '\u{1f}' && c != '"' && c != '\\'
}

/// A text of characters that stand for themselves needs no escapes.
pub proof fn unescaped_text(text: Seq<char>)
    requires
        forall|i: int| 0 <= i < text.len() ==> unescaped(#[trigger] text[i]),
    ensures
        quoted(text) == json_string(text),
{
    unescaped_characters(text);
}

proof fn unescaped_characters(text: Seq<char>)
    requires
        forall|i: int| 0 <= i < text.len() ==> unescaped(#[trigger] text[i]),
    ensures
        json_characters(text) == text,
    decreases text.len(),
{
    if text.len() > 0 {
        unescaped_characters(text.drop_last());
        assert(json_characters(text) =~= text);
    }
}

/// Puts quotation marks around a text that needs no escapes.
pub fn quote(text: &str) -> (result: String)
    ensures
        result@ == quoted(text@),
{
    let mut result: String = String::new();
    result.push('"');
    result.append(text);
    result.push('"');
    assert(result@ =~= quoted(text@));
    result
}

/// Writes a member of a JSON object.
pub fn member_text(name: &str, value: &str) -> (result: String)
    ensures
        result@ == member(name@, value@),
{
    let mut result = quote(name);
    result.push(':');
    result.append(value);
    result
}

/// Writes a JSON object.
pub fn object_text(members: &Vec<String>) -> (result: String)
    ensures
        result@ == object(views(members@)),
{
    let mut result: String = String::new();
    result.push('{');
    assert(result@ =~= seq!['{']);
    let mut i: usize = 0;
    let ghost texts = views(members@);
    assert(result@ =~= seq!['{'] + join(texts.take(0), ','));
    while i < members.len()
        invariant
            i <= members.len(),
            texts == views(members@),
            result@ == seq!['{'] + join(texts.take(i as int), ','),
        decreases members.len() - i,
    {
        let ghost before = result@;
        assert(texts.take(i + 1).drop_last() == texts.take(i as int));
        if i > 0 {
            result.push(',');
        }
        result.append(&members[i]);
        assert(result@ =~= seq!['{'] + join(texts.take(i + 1), ','));
        i += 1;
    }
    assert(texts.take(texts.len() as int) == texts);
    result.push('}');
    assert(result@ =~= object(texts));
    result
}

/// A JSON array of byte values.
pub open spec fn byte_array(bytes: Seq<u8>) -> Seq<char> {
    seq!['['] + join(bytes.map_values(|byte: u8| numeral(byte as nat, 10)), ',') + seq![']']
}

/// Writes bytes as a JSON array of numbers.
pub fn byte_array_text(bytes: &[u8]) -> (result: String)
    ensures
        result@ == byte_array(bytes@),
{
    let mut result: String = String::new();
    result.push('[');
    let ghost texts = bytes@.map_values(|byte: u8| numeral(byte as nat, 10));
    assert(result@ =~= seq!['['] + join(texts.take(0), ','));
    let mut i: usize = 0;
    while i < bytes.len()
        invariant
            i <= bytes.len(),
            texts == bytes@.map_values(|byte: u8| numeral(byte as nat, 10)),
            result@ == seq!['['] + join(texts.take(i as int), ','),
        decreases bytes.len() - i,
    {
        assert(texts.take(i + 1).drop_last() == texts.take(i as int));
        if i > 0 {
            result.push(',');
        }
        result.append(&decimal(bytes[i] as u64));
        assert(result@ =~= seq!['['] + join(texts.take(i + 1), ','));
        i += 1;
    }
    assert(texts.take(texts.len() as int) == texts);
    result.push(']');
    assert(result@ =~= byte_array(bytes@));
    result
}

/// An integer in decimal.
pub open spec fn signed_decimal(value: int) -> Seq<char> {
    if value < 0 {
        seq!['-'] + numeral((-value) as nat, 10)
    } else {
        numeral(value as nat, 10)
    }
}

/// Writes an integer in decimal.
pub fn signed_text(value: i32) -> (result: String)
    ensures
        result@ == signed_decimal(value as int),
{
    if value < 0 {
        let mut result: String = String::new();
        result.push('-');
        result.append(&decimal((-(value as i64)) as u64));
        assert(result@ =~= signed_decimal(value as int));
        result
    } else {
        decimal(value as u64)
    }
}

/// The text of a truth value.
pub open spec fn bool_literal(value: bool) -> Seq<char> {
    if value {
        "true"@
    } else {
        "false"@
    }
}

/// Writes a truth value.
pub fn bool_text(value: bool) -> (result: &'static str)
    ensures
        result@ == bool_literal(value),
{
    if value {
        "true"
    } else {
        "false"
    }
}

/// A number below 2^32 as four bytes, the most significant one first.
pub open spec fn be32(value: nat) -> Seq<u8> {
    seq![
        (value / 0x1000000 % 256) as u8,
        (value / 0x10000 % 256) as u8,
        (value / 0x100 % 256) as u8,
        (value % 256) as u8,
    ]
}

/// The number that four bytes stand for, the most significant one first.
pub open spec fn be32_value(bytes: Seq<u8>) -> nat {
    (bytes[0] * 0x1000000 + bytes[1] * 0x10000 + bytes[2] * 0x100 + bytes[3]) as nat
}

/// Reading four bytes gives back the number that they were written from.
pub proof fn be32_round_trip(value: nat)
    requires
        value <= u32::MAX,
    ensures
        be32_value(be32(value)) == value,
{
}

/// Appends a number as four bytes.
pub fn push_be32(bytes: &mut Vec<u8>, value: u32)
    ensures
        final(bytes)@ == old(bytes)@ + be32(value as nat),
{
    bytes.push((value / 0x1000000) as u8);
    bytes.push((value / 0x10000 % 256) as u8);
    bytes.push((value / 0x100 % 256) as u8);
    bytes.push((value % 256) as u8);
    assert(bytes@ =~= old(bytes)@ + be32(value as nat));
}

/// Reads four bytes as a number.
pub fn read_be32(bytes: &[u8]) -> (result: u32)
    requires
        bytes@.len() >= 4,
    ensures
        result == be32_value(bytes@),
{
    bytes[0] as u32 * 0x1000000 + bytes[1] as u32 * 0x10000 + bytes[2] as u32 * 0x100 + bytes[3] as u32
}

/// Bytes are written as two digits each, so bytes that differ are written differently.
pub proof fn written_bytes_are_told_apart(left: Seq<u8>, right: Seq<u8>)
    requires
        hex_text(left) == hex_text(right),
    ensures
        left == right,
{
    assert(hex_text(left).len() == 2 * left.len() && hex_text(right).len() == 2 * right.len());
    assert(left.len() == right.len());
    assert forall|i: int| 0 <= i < left.len() implies left[i] == right[i] by {
        let (high, low) = (2 * i, 2 * i + 1);
        assert(high / 2 == i && low / 2 == i && high % 2 == 0 && low % 2 == 1);
        assert(hex_text(left)[high] == digit((left[high / 2] / 16) as nat));
        assert(hex_text(right)[high] == digit((right[high / 2] / 16) as nat));
        assert(hex_text(left)[low] == digit((left[low / 2] % 16) as nat));
        assert(hex_text(right)[low] == digit((right[low / 2] % 16) as nat));
        equal_digits((left[i] / 16) as nat, (right[i] / 16) as nat);
        equal_digits((left[i] % 16) as nat, (right[i] % 16) as nat);
    }
    assert(left =~= right);
}

/// A truth value is written as its own word.
pub proof fn truth_values_are_told_apart(value: bool, other: bool)
    ensures
        bool_literal(value) == bool_literal(other) <==> value == other,
        bool_literal(true) == "true"@,
{
    reveal_strlit("true");
    reveal_strlit("false");
    assert("true"@.len() == 4 && "false"@.len() == 5);
}

proof fn equal_digits(left: nat, right: nat)
    requires
        left < 16,
        right < 16,
        digit(left) == digit(right),
    ensures
        left == right,
{
    numeral_is_read(left, 16);
    numeral_is_read(right, 16);
    assert(numeral(left, 16) =~= seq![digit(left)]);
    assert(numeral(right, 16) =~= seq![digit(right)]);
}

} // verus!
