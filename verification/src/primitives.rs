//! The calls into other crates and into parts of std, each with the contract
//! that the rest of the library relies on.

use crate::protocol;
use vstd::prelude::*;
use vstd::utf8::*;

verus! {

/// Calls `core::str::from_utf8`: text comes back exactly when the bytes are
/// valid UTF-8, and it has those bytes.
#[verifier::external_body]
pub(crate) fn utf8_text(bytes: &[u8]) -> (text: Option<&str>)
    ensures
        match text {
            Some(text) => encode_utf8(text@) == bytes@,
            None => !valid_utf8(bytes@),
        },
{
    core::str::from_utf8(bytes).ok()
}

/// `getrandom::Error`: why the operating system gave no random bytes.
#[verifier::external_type_specification]
#[verifier::external_body]
pub struct ExGetrandomError(getrandom::Error);

/// Calls `getrandom::fill` on a 32-byte buffer. The bytes, and whether there
/// are any, are the operating system's choice: nothing is claimed of them.
#[verifier::external_body]
pub(crate) fn system_entropy() -> (drawn: Result<[u8; 32], getrandom::Error>)
{
    let mut bytes = [0u8; 32];
    getrandom::fill(&mut bytes)?;
    Ok(bytes)
}

/// Calls `subtle::ConstantTimeEq::ct_eq` on two 32-byte slices: it answers
/// whether they are equal, in time that does not depend on their contents.
#[verifier::external_body]
pub(crate) fn constant_time_same(a: &[u8; 32], b: &[u8; 32]) -> (same: bool)
    ensures
        same == (a@ == b@),
{
    bool::from(subtle::ConstantTimeEq::ct_eq(a.as_slice(), b.as_slice()))
}

/// The BLAKE3 digest of an input.
pub uninterp spec fn blake3_digest(input: Seq<u8>) -> Seq<u8>;

/// Calls `blake3::hash`: the digest depends on the input alone.
#[verifier::external_body]
pub(crate) fn digest(input: &[u8]) -> (hash: [u8; 32])
    ensures
        hash@ == blake3_digest(input@),
{
    *blake3::hash(input).as_bytes()
}

/// The BLAKE3 keyed digest of an input.
pub uninterp spec fn blake3_keyed_digest(key: Seq<u8>, input: Seq<u8>) -> Seq<u8>;

/// Calls `blake3::keyed_hash`: the digest depends on the 32 key bytes and the
/// input alone.
#[verifier::external_body]
pub(crate) fn keyed_digest(key: &[u8], input: &[u8]) -> (hash: [u8; 32])
    requires
        key@.len() == 32,
    ensures
        hash@ == blake3_keyed_digest(key@, input@),
{
    let key: &[u8; 32] = key.try_into().expect("a key has 32 bytes");
    *blake3::keyed_hash(key, input).as_bytes()
}

/// The instant that an RFC 3339 text names, in nanoseconds since the Unix
/// epoch.
pub uninterp spec fn rfc3339_instant(text: Seq<char>) -> Option<i128>;

/// Calls `time::OffsetDateTime::parse` with the RFC 3339 format and takes the
/// instant of the result: a function of the text alone.
#[verifier::external_body]
pub(crate) fn parse_rfc3339(text: &str) -> (nanos: Option<i128>)
    ensures
        nanos == rfc3339_instant(text@),
{
    let format = &time::format_description::well_known::Rfc3339;
    time::OffsetDateTime::parse(text, format).ok().map(|at| at.unix_timestamp_nanos())
}

/// The RFC 3339 text, in UTC, of an instant in nanoseconds since the Unix
/// epoch.
pub uninterp spec fn rfc3339_text(nanos: i128) -> Option<Seq<char>>;

/// Calls `time::OffsetDateTime::format` with the RFC 3339 format on the UTC
/// date and time of the instant: a function of the instant alone, and without a
/// result where the instant has no such date or the format cannot show it.
#[verifier::external_body]
pub(crate) fn format_rfc3339(nanos: i128) -> (text: Option<String>)
    ensures
        match text {
            Some(text) => rfc3339_text(nanos) == Some(text@),
            None => rfc3339_text(nanos) is None,
        },
{
    let format = &time::format_description::well_known::Rfc3339;
    time::OffsetDateTime::from_unix_timestamp_nanos(nanos).ok()?.format(format).ok()
}

/// The number that a JSON text is, where it is one that fits in 64 bits.
pub uninterp spec fn json_number(text: Seq<char>) -> Option<u64>;

/// Calls `serde_json::from_str::<u64>`: a function of the text alone.
#[verifier::external_body]
pub(crate) fn json_u64(text: &str) -> (number: Option<u64>)
    ensures
        number == json_number(text@),
{
    serde_json::from_str::<u64>(text).ok()
}

/// The compact text of the JSON value that a text holds, where it holds one.
pub uninterp spec fn json_value(text: Seq<char>) -> Option<Seq<char>>;

/// Calls `serde_json::from_str` for any value and writes the value out again: a
/// function of the text alone.
#[verifier::external_body]
pub(crate) fn json_value_text(text: &str) -> (value: Option<String>)
    ensures
        match value {
            Some(value) => json_value(text@) == Some(value@),
            None => json_value(text@) is None,
        },
{
    serde_json::from_str::<serde_json::Value>(text).ok().map(|value| value.to_string())
}

/// A hexadecimal digit in lower case.
pub open spec fn hex_digit(value: int) -> char {
    if value < 10 {
        (value + '0' as int) as char
    } else {
        (value - 10 + 'a' as int) as char
    }
}

/// How a character stands in a JSON string literal: quote, backslash and
/// everything below the space are escaped, the rest stands as it is.
pub open spec fn json_char(c: char) -> Seq<char> {
    if c == '"' || c == '\\' {
        seq!['\\', c]
    } else if c == '\u{8}' {
        seq!['\\', 'b']
    } else if c == '\t' {
        seq!['\\', 't']
    } else if c == '\n' {
        seq!['\\', 'n']
    } else if c == '\u{c}' {
        seq!['\\', 'f']
    } else if c == '\r' {
        seq!['\\', 'r']
    } else if c >= ' ' {
        seq![c]
    } else {
        seq!['\\', 'u', '0', '0', hex_digit(c as int / 16), hex_digit(c as int % 16)]
    }
}

/// The characters of a text one after the other, each as it stands in a JSON
/// string literal.
pub open spec fn json_chars(text: Seq<char>) -> Seq<char>
    decreases text.len(),
{
    if text.len() == 0 {
        Seq::empty()
    } else {
        json_chars(text.drop_last()) + json_char(text.last())
    }
}

/// The JSON string literal that stands for a text, quotes included.
pub open spec fn json_string(text: Seq<char>) -> Seq<char> {
    seq!['"'] + json_chars(text) + seq!['"']
}

/// A JSON string literal holds nothing below the space, so it cannot end a line.
pub proof fn json_string_stays_on_its_line(text: Seq<char>, i: int)
    requires
        0 <= i < json_string(text).len(),
    ensures
        json_string(text)[i] >= ' ',
{
    json_chars_are_printable(text);
}

proof fn json_char_is_printable(c: char)
    ensures
        forall|i: int| 0 <= i < json_char(c).len() ==> #[trigger] json_char(c)[i] >= ' ',
{
    if !(c >= ' ') {
        assert(0 <= c as int / 16 < 16 && 0 <= c as int % 16 < 16);
    }
}

proof fn json_chars_are_printable(text: Seq<char>)
    ensures
        forall|i: int| 0 <= i < json_chars(text).len() ==> #[trigger] json_chars(text)[i] >= ' ',
    decreases text.len(),
{
    if text.len() > 0 {
        let head = json_chars(text.drop_last());
        let tail = json_char(text.last());
        json_chars_are_printable(text.drop_last());
        json_char_is_printable(text.last());
        assert forall|i: int| 0 <= i < json_chars(text).len() implies #[trigger] json_chars(
            text,
        )[i] >= ' ' by {
            if i < head.len() {
                assert(json_chars(text)[i] == head[i]);
            } else {
                assert(json_chars(text)[i] == tail[i - head.len()]);
            }
        }
    }
}

/// Calls `serde_json::Value::to_string` on a string value: the text between
/// quotes, with the escapes of [`json_char`].
#[verifier::external_body]
pub(crate) fn json_string_text(text: &str) -> (literal: String)
    ensures
        literal@ == json_string(text@),
{
    serde_json::Value::String(text.to_owned()).to_string()
}

/// The plain text of an instant, in UTC, where it has a date.
pub uninterp spec fn instant_chars(nanos: i128) -> Option<Seq<char>>;

/// Calls `time::OffsetDateTime::to_string` on the UTC date and time of the
/// instant: a function of the instant alone, and without a result where the
/// instant has no such date.
#[verifier::external_body]
pub(crate) fn instant_text(nanos: i128) -> (text: Option<String>)
    ensures
        match text {
            Some(text) => instant_chars(nanos) == Some(text@),
            None => instant_chars(nanos) is None,
        },
{
    time::OffsetDateTime::from_unix_timestamp_nanos(nanos).ok().map(|at| at.to_string())
}

/// Calls `ulid::Ulid::new`, which draws a new identifier, and writes it out:
/// 26 characters of its base-32 alphabet. Which ones is left to time and
/// chance.
#[verifier::external_body]
pub(crate) fn mint_ulid() -> (id: String)
    ensures
        protocol::minted(id@),
{
    ulid::Ulid::new().to_string()
}

} // verus!
