//! The boundary to `serde_json`, which reads and writes the JSON text of the
//! wire format.
//!
//! Nothing in this module is proved: each item states what the named function
//! of `serde_json` does, and the codec is proved from these statements.

use vstd::prelude::*;

verus! {

/// A parsed JSON document. Its inside is read only through [`member`],
/// [`as_text`] and [`as_integer`].
#[verifier::external_type_specification]
#[verifier::external_body]
pub struct ExValue(serde_json::Value);

/// The error that `serde_json` reports. Nothing is read from it.
#[verifier::external_type_specification]
#[verifier::external_body]
pub struct ExError(serde_json::Error);

/// The document that `serde_json::from_str` reads from `text`, or `None`
/// where it rejects the text.
pub uninterp spec fn json_document(text: Seq<char>) -> Option<serde_json::Value>;

/// The member of `value` under `key`, as `serde_json::Value::get` finds it:
/// `None` where `value` is no object or has no such member.
pub uninterp spec fn json_member(value: serde_json::Value, key: Seq<char>) -> Option<
    serde_json::Value,
>;

/// The text of `value`, as `serde_json::Value::as_str` gives it: `None` where
/// `value` is no JSON string.
pub uninterp spec fn json_text(value: serde_json::Value) -> Option<Seq<char>>;

/// The number in `value`, as `serde_json::Value::as_i64` gives it: `None`
/// where `value` is no integer or does not fit in 64 signed bits.
pub uninterp spec fn json_integer(value: serde_json::Value) -> Option<i64>;

/// What JSON writes for one character inside a string: a backslash form for
/// the quote, the backslash and the control characters below U+0020, and the
/// character itself for every other.
pub open spec fn json_escape(c: char) -> Seq<char> {
    if c == '"' {
        seq!['\\', '"']
    } else if c == '\\' {
        seq!['\\', '\\']
    } else if c == '\u{08}' {
        seq!['\\', 'b']
    } else if c == '\u{09}' {
        seq!['\\', 't']
    } else if c == '\u{0A}' {
        seq!['\\', 'n']
    } else if c == '\u{0C}' {
        seq!['\\', 'f']
    } else if c == '\u{0D}' {
        seq!['\\', 'r']
    } else if (c as u32) < 0x20 {
        seq!['\\', 'u', '0', '0', hex_digit((c as u32 / 16) as nat), hex_digit((c as u32 % 16) as nat)]
    } else {
        seq![c]
    }
}

/// The lower-case hexadecimal digit for `d`.
pub open spec fn hex_digit(d: nat) -> char {
    if d < 10 {
        crate::decimal::digit_char(d)
    } else if d == 10 {
        'a'
    } else if d == 11 {
        'b'
    } else if d == 12 {
        'c'
    } else if d == 13 {
        'd'
    } else if d == 14 {
        'e'
    } else {
        'f'
    }
}

/// The characters of `text`, each escaped for a JSON string.
pub open spec fn json_escaped(text: Seq<char>) -> Seq<char>
    decreases text.len(),
{
    if text.len() == 0 {
        Seq::empty()
    } else {
        json_escaped(text.drop_last()) + json_escape(text.last())
    }
}

/// The JSON string that holds `text`: its escaped characters between two
/// quotes.
pub open spec fn json_quoted(text: Seq<char>) -> Seq<char> {
    seq!['"'] + json_escaped(text) + seq!['"']
}

/// `serde_json::from_str`, reading a whole document.
///
/// The result depends on the text alone: it is the document named by
/// [`json_document`], or an error where that is `None`.
#[verifier::external_body]
pub(crate) fn parse_document(text: &str) -> (r: Result<serde_json::Value, serde_json::Error>)
    ensures
        r is Ok <==> json_document(text@) is Some,
        r matches Ok(value) ==> json_document(text@) == Some(value),
{
    serde_json::from_str::<serde_json::Value>(text)
}

/// `serde_json::Value::get` with a string key.
///
/// The result is the member named by [`json_member`].
#[verifier::external_body]
pub(crate) fn member<'a>(value: &'a serde_json::Value, key: &str) -> (r: Option<
    &'a serde_json::Value,
>)
    ensures
        r is Some <==> json_member(*value, key@) is Some,
        r matches Some(found) ==> json_member(*value, key@) == Some(*found),
{
    value.get(key)
}

/// `serde_json::Value::as_str`.
///
/// The result is the text named by [`json_text`].
#[verifier::external_body]
pub(crate) fn as_text<'a>(value: &'a serde_json::Value) -> (r: Option<&'a str>)
    ensures
        r is Some <==> json_text(*value) is Some,
        r matches Some(text) ==> json_text(*value) == Some(text@),
{
    value.as_str()
}

/// `serde_json::Value::as_i64`.
///
/// The result is the number named by [`json_integer`].
#[verifier::external_body]
pub(crate) fn as_integer(value: &serde_json::Value) -> (r: Option<i64>)
    ensures
        r == json_integer(*value),
{
    value.as_i64()
}

/// `serde_json::to_string` on a string slice.
///
/// The call succeeds on every string slice, and its result is `text` written
/// as a JSON string: a quote, the characters with the quote, the backslash
/// and the control characters escaped as [`json_escape`] says, and a quote.
///
/// That it succeeds is claimed because `serde_json` names two ways for the
/// call to fail, a value that refuses to be serialized and a map whose keys
/// are no strings, and a string slice is neither: it is handed to the writer
/// as it is, and the writer fills a byte vector in memory, which takes every
/// write.
#[verifier::external_body]
pub(crate) fn quote_text(text: &str) -> (r: Result<String, serde_json::Error>)
    ensures
        r is Ok,
        r matches Ok(quoted) ==> quoted@ == json_quoted(text@),
{
    serde_json::to_string(text)
}

} // verus!
