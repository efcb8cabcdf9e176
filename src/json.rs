//! The JSON texts this library reads and writes, through serde_json.

use vstd::prelude::*;

verus! {

/// The characters of each text in `v`.
pub open spec fn texts_view(v: Seq<String>) -> Seq<Seq<char>> {
    v.map_values(|s: String| s@)
}

/// The lower-case hexadecimal digit of `n`, for `n` below 16.
pub open spec fn hex_digit(n: int) -> char {
    "0123456789abcdef"@[n]
}

/// How serde_json writes the character `c` inside a JSON string: a quote and a
/// backslash behind a backslash, the usual short escapes, any other control
/// character as `\u00` and two lower-case hex digits, everything else as is.
pub open spec fn escaped_char(c: char) -> Seq<char> {
    if c == '"' {
        seq!['\\', '"']
    } else if c == '\\' {
        seq!['\\', '\\']
    } else if c == '\x08' {
        seq!['\\', 'b']
    } else if c == '\t' {
        seq!['\\', 't']
    } else if c == '\n' {
        seq!['\\', 'n']
    } else if c == '\x0C' {
        seq!['\\', 'f']
    } else if c == '\r' {
        seq!['\\', 'r']
    } else if (c as u32) < 0x20 {
        seq!['\\', 'u', '0', '0', hex_digit((c as u32) as int / 16), hex_digit((c as u32) as int % 16)]
    } else {
        seq![c]
    }
}

/// The JSON string literal for `s`: its characters escaped, between quotes.
pub open spec fn json_quoted(s: Seq<char>) -> Seq<char> {
    seq!['"'] + s.map_values(|c: char| escaped_char(c)).flatten() + seq!['"']
}

/// The string that the JSON pointer `pointer` reaches in the JSON document
/// `doc`, as serde_json reads it; `None` where `doc` is not JSON or the pointer
/// reaches nothing or something other than a string.
pub uninterp spec fn json_text_at(doc: Seq<char>, pointer: Seq<char>) -> Option<Seq<char>>;

/// The array of strings that the JSON pointer `pointer` reaches in the JSON
/// document `doc`, as serde_json reads it; `None` where `doc` is not JSON or the
/// pointer reaches nothing or something other than an array of strings.
pub uninterp spec fn json_texts_at(doc: Seq<char>, pointer: Seq<char>) -> Option<
    Seq<Seq<char>>,
>;

/// Relies on serde_json::to_string on a `str`: the JSON string literal for `s`.
/// It writes into a `Vec<u8>` and a `str` always serializes, so it does not
/// fail.
#[verifier::external_body]
pub(crate) fn quote_json(s: &str) -> (r: String)
    ensures
        r@ == json_quoted(s@),
{
    serde_json::to_string(s).unwrap_or_default()
}

/// Relies on serde_json::from_str, serde_json::Value::pointer and
/// serde_json::Value::as_str: the string found at `pointer` in `doc`.
#[verifier::external_body]
pub(crate) fn text_at(doc: &str, pointer: &str) -> (r: Option<String>)
    ensures
        r matches Some(t) ==> json_text_at(doc@, pointer@) == Some(t@),
        r is None ==> json_text_at(doc@, pointer@) is None,
{
    let value: serde_json::Value = serde_json::from_str(doc).ok()?;
    value.pointer(pointer)?.as_str().map(|t| t.to_string())
}

/// Relies on serde_json::from_str, serde_json::Value::pointer and
/// serde_json::from_value into `Vec<String>`: the strings of the array found at
/// `pointer` in `doc`.
#[verifier::external_body]
pub(crate) fn texts_at(doc: &str, pointer: &str) -> (r: Option<Vec<String>>)
    ensures
        r matches Some(v) ==> json_texts_at(doc@, pointer@) == Some(texts_view(v@)),
        r is None ==> json_texts_at(doc@, pointer@) is None,
{
    let value: serde_json::Value = serde_json::from_str(doc).ok()?;
    serde_json::from_value(value.pointer(pointer)?.clone()).ok()
}

} // verus!
