//! JSON text helpers: validity and string literals, both from `serde_json`,
//! and the small JSON documents this library writes itself.
use vstd::prelude::*;

verus! {

/// Whether `serde_json` accepts `s` as one JSON document.
pub uninterp spec fn is_json(s: Seq<char>) -> bool;

/// Lower-case hexadecimal digit of `n` (below 16).
pub open spec fn hex_digit(n: int) -> char {
    seq!['0', '1', '2', '3', '4', '5', '6', '7', '8', '9', 'a', 'b', 'c', 'd', 'e', 'f'][n]
}

/// How `serde_json` writes one character inside a string literal: `"` and `\`
/// escaped, the five short control escapes, other characters below U+0020 as
/// `\u00xx`, everything else as itself.
pub open spec fn escaped_char(c: char) -> Seq<char> {
    if c == '"' {
        seq!['\\', '"']
    } else if c == '\\' {
        seq!['\\', '\\']
    } else if c == '\x08' {
        seq!['\\', 'b']
    } else if c == '\t' {
        seq!['\\', 't']
    } else if c == '\n' {
        seq!['\\', 'n']
    } else if c == '\x0C' {
        seq!['\\', 'f']
    } else if c == '\r' {
        seq!['\\', 'r']
    } else if (c as u32) < 0x20 {
        seq!['\\', 'u', '0', '0', hex_digit((c as u32) as int / 16), hex_digit((c as u32) as int % 16)]
    } else {
        seq![c]
    }
}

pub open spec fn escaped(s: Seq<char>) -> Seq<char>
    decreases s.len(),
{
    if s.len() == 0 {
        Seq::empty()
    } else {
        escaped(s.drop_last()) + escaped_char(s.last())
    }
}

/// The JSON string literal that `serde_json` writes for `s`.
pub open spec fn json_string_literal(s: Seq<char>) -> Seq<char> {
    seq!['"'] + escaped(s) + seq!['"']
}

/// Relies on `serde_json::from_str::<serde_json::Value>`: whether it accepts the
/// text as one JSON document.
#[verifier::external_body]
pub(crate) fn json_is_valid(s: &str) -> (r: bool)
    ensures
        r == is_json(s@),
{
    serde_json::from_str::<serde_json::Value>(s).is_ok()
}

/// Relies on `Display` of `serde_json::Value::String`: the compact JSON string
/// literal for `s`, escaped by serde_json's escape table.
#[verifier::external_body]
pub(crate) fn quote(s: &str) -> (r: String)
    ensures
        r@ == json_string_literal(s@),
{
    serde_json::Value::String(s.to_owned()).to_string()
}

pub open spec fn empty_object() -> Seq<char> {
    seq!['{', '}']
}

pub open spec fn null_literal() -> Seq<char> {
    seq!['n', 'u', 'l', 'l']
}

/// `{"<key>":<value>}` for a key given without quotes and a value given as JSON text.
pub open spec fn single_field_object(key: Seq<char>, value: Seq<char>) -> Seq<char> {
    seq!['{', '"'] + key + seq!['"', ':'] + value + seq!['}']
}

pub open spec fn error_key() -> Seq<char> {
    seq!['e', 'r', 'r', 'o', 'r']
}

/// `{"error":"<message>"}`: the payload that reports a failed tool call.
pub open spec fn error_object(message: Seq<char>) -> Seq<char> {
    single_field_object(error_key(), json_string_literal(message))
}

/// JSON text for `{}`.
pub fn empty_object_text() -> (r: String)
    ensures
        r@ == empty_object(),
{
    let mut r = String::new();
    r.append("{}");
    proof {
        reveal_strlit("{}");
    }
    r
}

/// JSON text for `null`.
pub fn null_text() -> (r: String)
    ensures
        r@ == null_literal(),
{
    let mut r = String::new();
    r.append("null");
    proof {
        reveal_strlit("null");
    }
    r
}

/// JSON text `{"error":"<message>"}`, with the message escaped as a JSON string.
pub fn error_payload(message: &str) -> (r: String)
    ensures
        r@ == error_object(message@),
{
    let q = quote(message);
    let mut r = String::new();
    r.append("{\"error\":");
    r.append(q.as_str());
    r.append("}");
    proof {
        reveal_strlit("{\"error\":");
        reveal_strlit("}");
        assert(r@ =~= error_object(message@));
    }
    r
}

/// `Some(text)` when `text` is JSON, else `None`.
pub fn parse_checked(text: String) -> (r: Option<String>)
    ensures
        is_json(text@) ==> r == Some(text),
        !is_json(text@) ==> r is None,
{
    if json_is_valid(text.as_str()) {
        Some(text)
    } else {
        None
    }
}

} // verus!
