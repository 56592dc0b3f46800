//! The calls into `serde_json` and the std text routines that the payload
//! codec needs.

use vstd::prelude::*;

verus! {

/// `serde_json::Error`, which serialization reports.
#[verifier::external_type_specification]
#[verifier::external_body]
pub struct ExSerdeJsonError(serde_json::Error);

/// The hexadecimal digit for `d`, in lowercase.
pub open spec fn hex_digit(d: int) -> char {
    if d < 10 {
        ('0' as int + d) as char
    } else {
        ('a' as int + d - 10) as char
    }
}

/// A character as it stands inside a JSON string literal: the quote and the
/// backslash behind a backslash, backspace, tab, line feed, form feed and
/// carriage return as their letters, any other character below U+0020 as
/// `\u00` and two hexadecimal digits, and every other character as it is.
pub open spec fn json_escape(c: char) -> Seq<char> {
    if c == '"' {
        seq!['\\', '"']
    } else if c == '\\' {
        seq!['\\', '\\']
    } else if c == '\u{8}' {
        seq!['\\', 'b']
    } else if c == '\t' {
        seq!['\\', 't']
    } else if c == '\n' {
        seq!['\\', 'n']
    } else if c == '\u{c}' {
        seq!['\\', 'f']
    } else if c == '\r' {
        seq!['\\', 'r']
    } else if (c as int) < 0x20 {
        seq!['\\', 'u', '0', '0', hex_digit(c as int / 16), hex_digit(c as int % 16)]
    } else {
        seq![c]
    }
}

/// The characters of `text`, each as it stands inside a JSON string literal.
pub open spec fn json_escaped(text: Seq<char>) -> Seq<char>
    decreases text.len(),
{
    if text.len() == 0 {
        Seq::empty()
    } else {
        json_escaped(text.drop_last()) + json_escape(text.last())
    }
}

/// The JSON string literal for `text`: the escaped text between double quotes.
pub open spec fn json_string_literal(text: Seq<char>) -> Seq<char> {
    seq!['"'] + json_escaped(text) + seq!['"']
}

/// The text that `String::from_utf8_lossy` makes of `bytes`: the bytes read
/// as UTF-8, with U+FFFD in the place of each ill-formed sequence.
pub uninterp spec fn utf8_lossy_text(bytes: Seq<u8>) -> Seq<char>;

/// Calls `serde_json::to_string` on a string slice. The serializer writes
/// into a vector in memory, which takes every write, so the call succeeds;
/// what it returns is the literal as its escape table makes it.
#[verifier::external_body]
pub(crate) fn json_string(text: &str) -> (literal: Result<String, serde_json::Error>)
    ensures
        literal is Ok,
        literal matches Ok(s) ==> s@ == json_string_literal(text@),
{
    serde_json::to_string(text)
}

/// The text of a serialization error, by its `Display`.
#[verifier::external_body]
pub(crate) fn json_error_text(error: &serde_json::Error) -> (text: String) {
    error.to_string()
}

/// Calls `String::from_utf8_lossy` and makes the result an owned `String`.
#[verifier::external_body]
pub(crate) fn utf8_lossy(bytes: &[u8]) -> (text: String)
    ensures
        text@ == utf8_lossy_text(bytes@),
{
    String::from_utf8_lossy(bytes).into_owned()
}

} // verus!
