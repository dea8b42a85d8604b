//! A field that holds a JSON document written out as a JSON string.
use vstd::prelude::*;
use crate::error::DecodingError;
use crate::uuid_text::lower_hex_digit;

verus! {

#[verifier::external_type_specification]
#[verifier::external_body]
pub struct ExJsonError(serde_json::Error);

#[verifier::external_type_specification]
#[verifier::external_body]
pub struct ExJsonValue(serde_json::Value);

/// How one character is written inside a JSON string literal.
pub open spec fn json_escape(c: char) -> Seq<char> {
    if c == '"' {
        seq!['\\', '"']
    } else if c == '\\' {
        seq!['\\', '\\']
    } else if c == '\u{8}' {
        seq!['\\', 'b']
    } else if c == '\u{c}' {
        seq!['\\', 'f']
    } else if c == '\n' {
        seq!['\\', 'n']
    } else if c == '\r' {
        seq!['\\', 'r']
    } else if c == '\t' {
        seq!['\\', 't']
    } else if (c as nat) < 0x20 {
        seq!['\\', 'u', '0', '0', lower_hex_digit(c as nat / 16), lower_hex_digit(c as nat % 16)]
    } else {
        seq![c]
    }
}

pub open spec fn json_escaped(s: Seq<char>) -> Seq<char>
    decreases s.len(),
{
    if s.len() == 0 {
        Seq::empty()
    } else {
        json_escaped(s.drop_last()) + json_escape(s.last())
    }
}

/// The JSON string literal that writes `s`.
pub open spec fn json_quote(s: Seq<char>) -> Seq<char> {
    seq!['"'] + json_escaped(s) + seq!['"']
}

pub open spec fn is_json_whitespace(c: char) -> bool {
    c == ' ' || c == '\n' || c == '\t' || c == '\r'
}

/// A text that cannot be a JSON string: empty, or starting with neither
/// whitespace nor a quote (an object, an array, a number, ...).
pub open spec fn starts_as_non_string(t: Seq<char>) -> bool {
    t.len() == 0 || (!is_json_whitespace(t[0]) && t[0] != '"')
}

/// The string that a JSON text holds, where the text is one JSON string.
pub uninterp spec fn json_string_contents(t: Seq<char>) -> Option<Seq<char>>;

/// Whether a text is one JSON document.
pub uninterp spec fn is_json_document(t: Seq<char>) -> bool;

/// Relies on `serde_json::to_string` on a `str`: the string as a JSON string
/// literal, with quote, backslash and control characters escaped; it does not
/// fail for a string.
#[verifier::external_body]
fn quote_text(s: &str) -> (r: Result<String, serde_json::Error>)
    ensures
        r is Ok && r->Ok_0@ == json_quote(s@),
{
    serde_json::to_string(s)
}

/// Relies on `serde_json::from_str::<String>`: a text that is one JSON string
/// literal, with whitespace allowed around it, reads as the string that the literal
/// writes; an empty text, or one that starts with another value, is refused.
#[verifier::external_body]
fn read_string(t: &str) -> (r: Result<String, serde_json::Error>)
    ensures
        match json_string_contents(t@) {
            Some(s) => r is Ok && r->Ok_0@ == s,
            None => r is Err,
        },
        forall|s: Seq<char>| t@ == #[trigger] json_quote(s) ==> r is Ok && r->Ok_0@ == s,
        starts_as_non_string(t@) ==> r is Err,
{
    serde_json::from_str::<String>(t)
}

/// Relies on `serde_json::from_str::<serde_json::Value>`: whether the text is one
/// JSON document.
#[verifier::external_body]
fn read_document(t: &str) -> (r: Result<serde_json::Value, serde_json::Error>)
    ensures
        r is Ok == is_json_document(t@),
{
    serde_json::from_str::<serde_json::Value>(t)
}

/// What reading a nested-JSON field's wire text gives: the inner document's text.
pub open spec fn nested_json_decoding(wire: Seq<char>) -> Result<Seq<char>, DecodingError> {
    match json_string_contents(wire) {
        None => Err(DecodingError::NotAString),
        Some(s) => if is_json_document(s) {
            Ok(s)
        } else {
            Err(DecodingError::InvalidJson)
        },
    }
}

pub open spec fn result_view(r: Result<String, DecodingError>) -> Result<Seq<char>, DecodingError> {
    match r {
        Ok(s) => Ok(s@),
        Err(e) => Err(e),
    }
}

/// The wire text of a field that holds the JSON document `doc`: `doc` written out
/// as a JSON string.
pub fn serialize(doc: &str) -> (r: String)
    ensures
        r@ == json_quote(doc@),
{
    match quote_text(doc) {
        Ok(t) => t,
        Err(_) => {
            proof {
                assert(false);
            }
            String::new()
        },
    }
}

/// Reads a nested-JSON field: the wire text must be a JSON string, and the text
/// that it holds must be a JSON document, which is returned.
pub fn deserialize(wire: &str) -> (r: Result<String, DecodingError>)
    ensures
        result_view(r) == nested_json_decoding(wire@),
        starts_as_non_string(wire@) ==> r == Err::<String, DecodingError>(
            DecodingError::NotAString,
        ),
        forall|doc: Seq<char>| #[trigger]
            json_quote(doc) == wire@ ==> result_view(r) == if is_json_document(doc) {
                Ok::<Seq<char>, DecodingError>(doc)
            } else {
                Err(DecodingError::InvalidJson)
            },
{
    let inner = match read_string(wire) {
        Ok(s) => s,
        Err(_) => return Err(DecodingError::NotAString),
    };
    match read_document(inner.as_str()) {
        Ok(_) => Ok(inner),
        Err(_) => Err(DecodingError::InvalidJson),
    }
}

} // verus!
