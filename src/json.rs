//! What the library asks of serde_json: quoting a string and reading the
//! top level of a document.
use serde_json::Value;
use vstd::prelude::*;

verus! {

/// serde_json's `Number`, carried through unread.
#[verifier::external_type_specification]
#[verifier::external_body]
pub struct ExNumber(serde_json::Number);

/// serde_json's error value, carried through unread.
#[verifier::external_type_specification]
#[verifier::external_body]
pub struct ExJsonError(serde_json::Error);

/// Relies on the derived `Clone` of serde_json's `Number`, which copies its
/// one plain field.
pub assume_specification[ <serde_json::Number as Clone>::clone ](n: &serde_json::Number) -> (r:
    serde_json::Number)
    ensures
        r == *n,
;

/// The hexadecimal digit of `n`, below 16, in lower case.
pub open spec fn hex_digit(n: u32) -> char {
    "0123456789abcdef"@[n as int]
}

/// How serde_json writes one character inside a string literal: a quote,
/// a backslash and the control characters below U+0020 are escaped (the
/// short forms where JSON has one, else `\u00` and two hex digits); every
/// other character stands as it is.
pub open spec fn escaped_char(c: char) -> Seq<char> {
    if c == '"' {
        seq!['\\', '"']
    } else if c == '\\' {
        seq!['\\', '\\']
    } else if c == '\u{8}' {
        seq!['\\', 'b']
    } else if c == '\u{c}' {
        seq!['\\', 'f']
    } else if c == '\n' {
        seq!['\\', 'n']
    } else if c == '\r' {
        seq!['\\', 'r']
    } else if c == '\t' {
        seq!['\\', 't']
    } else if (c as u32) < 0x20 {
        seq!['\\', 'u', '0', '0', hex_digit((c as u32) / 16), hex_digit((c as u32) % 16)]
    } else {
        seq![c]
    }
}

/// The characters of `s`, each escaped.
pub open spec fn escaped(s: Seq<char>) -> Seq<char>
    decreases s.len(),
{
    if s.len() == 0 {
        seq![]
    } else {
        escaped(s.drop_last()) + escaped_char(s.last())
    }
}

/// The JSON string literal for `s`.
pub open spec fn quoted(s: Seq<char>) -> Seq<char> {
    seq!['"'] + escaped(s) + seq!['"']
}

/// Relies on `serde_json::to_string` on a `str`: it writes the string
/// literal by serde_json's escape table and `write_char_escape`; writing
/// into memory does not fail.
#[verifier::external_body]
pub(crate) fn quote(s: &str) -> (r: Result<String, serde_json::Error>)
    ensures
        r is Ok,
        r matches Ok(t) ==> t@ == quoted(s@),
{
    serde_json::to_string(s)
}

/// One member value at the top level of a JSON object. Nested arrays and
/// objects are kept only as their kind.
#[derive(Debug)]
pub enum JsonField {
    Null,
    Bool(bool),
    /// A number, with its value as `u64` where it is a non-negative integer.
    Number(Option<u64>, serde_json::Number),
    Str(String),
    Array,
    Object,
}

/// What serde_json reads from a text: `None` where it is no JSON document,
/// `Some(None)` where the document is no object, else the object's members.
pub uninterp spec fn json_document_of(text: Seq<char>) -> Option<
    Option<Seq<(String, JsonField)>>,
>;

/// Relies on `serde_json::from_str` into a `Value`, whose object members
/// are converted one for one (`Number::as_u64` for the integer view).
#[verifier::external_body]
pub(crate) fn parse_document(text: &str) -> (r: Result<Option<Vec<(String, JsonField)>>, serde_json::Error>)
    ensures
        r is Err <==> json_document_of(text@) is None,
        r matches Ok(None) ==> json_document_of(text@) == Some(None::<Seq<(String, JsonField)>>),
        r matches Ok(Some(v)) ==> json_document_of(text@) == Some(Some(v@)),
{
    match serde_json::from_str::<Value>(text)? {
        Value::Object(m) => Ok(Some(m.into_iter().map(|(k, v)| (k, match v {
            Value::Null => JsonField::Null,
            Value::Bool(b) => JsonField::Bool(b),
            Value::Number(n) => JsonField::Number(n.as_u64(), n),
            Value::String(s) => JsonField::Str(s),
            Value::Array(_) => JsonField::Array,
            Value::Object(_) => JsonField::Object,
        })).collect())),
        _ => Ok(None),
    }
}

} // verus!
