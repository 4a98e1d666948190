use serde_json::Value;
use vstd::prelude::*;

verus! {

/// What a JSON document holds at one place, as far as this library reads it:
/// the kind of value, with a string's characters, a boolean, an array's length,
/// and a number as `u64` and as `i64` where it fits there (`Value::as_u64`, `Value::as_i64`).
#[derive(Debug)]
pub enum JsonValueKind {
    Null,
    Bool(bool),
    Number(Option<u64>, Option<i64>),
    Str(String),
    Array(usize),
    Object,
}

/// What a JSON document holds at one place, as a mathematical value.
pub ghost enum JsonKind {
    Null,
    Bool(bool),
    Number(Option<u64>, Option<i64>),
    Str(Seq<char>),
    Array(usize),
    Object,
}

/// The mathematical value of what a document holds at one place.
pub open spec fn kind_view(k: JsonValueKind) -> JsonKind {
    match k {
        JsonValueKind::Null => JsonKind::Null,
        JsonValueKind::Bool(b) => JsonKind::Bool(b),
        JsonValueKind::Number(u, i) => JsonKind::Number(u, i),
        JsonValueKind::Str(s) => JsonKind::Str(s@),
        JsonValueKind::Array(n) => JsonKind::Array(n),
        JsonValueKind::Object => JsonKind::Object,
    }
}

/// What `serde_json` finds in the document `text` at the JSON Pointer `pointer`
/// (`serde_json::from_str::<Value>` followed by `Value::pointer`); `None` when the
/// text is no JSON document or nothing stands there.
pub uninterp spec fn json_at(text: Seq<char>, pointer: Seq<char>) -> Option<JsonKind>;

/// The compact serialization (`Value`'s `Display`) of what stands in the document
/// `text` at the JSON Pointer `pointer`.
pub uninterp spec fn json_text_at(text: Seq<char>, pointer: Seq<char>) -> Option<Seq<char>>;

/// The message (`Display` of `serde_json::Error`) with which `serde_json` refuses
/// `text` as a JSON document.
pub uninterp spec fn json_error_text(text: Seq<char>) -> Option<Seq<char>>;

/// A lower-case hexadecimal digit.
pub open spec fn hex_digit(d: nat) -> char {
    if d < 10 {
        (48 + d) as char
    } else {
        (87 + d) as char
    }
}

/// How `serde_json` writes one character inside a string literal: a quote, a backslash and
/// the control characters are escaped (with a short escape where JSON has one, else as
/// `\u00XX`); every other character stands as it is.
pub open spec fn json_escape(c: char) -> Seq<char> {
    if c == '"' {
        seq!['\\', '"']
    } else if c == '\\' {
        seq!['\\', '\\']
    } else if c == '\u{8}' {
        seq!['\\', 'b']
    } else if c == '\t' {
        seq!['\\', 't']
    } else if c == '\n' {
        seq!['\\', 'n']
    } else if c == '\u{c}' {
        seq!['\\', 'f']
    } else if c == '\r' {
        seq!['\\', 'r']
    } else if (c as u32) < 0x20 {
        seq![
            '\\',
            'u',
            '0',
            '0',
            hex_digit((c as u32 / 16) as nat),
            hex_digit((c as u32 % 16) as nat),
        ]
    } else {
        seq![c]
    }
}

/// The characters of a string, each escaped as in a JSON string literal.
pub open spec fn json_escaped(s: Seq<char>) -> Seq<char>
    decreases s.len(),
{
    if s.len() == 0 {
        Seq::empty()
    } else {
        json_escape(s[0]) + json_escaped(s.drop_first())
    }
}

/// The JSON string literal that `serde_json::to_string` writes for a string.
pub open spec fn json_string_lit(s: Seq<char>) -> Seq<char> {
    seq!['"'] + json_escaped(s) + seq!['"']
}

/// Parses `text` with `serde_json::from_str::<Value>` and reads it at `pointer` with
/// `Value::pointer`. The contract names the result and says nothing more of it.
#[verifier::external_body]
pub(crate) fn json_lookup(text: &str, pointer: &str) -> (r: Option<JsonValueKind>)
    ensures
        match r {
            Some(k) => json_at(text@, pointer@) == Some(kind_view(k)),
            None => json_at(text@, pointer@) is None,
        },
{
    let v = serde_json::from_str::<Value>(text).ok()?;
    Some(match v.pointer(pointer)? {
        Value::Null => JsonValueKind::Null,
        Value::Bool(b) => JsonValueKind::Bool(*b),
        Value::Number(n) => JsonValueKind::Number(n.as_u64(), n.as_i64()),
        Value::String(s) => JsonValueKind::Str(s.clone()),
        Value::Array(a) => JsonValueKind::Array(a.len()),
        Value::Object(_) => JsonValueKind::Object,
    })
}

/// Parses `text` with `serde_json::from_str::<Value>`, reads it at `pointer` with
/// `Value::pointer` and writes what stands there with `Value`'s `Display`. The contract
/// names the text and states that it is there exactly where `json_lookup` finds a value.
#[verifier::external_body]
pub(crate) fn json_value_text(text: &str, pointer: &str) -> (r: Option<String>)
    ensures
        r is Some <==> json_at(text@, pointer@) is Some,
        match r {
            Some(t) => json_text_at(text@, pointer@) == Some(t@),
            None => json_text_at(text@, pointer@) is None,
        },
{
    let v = serde_json::from_str::<Value>(text).ok()?;
    v.pointer(pointer).map(|x| x.to_string())
}

/// Parses `text` with `serde_json::from_str::<Value>` and returns the error's `Display`
/// when that fails. The contract names the message and states that there is one exactly
/// when the text is no JSON document, that is when the empty pointer finds nothing.
#[verifier::external_body]
pub(crate) fn json_parse_error(text: &str) -> (r: Option<String>)
    ensures
        r is None <==> json_at(text@, Seq::<char>::empty()) is Some,
        match r {
            Some(t) => json_error_text(text@) == Some(t@),
            None => json_error_text(text@) is None,
        },
{
    serde_json::from_str::<Value>(text).err().map(|e| e.to_string())
}

/// Writes `s` as a JSON string literal with `serde_json::to_string`, which cannot fail
/// on a string. The contract states the escaping that `serde_json`'s serializer applies.
#[verifier::external_body]
pub(crate) fn json_quote(s: &str) -> (r: String)
    ensures
        r@ == json_string_lit(s@),
{
    serde_json::to_string(s).unwrap_or_default()
}

/// The unsigned integer that stands at a place (`Value::as_u64`).
pub open spec fn kind_u64(k: Option<JsonKind>) -> Option<u64> {
    match k {
        Some(JsonKind::Number(u, _)) => u,
        _ => None,
    }
}

/// The signed integer that stands at a place (`Value::as_i64`).
pub open spec fn kind_i64(k: Option<JsonKind>) -> Option<i64> {
    match k {
        Some(JsonKind::Number(_, i)) => i,
        _ => None,
    }
}

/// The string that stands at a place (`Value::as_str`).
pub open spec fn kind_str(k: Option<JsonKind>) -> Option<Seq<char>> {
    match k {
        Some(JsonKind::Str(s)) => Some(s),
        _ => None,
    }
}

/// The boolean that stands at a place (`Value::as_bool`).
pub open spec fn kind_bool(k: Option<JsonKind>) -> Option<bool> {
    match k {
        Some(JsonKind::Bool(b)) => Some(b),
        _ => None,
    }
}

/// The length of the array that stands at a place (`Value::as_array`).
pub open spec fn kind_array_len(k: Option<JsonKind>) -> Option<usize> {
    match k {
        Some(JsonKind::Array(n)) => Some(n),
        _ => None,
    }
}

/// The unsigned integer at `pointer` in the document `text`.
pub fn json_u64(text: &str, pointer: &str) -> (r: Option<u64>)
    ensures
        r == kind_u64(json_at(text@, pointer@)),
{
    match json_lookup(text, pointer) {
        Some(JsonValueKind::Number(u, _)) => u,
        _ => None,
    }
}

/// The signed integer at `pointer` in the document `text`.
pub fn json_i64(text: &str, pointer: &str) -> (r: Option<i64>)
    ensures
        r == kind_i64(json_at(text@, pointer@)),
{
    match json_lookup(text, pointer) {
        Some(JsonValueKind::Number(_, i)) => i,
        _ => None,
    }
}

/// The string at `pointer` in the document `text`.
pub fn json_string_at(text: &str, pointer: &str) -> (r: Option<String>)
    ensures
        match r {
            Some(s) => kind_str(json_at(text@, pointer@)) == Some(s@),
            None => kind_str(json_at(text@, pointer@)) is None,
        },
{
    match json_lookup(text, pointer) {
        Some(JsonValueKind::Str(s)) => Some(s),
        _ => None,
    }
}

/// The boolean at `pointer` in the document `text`.
pub fn json_bool(text: &str, pointer: &str) -> (r: Option<bool>)
    ensures
        r == kind_bool(json_at(text@, pointer@)),
{
    match json_lookup(text, pointer) {
        Some(JsonValueKind::Bool(b)) => Some(b),
        _ => None,
    }
}

/// The length of the array at `pointer` in the document `text`.
pub fn json_array_len(text: &str, pointer: &str) -> (r: Option<usize>)
    ensures
        r == kind_array_len(json_at(text@, pointer@)),
{
    match json_lookup(text, pointer) {
        Some(JsonValueKind::Array(n)) => Some(n),
        _ => None,
    }
}

/// Whether anything stands at `pointer` in the document `text`.
pub fn json_has(text: &str, pointer: &str) -> (r: bool)
    ensures
        r == json_at(text@, pointer@) is Some,
{
    json_lookup(text, pointer).is_some()
}

} // verus!
