//! The JSON texts that the library reads and writes, through `serde_json`.

use vstd::prelude::*;
use crate::text::{digit_char, join};

verus! {

/// Whether `serde_json` accepts the text as a JSON value.
pub uninterp spec fn json_accepts(text: Seq<char>) -> bool;

/// The fields of a JSON object text in the order in which `serde_json` hands
/// them out, each with its value when that value is a JSON string; `None` when
/// the text is not a JSON object.
pub uninterp spec fn json_object_fields(text: Seq<char>) -> Option<Seq<(Seq<char>, Option<Seq<char>>)>>;

/// The strings of a JSON array-of-strings text; `None` when the text is not one.
pub uninterp spec fn json_string_list(text: Seq<char>) -> Option<Seq<Seq<char>>>;

/// A lower-case hexadecimal digit.
pub open spec fn hex_lower(d: nat) -> char {
    if d < 10 {
        digit_char(d)
    } else if d == 10 {
        'a'
    } else if d == 11 {
        'b'
    } else if d == 12 {
        'c'
    } else if d == 13 {
        'd'
    } else if d == 14 {
        'e'
    } else {
        'f'
    }
}

/// How `serde_json` writes one character inside a string: `"` and `\` and the
/// control characters below U+0020 escaped (the short forms `\b \t \n \f \r`
/// where they exist, `\u00` and two lower-case hex digits otherwise), every other
/// character as it is.
pub open spec fn json_char(c: char) -> Seq<char> {
    if c == '"' {
        seq!['\\', '"']
    } else if c == '\\' {
        seq!['\\', '\\']
    } else if c == '\u{8}' {
        seq!['\\', 'b']
    } else if c == '\t' {
        seq!['\\', 't']
    } else if c == '\n' {
        seq!['\\', 'n']
    } else if c == '\u{c}' {
        seq!['\\', 'f']
    } else if c == '\r' {
        seq!['\\', 'r']
    } else if (c as int) < 0x20 {
        seq!['\\', 'u', '0', '0', hex_lower(((c as int) / 16) as nat), hex_lower(((c as int) % 16) as nat)]
    } else {
        seq![c]
    }
}

/// The characters of a text, each written as `serde_json` writes it inside a string.
pub open spec fn json_escaped(s: Seq<char>) -> Seq<char>
    decreases s.len(),
{
    if s.len() == 0 {
        Seq::<char>::empty()
    } else {
        json_escaped(s.drop_last()) + json_char(s.last())
    }
}

/// A JSON string literal for a text.
pub open spec fn json_string(s: Seq<char>) -> Seq<char> {
    seq!['"'] + json_escaped(s) + seq!['"']
}

/// The JSON text that `serde_json::to_string` writes for a list of strings: the
/// string literals separated by commas, in brackets, without spaces.
pub open spec fn json_string_array(items: Seq<Seq<char>>) -> Seq<char> {
    seq!['['] + join(items.map_values(|s: Seq<char>| json_string(s)), seq![',']) + seq![']']
}

/// Calls `serde_json::from_str::<serde_json::Value>`; the result says whether it succeeded.
#[verifier::external_body]
pub(crate) fn is_json(text: &str) -> (res: bool)
    ensures
        res == json_accepts(text@),
{
    serde_json::from_str::<serde_json::Value>(text).is_ok()
}

/// Calls `serde_json::from_str::<serde_json::Map<String, serde_json::Value>>` and
/// hands out the map's entries, keeping a value only when it is a JSON string.
#[verifier::external_body]
pub(crate) fn object_fields(text: &str) -> (res: Option<Vec<(String, Option<String>)>>)
    ensures
        res.deep_view() == json_object_fields(text@),
{
    let map = serde_json::from_str::<serde_json::Map<String, serde_json::Value>>(text).ok()?;
    Some(map.into_iter().map(|(k, v)| (k, match v {
        serde_json::Value::Null => None,
        serde_json::Value::Bool(_) => None,
        serde_json::Value::Number(_) => None,
        serde_json::Value::String(s) => Some(s),
        serde_json::Value::Array(_) => None,
        serde_json::Value::Object(_) => None,
    })).collect())
}

/// Calls `serde_json::from_str::<Vec<String>>`.
#[verifier::external_body]
pub(crate) fn string_list(text: &str) -> (res: Option<Vec<String>>)
    ensures
        res.deep_view() == json_string_list(text@),
{
    serde_json::from_str::<Vec<String>>(text).ok()
}

/// Calls `serde_json::to_string` on a list of strings, which cannot fail for
/// strings (the empty text would stand for a failure). The contract claims the
/// text that serde_json's compact writer produces, and that reading it back with
/// `serde_json::from_str::<Vec<String>>` gives the same list, which serde_json's
/// escaping and unescaping of strings ensure.
#[verifier::external_body]
pub(crate) fn strings_to_json(items: &Vec<String>) -> (res: String)
    ensures
        res@ == json_string_array(items.deep_view()),
        json_string_list(res@) == Some(items.deep_view()),
{
    serde_json::to_string(items).unwrap_or_default()
}

} // verus!
