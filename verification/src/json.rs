//! Reading texts out of JSON documents, and writing them as JSON strings.
//!
//! A JSON document that is read is described by the texts in it: by the map that takes each JSON
//! pointer (`/choices/0/message/content`) that leads to a string to that string.
use vstd::prelude::*;

verus! {

/// A parsed JSON document of the `serde_json` crate.
#[verifier::external_type_specification]
#[verifier::external_body]
pub struct ExJsonValue(serde_json::Value);

/// The errors of the `serde_json` crate.
#[verifier::external_type_specification]
#[verifier::external_body]
pub struct ExJsonError(serde_json::Error);

/// The strings in a parsed document, by the pointers that lead to them.
pub uninterp spec fn json_strings(value: serde_json::Value) -> Map<Seq<char>, Seq<char>>;

/// The strings in the document that a text denotes, by the pointers that lead to them; `None`
/// where the text is no JSON document.
pub uninterp spec fn json_document(text: Seq<char>) -> Option<Map<Seq<char>, Seq<char>>>;

/// `serde_json::from_str`, to a `Value`: whether the text is a JSON document, and which strings
/// are in it, depends on the text alone.
#[verifier::external_body]
pub(crate) fn parse_json(text: &str) -> (r: Result<serde_json::Value, serde_json::Error>)
    ensures
        r is Ok == json_document(text@) is Some,
        r is Ok ==> Some(json_strings(r->Ok_0)) == json_document(text@),
{
    serde_json::from_str::<serde_json::Value>(text)
}

/// `serde_json::Value::pointer`, and `as_str` of what it leads to: the string at a pointer, where
/// there is one.
#[verifier::external_body]
pub(crate) fn string_at(value: &serde_json::Value, pointer: &str) -> (r: Option<String>)
    ensures
        crate::text::text_view(r) == at(json_strings(*value), pointer@),
{
    value.pointer(pointer).and_then(|v| v.as_str()).map(|s| s.to_string())
}

/// The string at a pointer, where there is one.
pub open spec fn at(strings: Map<Seq<char>, Seq<char>>, pointer: Seq<char>) -> Option<Seq<char>> {
    if strings.dom().contains(pointer) {
        Some(strings[pointer])
    } else {
        None
    }
}

/// A hexadecimal digit.
pub open spec fn hex_digit(d: int) -> char {
    if d < 10 {
        ((0x30 + d) as u32) as char
    } else {
        ((0x57 + d) as u32) as char
    }
}

/// A character as it stands in a JSON string: the quote, the backslash and the control characters
/// are escaped.
pub open spec fn escaped(c: char) -> Seq<char> {
    if c == '"' || c == '\\' {
        seq!['\\', c]
    } else if c == '\u{8}' {
        seq!['\\', 'b']
    } else if c == '\u{9}' {
        seq!['\\', 't']
    } else if c == '\u{a}' {
        seq!['\\', 'n']
    } else if c == '\u{c}' {
        seq!['\\', 'f']
    } else if c == '\u{d}' {
        seq!['\\', 'r']
    } else if (c as u32) < 0x20 {
        let n = c as int;
        seq!['\\', 'u', '0', '0', hex_digit(n / 16), hex_digit(n % 16)]
    } else {
        seq![c]
    }
}

/// The characters of a text as they stand in a JSON string.
pub open spec fn escaped_text(s: Seq<char>) -> Seq<char>
    decreases s.len(),
{
    if s.len() == 0 {
        Seq::empty()
    } else {
        escaped_text(s.drop_last()) + escaped(s.last())
    }
}

/// A text as a JSON string.
pub open spec fn quoted(s: Seq<char>) -> Seq<char> {
    seq!['"'] + escaped_text(s) + seq!['"']
}

/// `serde_json::to_string`, of a text: the JSON string for it.  For a text nothing can fail.
#[verifier::external_body]
fn text_to_json(s: &str) -> (r: Result<String, serde_json::Error>)
    ensures
        r is Ok,
        r->Ok_0@ == quoted(s@),
{
    serde_json::to_string(s)
}

/// Writes a text as a JSON string.
pub fn quote(s: &str) -> (r: String)
    ensures
        r@ == quoted(s@),
{
    match text_to_json(s) {
        Ok(text) => text,
        Err(_) => String::new(),
    }
}

/// A string is found where there is one, and as it is.
pub proof fn law_strings_are_found(strings: Map<Seq<char>, Seq<char>>, pointer: Seq<char>)
    ensures
        strings.dom().contains(pointer) ==> at(strings, pointer) == Some(strings[pointer]),
        !strings.dom().contains(pointer) ==> at(strings, pointer) is None,
{
}

/// A text in a JSON string is its characters one behind the other, each as it stands there, between
/// quotes; all but the quote, the backslash and the control characters stand for themselves.
pub proof fn law_texts_are_quoted(s: Seq<char>, c: char)
    ensures
        quoted(Seq::empty()) == seq!['"', '"'],
        quoted(s.push(c)) == quoted(s).take(quoted(s).len() - 1) + escaped(c) + seq!['"'],
        c as u32 >= 0x20 && c != '"' && c != '\\' ==> escaped(c) == seq![c],
        c as u32 >= 0x20 && (c == '"' || c == '\\') ==> escaped(c) == seq!['\\', c],
        (c as u32) < 0x20 ==> escaped(c).len() >= 2 && escaped(c)[0] == '\\',
{
    assert(quoted(Seq::empty()) =~= seq!['"', '"']);
    assert(s.push(c).drop_last() =~= s);
    assert(quoted(s).take(quoted(s).len() - 1) =~= seq!['"'] + escaped_text(s));
    assert(quoted(s.push(c)) =~= quoted(s).take(quoted(s).len() - 1) + escaped(c) + seq!['"']);
}

} // verus!
