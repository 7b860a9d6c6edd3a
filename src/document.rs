//! The raw-payload document: the JSON object text that a signal's four fields
//! serialize to, keys in declaration order and no whitespace.
use vstd::prelude::*;

verus! {

/// The lower-case hexadecimal digit of `n`, for `0 <= n < 16`.
pub open spec fn hex_digit(n: int) -> char {
    seq!['0', '1', '2', '3', '4', '5', '6', '7', '8', '9', 'a', 'b', 'c', 'd', 'e', 'f'][n]
}

/// How one character stands inside a JSON string literal: quote and
/// backslash escaped, the five short control escapes, other control
/// characters as `\u00xx`, everything else as it is.
pub open spec fn escape_char(c: char) -> Seq<char> {
    if c == '"' {
        seq!['\\', '"']
    } else if c == '\\' {
        seq!['\\', '\\']
    } else if c == '\u{8}' {
        seq!['\\', 'b']
    } else if c == '\t' {
        seq!['\\', 't']
    } else if c == '\n' {
        seq!['\\', 'n']
    } else if c == '\u{c}' {
        seq!['\\', 'f']
    } else if c == '\r' {
        seq!['\\', 'r']
    } else if (c as u32) < 0x20 {
        let n = (c as u32) as int;
        seq!['\\', 'u', '0', '0', hex_digit(n / 16), hex_digit(n % 16)]
    } else {
        seq![c]
    }
}

/// The characters of `s`, each escaped.
pub open spec fn escape_text(s: Seq<char>) -> Seq<char>
    decreases s.len(),
{
    if s.len() == 0 {
        seq![]
    } else {
        escape_text(s.drop_last()) + escape_char(s.last())
    }
}

/// The JSON string literal of `s`.
pub open spec fn json_of_str(s: Seq<char>) -> Seq<char> {
    seq!['"'] + escape_text(s) + seq!['"']
}

/// Relies on `serde_json::to_string` on a `str`: it writes the escaped
/// literal into a `Vec` (`serialize_str`, `format_escaped_str`), which cannot
/// fail.
#[verifier::external_body]
pub(crate) fn str_json(s: &str) -> (r: Option<String>)
    ensures
        r is Some,
        r matches Some(t) ==> t@ == json_of_str(s@),
{
    serde_json::to_string(s).ok()
}

/// The object `{"pair":..,"action":..,"price":..,"source":..}` whose values
/// are the given JSON texts.
pub open spec fn document_text(
    pair: Seq<char>,
    action: Seq<char>,
    price: Seq<char>,
    source: Seq<char>,
) -> Seq<char> {
    "{\"pair\":"@ + pair + ",\"action\":"@ + action + ",\"price\":"@ + price + ",\"source\":"@
        + source + "}"@
}

/// Frames the four field values, already JSON texts, into the document.
pub fn frame_document(pair: &str, action: &str, price: &str, source: &str) -> (r: String)
    ensures
        r@ == document_text(pair@, action@, price@, source@),
{
    let mut doc = String::from_str("{\"pair\":");
    doc.append(pair);
    doc.append(",\"action\":");
    doc.append(action);
    doc.append(",\"price\":");
    doc.append(price);
    doc.append(",\"source\":");
    doc.append(source);
    doc.append("}");
    doc
}

} // verus!
