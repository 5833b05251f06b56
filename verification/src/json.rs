//! What is read of JSON values, which are held as text.

use vstd::prelude::*;

use crate::text::is_plain_char;

verus! {

/// Whether a character may stand around a JSON value.
pub open spec fn is_json_space(c: char) -> bool {
    c == ' ' || c == '\n' || c == '\t' || c == '\r'
}

/// A text without the space around it.
pub open spec fn trimmed(text: Seq<char>) -> Seq<char>
    decreases text.len(),
{
    if text.len() == 0 {
        text
    } else if is_json_space(text[0]) {
        trimmed(text.drop_first())
    } else if is_json_space(text.last()) {
        trimmed(text.drop_last())
    } else {
        text
    }
}

/// Whether a text is a number without sign, fraction, exponent or leading zero.
pub open spec fn is_decimal(text: Seq<char>) -> bool {
    &&& text.len() > 0
    &&& forall|i: int| 0 <= i < text.len() ==> '0' <= #[trigger] text[i] <= '9'
    &&& text.len() == 1 || text[0] != '0'
}

/// The number that decimal digits denote.
pub open spec fn decimal_value(digits: Seq<char>) -> nat
    decreases digits.len(),
{
    if digits.len() == 0 {
        0
    } else {
        10 * decimal_value(digits.drop_last()) + (digits.last() as nat - '0' as nat) as nat
    }
}

/// The 32-bit number that a JSON text denotes, if it denotes one.
pub open spec fn json_u32(text: Seq<char>) -> Option<u32> {
    let digits = trimmed(text);
    if is_decimal(digits) && decimal_value(digits) <= u32::MAX {
        Some(decimal_value(digits) as u32)
    } else {
        None
    }
}

/// Whether a text is a JSON string in which nothing has to be unescaped.
pub open spec fn is_plain_string(text: Seq<char>) -> bool {
    &&& text.len() >= 2
    &&& text[0] == '"' && text.last() == '"'
    &&& forall|i: int| 1 <= i < text.len() - 1 ==> is_plain_char(#[trigger] text[i])
}

/// The characters of an optional text.
pub open spec fn optional_text(text: Option<String>) -> Option<Seq<char>> {
    match text {
        Some(text) => Some(text@),
        None => None,
    }
}

/// The string that a JSON text denotes, if it denotes one.
pub uninterp spec fn json_string(text: Seq<char>) -> Option<Seq<char>>;

/// Calls `serde_json::from_value::<u32>` on the value that `serde_json::from_str`
/// reads of the text. It gives a number exactly for a text that is, but for the
/// space around it, an unsigned decimal integer without leading zeros of at most 32 bits:
/// other numbers are read as signed, floating-point or longer ones and refused.
#[verifier::external_body]
pub(crate) fn json_to_u32(text: &str) -> (r: Option<u32>)
    ensures
        r == json_u32(text@),
{
    let value: serde_json::Value = serde_json::from_str(text).ok()?;
    serde_json::from_value::<u32>(value).ok()
}

/// Calls `serde_json::Value::as_str` on the value that `serde_json::from_str` reads
/// of the text. The result depends on the text alone; a text in quotes in which
/// nothing has to be unescaped denotes what stands between the quotes.
#[verifier::external_body]
pub(crate) fn json_to_str(text: &str) -> (r: Option<String>)
    ensures
        optional_text(r) == json_string(text@),
        is_plain_string(text@) ==> optional_text(r) == Some(text@.subrange(1, text@.len() - 1)),
{
    let value: serde_json::Value = serde_json::from_str(text).ok()?;
    value.as_str().map(|string| string.to_owned())
}

} // verus!
