//! Numbers and strings as they are written in texts.

use vstd::prelude::*;
use vstd::string::StringExecFns;

use crate::json::{decimal_value, is_decimal, json_u32, trimmed};

verus! {

/// The decimal digits of a number.
pub open spec fn digits(n: nat) -> Seq<char>
    decreases n,
{
    if n < 10 {
        seq![('0' as nat + n) as char]
    } else {
        digits(n / 10).push(('0' as nat + n % 10) as char)
    }
}

/// A number in decimal notation.
pub open spec fn number_text(n: int) -> Seq<char> {
    if n < 0 {
        "-"@ + digits((-n) as nat)
    } else {
        digits(n as nat)
    }
}

/// The text of one digit.
fn digit_text(digit: u32) -> (r: &'static str)
    requires
        digit < 10,
    ensures
        r@ == seq![('0' as nat + digit) as char],
{
    proof {
        reveal_strlit("0");
        reveal_strlit("1");
        reveal_strlit("2");
        reveal_strlit("3");
        reveal_strlit("4");
        reveal_strlit("5");
        reveal_strlit("6");
        reveal_strlit("7");
        reveal_strlit("8");
        reveal_strlit("9");
    }
    match digit {
        0 => "0",
        1 => "1",
        2 => "2",
        3 => "3",
        4 => "4",
        5 => "5",
        6 => "6",
        7 => "7",
        8 => "8",
        _ => "9",
    }
}

/// Writes a number in decimal notation.
pub fn decimal_text(n: u32) -> (r: String)
    ensures
        r@ == number_text(n as int),
    decreases n,
{
    if n < 10 {
        digit_text(n).to_owned()
    } else {
        let mut text: String = decimal_text(n / 10);
        text.append(digit_text(n % 10));
        assert(text@ =~= digits(n as nat));
        text
    }
}

/// Whether a character stands for itself between the quotes of a JSON string.
pub open spec fn is_plain_char(c: char) -> bool {
    c >= ' ' && c != '"' && c != '\\'
}

/// Whether every character of a text stands for itself in a JSON string.
pub open spec fn is_plain_text(text: Seq<char>) -> bool {
    forall|i: int| 0 <= i < text.len() ==> is_plain_char(#[trigger] text[i])
}

/// A hexadecimal digit.
pub open spec fn hex_digit(n: nat) -> char {
    if n < 10 {
        ('0' as nat + n) as char
    } else {
        ('a' as nat + n - 10) as char
    }
}

/// A character as it is written between the quotes of a JSON string.
pub open spec fn escaped_char(c: char) -> Seq<char> {
    if is_plain_char(c) {
        seq![c]
    } else if c == '"' || c == '\\' {
        seq!['\\', c]
    } else if c == '\n' {
        seq!['\\', 'n']
    } else if c == '\r' {
        seq!['\\', 'r']
    } else if c == '\t' {
        seq!['\\', 't']
    } else if c as nat == 8 {
        seq!['\\', 'b']
    } else if c as nat == 12 {
        seq!['\\', 'f']
    } else {
        seq!['\\', 'u', '0', '0', hex_digit(c as nat / 16), hex_digit(c as nat % 16)]
    }
}

/// A text as it is written between the quotes of a JSON string.
pub open spec fn escaped(text: Seq<char>) -> Seq<char>
    decreases text.len(),
{
    if text.len() == 0 {
        Seq::empty()
    } else {
        escaped(text.drop_last()) + escaped_char(text.last())
    }
}

/// A text as a JSON string.
pub open spec fn quoted(text: Seq<char>) -> Seq<char> {
    seq!['"'] + escaped(text) + seq!['"']
}

/// A text in which every character stands for itself is written as it is.
pub proof fn law_plain_text_is_written_as_it_is(text: Seq<char>)
    requires
        is_plain_text(text),
    ensures
        escaped(text) == text,
    decreases text.len(),
{
    if text.len() > 0 {
        let rest = text.drop_last();
        assert forall|i: int| 0 <= i < rest.len() implies is_plain_char(#[trigger] rest[i]) by {
            assert(rest[i] == text[i]);
        }
        law_plain_text_is_written_as_it_is(rest);
        assert(text[text.len() - 1] == text.last());
        assert(rest + seq![text.last()] =~= text);
    }
}

/// The digits of a number denote it, and the first one is zero only for zero itself: read
/// as a JSON text, they give the number back.
pub proof fn law_numbers_are_read_back(n: u32)
    ensures
        decimal_value(digits(n as nat)) == n,
        is_decimal(digits(n as nat)),
        json_u32(digits(n as nat)) == Some(n),
        number_text(n as int) == digits(n as nat),
{
    lemma_digits(n as nat);
    let text = digits(n as nat);
    assert('0' <= text[0] <= '9' && '0' <= text[text.len() - 1] <= '9');
    assert(trimmed(text) == text);
}

proof fn lemma_digits(n: nat)
    ensures
        decimal_value(digits(n)) == n,
        is_decimal(digits(n)),
        n > 0 ==> digits(n)[0] != '0',
    decreases n,
{
    if n < 10 {
        assert(digits(n).drop_last() =~= Seq::empty());
        assert(decimal_value(digits(n).drop_last()) == 0);
    } else {
        lemma_digits(n / 10);
        let rest = digits(n / 10);
        let text = digits(n);
        assert(text.drop_last() =~= rest);
        assert(text[0] == rest[0]);
        assert forall|i: int| 0 <= i < text.len() implies '0' <= #[trigger] text[i] <= '9' by {
            if i < rest.len() {
                assert(text[i] == rest[i]);
            }
        }
    }
}

/// A text is written character by character: a quote or backslash behind a backslash, a
/// control character by its letter or its number, and any other character as it is.
pub proof fn law_texts_are_written_by_character(text: Seq<char>, c: char)
    ensures
        escaped(Seq::empty()) == Seq::<char>::empty(),
        escaped(text.push(c)) == escaped(text) + escaped_char(c),
        c >= ' ' && c != '"' && c != '\\' ==> escaped_char(c) == seq![c],
        escaped_char('"') == seq!['\\', '"'],
        escaped_char('\\') == seq!['\\', '\\'],
        escaped_char('\n') == seq!['\\', 'n'],
        escaped_char('\r') == seq!['\\', 'r'],
        escaped_char('\t') == seq!['\\', 't'],
        quoted(text) == seq!['"'] + escaped(text) + seq!['"'],
{
    assert(text.push(c).drop_last() =~= text);
}

} // verus!
