//! Scalar attribute values and the text they are shown as: a string in
//! quotes with escapes, an integer in decimal, a character as a quoted
//! character literal.

use vstd::prelude::*;

verus! {

/// The character that stands for the digit `d`.
pub open spec fn digit_char(d: nat) -> char {
    if d == 0 {
        '0'
    } else if d == 1 {
        '1'
    } else if d == 2 {
        '2'
    } else if d == 3 {
        '3'
    } else if d == 4 {
        '4'
    } else if d == 5 {
        '5'
    } else if d == 6 {
        '6'
    } else if d == 7 {
        '7'
    } else if d == 8 {
        '8'
    } else {
        '9'
    }
}

/// Whether `c` is one of the ten decimal digits.
pub open spec fn is_digit(c: char) -> bool {
    exists|d: nat| d < 10 && c == #[trigger] digit_char(d)
}

/// The number that the digit `c` stands for.
pub open spec fn digit_value(c: char) -> nat {
    if c == '1' {
        1
    } else if c == '2' {
        2
    } else if c == '3' {
        3
    } else if c == '4' {
        4
    } else if c == '5' {
        5
    } else if c == '6' {
        6
    } else if c == '7' {
        7
    } else if c == '8' {
        8
    } else if c == '9' {
        9
    } else {
        0
    }
}

/// The decimal form of `n`: its digits from the most significant one, with no
/// leading zero but for `0` itself.
pub open spec fn decimal_digits(n: nat) -> Seq<char>
    decreases n,
{
    if n < 10 {
        seq![digit_char(n)]
    } else {
        decimal_digits(n / 10).push(digit_char(n % 10))
    }
}

/// The number that a sequence of digits is the decimal form of.
pub open spec fn decimal_value(digits: Seq<char>) -> nat
    decreases digits.len(),
{
    if digits.len() == 0 {
        0
    } else {
        decimal_value(digits.drop_last()) * 10 + digit_value(digits.last())
    }
}

/// The decimal form of a number is never empty and holds digits only.
pub proof fn lemma_decimal_digits_are_digits(n: nat)
    ensures
        decimal_digits(n).len() >= 1,
        forall|i: int|
            0 <= i < decimal_digits(n).len() ==> is_digit(#[trigger] decimal_digits(n)[i]),
    decreases n,
{
    if n >= 10 {
        lemma_decimal_digits_are_digits(n / 10);
    }
    assert(is_digit(digit_char(n % 10)));
}

/// Reading the decimal form of a number gives the number back.
pub proof fn lemma_decimal_round_trip(n: nat)
    ensures
        decimal_value(decimal_digits(n)) == n,
    decreases n,
{
    let digits = decimal_digits(n);
    if n < 10 {
        assert(decimal_value(digits.drop_last()) == 0);
    } else {
        lemma_decimal_round_trip(n / 10);
        assert(digits.drop_last() =~= decimal_digits(n / 10));
    }
}

/// `String::push` of std. Taken on trust, as its documentation has it: the
/// character is added at the end of the string, and nothing else changes.
pub assume_specification[ String::push ](text: &mut String, character: char)
    ensures
        final(text)@ == old(text)@.push(character),
;

/// The character of a single digit.
fn digit(d: usize) -> (c: char)
    requires
        d < 10,
    ensures
        c == digit_char(d as nat),
{
    if d == 0 {
        '0'
    } else if d == 1 {
        '1'
    } else if d == 2 {
        '2'
    } else if d == 3 {
        '3'
    } else if d == 4 {
        '4'
    } else if d == 5 {
        '5'
    } else if d == 6 {
        '6'
    } else if d == 7 {
        '7'
    } else if d == 8 {
        '8'
    } else {
        '9'
    }
}

/// Adds the decimal form of `n` at the end of `text`.
pub fn push_decimal(text: &mut String, n: usize)
    ensures
        final(text)@ == old(text)@ + decimal_digits(n as nat),
    decreases n,
{
    if n >= 10 {
        push_decimal(text, n / 10);
    }
    text.push(digit(n % 10));
}

/// The decimal form of `n`.
pub fn decimal(n: usize) -> (text: String)
    ensures
        text@ == decimal_digits(n as nat),
{
    let mut text = String::new();
    push_decimal(&mut text, n);
    text
}

/// A scalar value of an attribute.
#[derive(Clone, Copy, Debug, PartialEq, Eq)]
pub enum Scalar<'a> {
    /// A string.
    Text(&'a str),
    /// An unsigned integer.
    Integer(usize),
    /// A single character.
    Character(char),
}

/// The mathematical value of a [`Scalar`].
pub enum ScalarView {
    Text(Seq<char>),
    Integer(nat),
    Character(char),
}

impl<'a> View for Scalar<'a> {
    type V = ScalarView;

    open spec fn view(&self) -> ScalarView {
        match *self {
            Scalar::Text(text) => ScalarView::Text(text@),
            Scalar::Integer(n) => ScalarView::Integer(n as nat),
            Scalar::Character(character) => ScalarView::Character(character),
        }
    }
}

/// The text that `Debug` of std writes for a string: the string in double
/// quotes, with escapes for quotes, backslashes and characters that do not
/// print. The text is named here, not defined.
pub uninterp spec fn str_debug(text: Seq<char>) -> Seq<char>;

/// The text that `Debug` of std writes for a character: the character in
/// single quotes, escaped where it has to be. The text is named here, not
/// defined.
pub uninterp spec fn char_debug(character: char) -> Seq<char>;

/// Formats a string with `<str as Debug>::fmt` of std. Taken on trust: what
/// is written depends on the characters of the string alone, so that equal
/// strings are shown alike.
#[verifier::external_body]
fn debug_str(text: &str) -> (formatted: String)
    ensures
        formatted@ == str_debug(text@),
{
    format!("{:?}", text)
}

/// Formats a character with `<char as Debug>::fmt` of std. Taken on trust:
/// what is written depends on the character alone.
#[verifier::external_body]
fn debug_char(character: char) -> (formatted: String)
    ensures
        formatted@ == char_debug(character),
{
    format!("{:?}", character)
}

/// The text that a scalar is shown as.
pub open spec fn debug_text(value: ScalarView) -> Seq<char> {
    match value {
        ScalarView::Text(text) => str_debug(text),
        ScalarView::Integer(n) => decimal_digits(n),
        ScalarView::Character(character) => char_debug(character),
    }
}

/// Formats a scalar for display.
pub fn debug_format(value: Scalar) -> (formatted: String)
    ensures
        formatted@ == debug_text(value@),
{
    match value {
        Scalar::Text(text) => debug_str(text),
        Scalar::Integer(n) => decimal(n),
        Scalar::Character(character) => debug_char(character),
    }
}

/// The text of a source span: a space, the start in decimal, a colon, the end
/// in decimal.
pub open spec fn position_text(start: nat, end: nat) -> Seq<char> {
    seq![' '] + decimal_digits(start) + seq![':'] + decimal_digits(end)
}

/// The text of a source span reads back as the span: after the space stand
/// the digits of the start, then the colon, then the digits of the end, and
/// both runs of digits are the decimal forms of those numbers.
pub proof fn lemma_position_text_shape(start: nat, end: nat)
    ensures
        ({
            let text = position_text(start, end);
            let first = decimal_digits(start);
            let second = decimal_digits(end);
            &&& text.len() == first.len() + second.len() + 2
            &&& text[0] == ' '
            &&& text.subrange(1, 1 + first.len() as int) == first
            &&& text[1 + first.len() as int] == ':'
            &&& text.subrange(2 + first.len() as int, text.len() as int) == second
            &&& first.len() >= 1
            &&& second.len() >= 1
            &&& forall|i: int| 0 <= i < first.len() ==> is_digit(#[trigger] first[i])
            &&& forall|i: int| 0 <= i < second.len() ==> is_digit(#[trigger] second[i])
            &&& decimal_value(first) == start
            &&& decimal_value(second) == end
        }),
{
    lemma_decimal_digits_are_digits(start);
    lemma_decimal_digits_are_digits(end);
    lemma_decimal_round_trip(start);
    lemma_decimal_round_trip(end);
}

/// Formats a source span.
pub fn format_position(start: usize, end: usize) -> (text: String)
    ensures
        text@ == position_text(start as nat, end as nat),
{
    let mut text = String::new();
    text.push(' ');
    push_decimal(&mut text, start);
    text.push(':');
    push_decimal(&mut text, end);
    text
}

} // verus!
