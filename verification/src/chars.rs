//! Character classes: what a single character is to the scanner.

use crate::table::{operator_of, punctuation_of};
use vstd::prelude::*;

verus! {

/// Whether `c` has the Unicode property `White_Space`: what
/// `char::is_whitespace` answers for `c`.
pub uninterp spec fn unicode_white_space(c: char) -> bool;

/// Whether `c` is in one of the Unicode general categories for numbers
/// (`Nd`, `Nl`, `No`): what `char::is_numeric` answers for `c`.
pub uninterp spec fn unicode_numeric(c: char) -> bool;

/// Whether `c` has the Unicode property `Alphabetic`: what
/// `char::is_alphabetic` answers for `c`.
pub uninterp spec fn unicode_alphabetic(c: char) -> bool;

/// `char::is_whitespace` looks `c` up in the tables of the Unicode Character
/// Database. Nothing is claimed of the answer but that it depends on `c`
/// alone.
pub assume_specification[ char::is_whitespace ](c: char) -> (b: bool)
    ensures
        b == unicode_white_space(c),
;

/// `char::is_numeric` looks `c` up in the tables of the Unicode Character
/// Database. Nothing is claimed of the answer but that it depends on `c`
/// alone.
pub assume_specification[ char::is_numeric ](c: char) -> (b: bool)
    ensures
        b == unicode_numeric(c),
;

/// `char::is_alphabetic` looks `c` up in the tables of the Unicode Character
/// Database. Nothing is claimed of the answer but that it depends on `c`
/// alone.
pub assume_specification[ char::is_alphabetic ](c: char) -> (b: bool)
    ensures
        b == unicode_alphabetic(c),
;

/// The classes of characters that the scanner tells apart. Every character
/// belongs to exactly one.
#[derive(Clone, Copy, Debug, PartialEq, Eq, Structural)]
pub enum CharClass {
    /// The line feed, which ends a line.
    Newline,
    /// White space other than the line feed.
    Space,
    /// One of `( ) { } - + * / : ;`.
    Punctuation,
    /// One of `! = > <`, which may be followed by `=`.
    Operator,
    /// One of `0` to `9`.
    Digit,
    /// A numeric character other than `0` to `9`.
    Numeral,
    /// An alphabetic character that is not numeric.
    Letter,
    /// Anything else.
    Unknown,
}

/// Whether `c` is a punctuation character.
pub open spec fn is_punctuation(c: char) -> bool {
    punctuation_of(c) is Some
}

/// Whether `c` is an operator character.
pub open spec fn is_operator(c: char) -> bool {
    operator_of(c) is Some
}

/// Whether `c` is a decimal digit: one of `0` to `9`.
pub open spec fn is_digit(c: char) -> bool {
    '0' <= c <= '9'
}

/// The value of the decimal digit `c`.
pub open spec fn digit_value(c: char) -> nat
    recommends
        is_digit(c),
{
    (c as int - '0' as int) as nat
}

/// The class of `c`, given what Unicode says of it. The characters of the
/// fixed tokens and the ten digits are told by comparison; the three
/// properties decide among the rest, white space before numbers before
/// letters.
pub open spec fn class_from(c: char, white_space: bool, numeric: bool, alphabetic: bool)
    -> CharClass {
    if c == '\n' {
        CharClass::Newline
    } else if is_punctuation(c) {
        CharClass::Punctuation
    } else if is_operator(c) {
        CharClass::Operator
    } else if is_digit(c) {
        CharClass::Digit
    } else if white_space {
        CharClass::Space
    } else if numeric {
        CharClass::Numeral
    } else if alphabetic {
        CharClass::Letter
    } else {
        CharClass::Unknown
    }
}

/// The class of `c`.
pub open spec fn class_of(c: char) -> CharClass {
    class_from(c, unicode_white_space(c), unicode_numeric(c), unicode_alphabetic(c))
}

impl CharClass {
    /// Decides the class of `c` from the three Unicode properties of `c`.
    pub fn from_properties(c: char, white_space: bool, numeric: bool, alphabetic: bool) -> (k:
        CharClass)
        ensures
            k == class_from(c, white_space, numeric, alphabetic),
    {
        match c {
            '\n' => CharClass::Newline,
            '(' | ')' | '{' | '}' | '-' | '+' | '*' | '/' | ':' | ';' => CharClass::Punctuation,
            '!' | '=' | '>' | '<' => CharClass::Operator,
            '0'..='9' => CharClass::Digit,
            _ => if white_space {
                CharClass::Space
            } else if numeric {
                CharClass::Numeral
            } else if alphabetic {
                CharClass::Letter
            } else {
                CharClass::Unknown
            },
        }
    }
}

/// The value of `c` as a decimal digit; `None` where `c` is none.
pub fn digit(c: char) -> (d: Option<u32>)
    ensures
        d is Some == is_digit(c),
        d matches Some(value) ==> value == digit_value(c),
{
    if '0' <= c && c <= '9' {
        Some(c as u32 - '0' as u32)
    } else {
        None
    }
}

/// Classifies `c`.
pub fn classify(c: char) -> (k: CharClass)
    ensures
        k == class_of(c),
{
    CharClass::from_properties(c, c.is_whitespace(), c.is_numeric(), c.is_alphabetic())
}

} // verus!
