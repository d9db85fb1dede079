//! The language of the scanner, as functions on sequences of characters.
//!
//! A source text is cut into lexemes from left to right, each as long as it
//! can be ([`lexeme_len`]). What a lexeme means depends on its own text alone
//! ([`meaning`]), and where it stands on the text before it ([`line_of`],
//! [`column_of`]). [`lex`] puts the three together.

use crate::chars::{class_of, digit_value, is_digit, CharClass};
use crate::table::{operator_of, punctuation_of, word_token};
use crate::token::{LexErrorView, TokenTypeView, TokenView};
use vstd::prelude::*;

verus! {

/// The number that a sequence of decimal digits denotes.
pub open spec fn decimal(digits: Seq<char>) -> nat
    decreases digits.len(),
{
    if digits.len() == 0 {
        0
    } else {
        10 * decimal(digits.drop_last()) + digit_value(digits.last())
    }
}

/// Whether `c` may stand in a word after its first character: letters,
/// digits and the other numeric characters may.
pub open spec fn continues_word(c: char) -> bool {
    class_of(c) is Letter || class_of(c) is Digit || class_of(c) is Numeral
}

/// The length of the longest run of decimal digits in `s` that begins at
/// index `from`.
pub open spec fn digit_run(s: Seq<char>, from: int) -> nat
    decreases s.len() - from,
{
    if 0 <= from < s.len() && is_digit(s[from]) {
        1 + digit_run(s, from + 1)
    } else {
        0
    }
}

/// The length of the longest run of word characters in `s` that begins at
/// index `from`.
pub open spec fn word_run(s: Seq<char>, from: int) -> nat
    decreases s.len() - from,
{
    if 0 <= from < s.len() && continues_word(s[from]) {
        1 + word_run(s, from + 1)
    } else {
        0
    }
}

/// The length of the lexeme that begins at index `i` of `s`. An operator
/// character takes a directly following `=` with it, a digit the digits that
/// follow it, a letter the word characters that follow it; any other
/// character stands alone.
pub open spec fn lexeme_len(s: Seq<char>, i: int) -> nat
    recommends
        0 <= i < s.len(),
{
    1 + match class_of(s[i]) {
        CharClass::Operator => if i + 1 < s.len() && s[i + 1] == '=' {
            1nat
        } else {
            0nat
        },
        CharClass::Digit => digit_run(s, i + 1),
        CharClass::Letter => word_run(s, i + 1),
        _ => 0nat,
    }
}

/// A run of digits ends within the text.
pub proof fn lemma_digit_run_fits(s: Seq<char>, from: int)
    requires
        0 <= from <= s.len(),
    ensures
        from + digit_run(s, from) <= s.len(),
    decreases s.len() - from,
{
    if from < s.len() && is_digit(s[from]) {
        lemma_digit_run_fits(s, from + 1);
    }
}

/// A run of word characters ends within the text.
pub proof fn lemma_word_run_fits(s: Seq<char>, from: int)
    requires
        0 <= from <= s.len(),
    ensures
        from + word_run(s, from) <= s.len(),
    decreases s.len() - from,
{
    if from < s.len() && continues_word(s[from]) {
        lemma_word_run_fits(s, from + 1);
    }
}

/// A lexeme ends within the text.
pub proof fn lemma_lexeme_fits(s: Seq<char>, i: int)
    requires
        0 <= i < s.len(),
    ensures
        i < i + lexeme_len(s, i) <= s.len(),
{
    lemma_digit_run_fits(s, i + 1);
    lemma_word_run_fits(s, i + 1);
}

/// What a lexeme means to the scanner.
pub enum Meaning {
    /// White space: it separates tokens and leaves none.
    Blank,
    /// A token of this type.
    Token(TokenTypeView),
    /// No token begins with this character.
    Unexpected(char),
    /// A number too large for 32 bits.
    Overflow,
}

/// The meaning of the lexeme `text`, decided by the class of its first
/// character.
pub open spec fn meaning(text: Seq<char>) -> Meaning
    recommends
        text.len() > 0,
{
    let c = text[0];
    match class_of(c) {
        CharClass::Newline | CharClass::Space => Meaning::Blank,
        CharClass::Punctuation => Meaning::Token(punctuation_of(c).unwrap()),
        CharClass::Operator => Meaning::Token(
            if text.len() > 1 {
                operator_of(c).unwrap().1
            } else {
                operator_of(c).unwrap().0
            },
        ),
        CharClass::Digit => if decimal(text) <= u32::MAX {
            Meaning::Token(TokenTypeView::Number(decimal(text) as u32))
        } else {
            Meaning::Overflow
        },
        CharClass::Letter => Meaning::Token(word_token(text)),
        CharClass::Numeral | CharClass::Unknown => Meaning::Unexpected(c),
    }
}

/// The line on which index `i` of `s` lies: the number of line feeds
/// before it.
pub open spec fn line_of(s: Seq<char>, i: int) -> nat
    decreases i,
{
    if i <= 0 {
        0
    } else if s[i - 1] == '\n' {
        line_of(s, i - 1) + 1
    } else {
        line_of(s, i - 1)
    }
}

/// The index at which the line of index `i` begins: just after the last
/// line feed before `i`, or 0 where there is none.
pub open spec fn line_start(s: Seq<char>, i: int) -> nat
    decreases i,
{
    if i <= 0 {
        0
    } else if s[i - 1] == '\n' {
        i as nat
    } else {
        line_start(s, i - 1)
    }
}

/// The column of index `i` of `s`: its distance, in characters, from the
/// beginning of its line.
pub open spec fn column_of(s: Seq<char>, i: int) -> nat {
    (i - line_start(s, i)) as nat
}

/// The tokens of `s` from index `i` on, or the first failure. A failure
/// anywhere leaves no tokens at all.
pub open spec fn lex_from(s: Seq<char>, i: int) -> Result<Seq<TokenView>, LexErrorView>
    decreases s.len() - i,
    via lex_from_terminates
{
    if i < 0 || i >= s.len() {
        Ok(Seq::empty())
    } else {
        let next = i + lexeme_len(s, i);
        let line = line_of(s, i);
        let column = column_of(s, i);
        match meaning(s.subrange(i, next)) {
            Meaning::Blank => lex_from(s, next),
            Meaning::Token(typ) => match lex_from(s, next) {
                Ok(rest) => Ok(seq![TokenView { typ, line, column }] + rest),
                Err(e) => Err(e),
            },
            Meaning::Unexpected(ch) => Err(LexErrorView::UnexpectedChar { ch, line, column }),
            Meaning::Overflow => Err(LexErrorView::NumberOverflow { line, column }),
        }
    }
}

/// Putting tokens that were found before in front of a result.
pub open spec fn prepend(done: Seq<TokenView>, rest: Result<Seq<TokenView>, LexErrorView>)
    -> Result<Seq<TokenView>, LexErrorView> {
    match rest {
        Ok(more) => Ok(done + more),
        Err(e) => Err(e),
    }
}

#[via_fn]
proof fn lex_from_terminates(s: Seq<char>, i: int) {
    if 0 <= i < s.len() {
        lemma_lexeme_fits(s, i);
    }
}

/// The tokens of the source text `s`, or why it has none.
pub open spec fn lex(s: Seq<char>) -> Result<Seq<TokenView>, LexErrorView> {
    lex_from(s, 0)
}

} // verus!
