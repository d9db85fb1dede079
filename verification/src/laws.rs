//! What holds of every tokenization.

use crate::chars::{class_of, is_digit};
use crate::grammar::{
    column_of, continues_word, decimal, digit_run, lemma_lexeme_fits, lex, lex_from, lexeme_len,
    line_of, meaning, word_run, Meaning,
};
use crate::lemmas::{
    lemma_digit_run_chars, lemma_digit_run_ends, lemma_line_start_before, lemma_word_run_chars,
    lemma_word_run_ends,
};
use crate::table::{operator_of, punctuation_of, word_token};
use crate::token::{LexErrorView, TokenTypeView, TokenView};
use vstd::prelude::*;

verus! {

/// The one token of a text that is a single lexeme: it stands at line 0,
/// column 0.
pub open spec fn single(typ: TokenTypeView) -> Result<Seq<TokenView>, LexErrorView> {
    Ok(seq![TokenView { typ, line: 0, column: 0 }])
}

/// Digits up to the end of the text are one run.
pub proof fn lemma_digits_to_the_end(s: Seq<char>, from: int)
    requires
        0 <= from <= s.len(),
        forall|k: int| from <= k < s.len() ==> is_digit(#[trigger] s[k]),
    ensures
        digit_run(s, from) == s.len() - from,
    decreases s.len() - from,
{
    if from < s.len() {
        lemma_digits_to_the_end(s, from + 1);
    }
}

/// Word characters up to the end of the text are one run.
pub proof fn lemma_word_to_the_end(s: Seq<char>, from: int)
    requires
        0 <= from <= s.len(),
        forall|k: int| from <= k < s.len() ==> continues_word(#[trigger] s[k]),
    ensures
        word_run(s, from) == s.len() - from,
    decreases s.len() - from,
{
    if from < s.len() {
        lemma_word_to_the_end(s, from + 1);
    }
}

/// A text that is one lexeme, and means a token, has that token as its only
/// one, at line 0 and column 0.
pub proof fn law_single_lexeme(s: Seq<char>)
    requires
        s.len() > 0,
        lexeme_len(s, 0) == s.len(),
        meaning(s) is Token,
    ensures
        lex(s) == single(meaning(s)->Token_0),
{
    let end = lexeme_len(s, 0) as int;
    assert(s.subrange(0, end) =~= s);
    assert(lex_from(s, end) == Ok::<Seq<TokenView>, LexErrorView>(Seq::empty()));
    assert(line_of(s, 0) == 0 && column_of(s, 0) == 0);
    let token = TokenView { typ: meaning(s)->Token_0, line: 0, column: 0 };
    assert(seq![token] + Seq::empty() =~= seq![token]);
}

/// The empty text has no tokens, and is no failure.
pub proof fn law_empty_text()
    ensures
        lex(Seq::empty()) == Ok::<Seq<TokenView>, LexErrorView>(Seq::empty()),
{
}

/// A punctuation character alone is its one token.
pub proof fn law_single_punctuation(c: char)
    requires
        punctuation_of(c) is Some,
    ensures
        lex(seq![c]) == single(punctuation_of(c).unwrap()),
{
    law_single_lexeme(seq![c]);
}

/// An operator character alone is its short token, and followed by `=`
/// its long one.
pub proof fn law_single_operator(c: char)
    requires
        operator_of(c) is Some,
    ensures
        lex(seq![c]) == single(operator_of(c).unwrap().0),
        lex(seq![c, '=']) == single(operator_of(c).unwrap().1),
{
    law_single_lexeme(seq![c]);
    law_single_lexeme(seq![c, '=']);
}

/// A run of digits alone is one number, with the value that the digits
/// denote, where that value fits in 32 bits.
pub proof fn law_single_number(s: Seq<char>)
    requires
        s.len() > 0,
        forall|k: int| 0 <= k < s.len() ==> is_digit(#[trigger] s[k]),
        decimal(s) <= u32::MAX,
    ensures
        lex(s) == single(TokenTypeView::Number(decimal(s) as u32)),
{
    lemma_digits_to_the_end(s, 1);
    law_single_lexeme(s);
}

/// A run of digits alone whose value does not fit in 32 bits is a failure,
/// and the failure says so.
pub proof fn law_number_overflow(s: Seq<char>)
    requires
        s.len() > 0,
        forall|k: int| 0 <= k < s.len() ==> is_digit(#[trigger] s[k]),
        decimal(s) > u32::MAX,
    ensures
        lex(s) == Err::<Seq<TokenView>, LexErrorView>(
            LexErrorView::NumberOverflow { line: 0, column: 0 },
        ),
{
    lemma_digits_to_the_end(s, 1);
    assert(s.subrange(0, s.len() as int) =~= s);
}

/// A letter followed by word characters, alone, is one token: the keyword
/// that the whole of it spells, or else an identifier with the whole of it as
/// its text.
pub proof fn law_single_word(s: Seq<char>)
    requires
        s.len() > 0,
        class_of(s[0]) is Letter,
        forall|k: int| 0 < k < s.len() ==> continues_word(#[trigger] s[k]),
    ensures
        lex(s) == single(word_token(s)),
{
    lemma_word_to_the_end(s, 1);
    law_single_lexeme(s);
}

/// Only the first character of a lexeme can be of the class `Unknown`.
pub proof fn lemma_unknown_begins_lexeme(s: Seq<char>, i: int, k: int)
    requires
        0 <= i < k < i + lexeme_len(s, i),
        i < s.len(),
    ensures
        !(class_of(s[k]) is Unknown),
{
    lemma_lexeme_fits(s, i);
    lemma_digit_run_chars(s, i + 1);
    lemma_word_run_chars(s, i + 1);
}

/// From a beginning of a lexeme at or before a character of the class
/// `Unknown`, the text is a failure.
pub proof fn lemma_unknown_fails_from(s: Seq<char>, from: int, at: int)
    requires
        0 <= from <= at < s.len(),
        class_of(s[at]) is Unknown,
    ensures
        lex_from(s, from) is Err,
    decreases at - from,
{
    lemma_lexeme_fits(s, from);
    let next = from + lexeme_len(s, from);
    assert(s.subrange(from, next)[0] == s[from]);
    if from < at {
        if at < next {
            lemma_unknown_begins_lexeme(s, from, at);
        }
        lemma_unknown_fails_from(s, next, at);
    }
}

/// A text that holds a character of the class `Unknown`, wherever it stands,
/// is a failure: such a character is never passed over.
pub proof fn law_unknown_fails(s: Seq<char>, at: int)
    requires
        0 <= at < s.len(),
        class_of(s[at]) is Unknown,
    ensures
        lex(s) is Err,
{
    lemma_unknown_fails_from(s, 0, at);
}

/// A number takes every digit that follows its first one: the character
/// after it, if there is one, is no digit, and every character of it is one.
pub proof fn law_number_is_maximal(s: Seq<char>, i: int)
    requires
        0 <= i < s.len(),
        class_of(s[i]) is Digit,
    ensures
        forall|k: int| i <= k < i + lexeme_len(s, i) ==> is_digit(#[trigger] s[k]),
        i + lexeme_len(s, i) == s.len() || !is_digit(s[i + lexeme_len(s, i)]),
{
    lemma_digit_run_chars(s, i + 1);
    lemma_digit_run_ends(s, i + 1);
}

/// A word takes every word character that follows its first letter: the
/// character after it, if there is one, is no word character.
pub proof fn law_word_is_maximal(s: Seq<char>, i: int)
    requires
        0 <= i < s.len(),
        class_of(s[i]) is Letter,
    ensures
        forall|k: int| i <= k < i + lexeme_len(s, i) ==> continues_word(#[trigger] s[k]),
        i + lexeme_len(s, i) == s.len() || !continues_word(s[i + lexeme_len(s, i)]),
{
    lemma_word_run_chars(s, i + 1);
    lemma_word_run_ends(s, i + 1);
}

/// An operator looks one character ahead and no further: it takes a
/// directly following `=` with it, and nothing else.
pub proof fn law_operator_lookahead(s: Seq<char>, i: int)
    requires
        0 <= i < s.len(),
        class_of(s[i]) is Operator,
    ensures
        lexeme_len(s, i) == if i + 1 < s.len() && s[i + 1] == '=' {
            2nat
        } else {
            1nat
        },
        meaning(s.subrange(i, i + lexeme_len(s, i))) == Meaning::Token(
            if i + 1 < s.len() && s[i + 1] == '=' {
                operator_of(s[i]).unwrap().1
            } else {
                operator_of(s[i]).unwrap().0
            },
        ),
{
    assert(s.subrange(i, i + lexeme_len(s, i))[0] == s[i]);
}

/// A word is a keyword only where the whole of it spells the keyword;
/// any other word is an identifier with the word as its text.
pub proof fn law_keyword_is_whole_word(text: Seq<char>)
    ensures
        word_token(text) == TokenTypeView::Def <==> text == "def"@,
        text != "def"@ ==> word_token(text) == TokenTypeView::Identifier(text),
{
}

/// Lines and columns count characters: the first index is at line 0 and
/// column 0; the index after a line feed is on the next line at column 0;
/// the index after any other character is on the same line, one column
/// further.
pub proof fn law_position_step(s: Seq<char>, i: int)
    requires
        0 <= i < s.len(),
    ensures
        line_of(s, 0) == 0 && column_of(s, 0) == 0,
        s[i] == '\n' ==> line_of(s, i + 1) == line_of(s, i) + 1 && column_of(s, i + 1) == 0,
        s[i] != '\n' ==> line_of(s, i + 1) == line_of(s, i) && column_of(s, i + 1) == column_of(
            s,
            i,
        ) + 1,
{
    lemma_line_start_before(s, i);
}

} // verus!
