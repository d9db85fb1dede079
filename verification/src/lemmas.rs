//! Facts about the language of the scanner that the proofs of the scanner
//! and of the laws rest on.

use crate::chars::{digit_value, is_digit};
use crate::grammar::{
    continues_word, decimal, digit_run, lemma_lexeme_fits, lexeme_len, line_of, line_start,
    prepend, word_run,
};
use crate::token::{LexErrorView, TokenView};
use vstd::prelude::*;

verus! {

/// One more digit at the end multiplies the number by ten and adds the
/// digit.
pub proof fn lemma_decimal_push(digits: Seq<char>, c: char)
    ensures
        decimal(digits.push(c)) == 10 * decimal(digits) + digit_value(c),
{
    assert(digits.push(c).drop_last() =~= digits);
}

/// Every character of a run of digits is a digit.
pub proof fn lemma_digit_run_chars(s: Seq<char>, from: int)
    requires
        0 <= from <= s.len(),
    ensures
        forall|k: int| from <= k < from + digit_run(s, from) ==> is_digit(#[trigger] s[k]),
    decreases s.len() - from,
{
    if from < s.len() && is_digit(s[from]) {
        lemma_digit_run_chars(s, from + 1);
    }
}

/// Every character of a run of word characters is one.
pub proof fn lemma_word_run_chars(s: Seq<char>, from: int)
    requires
        0 <= from <= s.len(),
    ensures
        forall|k: int| from <= k < from + word_run(s, from) ==> continues_word(#[trigger] s[k]),
    decreases s.len() - from,
{
    if from < s.len() && continues_word(s[from]) {
        lemma_word_run_chars(s, from + 1);
    }
}

/// Across characters that are no line feeds, the line stays the same.
pub proof fn lemma_same_line(s: Seq<char>, i: int, j: int)
    requires
        0 <= i <= j <= s.len(),
        forall|k: int| i <= k < j ==> #[trigger] s[k] != '\n',
    ensures
        line_of(s, j) == line_of(s, i),
        line_start(s, j) == line_start(s, i),
    decreases j - i,
{
    if i < j {
        lemma_same_line(s, i, j - 1);
    }
}

/// A lexeme that does not begin with a line feed holds none.
pub proof fn lemma_lexeme_on_one_line(s: Seq<char>, i: int)
    requires
        0 <= i < s.len(),
        s[i] != '\n',
    ensures
        line_of(s, i + lexeme_len(s, i)) == line_of(s, i),
        line_start(s, i + lexeme_len(s, i)) == line_start(s, i),
{
    lemma_lexeme_fits(s, i);
    lemma_digit_run_chars(s, i + 1);
    lemma_word_run_chars(s, i + 1);
    lemma_same_line(s, i, i + lexeme_len(s, i));
}

/// In front of a result, no tokens change nothing.
pub proof fn lemma_prepend_nothing(rest: Result<Seq<TokenView>, LexErrorView>)
    ensures
        prepend(Seq::empty(), rest) == rest,
{
    if let Ok(more) = rest {
        assert(Seq::<TokenView>::empty() + more =~= more);
    }
}

/// A token found next goes behind the tokens found before, and in front of
/// those found after.
pub proof fn lemma_prepend_push(
    done: Seq<TokenView>,
    token: TokenView,
    rest: Result<Seq<TokenView>, LexErrorView>,
)
    ensures
        prepend(done.push(token), rest) == prepend(done, prepend(seq![token], rest)),
{
    if let Ok(more) = rest {
        assert(done.push(token) + more =~= done + (seq![token] + more));
    }
}

/// A run of digits ends at the end of the text or in front of a character
/// that is no digit.
pub proof fn lemma_digit_run_ends(s: Seq<char>, from: int)
    requires
        0 <= from <= s.len(),
    ensures
        from + digit_run(s, from) == s.len() || !is_digit(s[from + digit_run(s, from)]),
    decreases s.len() - from,
{
    if from < s.len() && is_digit(s[from]) {
        lemma_digit_run_ends(s, from + 1);
    }
}

/// A run of word characters ends at the end of the text or in front of a
/// character that is none.
pub proof fn lemma_word_run_ends(s: Seq<char>, from: int)
    requires
        0 <= from <= s.len(),
    ensures
        from + word_run(s, from) == s.len() || !continues_word(s[from + word_run(s, from)]),
    decreases s.len() - from,
{
    if from < s.len() && continues_word(s[from]) {
        lemma_word_run_ends(s, from + 1);
    }
}

/// A line begins at or before every index on it.
pub proof fn lemma_line_start_before(s: Seq<char>, i: int)
    requires
        0 <= i,
    ensures
        line_start(s, i) <= i,
    decreases i,
{
    if i > 0 && s[i - 1] != '\n' {
        lemma_line_start_before(s, i - 1);
    }
}

} // verus!
