//! The fixed lexemes: punctuation, operators and keywords, each with its
//! token. A lexeme is added to the language by adding it here.

use crate::text::spells;
use crate::token::{TokenType, TokenTypeView};
use vstd::prelude::*;

verus! {

/// The token that the punctuation character `c` stands for.
pub open spec fn punctuation_of(c: char) -> Option<TokenTypeView> {
    if c == '(' {
        Some(TokenTypeView::LeftParen)
    } else if c == ')' {
        Some(TokenTypeView::RightParen)
    } else if c == '{' {
        Some(TokenTypeView::LeftBrace)
    } else if c == '}' {
        Some(TokenTypeView::RightBrace)
    } else if c == '-' {
        Some(TokenTypeView::Minus)
    } else if c == '+' {
        Some(TokenTypeView::Plus)
    } else if c == '*' {
        Some(TokenTypeView::Star)
    } else if c == '/' {
        Some(TokenTypeView::Slash)
    } else if c == ':' {
        Some(TokenTypeView::Colon)
    } else if c == ';' {
        Some(TokenTypeView::Semicolon)
    } else {
        None
    }
}

/// The two tokens that begin with the operator character `c`: the one that
/// `c` alone stands for, and the one that `c` followed by `=` stands for.
pub open spec fn operator_of(c: char) -> Option<(TokenTypeView, TokenTypeView)> {
    if c == '!' {
        Some((TokenTypeView::ExclMark, TokenTypeView::ExclMarkEqual))
    } else if c == '=' {
        Some((TokenTypeView::Equal, TokenTypeView::EqualEqual))
    } else if c == '>' {
        Some((TokenTypeView::Greater, TokenTypeView::GreaterEqual))
    } else if c == '<' {
        Some((TokenTypeView::Less, TokenTypeView::LessEqual))
    } else {
        None
    }
}

/// The keyword that `text` spells, if it spells one. The whole text counts,
/// and case counts.
pub open spec fn keyword_of(text: Seq<char>) -> Option<TokenTypeView> {
    if text == "def"@ {
        Some(TokenTypeView::Def)
    } else {
        None
    }
}

/// The token that a word stands for: its keyword, or else an identifier
/// with the word as its text.
pub open spec fn word_token(text: Seq<char>) -> TokenTypeView {
    match keyword_of(text) {
        Some(keyword) => keyword,
        None => TokenTypeView::Identifier(text),
    }
}

/// The view of an optional token type.
pub open spec fn optional_view(t: Option<TokenType>) -> Option<TokenTypeView> {
    match t {
        Some(typ) => Some(typ@),
        None => None,
    }
}

/// The view of an optional pair of token types.
pub open spec fn optional_pair_view(t: Option<(TokenType, TokenType)>) -> Option<
    (TokenTypeView, TokenTypeView),
> {
    match t {
        Some((short, long)) => Some((short@, long@)),
        None => None,
    }
}

/// Looks the punctuation character `c` up.
pub fn punctuation(c: char) -> (t: Option<TokenType>)
    ensures
        optional_view(t) == punctuation_of(c),
{
    match c {
        '(' => Some(TokenType::LeftParen),
        ')' => Some(TokenType::RightParen),
        '{' => Some(TokenType::LeftBrace),
        '}' => Some(TokenType::RightBrace),
        '-' => Some(TokenType::Minus),
        '+' => Some(TokenType::Plus),
        '*' => Some(TokenType::Star),
        '/' => Some(TokenType::Slash),
        ':' => Some(TokenType::Colon),
        ';' => Some(TokenType::Semicolon),
        _ => None,
    }
}

/// Looks the operator character `c` up.
pub fn operator(c: char) -> (t: Option<(TokenType, TokenType)>)
    ensures
        optional_pair_view(t) == operator_of(c),
{
    match c {
        '!' => Some((TokenType::ExclMark, TokenType::ExclMarkEqual)),
        '=' => Some((TokenType::Equal, TokenType::EqualEqual)),
        '>' => Some((TokenType::Greater, TokenType::GreaterEqual)),
        '<' => Some((TokenType::Less, TokenType::LessEqual)),
        _ => None,
    }
}

/// Looks the word `text` up among the keywords.
pub fn keyword(text: &Vec<char>) -> (t: Option<TokenType>)
    ensures
        optional_view(t) == keyword_of(text@),
{
    if spells(text, "def") {
        Some(TokenType::Def)
    } else {
        None
    }
}

} // verus!
