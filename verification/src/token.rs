//! Tokens, and the mathematical values that contracts say of them.

use vstd::prelude::*;

verus! {

/// The lexical category of a token.
#[derive(Debug, PartialEq, Eq)]
pub enum TokenType {
    // Single-character
    LeftParen,
    RightParen,
    LeftBrace,
    RightBrace,
    Minus,
    Plus,
    Star,
    Slash,
    Colon,
    Semicolon,
    // Single- or double-character
    ExclMark,
    ExclMarkEqual,
    Equal,
    EqualEqual,
    Greater,
    GreaterEqual,
    Less,
    LessEqual,
    // Keywords
    Def,
    // Others
    /// An alphanumeric run that is no keyword, with its text.
    Identifier(String),
    /// A run of decimal digits, with its value.
    Number(u32),
}

/// A token: its category, and the line and column of its first character,
/// both counted from zero, the column in characters.
#[derive(Debug, PartialEq, Eq)]
pub struct Token {
    pub typ: TokenType,
    pub line: usize,
    pub column: usize,
}

/// What a [`TokenType`] stands for: the same variants, with the text of an
/// identifier as a sequence of characters.
pub enum TokenTypeView {
    LeftParen,
    RightParen,
    LeftBrace,
    RightBrace,
    Minus,
    Plus,
    Star,
    Slash,
    Colon,
    Semicolon,
    ExclMark,
    ExclMarkEqual,
    Equal,
    EqualEqual,
    Greater,
    GreaterEqual,
    Less,
    LessEqual,
    Def,
    Identifier(Seq<char>),
    Number(u32),
}

/// What a [`Token`] stands for.
pub struct TokenView {
    pub typ: TokenTypeView,
    pub line: nat,
    pub column: nat,
}

impl View for TokenType {
    type V = TokenTypeView;

    open spec fn view(&self) -> TokenTypeView {
        match *self {
            TokenType::LeftParen => TokenTypeView::LeftParen,
            TokenType::RightParen => TokenTypeView::RightParen,
            TokenType::LeftBrace => TokenTypeView::LeftBrace,
            TokenType::RightBrace => TokenTypeView::RightBrace,
            TokenType::Minus => TokenTypeView::Minus,
            TokenType::Plus => TokenTypeView::Plus,
            TokenType::Star => TokenTypeView::Star,
            TokenType::Slash => TokenTypeView::Slash,
            TokenType::Colon => TokenTypeView::Colon,
            TokenType::Semicolon => TokenTypeView::Semicolon,
            TokenType::ExclMark => TokenTypeView::ExclMark,
            TokenType::ExclMarkEqual => TokenTypeView::ExclMarkEqual,
            TokenType::Equal => TokenTypeView::Equal,
            TokenType::EqualEqual => TokenTypeView::EqualEqual,
            TokenType::Greater => TokenTypeView::Greater,
            TokenType::GreaterEqual => TokenTypeView::GreaterEqual,
            TokenType::Less => TokenTypeView::Less,
            TokenType::LessEqual => TokenTypeView::LessEqual,
            TokenType::Def => TokenTypeView::Def,
            TokenType::Identifier(text) => TokenTypeView::Identifier(text@),
            TokenType::Number(value) => TokenTypeView::Number(value),
        }
    }
}

impl View for Token {
    type V = TokenView;

    open spec fn view(&self) -> TokenView {
        TokenView { typ: self.typ@, line: self.line as nat, column: self.column as nat }
    }
}

/// The views of a sequence of tokens, in the same order.
pub open spec fn token_views(tokens: Seq<Token>) -> Seq<TokenView> {
    tokens.map_values(|t: Token| t@)
}

/// Why a source text has no tokenization. Either way the position is that
/// of the first character of the lexeme at fault.
#[derive(Clone, Copy, Debug, PartialEq, Eq, Structural)]
pub enum LexError {
    /// A character that begins no lexeme and is no white space.
    UnexpectedChar { ch: char, line: usize, column: usize },
    /// A run of digits whose value does not fit in 32 bits.
    NumberOverflow { line: usize, column: usize },
}

/// What a [`LexError`] stands for.
pub enum LexErrorView {
    UnexpectedChar { ch: char, line: nat, column: nat },
    NumberOverflow { line: nat, column: nat },
}

impl View for LexError {
    type V = LexErrorView;

    open spec fn view(&self) -> LexErrorView {
        match *self {
            LexError::UnexpectedChar { ch, line, column } => LexErrorView::UnexpectedChar {
                ch,
                line: line as nat,
                column: column as nat,
            },
            LexError::NumberOverflow { line, column } => LexErrorView::NumberOverflow {
                line: line as nat,
                column: column as nat,
            },
        }
    }
}

/// What the result of a tokenization stands for.
pub open spec fn outcome_view(r: Result<Vec<Token>, LexError>) -> Result<
    Seq<TokenView>,
    LexErrorView,
> {
    match r {
        Ok(tokens) => Ok(token_views(tokens@)),
        Err(e) => Err(e@),
    }
}

} // verus!
