//! A lexical analyzer: source text in, a flat sequence of tokens out, each
//! with the line and column of its first character.
//!
//! What the scanner produces is defined once, as a function on sequences of
//! characters ([`grammar::lex`]), and [`Lexer::tokenize`] is proved to compute
//! exactly that function.

pub mod chars;
pub mod cursor;
pub mod grammar;
pub mod laws;
pub mod lemmas;
pub mod lexer;
pub mod table;
pub mod text;
pub mod token;

pub use chars::{classify, CharClass};
pub use lexer::Lexer;
pub use token::{LexError, Token, TokenType};
