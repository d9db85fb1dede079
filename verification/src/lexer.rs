//! The scanner.

use crate::chars::{classify, digit, is_digit, CharClass};
use crate::cursor::Cursor;
use crate::grammar::{
    decimal, digit_run, lemma_lexeme_fits, lex, lex_from, lexeme_len, line_of, line_start,
    prepend, word_run,
};
use crate::lemmas::{
    lemma_decimal_push, lemma_lexeme_on_one_line, lemma_prepend_nothing, lemma_prepend_push,
};
use crate::table::{keyword, operator, punctuation, word_token};
use crate::text::string_of;
use crate::token::{outcome_view, token_views, LexError, Token, TokenType, TokenView};
use vstd::prelude::*;

verus! {

/// A scanner, with the place in the text that it has come to.
pub struct Lexer {
    line: usize,
    line_start_column: usize,
    column: usize,
}

/// What a [`Lexer`] stands for: the line it is on, the index at which that
/// line began, and the column of the lexeme it is at.
pub struct LexerView {
    pub line: nat,
    pub line_start_column: nat,
    pub column: nat,
}

impl View for Lexer {
    type V = LexerView;

    closed spec fn view(&self) -> LexerView {
        LexerView {
            line: self.line as nat,
            line_start_column: self.line_start_column as nat,
            column: self.column as nat,
        }
    }
}

impl Lexer {
    /// A scanner at the beginning of a text.
    pub fn default() -> (lexer: Self)
        ensures
            lexer@ == (LexerView { line: 0, line_start_column: 0, column: 0 }),
    {
        Self { line: 0, line_start_column: 0, column: 0 }
    }

    /// A token of type `typ` at the place of the lexeme that the scanner is
    /// at.
    fn create_token(&self, typ: TokenType) -> (token: Token)
        ensures
            token.typ == typ,
            token.line == self.line,
            token.column == self.column,
    {
        Token { typ, line: self.line, column: self.column }
    }

    /// Scans the rest of a number whose first digit, `first_c`, has been
    /// consumed: consumes the digits that follow, and returns the number that
    /// all of them denote, or a failure where it does not fit in 32 bits.
    fn scan_number(&self, first_c: char, cursor: &mut Cursor) -> (r: Result<Token, LexError>)
        requires
            is_digit(first_c),
        ensures
            final(cursor).source() == old(cursor).source(),
            final(cursor).index() == old(cursor).index() + digit_run(
                old(cursor).source(),
                old(cursor).index(),
            ),
            ({
                let digits = seq![first_c] + old(cursor).source().subrange(
                    old(cursor).index(),
                    final(cursor).index(),
                );
                match r {
                    Ok(token) => decimal(digits) <= u32::MAX && token == (Token {
                        typ: TokenType::Number(decimal(digits) as u32),
                        line: self.line,
                        column: self.column,
                    }),
                    Err(e) => decimal(digits) > u32::MAX && e == (LexError::NumberOverflow {
                        line: self.line,
                        column: self.column,
                    }),
                }
            }),
    {
        let ghost source = cursor.source();
        let ghost start = cursor.index();
        proof {
            use_type_invariant(&*cursor);
        }
        let mut value: u32 = digit(first_c).unwrap();
        let mut fits = true;
        proof {
            assert(seq![first_c] + source.subrange(start, start) =~= Seq::<char>::empty().push(
                first_c,
            ));
            lemma_decimal_push(Seq::empty(), first_c);
        }
        loop
            invariant
                cursor.source() == source,
                0 <= start <= cursor.index() <= source.len(),
                digit_run(source, start) == cursor.index() - start + digit_run(
                    source,
                    cursor.index(),
                ),
                fits ==> value == decimal(
                    seq![first_c] + source.subrange(start, cursor.index()),
                ),
                !fits ==> decimal(seq![first_c] + source.subrange(start, cursor.index()))
                    > u32::MAX,
            ensures
                cursor.source() == source,
                cursor.index() == start + digit_run(source, start),
                fits ==> value == decimal(
                    seq![first_c] + source.subrange(start, cursor.index()),
                ),
                !fits ==> decimal(seq![first_c] + source.subrange(start, cursor.index()))
                    > u32::MAX,
            decreases source.len() - cursor.index(),
        {
            let d = match cursor.peek() {
                Some(c) => digit(c),
                None => None,
            };
            match d {
                None => {
                    break ;
                },
                Some(d) => {
                    let ghost before = seq![first_c] + source.subrange(start, cursor.index());
                    let ghost c = source[cursor.index()];
                    cursor.advance();
                    proof {
                        assert(seq![first_c] + source.subrange(start, cursor.index())
                            =~= before.push(c));
                        lemma_decimal_push(before, c);
                    }
                    if fits {
                        let wide: u64 = value as u64 * 10 + d as u64;
                        if wide <= u32::MAX as u64 {
                            value = wide as u32;
                        } else {
                            fits = false;
                        }
                    }
                },
            }
        }
        if fits {
            Ok(self.create_token(TokenType::Number(value)))
        } else {
            Err(LexError::NumberOverflow { line: self.line, column: self.column })
        }
    }

    /// Scans the rest of a word whose first character, `first_c`, has been
    /// consumed: consumes the word characters that follow, and returns the
    /// keyword that all of them spell, or else an identifier.
    fn scan_identifier_or_keyword(&self, first_c: char, cursor: &mut Cursor) -> (token: Token)
        ensures
            final(cursor).source() == old(cursor).source(),
            final(cursor).index() == old(cursor).index() + word_run(
                old(cursor).source(),
                old(cursor).index(),
            ),
            token@ == (TokenView {
                typ: word_token(
                    seq![first_c] + old(cursor).source().subrange(
                        old(cursor).index(),
                        final(cursor).index(),
                    ),
                ),
                line: self.line as nat,
                column: self.column as nat,
            }),
    {
        let ghost source = cursor.source();
        let ghost start = cursor.index();
        proof {
            use_type_invariant(&*cursor);
        }
        let mut lexeme: Vec<char> = Vec::new();
        lexeme.push(first_c);
        assert(lexeme@ =~= seq![first_c] + source.subrange(start, start));
        loop
            invariant
                cursor.source() == source,
                0 <= start <= cursor.index() <= source.len(),
                word_run(source, start) == cursor.index() - start + word_run(
                    source,
                    cursor.index(),
                ),
                lexeme@ == seq![first_c] + source.subrange(start, cursor.index()),
            ensures
                cursor.source() == source,
                cursor.index() == start + word_run(source, start),
                lexeme@ == seq![first_c] + source.subrange(start, cursor.index()),
            decreases source.len() - cursor.index(),
        {
            let c = match cursor.peek() {
                Some(c) => c,
                None => {
                    break ;
                },
            };
            match classify(c) {
                CharClass::Letter | CharClass::Digit | CharClass::Numeral => {},
                _ => {
                    break ;
                },
            }
            let ghost before = lexeme@;
            cursor.advance();
            lexeme.push(c);
            assert(seq![first_c] + source.subrange(start, cursor.index()) =~= before.push(c));
        }
        let typ = match keyword(&lexeme) {
            Some(typ) => typ,
            None => TokenType::Identifier(string_of(&lexeme)),
        };
        self.create_token(typ)
    }

    /// Tokenizes `source`: returns its tokens in their order, each with the
    /// line and column of its first character, or the first failure.
    pub fn tokenize(self, source: &str) -> (r: Result<Vec<Token>, LexError>)
        ensures
            outcome_view(r) == lex(source@),
    {
        let mut tokens: Vec<Token> = Vec::new();
        let mut cursor = Cursor::new(source);
        // A scanner begins at the top of the text, whatever it did before.
        let mut lexer = self;
        lexer.line = 0;
        lexer.line_start_column = 0;
        lexer.column = 0;
        proof {
            assert(token_views(tokens@) =~= Seq::<TokenView>::empty());
            lemma_prepend_nothing(lex(source@));
        }
        loop
            invariant
                cursor.source() == source@,
                0 <= cursor.index() <= source@.len(),
                lexer.line == line_of(source@, cursor.index()),
                lexer.line_start_column == line_start(source@, cursor.index()),
                lexer.line <= cursor.index(),
                lexer.line_start_column <= cursor.index(),
                lex(source@) == prepend(token_views(tokens@), lex_from(source@, cursor.index())),
            decreases source@.len() - cursor.index(),
        {
            let i = cursor.position();
            let c = match cursor.advance() {
                Some(c) => c,
                None => {
                    assert(token_views(tokens@) + Seq::<TokenView>::empty() =~= token_views(
                        tokens@,
                    ));
                    return Ok(tokens);
                },
            };
            lexer.column = i - lexer.line_start_column;
            proof {
                use_type_invariant(&cursor);
                lemma_lexeme_fits(source@, i as int);
                if c != '\n' {
                    lemma_lexeme_on_one_line(source@, i as int);
                }
                assert(source@.subrange(i as int, i + lexeme_len(source@, i as int))[0] == c);
            }
            let typ = match classify(c) {
                CharClass::Newline => {
                    lexer.line = lexer.line + 1;
                    lexer.line_start_column = i + 1;
                    continue ;
                },
                CharClass::Space => {
                    continue ;
                },
                CharClass::Punctuation => punctuation(c).unwrap(),
                CharClass::Operator => {
                    let (short, long) = operator(c).unwrap();
                    match cursor.peek() {
                        Some('=') => {
                            cursor.advance();
                            long
                        },
                        _ => short,
                    }
                },
                CharClass::Digit => {
                    let scanned = lexer.scan_number(c, &mut cursor);
                    proof {
                        assert(seq![c] + source@.subrange(i + 1, cursor.index())
                            =~= source@.subrange(i as int, cursor.index()));
                    }
                    match scanned {
                        Ok(token) => token.typ,
                        Err(e) => {
                            return Err(e);
                        },
                    }
                },
                CharClass::Letter => {
                    let token = lexer.scan_identifier_or_keyword(c, &mut cursor);
                    proof {
                        assert(seq![c] + source@.subrange(i + 1, cursor.index())
                            =~= source@.subrange(i as int, cursor.index()));
                    }
                    token.typ
                },
                CharClass::Numeral | CharClass::Unknown => {
                    return Err(
                        LexError::UnexpectedChar { ch: c, line: lexer.line, column: lexer.column },
                    );
                },
            };
            let token = lexer.create_token(typ);
            proof {
                lemma_prepend_push(
                    token_views(tokens@),
                    token@,
                    lex_from(source@, cursor.index()),
                );
                assert(token_views(tokens@.push(token)) =~= token_views(tokens@).push(token@));
            }
            tokens.push(token);
        }
    }
}

} // verus!
