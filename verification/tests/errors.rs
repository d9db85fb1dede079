use lexer::{LexError, Lexer};

fn failure(source: &str) -> LexError {
    Lexer::default().tokenize(source).unwrap_err()
}

#[test]
fn unknown_character_is_a_failure() {
    assert_eq!(
        Lexer::default().tokenize("@"),
        Err(LexError::UnexpectedChar { ch: '@', line: 0, column: 0 })
    );
}

#[test]
fn unknown_character_fails_wherever_it_stands() {
    assert_eq!(failure("+ @ +"), LexError::UnexpectedChar { ch: '@', line: 0, column: 2 });
    assert_eq!(failure("a = 1\nb = #"), LexError::UnexpectedChar { ch: '#', line: 1, column: 4 });
    assert_eq!(failure("abc$"), LexError::UnexpectedChar { ch: '$', line: 0, column: 3 });
    assert_eq!(failure("12.5"), LexError::UnexpectedChar { ch: '.', line: 0, column: 2 });
}

#[test]
fn underscore_is_no_word_character() {
    assert_eq!(failure("_"), LexError::UnexpectedChar { ch: '_', line: 0, column: 0 });
    assert_eq!(failure("a_b"), LexError::UnexpectedChar { ch: '_', line: 0, column: 1 });
}

#[test]
fn quote_is_no_token() {
    assert_eq!(failure("\"a\""), LexError::UnexpectedChar { ch: '"', line: 0, column: 0 });
}

#[test]
fn numeral_beyond_the_ten_digits_begins_no_token() {
    assert_eq!(failure("²"), LexError::UnexpectedChar { ch: '²', line: 0, column: 0 });
    assert_eq!(failure("٣"), LexError::UnexpectedChar { ch: '٣', line: 0, column: 0 });
    assert_eq!(failure("Ⅷ"), LexError::UnexpectedChar { ch: 'Ⅷ', line: 0, column: 0 });
    assert_eq!(failure("12٣"), LexError::UnexpectedChar { ch: '٣', line: 0, column: 2 });
}

#[test]
fn number_beyond_32_bits_is_a_failure() {
    assert_eq!(failure("4294967296"), LexError::NumberOverflow { line: 0, column: 0 });
    assert_eq!(failure("99999999999999999999999"), LexError::NumberOverflow { line: 0, column: 0 });
    assert_eq!(failure("42949672950"), LexError::NumberOverflow { line: 0, column: 0 });
}

#[test]
fn number_overflow_is_told_at_the_first_digit() {
    assert_eq!(failure("x =\n  5000000000;"), LexError::NumberOverflow { line: 1, column: 2 });
}

#[test]
fn number_overflow_is_not_an_unknown_character() {
    let overflow = failure("4294967296");
    let unknown = failure("@");
    assert_ne!(overflow, unknown);
    assert!(matches!(overflow, LexError::NumberOverflow { .. }));
    assert!(matches!(unknown, LexError::UnexpectedChar { .. }));
}

#[test]
fn the_first_failure_is_returned() {
    assert_eq!(failure("@ 4294967296"), LexError::UnexpectedChar { ch: '@', line: 0, column: 0 });
    assert_eq!(failure("4294967296 @"), LexError::NumberOverflow { line: 0, column: 0 });
}

#[test]
fn a_failure_leaves_no_tokens() {
    assert!(Lexer::default().tokenize("a b c d e f g @").is_err());
}
