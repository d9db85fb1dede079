use lexer::chars::digit;
use lexer::{classify, CharClass};

#[test]
fn line_feed_is_a_class_of_its_own() {
    assert_eq!(classify('\n'), CharClass::Newline);
}

#[test]
fn white_space_is_space() {
    for c in [' ', '\t', '\r', '\u{b}', '\u{c}', '\u{a0}', '\u{2003}', '\u{3000}'] {
        assert_eq!(classify(c), CharClass::Space);
    }
}

#[test]
fn fixed_characters_have_their_classes() {
    for c in ['(', ')', '{', '}', '-', '+', '*', '/', ':', ';'] {
        assert_eq!(classify(c), CharClass::Punctuation);
    }
    for c in ['!', '=', '>', '<'] {
        assert_eq!(classify(c), CharClass::Operator);
    }
}

#[test]
fn ten_digits_are_digits() {
    for c in ['0', '1', '2', '3', '4', '5', '6', '7', '8', '9'] {
        assert_eq!(classify(c), CharClass::Digit);
    }
}

#[test]
fn other_numeric_characters_are_numerals() {
    for c in ['²', '½', '٣', '৩', 'Ⅷ', '〇'] {
        assert_eq!(classify(c), CharClass::Numeral);
    }
}

#[test]
fn alphabetic_characters_are_letters() {
    for c in ['a', 'z', 'A', 'Z', 'é', 'ß', 'λ', 'Я', '京', 'ا'] {
        assert_eq!(classify(c), CharClass::Letter);
    }
}

#[test]
fn the_rest_is_unknown() {
    for c in ['@', '#', '$', '%', '^', '&', '_', '.', ',', '"', '\'', '[', ']', '|', '~', '\0', '💝'] {
        assert_eq!(classify(c), CharClass::Unknown);
    }
}

#[test]
fn fixed_characters_come_before_the_properties() {
    assert_eq!(CharClass::from_properties('\n', false, false, false), CharClass::Newline);
    assert_eq!(CharClass::from_properties('\n', true, true, true), CharClass::Newline);
    assert_eq!(CharClass::from_properties('+', true, true, true), CharClass::Punctuation);
    assert_eq!(CharClass::from_properties('<', true, true, true), CharClass::Operator);
    assert_eq!(CharClass::from_properties('7', false, false, false), CharClass::Digit);
    assert_eq!(CharClass::from_properties('7', true, true, true), CharClass::Digit);
}

#[test]
fn properties_decide_in_their_order() {
    assert_eq!(CharClass::from_properties('x', true, true, true), CharClass::Space);
    assert_eq!(CharClass::from_properties('x', true, false, false), CharClass::Space);
    assert_eq!(CharClass::from_properties('x', false, true, true), CharClass::Numeral);
    assert_eq!(CharClass::from_properties('x', false, true, false), CharClass::Numeral);
    assert_eq!(CharClass::from_properties('x', false, false, true), CharClass::Letter);
    assert_eq!(CharClass::from_properties('x', false, false, false), CharClass::Unknown);
}

#[test]
fn digit_has_its_value() {
    assert_eq!(digit('0'), Some(0));
    assert_eq!(digit('7'), Some(7));
    assert_eq!(digit('9'), Some(9));
}

#[test]
fn what_is_no_digit_has_no_value() {
    assert_eq!(digit('/'), None);
    assert_eq!(digit(':'), None);
    assert_eq!(digit('a'), None);
    assert_eq!(digit('٣'), None);
    assert_eq!(digit('²'), None);
}
