use lexer::cursor::Cursor;

#[test]
fn cursor_begins_at_the_first_character() {
    let cursor = Cursor::new("ab");
    assert_eq!(cursor.position(), 0);
    assert_eq!(cursor.peek(), Some('a'));
}

#[test]
fn peek_consumes_nothing() {
    let cursor = Cursor::new("ab");
    assert_eq!(cursor.peek(), Some('a'));
    assert_eq!(cursor.peek(), Some('a'));
    assert_eq!(cursor.position(), 0);
}

#[test]
fn advance_consumes_one_character() {
    let mut cursor = Cursor::new("ab");
    assert_eq!(cursor.advance(), Some('a'));
    assert_eq!(cursor.position(), 1);
    assert_eq!(cursor.peek(), Some('b'));
    assert_eq!(cursor.advance(), Some('b'));
    assert_eq!(cursor.position(), 2);
}

#[test]
fn cursor_stays_at_the_end() {
    let mut cursor = Cursor::new("a");
    assert_eq!(cursor.advance(), Some('a'));
    assert_eq!(cursor.peek(), None);
    assert_eq!(cursor.advance(), None);
    assert_eq!(cursor.advance(), None);
    assert_eq!(cursor.position(), 1);
}

#[test]
fn cursor_over_the_empty_text_is_at_its_end() {
    let mut cursor = Cursor::new("");
    assert_eq!(cursor.peek(), None);
    assert_eq!(cursor.advance(), None);
    assert_eq!(cursor.position(), 0);
}

#[test]
fn cursor_counts_characters() {
    let mut cursor = Cursor::new("é京x");
    assert_eq!(cursor.advance(), Some('é'));
    assert_eq!(cursor.position(), 1);
    assert_eq!(cursor.advance(), Some('京'));
    assert_eq!(cursor.position(), 2);
    assert_eq!(cursor.advance(), Some('x'));
    assert_eq!(cursor.position(), 3);
    assert_eq!(cursor.advance(), None);
}
