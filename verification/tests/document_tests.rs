use edit_session::document::{text_hash, Document, EditOp};
use edit_session::fingerprint::fingerprint_chars;

#[test]
fn empty_document() {
    let d = Document::new();
    assert_eq!(d.text(), "");
    assert_eq!(d.cursor_position(), (0, 0));
}

#[test]
fn from_str_round_trips_text() {
    let d = Document::from_str("hello");
    assert_eq!(d.text(), "hello");
    let u = Document::from_str("h\u{e9}llo\nw\u{f6}rld");
    assert_eq!(u.text(), "h\u{e9}llo\nw\u{f6}rld");
}

#[test]
fn insert_at_cursor() {
    let mut d = Document::from_str("bc");
    d.apply(&EditOp::Insert('a'));
    assert_eq!(d.text(), "abc");
    d.apply(&EditOp::Insert('x'));
    assert_eq!(d.text(), "axbc");
}

#[test]
fn insert_text_at_cursor() {
    let mut d = Document::from_str("hd");
    d.apply(&EditOp::MoveRight);
    d.apply(&EditOp::InsertText("ello worl".to_string()));
    assert_eq!(d.text(), "hello world");
    assert_eq!(d.cursor_position(), (0, 10));
}

#[test]
fn backspace_removes_before_cursor() {
    let mut d = Document::from_str("abc");
    d.apply(&EditOp::MoveRight);
    d.apply(&EditOp::MoveRight);
    d.apply(&EditOp::Backspace);
    assert_eq!(d.text(), "ac");
    let mut e = Document::from_str("abc");
    e.apply(&EditOp::Backspace);
    assert_eq!(e.text(), "abc");
}

#[test]
fn delete_removes_at_cursor() {
    let mut d = Document::from_str("abc");
    d.apply(&EditOp::Delete);
    assert_eq!(d.text(), "bc");
    d.apply(&EditOp::MoveTo(usize::MAX));
    d.apply(&EditOp::Delete);
    assert_eq!(d.text(), "bc");
}

#[test]
fn cursor_moves_clamp() {
    let mut d = Document::from_str("ab");
    d.apply(&EditOp::MoveLeft);
    assert_eq!(d.cursor_position(), (0, 0));
    d.apply(&EditOp::MoveTo(17));
    assert_eq!(d.cursor_position(), (0, 2));
    d.apply(&EditOp::MoveRight);
    assert_eq!(d.cursor_position(), (0, 2));
}

#[test]
fn cursor_position_counts_lines() {
    let mut d = Document::from_str("ab\ncd");
    d.apply(&EditOp::MoveTo(4));
    assert_eq!(d.cursor_position(), (1, 1));
    d.apply(&EditOp::MoveTo(3));
    assert_eq!(d.cursor_position(), (1, 0));
    d.apply(&EditOp::MoveTo(2));
    assert_eq!(d.cursor_position(), (0, 2));
}

#[test]
fn fingerprint_exact_values() {
    let empty: Vec<char> = Vec::new();
    assert_eq!(fingerprint_chars(&empty), 0xcbf29ce484222325);
    assert_eq!(fingerprint_chars(&vec!['a']), 0xaf63dc4c8601ec8c);
    assert_eq!(fingerprint_chars(&vec!['a', 'b']), 0x089c4407b545986a);
}

#[test]
fn fingerprint_is_order_sensitive() {
    assert_ne!(
        fingerprint_chars(&vec!['a', 'b']),
        fingerprint_chars(&vec!['b', 'a'])
    );
}

#[test]
fn text_hash_follows_content() {
    let d1 = Document::from_str("same text");
    let d2 = Document::from_str("same text");
    assert_eq!(text_hash(&d1), text_hash(&d2));
    let d3 = Document::from_str("other text");
    assert_ne!(text_hash(&d1), text_hash(&d3));
}
