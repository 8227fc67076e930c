//! The editable text buffer: insertion, deletion, cursor movement,
//! and conversion to and from flat text.

use booky::event::{KeyCode, KeyEvent};
use booky::text::TextBuffer;

#[test]
fn typing_builds_a_line() {
    let mut buf = TextBuffer::new();
    for c in "hello".chars() {
        buf.insert_char(c);
    }
    assert_eq!(buf.text(), "hello");
    assert_eq!(buf.line_count(), 1);
    assert_eq!(buf.col, 5);
}

#[test]
fn backspace_removes_before_cursor() {
    let mut buf = TextBuffer::new();
    for c in "hexllo".chars() {
        buf.insert_char(c);
    }
    buf.cursor_left();
    buf.cursor_left();
    buf.cursor_left();
    buf.backspace();
    assert_eq!(buf.text(), "hello");
}

#[test]
fn backspace_at_start_is_a_no_op() {
    let mut buf = TextBuffer::new();
    buf.backspace();
    assert_eq!(buf.text(), "");
    assert_eq!(buf.col, 0);
}

#[test]
fn cursor_stops_at_line_ends() {
    let mut buf = TextBuffer::new();
    buf.insert_char('a');
    buf.cursor_right();
    assert_eq!(buf.col, 1);
    buf.cursor_left();
    buf.cursor_left();
    assert_eq!(buf.col, 0);
}

#[test]
fn flat_text_splits_and_rejoins() {
    let buf = TextBuffer::from_text("one\ntwo\nthree");
    assert_eq!(buf.line_count(), 3);
    assert_eq!(buf.line_at(0), "one");
    assert_eq!(buf.line_at(1), "two");
    assert_eq!(buf.line_at(2), "three");
    assert_eq!(buf.text(), "one\ntwo\nthree");
}

#[test]
fn empty_text_is_one_empty_line() {
    let buf = TextBuffer::from_text("");
    assert_eq!(buf.line_count(), 1);
    assert_eq!(buf.line_at(0), "");
    assert_eq!(buf.text(), "");
}

#[test]
fn trailing_newline_makes_trailing_empty_line() {
    let buf = TextBuffer::from_text("a\n");
    assert_eq!(buf.line_count(), 2);
    assert_eq!(buf.line_at(1), "");
    assert_eq!(buf.text(), "a\n");
}

#[test]
fn key_events_drive_the_buffer() {
    let mut buf = TextBuffer::new();
    buf.input(&KeyEvent::press(KeyCode::Char('h')));
    buf.input(&KeyEvent::press(KeyCode::Char('i')));
    buf.input(&KeyEvent::press(KeyCode::Backspace));
    buf.input(&KeyEvent::press(KeyCode::Enter));
    buf.input(&KeyEvent::press(KeyCode::Other));
    assert_eq!(buf.text(), "h");
    let ctrl_key = KeyEvent { code: KeyCode::Char('x'), ctrl: true, kind: booky::event::KeyEventKind::Press };
    buf.input(&ctrl_key);
    assert_eq!(buf.text(), "h");
}
