//! Focus cycling: wraparound in both directions, reversibility, and
//! the full-cycle round trip.

use booky::app::App;
use booky::event::{KeyCode, KeyEvent};
use booky::focus::{advance, BookEditFocus, SearchFieldFocus, EDIT_WINDOW_FOCUS,
    SEARCH_WINDOW_FOCUS};
use booky::form::{BookState, SearchState};
use booky::handler::{change_add_focus, change_search_focus, handle_add_events, AppAction};

#[test]
fn advance_steps_forward_and_wraps() {
    assert_eq!(advance(0, 5, true), 1);
    assert_eq!(advance(3, 5, true), 4);
    assert_eq!(advance(4, 5, true), 0);
}

#[test]
fn advance_steps_backward_and_wraps() {
    assert_eq!(advance(4, 5, false), 3);
    assert_eq!(advance(1, 5, false), 0);
    assert_eq!(advance(0, 5, false), 4);
}

#[test]
fn advance_is_reversible() {
    for count in 1..10usize {
        for current in 0..count {
            let there = advance(current, count, true);
            assert_eq!(advance(there, count, false), current);
        }
    }
}

#[test]
fn advance_full_cycle_returns_to_start() {
    for count in 1..10usize {
        for start in 0..count {
            let mut cur = start;
            for _ in 0..count {
                cur = advance(cur, count, true);
            }
            assert_eq!(cur, start);
        }
    }
}

#[test]
fn add_focus_cycles_through_all_slots() {
    let mut task = BookState::default();
    let expected = [
        BookEditFocus::Author,
        BookEditFocus::Genre,
        BookEditFocus::Rating,
        BookEditFocus::Status,
        BookEditFocus::StartDate,
        BookEditFocus::EndDate,
        BookEditFocus::ConfirmBtn,
        BookEditFocus::CancelBtn,
        BookEditFocus::Title,
    ];
    for want in expected {
        change_add_focus(&mut task, true);
        assert_eq!(task.focus, want);
    }
    assert_eq!(expected.len(), EDIT_WINDOW_FOCUS);
}

#[test]
fn add_focus_backward_wraps_to_cancel() {
    let mut task = BookState::default();
    assert_eq!(task.focus, BookEditFocus::Title);
    change_add_focus(&mut task, false);
    assert_eq!(task.focus, BookEditFocus::CancelBtn);
}

#[test]
fn search_focus_cycles_and_wraps() {
    let mut task = SearchState::default();
    assert_eq!(task.focus, SearchFieldFocus::Title);
    change_search_focus(&mut task, false);
    assert_eq!(task.focus, SearchFieldFocus::CancelBtn);
    change_search_focus(&mut task, true);
    assert_eq!(task.focus, SearchFieldFocus::Title);
    for _ in 0..SEARCH_WINDOW_FOCUS {
        change_search_focus(&mut task, true);
    }
    assert_eq!(task.focus, SearchFieldFocus::Title);
}

#[test]
fn tab_in_add_modal_moves_focus() {
    let mut app = App::new();
    app.book_edit_state = Some(BookState::default());
    app.add_popup = true;
    let action = handle_add_events(KeyEvent::press(KeyCode::Tab), &mut app);
    assert_eq!(action, AppAction::Continue);
    assert_eq!(app.book_edit_state.as_ref().unwrap().focus, BookEditFocus::Author);
    let action = handle_add_events(KeyEvent::press(KeyCode::BackTab), &mut app);
    assert_eq!(action, AppAction::Continue);
    assert_eq!(app.book_edit_state.as_ref().unwrap().focus, BookEditFocus::Title);
}
