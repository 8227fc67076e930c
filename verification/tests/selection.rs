//! The selection tracker: wraparound navigation, repair on removal,
//! and re-clamping on wholesale list replacement.

use booky::app::App;
use booky::models::Book;

fn make_book(id: i32, title: &str) -> Book {
    Book {
        id,
        title: title.to_string(),
        author: String::new(),
        genre: String::new(),
        rating: 0,
        status: String::new(),
        start_date: None,
        end_date: None,
    }
}

fn app_with_books(n: i32) -> App {
    let mut app = App::new();
    let mut items = Vec::new();
    for i in 0..n {
        items.push(make_book(i + 1, &format!("book-{}", i + 1)));
    }
    app.set_items(items);
    app
}

#[test]
fn next_wraps_from_last_to_first() {
    let mut app = app_with_books(5);
    for _ in 0..5 {
        app.next();
    }
    assert_eq!(app.selected, Some(4));
    app.next();
    assert_eq!(app.selected, Some(0));
}

#[test]
fn previous_wraps_from_first_to_last() {
    let mut app = app_with_books(5);
    app.next();
    assert_eq!(app.selected, Some(0));
    app.previous();
    assert_eq!(app.selected, Some(4));
}

#[test]
fn first_step_selects_first_record() {
    let mut app = app_with_books(3);
    assert_eq!(app.selected, None);
    app.next();
    assert_eq!(app.selected, Some(0));
    let mut app2 = app_with_books(3);
    app2.previous();
    assert_eq!(app2.selected, Some(0));
}

#[test]
fn navigation_on_empty_list_stays_unselected() {
    let mut app = App::new();
    app.next();
    assert_eq!(app.selected, None);
    app.previous();
    assert_eq!(app.selected, None);
}

#[test]
fn removal_steps_selection_back() {
    let mut app = app_with_books(5);
    for _ in 0..4 {
        app.next();
    }
    assert_eq!(app.selected, Some(3));
    let removed = app.remove_selected();
    assert_eq!(removed, Some(4));
    let titles: Vec<&str> = app.items.iter().map(|b| b.title.as_str()).collect();
    assert_eq!(titles, vec!["book-1", "book-2", "book-3", "book-5"]);
    assert_eq!(app.selected, Some(2));
}

#[test]
fn removal_at_start_clamps_to_first() {
    let mut app = app_with_books(5);
    app.next();
    assert_eq!(app.selected, Some(0));
    let removed = app.remove_selected();
    assert_eq!(removed, Some(1));
    assert_eq!(app.items.len(), 4);
    assert_eq!(app.selected, Some(0));
}

#[test]
fn removing_last_record_clears_selection() {
    let mut app = app_with_books(1);
    app.next();
    let removed = app.remove_selected();
    assert_eq!(removed, Some(1));
    assert!(app.items.is_empty());
    assert_eq!(app.selected, None);
}

#[test]
fn removal_without_selection_changes_nothing() {
    let mut app = app_with_books(3);
    let removed = app.remove_selected();
    assert_eq!(removed, None);
    assert_eq!(app.items.len(), 3);
    assert_eq!(app.selected, None);
}

#[test]
fn replacement_reclamps_selection() {
    let mut app = app_with_books(5);
    for _ in 0..5 {
        app.next();
    }
    assert_eq!(app.selected, Some(4));
    let shorter = vec![make_book(10, "only"), make_book(11, "two")];
    app.set_items(shorter);
    assert_eq!(app.selected, Some(1));
}

#[test]
fn replacement_with_empty_list_clears_selection() {
    let mut app = app_with_books(3);
    app.next();
    app.set_items(Vec::new());
    assert_eq!(app.selected, None);
}

#[test]
fn replacement_keeps_in_range_selection() {
    let mut app = app_with_books(3);
    app.next();
    app.next();
    assert_eq!(app.selected, Some(1));
    let items = vec![make_book(7, "a"), make_book(8, "b"), make_book(9, "c")];
    app.set_items(items);
    assert_eq!(app.selected, Some(1));
}
