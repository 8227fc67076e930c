//! Whole-modal flows through the key-event handlers: creating,
//! editing, cancelling, searching, deleting and quitting.

use booky::app::App;
use booky::date::{today, Date};
use booky::event::{KeyCode, KeyEvent, KeyEventKind};
use booky::handler::{handle_key_events, AppAction};
use booky::models::Book;
use booky::search::search_books;

fn press(app: &mut App, code: KeyCode) -> AppAction {
    handle_key_events(KeyEvent::press(code), app)
}

fn type_text(app: &mut App, text: &str) {
    for c in text.chars() {
        let action = press(app, KeyCode::Char(c));
        assert_eq!(action, AppAction::Continue);
    }
}

fn stored_book(id: i32, title: &str, author: &str, rating: i32, year: i32) -> Book {
    Book {
        id,
        title: title.to_string(),
        author: author.to_string(),
        genre: "fiction".to_string(),
        rating,
        status: "read".to_string(),
        start_date: Some(Date { year, month: 1, day: 10 }),
        end_date: Some(Date { year, month: 3, day: 20 }),
    }
}

#[test]
fn create_flow_commits_typed_fields() {
    let mut app = App::new();
    assert_eq!(press(&mut app, KeyCode::Char('i')), AppAction::Continue);
    assert!(app.add_popup);
    assert!(app.book_edit_state.is_some());

    type_text(&mut app, "Dune");
    press(&mut app, KeyCode::Tab);
    type_text(&mut app, "Herbert");
    press(&mut app, KeyCode::Tab);
    press(&mut app, KeyCode::Tab);
    type_text(&mut app, "9");
    for _ in 0..4 {
        press(&mut app, KeyCode::Tab);
    }

    let action = press(&mut app, KeyCode::Enter);
    let nb = match action {
        AppAction::Create(nb) => nb,
        other => panic!("expected a create action, got {:?}", other),
    };
    assert_eq!(nb.title, "Dune");
    assert_eq!(nb.author, "Herbert");
    assert_eq!(nb.rating, 9);
    assert_eq!(nb.genre, "");
    assert_eq!(nb.status, "");
    assert_eq!(nb.start_date, Some(today()));
    assert_eq!(nb.end_date, Some(today()));
    assert!(app.book_edit_state.is_none());
    assert!(!app.add_popup);

    let created = Book::from_new(42, nb);
    app.set_items(vec![created]);
    assert_eq!(app.items.len(), 1);
    assert_eq!(app.items[0].id, 42);
    assert_eq!(app.items[0].title, "Dune");
}

#[test]
fn enter_on_a_text_field_does_not_submit() {
    let mut app = App::new();
    press(&mut app, KeyCode::Char('i'));
    type_text(&mut app, "Du");
    let action = press(&mut app, KeyCode::Enter);
    assert_eq!(action, AppAction::Continue);
    assert!(app.book_edit_state.is_some());
    let task = app.book_edit_state.as_ref().unwrap();
    assert_eq!(task.title.text(), "Du");
}

#[test]
fn cancel_discards_the_form() {
    let mut app = App::new();
    press(&mut app, KeyCode::Char('i'));
    type_text(&mut app, "scratch");
    press(&mut app, KeyCode::BackTab);
    let action = press(&mut app, KeyCode::Enter);
    assert_eq!(action, AppAction::Continue);
    assert!(app.book_edit_state.is_none());
    assert!(!app.add_popup);
    assert!(app.items.is_empty());
}

#[test]
fn edit_flow_round_trips_the_record() {
    let mut app = App::new();
    app.set_items(vec![stored_book(7, "Emma", "Austen", 8, 2021)]);
    press(&mut app, KeyCode::Down);
    assert_eq!(app.selected, Some(0));

    assert_eq!(press(&mut app, KeyCode::Char('u')), AppAction::Continue);
    assert!(app.add_popup);
    {
        let task = app.book_edit_state.as_ref().unwrap();
        assert!(task.is_edit);
        assert_eq!(task.title.text(), "Emma");
        assert_eq!(task.author.text(), "Austen");
        assert_eq!(task.rating.text(), "8");
        assert_eq!(task.start_date.text(), "2021-01-10");
        assert_eq!(task.end_date.text(), "2021-03-20");
    }

    for _ in 0..7 {
        press(&mut app, KeyCode::Tab);
    }
    let action = press(&mut app, KeyCode::Enter);
    let (id, nb) = match action {
        AppAction::Update(id, nb) => (id, nb),
        other => panic!("expected an update action, got {:?}", other),
    };
    assert_eq!(id, 7);
    assert_eq!(nb.title, "Emma");
    assert_eq!(nb.author, "Austen");
    assert_eq!(nb.rating, 8);
    assert_eq!(nb.start_date, Some(Date { year: 2021, month: 1, day: 10 }));
    assert_eq!(nb.end_date, Some(Date { year: 2021, month: 3, day: 20 }));
    assert!(app.book_edit_state.is_none());
}

#[test]
fn search_flow_filters_the_list() {
    let mut app = App::new();
    let all = vec![
        stored_book(1, "Dune", "Herbert", 9, 2021),
        stored_book(2, "Emma", "Austen", 7, 2022),
        stored_book(3, "Hyperion", "Simmons", 8, 2023),
    ];
    app.set_items(all.clone());

    assert_eq!(press(&mut app, KeyCode::Char('/')), AppAction::Continue);
    assert!(app.search_popup);
    type_text(&mut app, "Dun");
    for _ in 0..7 {
        press(&mut app, KeyCode::Tab);
    }
    let action = press(&mut app, KeyCode::Enter);
    let p = match action {
        AppAction::Search(p) => p,
        other => panic!("expected a search action, got {:?}", other),
    };
    assert!(app.search_active);
    assert!(!app.search_popup);
    assert!(app.search_field_state.is_none());
    assert_eq!(p.title, "Dun");
    assert_eq!(p.min_rating, None);

    let found = search_books(&all, &p);
    app.set_items(found);
    assert_eq!(app.items.len(), 1);
    assert_eq!(app.items[0].id, 1);

    let action = press(&mut app, KeyCode::Char('r'));
    assert_eq!(action, AppAction::ClearSearch);
    assert!(!app.search_active);
    app.set_items(all);
    assert_eq!(app.items.len(), 3);
}

#[test]
fn delete_flow_hands_out_the_identity() {
    let mut app = App::new();
    app.set_items(vec![
        stored_book(5, "One", "A", 1, 2020),
        stored_book(6, "Two", "B", 2, 2021),
    ]);
    press(&mut app, KeyCode::Down);
    press(&mut app, KeyCode::Down);
    assert_eq!(app.selected, Some(1));
    let action = press(&mut app, KeyCode::Char('d'));
    assert_eq!(action, AppAction::Delete(6));
    assert_eq!(app.items.len(), 1);
    assert_eq!(app.items[0].id, 5);
    assert_eq!(app.selected, Some(0));
}

#[test]
fn delete_without_selection_does_nothing() {
    let mut app = App::new();
    app.set_items(vec![stored_book(5, "One", "A", 1, 2020)]);
    let action = press(&mut app, KeyCode::Char('d'));
    assert_eq!(action, AppAction::Continue);
    assert_eq!(app.items.len(), 1);
}

#[test]
fn quit_keys_stop_the_loop() {
    let mut app = App::new();
    assert!(app.running);
    press(&mut app, KeyCode::Char('q'));
    assert!(!app.running);

    let mut app2 = App::new();
    press(&mut app2, KeyCode::Esc);
    assert!(!app2.running);

    let mut app3 = App::new();
    press(&mut app3, KeyCode::Char('c'));
    assert!(app3.running);
    let ctrl_c = KeyEvent { code: KeyCode::Char('c'), ctrl: true, kind: KeyEventKind::Press };
    handle_key_events(ctrl_c, &mut app3);
    assert!(!app3.running);
}

#[test]
fn help_popup_toggles() {
    let mut app = App::new();
    press(&mut app, KeyCode::Char('?'));
    assert!(app.help_popup);
    press(&mut app, KeyCode::Char('?'));
    assert!(!app.help_popup);
}

#[test]
fn release_events_are_ignored() {
    let mut app = App::new();
    let release = KeyEvent { code: KeyCode::Char('q'), ctrl: false, kind: KeyEventKind::Release };
    let action = handle_key_events(release, &mut app);
    assert_eq!(action, AppAction::Continue);
    assert!(app.running);
}
