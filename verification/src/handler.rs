//! The event handlers: one step of the add/edit form, the search
//! form, or the main list view for each key event. Every handler
//! mutates the application context in place and returns the action
//! the repository layer must perform, as a plain value; nothing here
//! touches storage itself.

use vstd::prelude::*;
use crate::app::{App, app_wf, removed_selection, stepped_selection};
use crate::date::{Date, date_valid, spec_far_past, today};
use crate::event::{KeyCode, KeyEvent, KeyEventKind};
use crate::focus::{BookEditFocus, SearchFieldFocus, EDIT_WINDOW_FOCUS, SEARCH_WINDOW_FOCUS,
    add_focus_index, advance, search_focus_index, spec_advance};
use crate::form::{BookState, SearchState, book_state_for, book_state_fresh, book_state_wf,
    build_new_book, build_predicate, committed_book, committed_predicate, search_state_fresh,
    search_state_wf};
use crate::models::NewBook;
use crate::search::SearchPredicate;
use crate::text::buffer_input;

verus! {

/// What the caller must do after a handled event: nothing, or one
/// repository operation with the values the form committed.
#[derive(Debug, PartialEq)]
pub enum AppAction {
    /// Nothing to do; the core consumed the event.
    Continue,
    /// Persist a new record.
    Create(NewBook),
    /// Update the record with the given identity.
    Update(i32, NewBook),
    /// Run a search and replace the list with its result.
    Search(SearchPredicate),
    /// Delete the record with the given identity, already removed
    /// from the list.
    Delete(i32),
    /// The search was cleared; reload the full list.
    ClearSearch,
}

/// What a single form keystroke asks the surrounding handler to do.
#[derive(Clone, Copy, Debug, PartialEq, Eq, Structural)]
pub enum FormSignal {
    /// Keep the modal open.
    Stay,
    /// Commit the form and close the modal.
    Confirmed,
    /// Close the modal without committing.
    Cancelled,
}

/// `post` is `pre` with the focus moved one slot through the add/edit
/// cycle and nothing else changed.
pub open spec fn add_focus_advanced(pre: BookState, post: BookState, forward: bool) -> bool {
    &&& post == (BookState { focus: post.focus, ..pre })
    &&& add_focus_index(post.focus) == spec_advance(
        add_focus_index(pre.focus),
        EDIT_WINDOW_FOCUS as int,
        forward,
    )
}

/// `post` is `pre` with the focus moved one slot through the search
/// cycle and nothing else changed.
pub open spec fn search_focus_advanced(pre: SearchState, post: SearchState, forward: bool) -> bool {
    &&& post == (SearchState { focus: post.focus, ..pre })
    &&& search_focus_index(post.focus) == spec_advance(
        search_focus_index(pre.focus),
        SEARCH_WINDOW_FOCUS as int,
        forward,
    )
}

/// Move the add/edit form's focus one slot through its cycle.
pub fn change_add_focus(task: &mut BookState, forward: bool)
    ensures
        add_focus_advanced(*old(task), *final(task), forward),
{
    let idx = task.focus.int_value();
    task.focus = BookEditFocus::from_int(advance(idx, EDIT_WINDOW_FOCUS, forward));
}

/// Move the search form's focus one slot through its cycle.
pub fn change_search_focus(task: &mut SearchState, forward: bool)
    ensures
        search_focus_advanced(*old(task), *final(task), forward),
{
    let idx = task.focus.int_value();
    task.focus = SearchFieldFocus::from_int(advance(idx, SEARCH_WINDOW_FOCUS, forward));
}

/// One keystroke of the add/edit form, keyed by the key and the slot
/// holding focus: Tab and Shift+Tab cycle the focus, Enter on a
/// button confirms or cancels, Enter on a text field does nothing (so
/// typing never submits by accident), and any other key is an edit of
/// the focused field's buffer.
pub open spec fn book_form_step(
    pre: BookState,
    key: KeyEvent,
    post: BookState,
    sig: FormSignal,
) -> bool {
    match (key.code, pre.focus) {
        (KeyCode::Tab, _) => sig == FormSignal::Stay && add_focus_advanced(pre, post, true),
        (KeyCode::BackTab, _) => sig == FormSignal::Stay && add_focus_advanced(pre, post, false),
        (KeyCode::Enter, BookEditFocus::ConfirmBtn) => sig == FormSignal::Confirmed && post == pre,
        (KeyCode::Enter, BookEditFocus::CancelBtn) => sig == FormSignal::Cancelled && post == pre,
        (KeyCode::Enter, _) => sig == FormSignal::Stay && post == pre,
        (_, BookEditFocus::Title) => sig == FormSignal::Stay && post == (BookState {
            title: post.title,
            ..pre
        }) && buffer_input(pre.title, post.title, key),
        (_, BookEditFocus::Author) => sig == FormSignal::Stay && post == (BookState {
            author: post.author,
            ..pre
        }) && buffer_input(pre.author, post.author, key),
        (_, BookEditFocus::Genre) => sig == FormSignal::Stay && post == (BookState {
            genre: post.genre,
            ..pre
        }) && buffer_input(pre.genre, post.genre, key),
        (_, BookEditFocus::Rating) => sig == FormSignal::Stay && post == (BookState {
            rating: post.rating,
            ..pre
        }) && buffer_input(pre.rating, post.rating, key),
        (_, BookEditFocus::Status) => sig == FormSignal::Stay && post == (BookState {
            status: post.status,
            ..pre
        }) && buffer_input(pre.status, post.status, key),
        (_, BookEditFocus::StartDate) => sig == FormSignal::Stay && post == (BookState {
            start_date: post.start_date,
            ..pre
        }) && buffer_input(pre.start_date, post.start_date, key),
        (_, BookEditFocus::EndDate) => sig == FormSignal::Stay && post == (BookState {
            end_date: post.end_date,
            ..pre
        }) && buffer_input(pre.end_date, post.end_date, key),
        (_, BookEditFocus::ConfirmBtn) => sig == FormSignal::Stay && post == pre,
        (_, BookEditFocus::CancelBtn) => sig == FormSignal::Stay && post == pre,
    }
}

/// One keystroke of the search form; the same shape as the add/edit
/// form's step.
pub open spec fn search_form_step(
    pre: SearchState,
    key: KeyEvent,
    post: SearchState,
    sig: FormSignal,
) -> bool {
    match (key.code, pre.focus) {
        (KeyCode::Tab, _) => sig == FormSignal::Stay && search_focus_advanced(pre, post, true),
        (KeyCode::BackTab, _) => sig == FormSignal::Stay && search_focus_advanced(pre, post, false),
        (KeyCode::Enter, SearchFieldFocus::ConfirmBtn) => sig == FormSignal::Confirmed && post
            == pre,
        (KeyCode::Enter, SearchFieldFocus::CancelBtn) => sig == FormSignal::Cancelled && post
            == pre,
        (KeyCode::Enter, _) => sig == FormSignal::Stay && post == pre,
        (_, SearchFieldFocus::Title) => sig == FormSignal::Stay && post == (SearchState {
            title: post.title,
            ..pre
        }) && buffer_input(pre.title, post.title, key),
        (_, SearchFieldFocus::Author) => sig == FormSignal::Stay && post == (SearchState {
            author: post.author,
            ..pre
        }) && buffer_input(pre.author, post.author, key),
        (_, SearchFieldFocus::Genre) => sig == FormSignal::Stay && post == (SearchState {
            genre: post.genre,
            ..pre
        }) && buffer_input(pre.genre, post.genre, key),
        (_, SearchFieldFocus::Rating) => sig == FormSignal::Stay && post == (SearchState {
            rating: post.rating,
            ..pre
        }) && buffer_input(pre.rating, post.rating, key),
        (_, SearchFieldFocus::Status) => sig == FormSignal::Stay && post == (SearchState {
            status: post.status,
            ..pre
        }) && buffer_input(pre.status, post.status, key),
        (_, SearchFieldFocus::StartDate) => sig == FormSignal::Stay && post == (SearchState {
            start_date: post.start_date,
            ..pre
        }) && buffer_input(pre.start_date, post.start_date, key),
        (_, SearchFieldFocus::EndDate) => sig == FormSignal::Stay && post == (SearchState {
            end_date: post.end_date,
            ..pre
        }) && buffer_input(pre.end_date, post.end_date, key),
        (_, SearchFieldFocus::ConfirmBtn) => sig == FormSignal::Stay && post == pre,
        (_, SearchFieldFocus::CancelBtn) => sig == FormSignal::Stay && post == pre,
    }
}

impl BookState {
    /// Apply one key event to the add/edit form.
    pub fn on_key(&mut self, key: KeyEvent) -> (sig: FormSignal)
        requires
            book_state_wf(*old(self)),
        ensures
            book_state_wf(*final(self)),
            book_form_step(*old(self), key, *final(self), sig),
    {
        match (key.code, self.focus) {
            (KeyCode::Tab, _) => {
                change_add_focus(self, true);
                FormSignal::Stay
            },
            (KeyCode::BackTab, _) => {
                change_add_focus(self, false);
                FormSignal::Stay
            },
            (KeyCode::Enter, BookEditFocus::ConfirmBtn) => FormSignal::Confirmed,
            (KeyCode::Enter, BookEditFocus::CancelBtn) => FormSignal::Cancelled,
            (KeyCode::Enter, _) => FormSignal::Stay,
            (_, BookEditFocus::Title) => {
                self.title.input(&key);
                FormSignal::Stay
            },
            (_, BookEditFocus::Author) => {
                self.author.input(&key);
                FormSignal::Stay
            },
            (_, BookEditFocus::Genre) => {
                self.genre.input(&key);
                FormSignal::Stay
            },
            (_, BookEditFocus::Rating) => {
                self.rating.input(&key);
                FormSignal::Stay
            },
            (_, BookEditFocus::Status) => {
                self.status.input(&key);
                FormSignal::Stay
            },
            (_, BookEditFocus::StartDate) => {
                self.start_date.input(&key);
                FormSignal::Stay
            },
            (_, BookEditFocus::EndDate) => {
                self.end_date.input(&key);
                FormSignal::Stay
            },
            (_, BookEditFocus::ConfirmBtn) => FormSignal::Stay,
            (_, BookEditFocus::CancelBtn) => FormSignal::Stay,
        }
    }
}

impl SearchState {
    /// Apply one key event to the search form.
    pub fn on_key(&mut self, key: KeyEvent) -> (sig: FormSignal)
        requires
            search_state_wf(*old(self)),
        ensures
            search_state_wf(*final(self)),
            search_form_step(*old(self), key, *final(self), sig),
    {
        match (key.code, self.focus) {
            (KeyCode::Tab, _) => {
                change_search_focus(self, true);
                FormSignal::Stay
            },
            (KeyCode::BackTab, _) => {
                change_search_focus(self, false);
                FormSignal::Stay
            },
            (KeyCode::Enter, SearchFieldFocus::ConfirmBtn) => FormSignal::Confirmed,
            (KeyCode::Enter, SearchFieldFocus::CancelBtn) => FormSignal::Cancelled,
            (KeyCode::Enter, _) => FormSignal::Stay,
            (_, SearchFieldFocus::Title) => {
                self.title.input(&key);
                FormSignal::Stay
            },
            (_, SearchFieldFocus::Author) => {
                self.author.input(&key);
                FormSignal::Stay
            },
            (_, SearchFieldFocus::Genre) => {
                self.genre.input(&key);
                FormSignal::Stay
            },
            (_, SearchFieldFocus::Rating) => {
                self.rating.input(&key);
                FormSignal::Stay
            },
            (_, SearchFieldFocus::Status) => {
                self.status.input(&key);
                FormSignal::Stay
            },
            (_, SearchFieldFocus::StartDate) => {
                self.start_date.input(&key);
                FormSignal::Stay
            },
            (_, SearchFieldFocus::EndDate) => {
                self.end_date.input(&key);
                FormSignal::Stay
            },
            (_, SearchFieldFocus::ConfirmBtn) => FormSignal::Stay,
            (_, SearchFieldFocus::CancelBtn) => FormSignal::Stay,
        }
    }
}

/// One event of the open add/edit modal. Enter on Confirm commits
/// the form with `fallback` standing in for absent or malformed
/// dates: in create mode the committed record is handed out for
/// `create`, in edit mode for `update` of the selected record (or
/// dropped when nothing is selected); either way the modal closes.
/// Enter on Cancel closes the modal without committing. Every other
/// key goes to the form.
pub open spec fn add_step(
    pre: App,
    key: KeyEvent,
    post: App,
    action: AppAction,
    fallback: Date,
) -> bool {
    let task = pre.book_edit_state->0;
    match (key.code, task.focus) {
        (KeyCode::Enter, BookEditFocus::ConfirmBtn) => {
            &&& post == (App { add_popup: false, book_edit_state: None, ..pre })
            &&& if !task.is_edit {
                action matches AppAction::Create(nb) && committed_book(task, fallback, nb)
            } else {
                match pre.selected {
                    Some(i) => action matches AppAction::Update(id, nb) && id == pre.items@[i as int].id
                        && committed_book(task, fallback, nb),
                    None => action == AppAction::Continue,
                }
            }
        },
        (KeyCode::Enter, BookEditFocus::CancelBtn) => {
            &&& post == (App { add_popup: false, book_edit_state: None, ..pre })
            &&& action == AppAction::Continue
        },
        _ => {
            &&& post == (App { book_edit_state: post.book_edit_state, ..pre })
            &&& post.book_edit_state matches Some(t) && book_form_step(
                task,
                key,
                t,
                FormSignal::Stay,
            )
            &&& action == AppAction::Continue
        },
    }
}

/// One event of the open search modal. Enter on Confirm commits the
/// form into a search predicate, marks the search active and closes
/// the modal; Enter on Cancel closes it without searching; every
/// other key goes to the form.
pub open spec fn search_step(pre: App, key: KeyEvent, post: App, action: AppAction) -> bool {
    let task = pre.search_field_state->0;
    match (key.code, task.focus) {
        (KeyCode::Enter, SearchFieldFocus::ConfirmBtn) => {
            &&& post == (App {
                search_popup: false,
                search_field_state: None,
                search_active: true,
                ..pre
            })
            &&& action matches AppAction::Search(p) && committed_predicate(task, p)
        },
        (KeyCode::Enter, SearchFieldFocus::CancelBtn) => {
            &&& post == (App { search_popup: false, search_field_state: None, ..pre })
            &&& action == AppAction::Continue
        },
        _ => {
            &&& post == (App { search_field_state: post.search_field_state, ..pre })
            &&& post.search_field_state matches Some(t) && search_form_step(
                task,
                key,
                t,
                FormSignal::Stay,
            )
            &&& action == AppAction::Continue
        },
    }
}

/// One event of the main list view: quit keys stop the application;
/// `d` removes the selected record and hands its identity out for
/// deletion; `u` opens the edit modal pre-populated from the selected
/// record; `i` opens a fresh create modal and clears the active
/// search; `r` clears the active search; the vertical movement keys
/// step the selection with wraparound; `/` opens a fresh search
/// modal; `?` toggles the help popup; anything else does nothing.
pub open spec fn main_step(pre: App, key: KeyEvent, post: App, action: AppAction) -> bool {
    match key.code {
        KeyCode::Esc => post == (App { running: false, ..pre }) && action == AppAction::Continue,
        KeyCode::Up => post == (App { selected: post.selected, ..pre }) && post.selected
            == stepped_selection(pre.selected, pre.items@.len(), false) && action
            == AppAction::Continue,
        KeyCode::Down => post == (App { selected: post.selected, ..pre }) && post.selected
            == stepped_selection(pre.selected, pre.items@.len(), true) && action
            == AppAction::Continue,
        KeyCode::Char(c) => if c == 'q' {
            post == (App { running: false, ..pre }) && action == AppAction::Continue
        } else if c == 'c' || c == 'C' {
            &&& if key.ctrl {
                post == (App { running: false, ..pre })
            } else {
                post == pre
            }
            &&& action == AppAction::Continue
        } else if c == 'd' {
            match pre.selected {
                Some(i) => {
                    &&& post == (App { selected: post.selected, items: post.items, ..pre })
                    &&& post.items@ == pre.items@.remove(i as int)
                    &&& post.selected == removed_selection(i as int, pre.items@.len())
                    &&& action == AppAction::Delete(pre.items@[i as int].id)
                },
                None => post == pre && action == AppAction::Continue,
            }
        } else if c == 'u' {
            match pre.selected {
                Some(i) => {
                    &&& post == (App {
                        add_popup: true,
                        book_edit_state: post.book_edit_state,
                        ..pre
                    })
                    &&& post.book_edit_state matches Some(t) && book_state_for(
                        t,
                        pre.items@[i as int],
                    )
                    &&& action == AppAction::Continue
                },
                None => post == pre && action == AppAction::Continue,
            }
        } else if c == 'i' {
            &&& post == (App {
                add_popup: true,
                search_active: false,
                book_edit_state: post.book_edit_state,
                ..pre
            })
            &&& post.book_edit_state matches Some(t) && book_state_fresh(t)
            &&& action == AppAction::Continue
        } else if c == 'r' {
            post == (App { search_active: false, ..pre }) && action == AppAction::ClearSearch
        } else if c == 'k' {
            post == (App { selected: post.selected, ..pre }) && post.selected == stepped_selection(
                pre.selected,
                pre.items@.len(),
                false,
            ) && action == AppAction::Continue
        } else if c == 'j' {
            post == (App { selected: post.selected, ..pre }) && post.selected == stepped_selection(
                pre.selected,
                pre.items@.len(),
                true,
            ) && action == AppAction::Continue
        } else if c == '/' {
            &&& post == (App {
                search_popup: true,
                search_field_state: post.search_field_state,
                ..pre
            })
            &&& post.search_field_state matches Some(t) && search_state_fresh(t)
            &&& action == AppAction::Continue
        } else if c == '?' {
            post == (App { help_popup: !pre.help_popup, ..pre }) && action == AppAction::Continue
        } else {
            post == pre && action == AppAction::Continue
        },
        _ => post == pre && action == AppAction::Continue,
    }
}

/// Handle one key event of the open add/edit modal.
pub fn handle_add_events(key_event: KeyEvent, app: &mut App) -> (action: AppAction)
    requires
        app_wf(*old(app)),
        old(app).book_edit_state is Some,
    ensures
        app_wf(*final(app)),
        exists|fallback: Date|
            date_valid(fallback) && #[trigger] add_step(
                *old(app),
                key_event,
                *final(app),
                action,
                fallback,
            ),
{
    let sig = match &mut app.book_edit_state {
        Some(task) => task.on_key(key_event),
        None => FormSignal::Stay,
    };
    match sig {
        FormSignal::Stay => {
            proof {
                assert(date_valid(spec_far_past()));
                assert(add_step(
                    *old(app),
                    key_event,
                    *app,
                    AppAction::Continue,
                    spec_far_past(),
                ));
            }
            AppAction::Continue
        },
        FormSignal::Confirmed => {
            let task = app.book_edit_state.take().unwrap();
            app.add_popup = false;
            let fallback = today();
            let nb = build_new_book(&task, &fallback);
            let action = if !task.is_edit {
                AppAction::Create(nb)
            } else {
                match app.selected {
                    Some(i) => {
                        let id = app.items[i].id;
                        AppAction::Update(id, nb)
                    },
                    None => AppAction::Continue,
                }
            };
            proof {
                assert(add_step(*old(app), key_event, *app, action, fallback));
            }
            action
        },
        FormSignal::Cancelled => {
            app.book_edit_state = None;
            app.add_popup = false;
            proof {
                assert(date_valid(spec_far_past()));
                assert(add_step(
                    *old(app),
                    key_event,
                    *app,
                    AppAction::Continue,
                    spec_far_past(),
                ));
            }
            AppAction::Continue
        },
    }
}

/// Handle one key event of the open search modal.
pub fn handle_search_events(key_event: KeyEvent, app: &mut App) -> (action: AppAction)
    requires
        app_wf(*old(app)),
        old(app).search_field_state is Some,
    ensures
        app_wf(*final(app)),
        search_step(*old(app), key_event, *final(app), action),
{
    let sig = match &mut app.search_field_state {
        Some(task) => task.on_key(key_event),
        None => FormSignal::Stay,
    };
    match sig {
        FormSignal::Stay => AppAction::Continue,
        FormSignal::Confirmed => {
            let task = app.search_field_state.take().unwrap();
            app.search_popup = false;
            app.search_active = true;
            let p = build_predicate(&task);
            AppAction::Search(p)
        },
        FormSignal::Cancelled => {
            app.search_field_state = None;
            app.search_popup = false;
            AppAction::Continue
        },
    }
}

/// Handle one key event of the main list view, with no modal open.
pub fn handle_main_events(key_event: KeyEvent, app: &mut App) -> (action: AppAction)
    requires
        app_wf(*old(app)),
        old(app).book_edit_state is None,
        old(app).search_field_state is None,
    ensures
        app_wf(*final(app)),
        main_step(*old(app), key_event, *final(app), action),
{
    match key_event.code {
        KeyCode::Esc => {
            app.quit();
            AppAction::Continue
        },
        KeyCode::Up => {
            app.previous();
            AppAction::Continue
        },
        KeyCode::Down => {
            app.next();
            AppAction::Continue
        },
        KeyCode::Char(c) => {
            if c == 'q' {
                app.quit();
                AppAction::Continue
            } else if c == 'c' || c == 'C' {
                if key_event.ctrl {
                    app.quit();
                }
                AppAction::Continue
            } else if c == 'd' {
                match app.remove_selected() {
                    Some(id) => AppAction::Delete(id),
                    None => AppAction::Continue,
                }
            } else if c == 'u' {
                match app.selected {
                    Some(i) => {
                        let state = BookState::from_book(&app.items[i]);
                        app.book_edit_state = Some(state);
                        app.add_popup = true;
                    },
                    None => {},
                }
                AppAction::Continue
            } else if c == 'i' {
                app.book_edit_state = Some(BookState::default());
                app.search_active = false;
                app.add_popup = true;
                AppAction::Continue
            } else if c == 'r' {
                app.search_active = false;
                AppAction::ClearSearch
            } else if c == 'k' {
                app.previous();
                AppAction::Continue
            } else if c == 'j' {
                app.next();
                AppAction::Continue
            } else if c == '/' {
                app.search_field_state = Some(SearchState::default());
                app.search_popup = true;
                AppAction::Continue
            } else if c == '?' {
                app.help_popup = !app.help_popup;
                AppAction::Continue
            } else {
                AppAction::Continue
            }
        },
        _ => AppAction::Continue,
    }
}

/// Route one key event to the open modal, or to the main view when
/// none is open. Release events are not state-changing and are
/// dropped here.
pub fn handle_key_events(key_event: KeyEvent, app: &mut App) -> (action: AppAction)
    requires
        app_wf(*old(app)),
    ensures
        app_wf(*final(app)),
        key_event.kind == KeyEventKind::Release ==> *final(app) == *old(app) && action
            == AppAction::Continue,
        key_event.kind != KeyEventKind::Release && old(app).book_edit_state is Some ==> exists|
            fallback: Date,
        |
            date_valid(fallback) && #[trigger] add_step(
                *old(app),
                key_event,
                *final(app),
                action,
                fallback,
            ),
        key_event.kind != KeyEventKind::Release && old(app).book_edit_state is None && old(
            app,
        ).search_field_state is Some ==> search_step(*old(app), key_event, *final(app), action),
        key_event.kind != KeyEventKind::Release && old(app).book_edit_state is None && old(
            app,
        ).search_field_state is None ==> main_step(*old(app), key_event, *final(app), action),
{
    match key_event.kind {
        KeyEventKind::Release => AppAction::Continue,
        _ => {
            if app.book_edit_state.is_some() {
                handle_add_events(key_event, app)
            } else if app.search_field_state.is_some() {
                handle_search_events(key_event, app)
            } else {
                handle_main_events(key_event, app)
            }
        },
    }
}

} // verus!
