//! The modal form states: the add/edit form owning one text buffer
//! per record field plus a focus and a mode flag, the search form
//! owning the same field shape, and the read-outs a commit performs
//! on each.

use vstd::prelude::*;
use crate::date::{Date, date_valid, lemma_date_str_chars, lemma_date_text_round_trip,
    spec_date_str, date_to_string, spec_far_future, spec_far_past};
use crate::focus::{BookEditFocus, SearchFieldFocus};
use crate::models::{Book, NewBook, new_book_dates_valid};
use crate::num::{i32_to_string, lemma_i32_str_chars, lemma_i32_text_round_trip, spec_i32_str};
use crate::search::{SearchPredicate, predicate_wf, spec_blank_predicate};
use crate::text::{TextBuffer, lemma_one_line_text, line_clean};
use crate::validate::{RATING_MAX, spec_date_or, spec_rating_valid, spec_rating_value,
    validate_date_chars, validate_rating_chars};

verus! {

/// The add/edit modal's state: one editable buffer per record field,
/// the slot holding focus, and whether the form edits an existing
/// record or creates a new one.
#[derive(Debug)]
pub struct BookState {
    pub title: TextBuffer,
    pub author: TextBuffer,
    pub genre: TextBuffer,
    pub rating: TextBuffer,
    pub status: TextBuffer,
    pub start_date: TextBuffer,
    pub end_date: TextBuffer,
    pub focus: BookEditFocus,
    pub is_edit: bool,
}

/// The search modal's state: the same per-field shape as the
/// add/edit form, with its own focus.
#[derive(Debug)]
pub struct SearchState {
    pub title: TextBuffer,
    pub author: TextBuffer,
    pub genre: TextBuffer,
    pub rating: TextBuffer,
    pub status: TextBuffer,
    pub start_date: TextBuffer,
    pub end_date: TextBuffer,
    pub focus: SearchFieldFocus,
}

/// Every buffer of the add/edit form is well-formed.
pub open spec fn book_state_wf(s: BookState) -> bool {
    &&& s.title.wf()
    &&& s.author.wf()
    &&& s.genre.wf()
    &&& s.rating.wf()
    &&& s.status.wf()
    &&& s.start_date.wf()
    &&& s.end_date.wf()
}

/// Every buffer of the search form is well-formed.
pub open spec fn search_state_wf(s: SearchState) -> bool {
    &&& s.title.wf()
    &&& s.author.wf()
    &&& s.genre.wf()
    &&& s.rating.wf()
    &&& s.status.wf()
    &&& s.start_date.wf()
    &&& s.end_date.wf()
}

/// A freshly opened add form: every buffer empty, focus on the first
/// field, create mode.
pub open spec fn book_state_fresh(s: BookState) -> bool {
    &&& s.title.is_fresh()
    &&& s.author.is_fresh()
    &&& s.genre.is_fresh()
    &&& s.rating.is_fresh()
    &&& s.status.is_fresh()
    &&& s.start_date.is_fresh()
    &&& s.end_date.is_fresh()
    &&& s.focus == BookEditFocus::Title
    &&& s.is_edit == false
}

/// A freshly opened search form: every buffer empty, focus on the
/// first field.
pub open spec fn search_state_fresh(s: SearchState) -> bool {
    &&& s.title.is_fresh()
    &&& s.author.is_fresh()
    &&& s.genre.is_fresh()
    &&& s.rating.is_fresh()
    &&& s.status.is_fresh()
    &&& s.start_date.is_fresh()
    &&& s.end_date.is_fresh()
    &&& s.focus == SearchFieldFocus::Title
}

impl Default for BookState {
    /// A fresh add form in create mode.
    fn default() -> (s: BookState)
        ensures
            book_state_wf(s),
            book_state_fresh(s),
    {
        BookState {
            title: TextBuffer::new(),
            author: TextBuffer::new(),
            genre: TextBuffer::new(),
            rating: TextBuffer::new(),
            status: TextBuffer::new(),
            start_date: TextBuffer::new(),
            end_date: TextBuffer::new(),
            focus: BookEditFocus::Title,
            is_edit: false,
        }
    }
}

impl Default for SearchState {
    /// A fresh search form.
    fn default() -> (s: SearchState)
        ensures
            search_state_wf(s),
            search_state_fresh(s),
    {
        SearchState {
            title: TextBuffer::new(),
            author: TextBuffer::new(),
            genre: TextBuffer::new(),
            rating: TextBuffer::new(),
            status: TextBuffer::new(),
            start_date: TextBuffer::new(),
            end_date: TextBuffer::new(),
            focus: SearchFieldFocus::Title,
        }
    }
}

/// The text form of an optional record date: its `YYYY-MM-DD`
/// rendering when present and well-formed, empty otherwise.
pub open spec fn opt_date_text(d: Option<Date>) -> Seq<char> {
    match d {
        Some(d) => if date_valid(d) {
            spec_date_str(d)
        } else {
            Seq::<char>::empty()
        },
        None => Seq::<char>::empty(),
    }
}

/// What Edit pre-population makes of the record `b`: every buffer
/// holds the textual form of the record's field, focus starts on the
/// first field, and the form is in edit mode.
pub open spec fn book_state_for(s: BookState, b: Book) -> bool {
    &&& s.title.text_view() == b.title@
    &&& s.author.text_view() == b.author@
    &&& s.genre.text_view() == b.genre@
    &&& s.rating.text_view() == spec_i32_str(b.rating as int)
    &&& s.status.text_view() == b.status@
    &&& s.start_date.text_view() == opt_date_text(b.start_date)
    &&& s.end_date.text_view() == opt_date_text(b.end_date)
    &&& s.focus == BookEditFocus::Title
    &&& s.is_edit == true
}

fn opt_date_buffer(d: &Option<Date>) -> (t: TextBuffer)
    ensures
        t.wf(),
        t.text_view() == opt_date_text(*d),
{
    match d {
        Some(d) => {
            if d.valid() {
                let s = date_to_string(d);
                TextBuffer::from_text(s.as_str())
            } else {
                TextBuffer::new()
            }
        },
        None => TextBuffer::new(),
    }
}

impl BookState {
    /// The edit form pre-populated from the record `b`: each typed
    /// field stringified into its buffer.
    pub fn from_book(b: &Book) -> (s: BookState)
        ensures
            book_state_wf(s),
            book_state_for(s, *b),
    {
        let rating_text = i32_to_string(b.rating);
        BookState {
            title: TextBuffer::from_text(b.title.as_str()),
            author: TextBuffer::from_text(b.author.as_str()),
            genre: TextBuffer::from_text(b.genre.as_str()),
            rating: TextBuffer::from_text(rating_text.as_str()),
            status: TextBuffer::from_text(b.status.as_str()),
            start_date: opt_date_buffer(&b.start_date),
            end_date: opt_date_buffer(&b.end_date),
            focus: BookEditFocus::Title,
            is_edit: true,
        }
    }
}

/// What a commit reads out of the add/edit form `s` when the date
/// fallback is `fallback`: each text field's full text, the rating
/// field's first line validated with its clamp and default, and each
/// date field's first line parsed with `fallback` substituted for
/// absent or malformed dates.
pub open spec fn committed_book(s: BookState, fallback: Date, nb: NewBook) -> bool {
    &&& nb.title@ == s.title.text_view()
    &&& nb.author@ == s.author.text_view()
    &&& nb.genre@ == s.genre.text_view()
    &&& nb.status@ == s.status.text_view()
    &&& nb.rating == spec_rating_value(s.rating.view_lines()[0])
    &&& nb.start_date == Some(spec_date_or(s.start_date.view_lines()[0], fallback))
    &&& nb.end_date == Some(spec_date_or(s.end_date.view_lines()[0], fallback))
}

/// Read the committed record out of the add/edit form, substituting
/// `fallback` for absent or malformed dates.
pub fn build_new_book(task: &BookState, fallback: &Date) -> (nb: NewBook)
    requires
        book_state_wf(*task),
        date_valid(*fallback),
    ensures
        committed_book(*task, *fallback, nb),
        new_book_dates_valid(nb),
{
    let rating = validate_rating_chars(task.rating.first_line()).value;
    let start_date = validate_date_chars(task.start_date.first_line(), fallback);
    let end_date = validate_date_chars(task.end_date.first_line(), fallback);
    NewBook {
        title: task.title.text(),
        author: task.author.text(),
        genre: task.genre.text(),
        rating,
        status: task.status.text(),
        start_date: Some(start_date),
        end_date: Some(end_date),
    }
}

/// Opening a record for edit and confirming the untouched form
/// commits the record's own fields back: the texts unchanged, the
/// rating clamped by the validator's upper bound, and each present
/// well-formed date preserved exactly.
pub proof fn lemma_edit_commit_round_trip(s: BookState, b: Book, fallback: Date, nb: NewBook)
    requires
        book_state_wf(s),
        book_state_for(s, b),
        committed_book(s, fallback, nb),
    ensures
        nb.title@ == b.title@,
        nb.author@ == b.author@,
        nb.genre@ == b.genre@,
        nb.status@ == b.status@,
        nb.rating == if b.rating > RATING_MAX {
            RATING_MAX as int
        } else {
            b.rating as int
        },
        (match b.start_date {
            Some(d) => date_valid(d) ==> nb.start_date == Some(d),
            None => true,
        }),
        (match b.end_date {
            Some(d) => date_valid(d) ==> nb.end_date == Some(d),
            None => true,
        }),
{
    let rtext = spec_i32_str(b.rating as int);
    lemma_i32_str_chars(b.rating as int);
    assert(line_clean(rtext));
    lemma_one_line_text(s.rating.view_lines());
    assert(s.rating.view_lines()[0] == rtext);
    lemma_i32_text_round_trip(b.rating);

    match b.start_date {
        Some(d) => if date_valid(d) {
            lemma_date_str_chars(d);
            assert(line_clean(spec_date_str(d)));
            lemma_one_line_text(s.start_date.view_lines());
            lemma_date_text_round_trip(d);
            assert(spec_date_or(s.start_date.view_lines()[0], fallback) == d);
        },
        None => {},
    }
    match b.end_date {
        Some(d) => if date_valid(d) {
            lemma_date_str_chars(d);
            assert(line_clean(spec_date_str(d)));
            lemma_one_line_text(s.end_date.view_lines());
            lemma_date_text_round_trip(d);
            assert(spec_date_or(s.end_date.view_lines()[0], fallback) == d);
        },
        None => {},
    }
}

/// What a commit reads out of the search form `s`: each text field's
/// full text as a substring pattern, a rating lower bound only when
/// the rating field parses, and the date bounds with the sentinels
/// substituted for absent or malformed dates.
pub open spec fn committed_predicate(s: SearchState, p: SearchPredicate) -> bool {
    &&& p.title@ == s.title.text_view()
    &&& p.author@ == s.author.text_view()
    &&& p.genre@ == s.genre.text_view()
    &&& p.status@ == s.status.text_view()
    &&& (p.min_rating is Some <==> spec_rating_valid(s.rating.view_lines()[0]))
    &&& (p.min_rating is Some ==> p.min_rating->0 == spec_rating_value(s.rating.view_lines()[0]))
    &&& p.start_from == spec_date_or(s.start_date.view_lines()[0], spec_far_past())
    &&& p.end_until == spec_date_or(s.end_date.view_lines()[0], spec_far_future())
}

/// A search form with every field blank commits to the blank
/// predicate: every pattern empty, no rating bound, and the sentinel
/// date range — so an empty form never constrains the search.
pub proof fn lemma_blank_form_commits_blank_predicate(s: SearchState, p: SearchPredicate)
    requires
        search_state_fresh(s),
        committed_predicate(s, p),
    ensures
        spec_blank_predicate(p),
{
    assert(s.title.text_view() == Seq::<char>::empty());
    assert(s.author.text_view() == Seq::<char>::empty());
    assert(s.genre.text_view() == Seq::<char>::empty());
    assert(s.status.text_view() == Seq::<char>::empty());
    assert(s.rating.view_lines()[0] == Seq::<char>::empty());
    assert(!crate::validate::spec_rating_valid(Seq::<char>::empty()));
    assert(s.start_date.view_lines()[0] == Seq::<char>::empty());
    assert(s.end_date.view_lines()[0] == Seq::<char>::empty());
}

/// Read the search predicate out of the search form.
pub fn build_predicate(task: &SearchState) -> (p: SearchPredicate)
    requires
        search_state_wf(*task),
    ensures
        committed_predicate(*task, p),
        predicate_wf(p),
{
    let rating = validate_rating_chars(task.rating.first_line());
    let min_rating = if rating.valid {
        Some(rating.value)
    } else {
        None
    };
    let past = crate::date::far_past();
    let future = crate::date::far_future();
    let start_from = validate_date_chars(task.start_date.first_line(), &past);
    let end_until = validate_date_chars(task.end_date.first_line(), &future);
    SearchPredicate {
        title: task.title.text(),
        author: task.author.text(),
        genre: task.genre.text(),
        status: task.status.text(),
        min_rating,
        start_from,
        end_until,
    }
}

} // verus!
