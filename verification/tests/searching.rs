//! Search predicates: substring patterns, the rating lower bound,
//! the date-range containment, and the blank form matching every
//! record of a fixture.

use booky::date::{far_future, far_past, Date};
use booky::form::{build_predicate, SearchState};
use booky::models::Book;
use booky::search::{book_matches, search_books, str_contains, SearchPredicate};

fn fixture_book(id: i32, title: &str, author: &str, rating: i32, year: i32) -> Book {
    Book {
        id,
        title: title.to_string(),
        author: author.to_string(),
        genre: "fiction".to_string(),
        rating,
        status: "read".to_string(),
        start_date: Some(Date { year, month: 1, day: 10 }),
        end_date: Some(Date { year, month: 3, day: 20 }),
    }
}

fn fixture() -> Vec<Book> {
    vec![
        fixture_book(1, "Dune", "Herbert", 9, 2021),
        fixture_book(2, "Emma", "Austen", 7, 2022),
        fixture_book(3, "Hyperion", "Simmons", 8, 2023),
    ]
}

fn blank_predicate() -> SearchPredicate {
    SearchPredicate {
        title: String::new(),
        author: String::new(),
        genre: String::new(),
        status: String::new(),
        min_rating: None,
        start_from: far_past(),
        end_until: far_future(),
    }
}

#[test]
fn substring_matching_finds_inner_patterns() {
    assert!(str_contains("Hyperion", "per"));
    assert!(str_contains("Hyperion", "Hyp"));
    assert!(str_contains("Hyperion", "ion"));
    assert!(str_contains("Hyperion", ""));
    assert!(!str_contains("Hyperion", "noir"));
    assert!(!str_contains("ab", "abc"));
}

#[test]
fn blank_form_matches_every_record() {
    let task = SearchState::default();
    let p = build_predicate(&task);
    assert_eq!(p, blank_predicate());
    let books = fixture();
    for b in &books {
        assert!(book_matches(b, &p));
    }
    let found = search_books(&books, &p);
    assert_eq!(found.len(), 3);
}

#[test]
fn title_pattern_filters() {
    let mut p = blank_predicate();
    p.title = "Dun".to_string();
    let found = search_books(&fixture(), &p);
    assert_eq!(found.len(), 1);
    assert_eq!(found[0].id, 1);
}

#[test]
fn rating_bound_is_a_threshold_not_equality() {
    let mut p = blank_predicate();
    p.min_rating = Some(8);
    let found = search_books(&fixture(), &p);
    let ids: Vec<i32> = found.iter().map(|b| b.id).collect();
    assert_eq!(ids, vec![1, 3]);
}

#[test]
fn date_range_constrains_both_bounds() {
    let mut p = blank_predicate();
    p.start_from = Date { year: 2022, month: 1, day: 1 };
    let ids: Vec<i32> = search_books(&fixture(), &p).iter().map(|b| b.id).collect();
    assert_eq!(ids, vec![2, 3]);

    let mut q = blank_predicate();
    q.end_until = Date { year: 2022, month: 12, day: 31 };
    let ids: Vec<i32> = search_books(&fixture(), &q).iter().map(|b| b.id).collect();
    assert_eq!(ids, vec![1, 2]);
}

#[test]
fn record_without_dates_is_not_excluded_by_range() {
    let mut undated = fixture_book(4, "Sketches", "Anon", 5, 2020);
    undated.start_date = None;
    undated.end_date = None;
    let p = blank_predicate();
    assert!(book_matches(&undated, &p));
}

#[test]
fn search_preserves_list_order() {
    let books = fixture();
    let mut p = blank_predicate();
    p.genre = "fic".to_string();
    let ids: Vec<i32> = search_books(&books, &p).iter().map(|b| b.id).collect();
    assert_eq!(ids, vec![1, 2, 3]);
}

#[test]
fn all_conditions_combine() {
    let mut p = blank_predicate();
    p.author = "er".to_string();
    p.min_rating = Some(9);
    let ids: Vec<i32> = search_books(&fixture(), &p).iter().map(|b| b.id).collect();
    assert_eq!(ids, vec![1]);
}
