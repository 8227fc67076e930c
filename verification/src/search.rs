//! Search predicates: the match conditions a committed search form
//! stands for, substring matching of the text patterns, and filtering
//! a record list by a predicate.

use vstd::prelude::*;
use crate::chars::chars_of;
use crate::date::{Date, date_le, date_valid, spec_far_future, spec_far_past};
use crate::models::{Book, book_dates_valid};

verus! {

/// `p` occurs in `t` starting at position `i`.
pub open spec fn contains_at(t: Seq<char>, p: Seq<char>, i: int) -> bool {
    0 <= i && i + p.len() <= t.len() && t.subrange(i, i + p.len() as int) == p
}

/// `p` occurs somewhere in `t`. An empty pattern occurs in any text.
pub open spec fn spec_contains(t: Seq<char>, p: Seq<char>) -> bool {
    exists|i: int| contains_at(t, p, i)
}

/// Whether `p` occurs in `t` starting at `i`.
fn matches_at(t: &Vec<char>, p: &Vec<char>, i: usize) -> (r: bool)
    requires
        i + p@.len() <= t@.len(),
    ensures
        r == contains_at(t@, p@, i as int),
{
    let n = p.len();
    let tl = t.len();
    let mut j: usize = 0;
    while j < n
        invariant
            j <= n,
            n == p@.len(),
            tl == t@.len(),
            i + p@.len() <= t@.len(),
            forall|k: int| 0 <= k < j ==> t@[i + k] == p@[k],
        decreases n - j,
    {
        if t[i + j] != p[j] {
            proof {
                assert(t@.subrange(i as int, i + p@.len() as int)[j as int] != p@[j as int]);
            }
            return false;
        }
        j = j + 1;
    }
    proof {
        assert(t@.subrange(i as int, i + p@.len() as int) =~= p@);
    }
    true
}

/// Whether the pattern `p` occurs in the text `t`.
pub fn contains_chars(t: &Vec<char>, p: &Vec<char>) -> (r: bool)
    ensures
        r == spec_contains(t@, p@),
{
    if p.len() == 0 {
        proof {
            assert(t@.subrange(0, 0) =~= p@);
            assert(contains_at(t@, p@, 0));
        }
        return true;
    }
    if p.len() > t.len() {
        proof {
            assert(forall|i: int| !contains_at(t@, p@, i));
        }
        return false;
    }
    let mut i: usize = 0;
    let last = t.len() - p.len();
    while i <= last
        invariant
            i <= last + 1,
            last == t@.len() - p@.len(),
            t@.len() <= usize::MAX,
            p@.len() >= 1,
            forall|k: int| 0 <= k < i ==> !contains_at(t@, p@, k),
        decreases last + 1 - i,
    {
        if matches_at(t, p, i) {
            return true;
        }
        i = i + 1;
    }
    proof {
        assert(forall|k: int| k > last ==> !contains_at(t@, p@, k));
    }
    false
}

/// Whether the pattern `p` occurs in the text `t`, on strings.
pub fn str_contains(t: &str, p: &str) -> (r: bool)
    ensures
        r == spec_contains(t@, p@),
{
    let tv = chars_of(t);
    let pv = chars_of(p);
    contains_chars(&tv, &pv)
}

/// The match conditions a committed search form stands for: a
/// substring pattern for each text field (empty means match-all), an
/// optional rating lower bound, and a date range the record's own
/// dates must lie inside.
#[derive(Debug, PartialEq)]
pub struct SearchPredicate {
    pub title: String,
    pub author: String,
    pub genre: String,
    pub status: String,
    pub min_rating: Option<i32>,
    pub start_from: Date,
    pub end_until: Date,
}

impl Clone for SearchPredicate {
    /// An exact copy of the predicate.
    fn clone(&self) -> (r: SearchPredicate)
        ensures
            r == *self,
    {
        SearchPredicate {
            title: self.title.clone(),
            author: self.author.clone(),
            genre: self.genre.clone(),
            status: self.status.clone(),
            min_rating: self.min_rating,
            start_from: self.start_from,
            end_until: self.end_until,
        }
    }
}

/// Both bounds of the predicate's date range are well-formed dates.
pub open spec fn predicate_wf(p: SearchPredicate) -> bool {
    &&& date_valid(p.start_from)
    &&& date_valid(p.end_until)
}

/// A record matches a predicate when every text pattern occurs in its
/// field, its rating reaches the lower bound if one is set, and each
/// of its dates, when present, lies inside the predicate's range; a
/// record without a date is not excluded by the range.
pub open spec fn spec_book_matches(b: Book, p: SearchPredicate) -> bool {
    &&& spec_contains(b.title@, p.title@)
    &&& spec_contains(b.author@, p.author@)
    &&& spec_contains(b.genre@, p.genre@)
    &&& spec_contains(b.status@, p.status@)
    &&& (p.min_rating is Some ==> b.rating >= p.min_rating->0)
    &&& (b.start_date is Some ==> date_le(p.start_from, b.start_date->0))
    &&& (b.end_date is Some ==> date_le(b.end_date->0, p.end_until))
}

/// Whether the record `b` matches the predicate `p`.
pub fn book_matches(b: &Book, p: &SearchPredicate) -> (r: bool)
    ensures
        r == spec_book_matches(*b, *p),
{
    if !str_contains(b.title.as_str(), p.title.as_str()) {
        return false;
    }
    if !str_contains(b.author.as_str(), p.author.as_str()) {
        return false;
    }
    if !str_contains(b.genre.as_str(), p.genre.as_str()) {
        return false;
    }
    if !str_contains(b.status.as_str(), p.status.as_str()) {
        return false;
    }
    match p.min_rating {
        Some(m) => {
            if b.rating < m {
                return false;
            }
        },
        None => {},
    }
    match b.start_date {
        Some(d) => {
            if !p.start_from.le(&d) {
                return false;
            }
        },
        None => {},
    }
    match b.end_date {
        Some(d) => {
            if !d.le(&p.end_until) {
                return false;
            }
        },
        None => {},
    }
    true
}

/// The records of `items` that match `p`, in their original order.
pub fn search_books(items: &Vec<Book>, p: &SearchPredicate) -> (r: Vec<Book>)
    ensures
        r@ == items@.filter(|b: Book| spec_book_matches(b, *p)),
{
    let ghost pred = |b: Book| spec_book_matches(b, *p);
    let mut r: Vec<Book> = Vec::new();
    proof {
        reveal(Seq::filter);
        assert(items@.take(0).filter(pred) =~= Seq::<Book>::empty());
    }
    let mut i: usize = 0;
    while i < items.len()
        invariant
            i <= items@.len(),
            pred == (|b: Book| spec_book_matches(b, *p)),
            r@ == items@.take(i as int).filter(pred),
        decreases items@.len() - i,
    {
        let matched = book_matches(&items[i], p);
        proof {
            reveal(Seq::filter);
            assert(items@.take(i + 1).drop_last() =~= items@.take(i as int));
            assert(items@.take(i + 1).last() == items@[i as int]);
        }
        if matched {
            r.push(items[i].clone());
        }
        i = i + 1;
    }
    proof {
        assert(items@.take(items@.len() as int) =~= items@);
    }
    r
}

/// A predicate with every text pattern empty, no rating bound and the
/// sentinel date range: what a fully blank search form stands for.
pub open spec fn spec_blank_predicate(p: SearchPredicate) -> bool {
    &&& p.title@ == Seq::<char>::empty()
    &&& p.author@ == Seq::<char>::empty()
    &&& p.genre@ == Seq::<char>::empty()
    &&& p.status@ == Seq::<char>::empty()
    &&& p.min_rating is None
    &&& p.start_from == spec_far_past()
    &&& p.end_until == spec_far_future()
}

/// A blank search form matches every record: a record whose dates,
/// when present, lie inside the sentinel range (as every stored date
/// between the sentinels does) satisfies the blank predicate.
pub proof fn lemma_blank_predicate_matches_all(b: Book, p: SearchPredicate)
    requires
        spec_blank_predicate(p),
        book_dates_valid(b),
        b.start_date is Some ==> date_le(spec_far_past(), b.start_date->0),
        b.end_date is Some ==> date_le(b.end_date->0, spec_far_future()),
    ensures
        spec_book_matches(b, p),
{
    assert(b.title@.subrange(0, 0) =~= p.title@);
    assert(b.author@.subrange(0, 0) =~= p.author@);
    assert(b.genre@.subrange(0, 0) =~= p.genre@);
    assert(b.status@.subrange(0, 0) =~= p.status@);
    assert(contains_at(b.title@, p.title@, 0));
    assert(contains_at(b.author@, p.author@, 0));
    assert(contains_at(b.genre@, p.genre@, 0));
    assert(contains_at(b.status@, p.status@, 0));
}

} // verus!
