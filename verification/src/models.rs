//! The record types: a persisted book with its identity, and the
//! identity-less shape handed to the repository on create and update.

use vstd::prelude::*;
use crate::date::{Date, date_valid};

verus! {

/// A persisted record: immutable identity assigned by the repository,
/// plus the editable fields.
#[derive(Debug, PartialEq)]
pub struct Book {
    pub id: i32,
    pub title: String,
    pub author: String,
    pub genre: String,
    pub rating: i32,
    pub status: String,
    pub start_date: Option<Date>,
    pub end_date: Option<Date>,
}

/// A record without identity, as a commit produces it; the repository
/// assigns the identity on create.
#[derive(Debug, PartialEq)]
pub struct NewBook {
    pub title: String,
    pub author: String,
    pub genre: String,
    pub rating: i32,
    pub status: String,
    pub start_date: Option<Date>,
    pub end_date: Option<Date>,
}

/// Each date a record carries, when present, is a well-formed
/// calendar date.
pub open spec fn book_dates_valid(b: Book) -> bool {
    &&& (b.start_date is Some ==> date_valid(b.start_date->0))
    &&& (b.end_date is Some ==> date_valid(b.end_date->0))
}

/// Each date the shape carries, when present, is a well-formed
/// calendar date.
pub open spec fn new_book_dates_valid(nb: NewBook) -> bool {
    &&& (nb.start_date is Some ==> date_valid(nb.start_date->0))
    &&& (nb.end_date is Some ==> date_valid(nb.end_date->0))
}

impl Clone for Book {
    /// An exact copy of the record.
    fn clone(&self) -> (r: Book)
        ensures
            r == *self,
    {
        Book {
            id: self.id,
            title: self.title.clone(),
            author: self.author.clone(),
            genre: self.genre.clone(),
            rating: self.rating,
            status: self.status.clone(),
            start_date: self.start_date,
            end_date: self.end_date,
        }
    }
}

impl Clone for NewBook {
    /// An exact copy of the shape.
    fn clone(&self) -> (r: NewBook)
        ensures
            r == *self,
    {
        NewBook {
            title: self.title.clone(),
            author: self.author.clone(),
            genre: self.genre.clone(),
            rating: self.rating,
            status: self.status.clone(),
            start_date: self.start_date,
            end_date: self.end_date,
        }
    }
}

impl Book {
    /// The record the repository stores when it assigns identity `id`
    /// to the committed shape `nb`.
    pub fn from_new(id: i32, nb: NewBook) -> (b: Book)
        ensures
            b.id == id,
            b.title == nb.title,
            b.author == nb.author,
            b.genre == nb.genre,
            b.rating == nb.rating,
            b.status == nb.status,
            b.start_date == nb.start_date,
            b.end_date == nb.end_date,
    {
        Book {
            id,
            title: nb.title,
            author: nb.author,
            genre: nb.genre,
            rating: nb.rating,
            status: nb.status,
            start_date: nb.start_date,
            end_date: nb.end_date,
        }
    }
}

} // verus!
