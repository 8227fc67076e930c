//! The application context: the record list with its selection
//! tracker, the at-most-one-modal slots, and the flags the render
//! layer reads. The selection invariant — an index inside the list
//! when one is set, none on an empty list — is maintained by every
//! operation here.

use vstd::prelude::*;
use crate::focus::{lemma_advance_in_range, spec_advance, advance};
use crate::form::{BookState, SearchState, book_state_wf, search_state_wf};
use crate::models::Book;

verus! {

/// The single application context handed into each handler.
#[derive(Debug)]
pub struct App {
    pub running: bool,
    pub add_popup: bool,
    pub help_popup: bool,
    pub search_popup: bool,
    pub search_active: bool,
    pub selected: Option<usize>,
    pub book_edit_state: Option<BookState>,
    pub search_field_state: Option<SearchState>,
    pub items: Vec<Book>,
}

/// Well-formed application state: the selection lies inside the list
/// (and an empty list has none), each popup flag agrees with its
/// modal slot, at most one modal is open, and any open modal's form
/// is well-formed.
pub open spec fn app_wf(a: App) -> bool {
    &&& (a.items@.len() == 0 ==> a.selected is None)
    &&& (a.selected is Some ==> a.selected->0 < a.items@.len())
    &&& (a.add_popup <==> a.book_edit_state is Some)
    &&& (a.search_popup <==> a.search_field_state is Some)
    &&& !(a.add_popup && a.search_popup)
    &&& (a.book_edit_state is Some ==> book_state_wf(a.book_edit_state->0))
    &&& (a.search_field_state is Some ==> search_state_wf(a.search_field_state->0))
}

/// Where the selection moves on a next/previous step over a list of
/// `len` records: one slot around the cycle from the current index,
/// to the first record when nothing was selected, and nowhere on an
/// empty list.
pub open spec fn stepped_selection(sel: Option<usize>, len: nat, forward: bool) -> Option<usize> {
    if len == 0 {
        sel
    } else {
        match sel {
            Some(i) => Some(spec_advance(i as int, len as int, forward) as usize),
            None => Some(0usize),
        }
    }
}

/// Where the selection lands when the whole list is replaced by one
/// of `len` records: clamped into the new list, gone if the new list
/// is empty, still absent if it was absent.
pub open spec fn clamped_selection(sel: Option<usize>, len: nat) -> Option<usize> {
    if len == 0 {
        None
    } else {
        match sel {
            Some(i) => if i < len {
                Some(i)
            } else {
                Some((len - 1) as usize)
            },
            None => None,
        }
    }
}

/// Where the selection lands after removing the record at index `i`
/// of a list previously `len` long: gone if the list emptied, else
/// one step back, stopping at the first record.
pub open spec fn removed_selection(i: int, len: nat) -> Option<usize> {
    if len <= 1 {
        None
    } else if i > 0 {
        Some((i - 1) as usize)
    } else {
        Some(0usize)
    }
}

impl Default for App {
    /// A running application with an empty list, no selection and no
    /// modal open.
    fn default() -> (a: App)
        ensures
            app_wf(a),
            a.running == true,
            a.add_popup == false,
            a.help_popup == false,
            a.search_popup == false,
            a.search_active == false,
            a.selected is None,
            a.book_edit_state is None,
            a.search_field_state is None,
            a.items@ == Seq::<Book>::empty(),
    {
        App {
            running: true,
            add_popup: false,
            help_popup: false,
            search_popup: false,
            search_active: false,
            selected: None,
            book_edit_state: None,
            search_field_state: None,
            items: Vec::new(),
        }
    }
}

impl App {
    /// A fresh application context.
    pub fn new() -> (a: App)
        ensures
            app_wf(a),
            a.running == true,
            a.add_popup == false,
            a.help_popup == false,
            a.search_popup == false,
            a.search_active == false,
            a.selected is None,
            a.book_edit_state is None,
            a.search_field_state is None,
            a.items@ == Seq::<Book>::empty(),
    {
        App::default()
    }

    /// A timer tick; the core has no time-dependent state.
    pub fn tick(&self) {
    }

    /// Stop the application's event loop.
    pub fn quit(&mut self)
        ensures
            *final(self) == (App { running: false, ..*old(self) }),
    {
        self.running = false;
    }

    /// Move the selection to the next record, wrapping to the first
    /// one past the end; an empty list stays unselected.
    pub fn next(&mut self)
        requires
            app_wf(*old(self)),
        ensures
            app_wf(*final(self)),
            *final(self) == (App { selected: final(self).selected, ..*old(self) }),
            final(self).selected == stepped_selection(
                old(self).selected,
                old(self).items@.len(),
                true,
            ),
    {
        self.step_selection(true);
    }

    /// Move the selection to the previous record, wrapping to the
    /// last one before the start; an empty list stays unselected.
    pub fn previous(&mut self)
        requires
            app_wf(*old(self)),
        ensures
            app_wf(*final(self)),
            *final(self) == (App { selected: final(self).selected, ..*old(self) }),
            final(self).selected == stepped_selection(
                old(self).selected,
                old(self).items@.len(),
                false,
            ),
    {
        self.step_selection(false);
    }

    /// One selection step in either direction.
    fn step_selection(&mut self, forward: bool)
        requires
            app_wf(*old(self)),
        ensures
            app_wf(*final(self)),
            *final(self) == (App { selected: final(self).selected, ..*old(self) }),
            final(self).selected == stepped_selection(
                old(self).selected,
                old(self).items@.len(),
                forward,
            ),
    {
        if self.items.len() == 0 {
            return ;
        }
        let len = self.items.len();
        let next = match self.selected {
            Some(i) => {
                proof {
                    lemma_advance_in_range(i as int, len as int, forward);
                }
                advance(i, len, forward)
            },
            None => 0,
        };
        self.selected = Some(next);
    }

    /// Replace the record list (a new search result set, or the full
    /// list after clearing a search) and re-clamp the selection into
    /// it.
    pub fn set_items(&mut self, items: Vec<Book>)
        requires
            app_wf(*old(self)),
        ensures
            app_wf(*final(self)),
            *final(self) == (App {
                selected: final(self).selected,
                items: final(self).items,
                ..*old(self)
            }),
            final(self).items == items,
            final(self).selected == clamped_selection(old(self).selected, items@.len()),
    {
        let len = items.len();
        self.items = items;
        if len == 0 {
            self.selected = None;
        } else {
            match self.selected {
                Some(i) => {
                    if i >= len {
                        self.selected = Some(len - 1);
                    }
                },
                None => {},
            }
        }
    }

    /// Remove the currently selected record from the list, returning
    /// its identity for the repository, and repair the selection: one
    /// step back, stopping at the first record, gone if the list
    /// emptied. With no selection nothing changes.
    pub fn remove_selected(&mut self) -> (removed: Option<i32>)
        requires
            app_wf(*old(self)),
        ensures
            app_wf(*final(self)),
            old(self).selected is None ==> *final(self) == *old(self) && removed is None,
            old(self).selected matches Some(i) ==> {
                &&& removed == Some(old(self).items@[i as int].id)
                &&& final(self).items@ == old(self).items@.remove(i as int)
                &&& final(self).selected == removed_selection(
                    i as int,
                    old(self).items@.len(),
                )
                &&& *final(self) == (App {
                    selected: final(self).selected,
                    items: final(self).items,
                    ..*old(self)
                })
            },
    {
        match self.selected {
            Some(i) => {
                let id = self.items[i].id;
                self.items.remove(i);
                if self.items.len() == 0 {
                    self.selected = None;
                } else if i > 0 {
                    self.selected = Some(i - 1);
                } else {
                    self.selected = Some(0);
                }
                Some(id)
            },
            None => None,
        }
    }
}

} // verus!
