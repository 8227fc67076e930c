//! Focus cycling over the ordered, fixed set of focusable slots of a
//! modal form: its text fields followed by the Confirm and Cancel
//! buttons. Advancing wraps around in both directions and never skips
//! a slot.

use vstd::prelude::*;
use vstd::arithmetic::div_mod::{lemma_add_mod_noop, lemma_mod_multiples_vanish, lemma_small_mod};

verus! {

/// Number of focusable slots in the add/edit form: seven text fields
/// plus the Confirm and Cancel buttons.
pub const EDIT_WINDOW_FOCUS: usize = 9;

/// Number of focusable slots in the search form. The search form
/// exposes the same per-field shape as the add/edit form.
pub const SEARCH_WINDOW_FOCUS: usize = 9;

/// The slot reached from `current` in a cycle of `count` slots:
/// the next slot when `forward`, the previous one otherwise, wrapping
/// around at both ends.
pub open spec fn spec_advance(current: int, count: int, forward: bool) -> int {
    if forward {
        (current + 1) % count
    } else {
        (current + count - 1) % count
    }
}

/// The slot reached after advancing forward `n` times from `current`.
pub open spec fn spec_advance_iter(current: int, count: int, n: nat) -> int
    decreases n,
{
    if n == 0 {
        current
    } else {
        spec_advance(spec_advance_iter(current, count, (n - 1) as nat), count, true)
    }
}

/// Advance a focus index one step through a cycle of `count` slots.
/// Fails to apply only for `count == 0`, a configuration error that a
/// fixed non-empty slot set never produces.
pub fn advance(current: usize, count: usize, forward: bool) -> (next: usize)
    requires
        0 < count,
        current < count,
    ensures
        next == spec_advance(current as int, count as int, forward),
        next < count,
{
    proof {
        lemma_advance_in_range(current as int, count as int, forward);
    }
    if forward {
        if current + 1 == count {
            0
        } else {
            current + 1
        }
    } else {
        if current == 0 {
            count - 1
        } else {
            current - 1
        }
    }
}

/// Advancing stays inside the slot set, and takes the closed form of
/// one step of modular arithmetic.
pub proof fn lemma_advance_in_range(current: int, count: int, forward: bool)
    requires
        0 < count,
        0 <= current < count,
    ensures
        0 <= spec_advance(current, count, forward) < count,
        forward ==> spec_advance(current, count, forward) == if current + 1 == count {
            0int
        } else {
            current + 1
        },
        !forward ==> spec_advance(current, count, forward) == if current == 0 {
            count - 1
        } else {
            current - 1
        },
{
    if forward {
        if current + 1 == count {
            lemma_mod_multiples_vanish(1, 0, count);
            lemma_small_mod(0, count as nat);
        } else {
            lemma_small_mod((current + 1) as nat, count as nat);
        }
    } else {
        if current == 0 {
            lemma_small_mod((count - 1) as nat, count as nat);
        } else {
            lemma_mod_multiples_vanish(1, current - 1, count);
            lemma_small_mod((current - 1) as nat, count as nat);
        }
    }
}

/// One step forward followed by one step backward returns to the
/// starting slot: the cycle is reversible.
pub proof fn lemma_advance_reversible(current: int, count: int)
    requires
        0 < count,
        0 <= current < count,
    ensures
        spec_advance(spec_advance(current, count, true), count, false) == current,
{
    lemma_advance_in_range(current, count, true);
    lemma_advance_in_range(spec_advance(current, count, true), count, false);
}

/// Advancing forward `n` times lands on `(current + n) % count`.
pub proof fn lemma_advance_iter_closed_form(current: int, count: int, n: nat)
    requires
        0 < count,
        0 <= current < count,
    ensures
        spec_advance_iter(current, count, n) == (current + n) % count,
    decreases n,
{
    if n == 0 {
        lemma_small_mod(current as nat, count as nat);
    } else {
        lemma_advance_iter_closed_form(current, count, (n - 1) as nat);
        let prev = (current + n - 1) % count;
        if count == 1 {
            lemma_small_mod(0, 1);
        } else {
            lemma_small_mod(1, count as nat);
        }
        lemma_add_mod_noop(current + n - 1, 1, count);
    }
}

/// Advancing forward exactly `count` times returns to the starting
/// slot: the cycle visits every slot once and comes back.
pub proof fn lemma_advance_full_cycle(current: int, count: int)
    requires
        0 < count,
        0 <= current < count,
    ensures
        spec_advance_iter(current, count, count as nat) == current,
{
    lemma_advance_iter_closed_form(current, count, count as nat);
    lemma_mod_multiples_vanish(1, current, count);
    lemma_small_mod(current as nat, count as nat);
}

/// The focusable slots of the add/edit form, in cycling order.
#[derive(Clone, Copy, Debug, PartialEq, Eq, Structural)]
pub enum BookEditFocus {
    Title,
    Author,
    Genre,
    Rating,
    Status,
    StartDate,
    EndDate,
    ConfirmBtn,
    CancelBtn,
}

/// The focusable slots of the search form, in cycling order.
#[derive(Clone, Copy, Debug, PartialEq, Eq, Structural)]
pub enum SearchFieldFocus {
    Title,
    Author,
    Genre,
    Rating,
    Status,
    StartDate,
    EndDate,
    ConfirmBtn,
    CancelBtn,
}

/// Position of an add/edit slot in the cycling order.
pub open spec fn add_focus_index(f: BookEditFocus) -> int {
    match f {
        BookEditFocus::Title => 0,
        BookEditFocus::Author => 1,
        BookEditFocus::Genre => 2,
        BookEditFocus::Rating => 3,
        BookEditFocus::Status => 4,
        BookEditFocus::StartDate => 5,
        BookEditFocus::EndDate => 6,
        BookEditFocus::ConfirmBtn => 7,
        BookEditFocus::CancelBtn => 8,
    }
}

/// Position of a search slot in the cycling order.
pub open spec fn search_focus_index(f: SearchFieldFocus) -> int {
    match f {
        SearchFieldFocus::Title => 0,
        SearchFieldFocus::Author => 1,
        SearchFieldFocus::Genre => 2,
        SearchFieldFocus::Rating => 3,
        SearchFieldFocus::Status => 4,
        SearchFieldFocus::StartDate => 5,
        SearchFieldFocus::EndDate => 6,
        SearchFieldFocus::ConfirmBtn => 7,
        SearchFieldFocus::CancelBtn => 8,
    }
}

impl BookEditFocus {
    /// Position of this slot in the cycling order.
    pub fn int_value(self) -> (i: usize)
        ensures
            i == add_focus_index(self),
            i < EDIT_WINDOW_FOCUS,
    {
        match self {
            BookEditFocus::Title => 0,
            BookEditFocus::Author => 1,
            BookEditFocus::Genre => 2,
            BookEditFocus::Rating => 3,
            BookEditFocus::Status => 4,
            BookEditFocus::StartDate => 5,
            BookEditFocus::EndDate => 6,
            BookEditFocus::ConfirmBtn => 7,
            BookEditFocus::CancelBtn => 8,
        }
    }

    /// The slot at the given position of the cycling order.
    pub fn from_int(i: usize) -> (f: BookEditFocus)
        requires
            i < EDIT_WINDOW_FOCUS,
        ensures
            add_focus_index(f) == i,
    {
        if i == 0 {
            BookEditFocus::Title
        } else if i == 1 {
            BookEditFocus::Author
        } else if i == 2 {
            BookEditFocus::Genre
        } else if i == 3 {
            BookEditFocus::Rating
        } else if i == 4 {
            BookEditFocus::Status
        } else if i == 5 {
            BookEditFocus::StartDate
        } else if i == 6 {
            BookEditFocus::EndDate
        } else if i == 7 {
            BookEditFocus::ConfirmBtn
        } else {
            BookEditFocus::CancelBtn
        }
    }
}

impl SearchFieldFocus {
    /// Position of this slot in the cycling order.
    pub fn int_value(self) -> (i: usize)
        ensures
            i == search_focus_index(self),
            i < SEARCH_WINDOW_FOCUS,
    {
        match self {
            SearchFieldFocus::Title => 0,
            SearchFieldFocus::Author => 1,
            SearchFieldFocus::Genre => 2,
            SearchFieldFocus::Rating => 3,
            SearchFieldFocus::Status => 4,
            SearchFieldFocus::StartDate => 5,
            SearchFieldFocus::EndDate => 6,
            SearchFieldFocus::ConfirmBtn => 7,
            SearchFieldFocus::CancelBtn => 8,
        }
    }

    /// The slot at the given position of the cycling order.
    pub fn from_int(i: usize) -> (f: SearchFieldFocus)
        requires
            i < SEARCH_WINDOW_FOCUS,
        ensures
            search_focus_index(f) == i,
    {
        if i == 0 {
            SearchFieldFocus::Title
        } else if i == 1 {
            SearchFieldFocus::Author
        } else if i == 2 {
            SearchFieldFocus::Genre
        } else if i == 3 {
            SearchFieldFocus::Rating
        } else if i == 4 {
            SearchFieldFocus::Status
        } else if i == 5 {
            SearchFieldFocus::StartDate
        } else if i == 6 {
            SearchFieldFocus::EndDate
        } else if i == 7 {
            SearchFieldFocus::ConfirmBtn
        } else {
            SearchFieldFocus::CancelBtn
        }
    }
}

} // verus!
