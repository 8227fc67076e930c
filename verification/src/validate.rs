//! Per-field validation: parsing the rating field with its clamp and
//! non-fatal default, and parsing the date fields with their
//! context-dependent fallbacks.

use vstd::prelude::*;
use crate::chars::chars_of;
use crate::date::{Date, date_valid, far_future, far_past, parse_date_chars, spec_far_future,
    spec_far_past, spec_parse_date, today};
use crate::num::{parse_i32_chars, spec_parse_i32};

verus! {

/// Upper bound of a rating; parsed values above it are clamped down.
pub const RATING_MAX: i32 = 10;

/// Outcome of validating the rating field: whether the text parsed,
/// and the value a commit uses either way.
#[derive(Clone, Copy, Debug, PartialEq, Eq, Structural)]
pub struct RatingOutcome {
    pub valid: bool,
    pub value: i32,
}

/// Whether the rating text parses as an integer.
pub open spec fn spec_rating_valid(s: Seq<char>) -> bool {
    spec_parse_i32(s) is Some
}

/// The rating a commit uses for the given text: the parsed value,
/// clamped down to `RATING_MAX`; or `0` when the text does not parse,
/// since validation failures are non-fatal to a commit. No lower
/// bound is applied.
pub open spec fn spec_rating_value(s: Seq<char>) -> int {
    match spec_parse_i32(s) {
        Some(v) => if v > RATING_MAX as int {
            RATING_MAX as int
        } else {
            v
        },
        None => 0,
    }
}

/// Validate the rating field text given as characters.
pub fn validate_rating_chars(s: &Vec<char>) -> (r: RatingOutcome)
    ensures
        r.valid == spec_rating_valid(s@),
        r.value == spec_rating_value(s@),
{
    match parse_i32_chars(s) {
        Some(v) => RatingOutcome {
            valid: true,
            value: if v > RATING_MAX {
                RATING_MAX
            } else {
                v
            },
        },
        None => RatingOutcome { valid: false, value: 0 },
    }
}

/// Validate the rating field text.
pub fn validate_rating(s: &str) -> (r: RatingOutcome)
    ensures
        r.valid == spec_rating_valid(s@),
        r.value == spec_rating_value(s@),
{
    let v = chars_of(s);
    validate_rating_chars(&v)
}

/// The date the given text stands for: the parsed date when the text
/// follows the strict grammar, the fallback otherwise.
pub open spec fn spec_date_or(s: Seq<char>, fallback: Date) -> Date {
    match spec_parse_date(s) {
        Some(d) => d,
        None => fallback,
    }
}

/// Validate a date field against an explicit fallback, given as
/// characters.
pub fn validate_date_chars(s: &Vec<char>, fallback: &Date) -> (d: Date)
    requires
        date_valid(*fallback),
    ensures
        d == spec_date_or(s@, *fallback),
        date_valid(d),
{
    match parse_date_chars(s) {
        Some(d) => d,
        None => *fallback,
    }
}

/// Validate a date field against an explicit fallback.
pub fn validate_date_with_fallback(s: &str, fallback: &Date) -> (d: Date)
    requires
        date_valid(*fallback),
    ensures
        d == spec_date_or(s@, *fallback),
        date_valid(d),
{
    let v = chars_of(s);
    validate_date_chars(&v, fallback)
}

/// Validate a date field in the record creation/edit context, where
/// an absent or malformed date falls back to today's date.
pub fn validate_date_create(s: &str) -> (d: Date)
    ensures
        spec_parse_date(s@) is Some ==> d == spec_parse_date(s@)->0,
        date_valid(d),
{
    let fallback = today();
    validate_date_with_fallback(s, &fallback)
}

/// Validate a date field in the search context, where an absent or
/// malformed start bound falls back to the far-past sentinel and an
/// absent or malformed end bound to the far-future sentinel, so that
/// a blank field never excludes a record.
pub fn validate_date_search(s: &str, is_start: bool) -> (d: Date)
    ensures
        d == spec_date_or(
            s@,
            if is_start {
                spec_far_past()
            } else {
                spec_far_future()
            },
        ),
        date_valid(d),
{
    let fallback = if is_start {
        far_past()
    } else {
        far_future()
    };
    validate_date_with_fallback(s, &fallback)
}

} // verus!
