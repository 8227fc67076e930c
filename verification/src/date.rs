//! Calendar dates as plain year, month and day numbers: validity,
//! ordering, the strict `YYYY-MM-DD` text form in both directions, the
//! sentinel bounds used by blank search fields, and today's date from
//! the system clock.

use vstd::prelude::*;
use crate::chars::{digit_char, digit_of, digit_to_char, digit_val, is_digit, is_digit_char,
    chars_of, string_from_chars};
use chrono::Datelike;

verus! {

/// A calendar date held as plain year, month and day numbers.
#[derive(Clone, Copy, Debug, PartialEq, Eq, Structural)]
pub struct Date {
    pub year: i32,
    pub month: u8,
    pub day: u8,
}

/// A leap year of the Gregorian calendar.
pub open spec fn spec_is_leap(y: int) -> bool {
    (y % 4 == 0 && y % 100 != 0) || y % 400 == 0
}

/// Number of days in the given month of the given year.
pub open spec fn spec_days_in_month(y: int, m: int) -> int {
    if m == 2 {
        if spec_is_leap(y) {
            29
        } else {
            28
        }
    } else if m == 4 || m == 6 || m == 9 || m == 11 {
        30
    } else {
        31
    }
}

/// A well-formed date: a year of at most four digits and a real
/// calendar day of its month.
pub open spec fn date_valid(d: Date) -> bool {
    &&& 0 <= d.year <= 9999
    &&& 1 <= d.month <= 12
    &&& 1 <= d.day <= spec_days_in_month(d.year as int, d.month as int)
}

/// `a` lies on or before `b` in calendar order.
pub open spec fn date_le(a: Date, b: Date) -> bool {
    ||| a.year < b.year
    ||| (a.year == b.year && a.month < b.month)
    ||| (a.year == b.year && a.month == b.month && a.day <= b.day)
}

/// Far-past sentinel: the start bound a blank search start field
/// falls back to, so that it never excludes a record.
pub open spec fn spec_far_past() -> Date {
    Date { year: 1500, month: 1, day: 1 }
}

/// Far-future sentinel: the end bound a blank search end field falls
/// back to, so that it never excludes a record.
pub open spec fn spec_far_future() -> Date {
    Date { year: 4050, month: 1, day: 1 }
}

/// Whether `y` is a leap year.
pub fn is_leap(y: i32) -> (b: bool)
    ensures
        b == spec_is_leap(y as int),
{
    (y % 4 == 0 && y % 100 != 0) || y % 400 == 0
}

/// Number of days in month `m` of year `y`.
pub fn days_in_month(y: i32, m: u8) -> (n: u8)
    requires
        1 <= m <= 12,
    ensures
        n == spec_days_in_month(y as int, m as int),
{
    if m == 2 {
        if is_leap(y) {
            29
        } else {
            28
        }
    } else if m == 4 || m == 6 || m == 9 || m == 11 {
        30
    } else {
        31
    }
}

impl Date {
    /// Whether this date is a well-formed calendar date.
    pub fn valid(&self) -> (b: bool)
        ensures
            b == date_valid(*self),
    {
        0 <= self.year && self.year <= 9999 && 1 <= self.month && self.month <= 12 && 1 <= self.day
            && self.day <= days_in_month(self.year, self.month)
    }

    /// Whether this date lies on or before `other`.
    pub fn le(&self, other: &Date) -> (b: bool)
        ensures
            b == date_le(*self, *other),
    {
        self.year < other.year || (self.year == other.year && self.month < other.month) || (
        self.year == other.year && self.month == other.month && self.day <= other.day)
    }
}

/// The far-past sentinel date.
pub fn far_past() -> (d: Date)
    ensures
        d == spec_far_past(),
        date_valid(d),
{
    Date { year: 1500, month: 1, day: 1 }
}

/// The far-future sentinel date.
pub fn far_future() -> (d: Date)
    ensures
        d == spec_far_future(),
        date_valid(d),
{
    Date { year: 4050, month: 1, day: 1 }
}

/// The date that `s` denotes under the strict `YYYY-MM-DD` grammar:
/// four year digits, two month digits and two day digits separated by
/// hyphens, forming a well-formed calendar date; anything else
/// denotes no date.
pub open spec fn spec_parse_date(s: Seq<char>) -> Option<Date> {
    if s.len() == 10 && is_digit_char(s[0]) && is_digit_char(s[1]) && is_digit_char(s[2])
        && is_digit_char(s[3]) && s[4] == '-' && is_digit_char(s[5]) && is_digit_char(s[6])
        && s[7] == '-' && is_digit_char(s[8]) && is_digit_char(s[9]) {
        let y = digit_val(s[0]) * 1000 + digit_val(s[1]) * 100 + digit_val(s[2]) * 10 + digit_val(
            s[3],
        );
        let m = digit_val(s[5]) * 10 + digit_val(s[6]);
        let d = digit_val(s[8]) * 10 + digit_val(s[9]);
        let date = Date { year: y as i32, month: m as u8, day: d as u8 };
        if date_valid(date) {
            Some(date)
        } else {
            None
        }
    } else {
        None
    }
}

/// Parse a date from characters under the strict `YYYY-MM-DD` grammar.
pub fn parse_date_chars(s: &Vec<char>) -> (r: Option<Date>)
    ensures
        r == spec_parse_date(s@),
        r is Some ==> date_valid(r->0),
{
    if s.len() != 10 {
        return None;
    }
    if !(is_digit(s[0]) && is_digit(s[1]) && is_digit(s[2]) && is_digit(s[3]) && s[4] == '-'
        && is_digit(s[5]) && is_digit(s[6]) && s[7] == '-' && is_digit(s[8]) && is_digit(s[9])) {
        return None;
    }
    let y: u32 = digit_of(s[0]) as u32 * 1000 + digit_of(s[1]) as u32 * 100 + digit_of(s[2]) as u32
        * 10 + digit_of(s[3]) as u32;
    let m: u8 = digit_of(s[5]) * 10 + digit_of(s[6]);
    let d: u8 = digit_of(s[8]) * 10 + digit_of(s[9]);
    let date = Date { year: y as i32, month: m, day: d };
    if date.valid() {
        Some(date)
    } else {
        None
    }
}

/// Parse a date from a string under the strict `YYYY-MM-DD` grammar.
pub fn parse_date(s: &str) -> (r: Option<Date>)
    ensures
        r == spec_parse_date(s@),
        r is Some ==> date_valid(r->0),
{
    let v = chars_of(s);
    parse_date_chars(&v)
}

/// The `YYYY-MM-DD` text form of a date, zero-padded in each part.
pub open spec fn spec_date_str(d: Date) -> Seq<char> {
    let y = d.year as int;
    let m = d.month as int;
    let dd = d.day as int;
    seq![
        digit_char(y / 1000 % 10),
        digit_char(y / 100 % 10),
        digit_char(y / 10 % 10),
        digit_char(y % 10),
        '-',
        digit_char(m / 10 % 10),
        digit_char(m % 10),
        '-',
        digit_char(dd / 10 % 10),
        digit_char(dd % 10),
    ]
}

/// The `YYYY-MM-DD` rendering of `d` as characters.
pub fn date_to_chars(d: &Date) -> (v: Vec<char>)
    requires
        date_valid(*d),
    ensures
        v@ == spec_date_str(*d),
{
    let y = d.year as u32;
    let m = d.month;
    let dd = d.day;
    let mut v: Vec<char> = Vec::new();
    v.push(digit_to_char((y / 1000 % 10) as u8));
    v.push(digit_to_char((y / 100 % 10) as u8));
    v.push(digit_to_char((y / 10 % 10) as u8));
    v.push(digit_to_char((y % 10) as u8));
    v.push('-');
    v.push(digit_to_char(m / 10 % 10));
    v.push(digit_to_char(m % 10));
    v.push('-');
    v.push(digit_to_char(dd / 10 % 10));
    v.push(digit_to_char(dd % 10));
    proof {
        assert(v@ =~= spec_date_str(*d));
    }
    v
}

/// The `YYYY-MM-DD` rendering of `d` as a string.
pub fn date_to_string(d: &Date) -> (s: String)
    requires
        date_valid(*d),
    ensures
        s@ == spec_date_str(*d),
{
    let v = date_to_chars(d);
    string_from_chars(&v)
}

/// Every character of a date's text form is a digit or the hyphen.
pub proof fn lemma_date_str_chars(d: Date)
    ensures
        forall|i: int|
            0 <= i < spec_date_str(d).len() ==> is_digit_char(#[trigger] spec_date_str(d)[i])
                || spec_date_str(d)[i] == '-',
{
    assert forall|v: int| 0 <= v < 10 implies is_digit_char(#[trigger] digit_char(v)) by {
        assert(digit_char(v) as u32 == v + 48);
    }
}

/// Rendering a well-formed date and parsing the text back yields the
/// same date: Edit pre-population followed by an untouched commit
/// preserves a record's dates.
pub proof fn lemma_date_text_round_trip(d: Date)
    requires
        date_valid(d),
    ensures
        spec_parse_date(spec_date_str(d)) == Some(d),
{
    let s = spec_date_str(d);
    let y = d.year as int;
    let m = d.month as int;
    let dd = d.day as int;
    assert(0 <= y / 1000 % 10 < 10 && 0 <= y / 100 % 10 < 10 && 0 <= y / 10 % 10 < 10 && 0 <= y
        % 10 < 10 && 0 <= m / 10 % 10 < 10 && 0 <= m % 10 < 10 && 0 <= dd / 10 % 10 < 10 && 0 <= dd
        % 10 < 10);
    assert forall|v: int| 0 <= v < 10 implies is_digit_char(#[trigger] digit_char(v)) && digit_val(
        digit_char(v),
    ) == v by {
        assert(digit_char(v) as u32 == v + 48);
    }
    assert(y == (y / 1000 % 10) * 1000 + (y / 100 % 10) * 100 + (y / 10 % 10) * 10 + y % 10)
        by (nonlinear_arith)
        requires
            0 <= y <= 9999,
    ;
    assert(m == (m / 10 % 10) * 10 + m % 10) by (nonlinear_arith)
        requires
            0 <= m <= 12,
    ;
    assert(dd == (dd / 10 % 10) * 10 + dd % 10) by (nonlinear_arith)
        requires
            0 <= dd <= 31,
    ;
}

/// Relies on chrono::Local::now, DateTime::date_naive and chrono's
/// Datelike accessors: the year, month and day numbers of the current
/// civil date in the local time zone. The result depends on the
/// clock, so nothing is claimed of it; `date_from_clock_parts`
/// decides what the library adopts for every possible value. Note
/// that chrono's `now` panics when the system clock reads before the
/// Unix epoch — an environmental state no precondition of this
/// library can exclude.
#[verifier::external_body]
fn current_date_parts() -> (r: (i32, u32, u32)) {
    let d = chrono::Local::now().date_naive();
    (d.year(), d.month(), d.day())
}

/// The clock parts form a date this library can hold: a year of at
/// most four digits and a real calendar day of its month.
pub open spec fn clock_parts_ok(y: int, m: int, dd: int) -> bool {
    &&& 0 <= y <= 9999
    &&& 1 <= m <= 12
    &&& 1 <= dd <= spec_days_in_month(y, m)
}

/// The date the library adopts for the given clock parts: the parts
/// themselves when they form a date the library can hold, and a
/// fixed well-formed date otherwise.
pub fn date_from_clock_parts(y: i32, m: u32, dd: u32) -> (d: Date)
    ensures
        date_valid(d),
        clock_parts_ok(y as int, m as int, dd as int) ==> d == (Date {
            year: y,
            month: m as u8,
            day: dd as u8,
        }),
        !clock_parts_ok(y as int, m as int, dd as int) ==> d == (Date {
            year: 2000,
            month: 1,
            day: 1,
        }),
{
    if 0 <= y && y <= 9999 && 1 <= m && m <= 12 && 1 <= dd && dd <= days_in_month(y, m as u8)
        as u32 {
        Date { year: y, month: m as u8, day: dd as u8 }
    } else {
        Date { year: 2000, month: 1, day: 1 }
    }
}

/// Today's calendar date as reported by the system clock, adopted
/// through `date_from_clock_parts`: the clock's own date when the
/// library can hold it, a fixed well-formed date otherwise.
pub fn today() -> (d: Date)
    ensures
        date_valid(d),
{
    let (y, m, dd) = current_date_parts();
    date_from_clock_parts(y, m, dd)
}

} // verus!
