//! Field validation: rating parsing with clamp and non-fatal
//! default, date parsing with its context-dependent fallbacks, and
//! the numeric and date text renderings.

use booky::date::{date_from_clock_parts, date_to_string, far_future, far_past, parse_date, today,
    Date};
use booky::num::{i32_to_string, parse_i32};
use booky::validate::{validate_date_create, validate_date_search, validate_date_with_fallback,
    validate_rating};

#[test]
fn rating_plain_number_is_valid() {
    let r = validate_rating("7");
    assert!(r.valid);
    assert_eq!(r.value, 7);
}

#[test]
fn rating_garbage_defaults_to_zero() {
    let r = validate_rating("abc");
    assert!(!r.valid);
    assert_eq!(r.value, 0);
}

#[test]
fn rating_above_bound_is_clamped() {
    let r = validate_rating("15");
    assert!(r.valid);
    assert_eq!(r.value, 10);
}

#[test]
fn rating_has_no_lower_clamp() {
    let r = validate_rating("-3");
    assert!(r.valid);
    assert_eq!(r.value, -3);
}

#[test]
fn rating_empty_is_invalid() {
    let r = validate_rating("");
    assert!(!r.valid);
    assert_eq!(r.value, 0);
}

#[test]
fn parse_i32_handles_signs_and_range() {
    assert_eq!(parse_i32("+7"), Some(7));
    assert_eq!(parse_i32("-0"), Some(0));
    assert_eq!(parse_i32("007"), Some(7));
    assert_eq!(parse_i32("2147483647"), Some(2147483647));
    assert_eq!(parse_i32("2147483648"), None);
    assert_eq!(parse_i32("-2147483648"), Some(i32::MIN));
    assert_eq!(parse_i32("-2147483649"), None);
    assert_eq!(parse_i32("12a"), None);
    assert_eq!(parse_i32("+"), None);
    assert_eq!(parse_i32(" 7"), None);
}

#[test]
fn date_strict_grammar_parses() {
    assert_eq!(parse_date("2024-01-05"), Some(Date { year: 2024, month: 1, day: 5 }));
    assert_eq!(parse_date("2024-02-29"), Some(Date { year: 2024, month: 2, day: 29 }));
}

#[test]
fn date_rejects_malformed_text() {
    assert_eq!(parse_date(""), None);
    assert_eq!(parse_date("2024-1-5"), None);
    assert_eq!(parse_date("2024/01/05"), None);
    assert_eq!(parse_date("2023-02-29"), None);
    assert_eq!(parse_date("2024-13-01"), None);
    assert_eq!(parse_date("2024-04-31"), None);
    assert_eq!(parse_date("2024-01-050"), None);
}

#[test]
fn creation_context_falls_back_to_today() {
    let d = validate_date_create("");
    assert_eq!(d, today());
    let parsed = validate_date_create("2024-01-05");
    assert_eq!(parsed, Date { year: 2024, month: 1, day: 5 });
}

#[test]
fn explicit_fallback_is_used_for_blank_text() {
    let fb = Date { year: 1999, month: 12, day: 31 };
    assert_eq!(validate_date_with_fallback("", &fb), fb);
    assert_eq!(validate_date_with_fallback("not a date", &fb), fb);
    assert_eq!(
        validate_date_with_fallback("2020-06-15", &fb),
        Date { year: 2020, month: 6, day: 15 }
    );
}

#[test]
fn search_context_blank_start_is_far_past() {
    let d = validate_date_search("", true);
    assert_eq!(d, far_past());
    assert_eq!(d, Date { year: 1500, month: 1, day: 1 });
}

#[test]
fn search_context_blank_end_is_far_future() {
    let d = validate_date_search("", false);
    assert_eq!(d, far_future());
    assert_eq!(d, Date { year: 4050, month: 1, day: 1 });
}

#[test]
fn holdable_clock_parts_pass_through() {
    assert_eq!(
        date_from_clock_parts(2026, 10, 11),
        Date { year: 2026, month: 10, day: 11 }
    );
    assert_eq!(
        date_from_clock_parts(2024, 2, 29),
        Date { year: 2024, month: 2, day: 29 }
    );
}

#[test]
fn unholdable_clock_parts_fall_back() {
    let fallback = Date { year: 2000, month: 1, day: 1 };
    assert_eq!(date_from_clock_parts(-5, 10, 11), fallback);
    assert_eq!(date_from_clock_parts(10000, 1, 1), fallback);
    assert_eq!(date_from_clock_parts(2023, 2, 29), fallback);
    assert_eq!(date_from_clock_parts(2023, 13, 1), fallback);
    assert_eq!(date_from_clock_parts(2023, 0, 1), fallback);
    assert_eq!(date_from_clock_parts(2023, 6, 0), fallback);
}

#[test]
fn numbers_render_back_to_decimal_text() {
    assert_eq!(i32_to_string(0), "0");
    assert_eq!(i32_to_string(9), "9");
    assert_eq!(i32_to_string(10), "10");
    assert_eq!(i32_to_string(-45), "-45");
    assert_eq!(i32_to_string(i32::MIN), "-2147483648");
}

#[test]
fn dates_render_zero_padded() {
    assert_eq!(date_to_string(&Date { year: 500, month: 2, day: 3 }), "0500-02-03");
    assert_eq!(date_to_string(&Date { year: 2024, month: 12, day: 31 }), "2024-12-31");
}

#[test]
fn date_text_round_trips_through_parsing() {
    let d = Date { year: 1987, month: 6, day: 5 };
    assert_eq!(parse_date(&date_to_string(&d)), Some(d));
}
