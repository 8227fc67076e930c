//! Decimal integers in text: parsing a signed integer from a line of
//! input and rendering one back, with exact specifications.

use vstd::prelude::*;
use crate::chars::{digit_char, digit_of, digit_to_char, digit_val, is_digit, is_digit_char,
    string_from_chars};

verus! {

/// Every character of `s` is a decimal digit.
pub open spec fn all_digits(s: Seq<char>) -> bool {
    forall|i: int| 0 <= i < s.len() ==> is_digit_char(#[trigger] s[i])
}

/// The value of a run of decimal digits, most significant first.
pub open spec fn spec_digits_val(s: Seq<char>) -> int
    decreases s.len(),
{
    if s.len() == 0 {
        0
    } else {
        spec_digits_val(s.drop_last()) * 10 + digit_val(s.last())
    }
}

/// The integer that `s` denotes: an optional leading `+` or `-`
/// followed by one or more decimal digits and nothing else, with a
/// value that fits in an `i32`; anything else denotes no integer.
pub open spec fn spec_parse_i32(s: Seq<char>) -> Option<int> {
    let neg = s.len() > 0 && s[0] == '-';
    let digits = if s.len() > 0 && (s[0] == '-' || s[0] == '+') {
        s.drop_first()
    } else {
        s
    };
    if digits.len() > 0 && all_digits(digits) {
        let v = if neg {
            -spec_digits_val(digits)
        } else {
            spec_digits_val(digits)
        };
        if i32::MIN <= v <= i32::MAX {
            Some(v)
        } else {
            None
        }
    } else {
        None
    }
}

/// A digit run's value is never negative.
proof fn lemma_digits_val_nonneg(s: Seq<char>)
    requires
        all_digits(s),
    ensures
        spec_digits_val(s) >= 0,
    decreases s.len(),
{
    if s.len() > 0 {
        assert(all_digits(s.drop_last())) by {
            assert(forall|i: int|
                0 <= i < s.len() - 1 ==> is_digit_char(#[trigger] s.drop_last()[i]));
        }
        lemma_digits_val_nonneg(s.drop_last());
    }
}

/// Extending a digit run never shrinks its value.
proof fn lemma_digits_val_prefix(s: Seq<char>, k: int)
    requires
        all_digits(s),
        0 <= k <= s.len(),
    ensures
        spec_digits_val(s.subrange(0, k)) <= spec_digits_val(s),
    decreases s.len() - k,
{
    if k == s.len() {
        assert(s.subrange(0, k) =~= s);
    } else {
        lemma_digits_val_prefix(s, k + 1);
        let t = s.subrange(0, k + 1);
        assert(all_digits(t));
        assert(t.drop_last() =~= s.subrange(0, k));
        lemma_digits_val_nonneg(t.drop_last());
        assert(spec_digits_val(t) == spec_digits_val(t.drop_last()) * 10 + digit_val(t.last()));
        assert(spec_digits_val(t.drop_last()) * 10 >= spec_digits_val(t.drop_last()));
    }
}

/// Parse a signed decimal integer from the given characters.
#[verifier::loop_isolation(false)]
pub fn parse_i32_chars(s: &Vec<char>) -> (r: Option<i32>)
    ensures
        r is Some <==> spec_parse_i32(s@) is Some,
        r is Some ==> r->0 == spec_parse_i32(s@)->0,
{
    let ghost whole = s@;
    let mut i: usize = 0;
    let mut neg: bool = false;
    if s.len() > 0 && (s[0] == '-' || s[0] == '+') {
        neg = s[0] == '-';
        i = 1;
    }
    let ghost start = i as int;
    let ghost digits = whole.subrange(start, whole.len() as int);
    proof {
        if start == 1 {
            assert(digits =~= whole.drop_first());
        } else {
            assert(digits =~= whole);
        }
    }
    if i == s.len() {
        return None;
    }
    let mut acc: i64 = 0;
    while i < s.len()
        invariant
            start <= i <= s.len(),
            whole == s@,
            start == 0 || start == 1,
            digits == whole.subrange(start, whole.len() as int),
            digits.len() > 0,
            forall|j: int| start <= j < i ==> is_digit_char(#[trigger] whole[j]),
            acc == spec_digits_val(whole.subrange(start, i as int)),
            0 <= acc <= 0x8000_0000,
        decreases s.len() - i,
    {
        let c = s[i];
        if !is_digit(c) {
            proof {
                assert(digits[i - start] == whole[i as int]);
                assert(!all_digits(digits));
            }
            return None;
        }
        let d = digit_of(c);
        proof {
            let t = whole.subrange(start, i + 1);
            assert(t.drop_last() =~= whole.subrange(start, i as int));
            assert(t.last() == whole[i as int]);
        }
        acc = acc * 10 + d as i64;
        i = i + 1;
        if acc > 0x8000_0000 {
            proof {
                if all_digits(digits) {
                    let pre = whole.subrange(start, i as int);
                    assert(pre =~= digits.subrange(0, i - start));
                    lemma_digits_val_prefix(digits, i - start);
                    assert(spec_digits_val(digits) >= acc);
                }
            }
            return None;
        }
    }
    proof {
        assert(whole.subrange(start, i as int) =~= digits);
        assert(forall|j: int| 0 <= j < digits.len() ==> is_digit_char(#[trigger] digits[j]));
    }
    if neg {
        Some((-acc) as i32)
    } else {
        if acc == 0x8000_0000 {
            None
        } else {
            Some(acc as i32)
        }
    }
}

/// Parse a signed decimal integer from a string.
pub fn parse_i32(s: &str) -> (r: Option<i32>)
    ensures
        r is Some <==> spec_parse_i32(s@) is Some,
        r is Some ==> r->0 == spec_parse_i32(s@)->0,
{
    let v = crate::chars::chars_of(s);
    parse_i32_chars(&v)
}

/// The decimal digits of a non-negative integer, without leading
/// zeros (a single zero for 0).
pub open spec fn spec_nat_digits(n: int) -> Seq<char>
    recommends
        n >= 0,
    decreases n,
    when n >= 0
{
    if n < 10 {
        seq![digit_char(n)]
    } else {
        spec_nat_digits(n / 10).push(digit_char(n % 10))
    }
}

/// The decimal rendering of an integer: a minus sign for negative
/// values, then the digits of its magnitude.
pub open spec fn spec_i32_str(n: int) -> Seq<char> {
    if n < 0 {
        seq!['-'] + spec_nat_digits(-n)
    } else {
        spec_nat_digits(n)
    }
}

fn push_u32_digits(n: u32, out: &mut Vec<char>)
    ensures
        final(out)@ == old(out)@ + spec_nat_digits(n as int),
    decreases n,
{
    if n < 10 {
        out.push(digit_to_char(n as u8));
        proof {
            assert(out@ =~= old(out)@ + spec_nat_digits(n as int));
        }
    } else {
        push_u32_digits(n / 10, out);
        out.push(digit_to_char((n % 10) as u8));
        proof {
            assert(out@ =~= old(out)@ + spec_nat_digits(n as int));
        }
    }
}

/// The digits of a non-negative integer are all digits and denote
/// that integer.
proof fn lemma_nat_digits_val(n: int)
    requires
        n >= 0,
    ensures
        all_digits(spec_nat_digits(n)),
        spec_digits_val(spec_nat_digits(n)) == n,
        spec_nat_digits(n).len() >= 1,
    decreases n,
{
    if n < 10 {
        assert(digit_char(n) as u32 == n + 48);
        assert(spec_nat_digits(n) =~= seq![digit_char(n)]);
        assert(spec_nat_digits(n).drop_last() =~= Seq::<char>::empty());
        assert(spec_digits_val(Seq::<char>::empty()) == 0);
    } else {
        lemma_nat_digits_val(n / 10);
        let s = spec_nat_digits(n);
        let head = spec_nat_digits(n / 10);
        assert(s.drop_last() =~= head);
        assert(digit_char(n % 10) as u32 == n % 10 + 48);
        assert forall|i: int| 0 <= i < s.len() implies is_digit_char(#[trigger] s[i]) by {
            if i < head.len() {
                assert(s[i] == head[i]);
            }
        }
        assert(spec_digits_val(s) == (n / 10) * 10 + n % 10);
        vstd::arithmetic::div_mod::lemma_fundamental_div_mod(n, 10);
    }
}

/// Every character of an integer's decimal rendering is a digit or
/// the minus sign.
pub proof fn lemma_i32_str_chars(n: int)
    ensures
        forall|i: int|
            0 <= i < spec_i32_str(n).len() ==> is_digit_char(#[trigger] spec_i32_str(n)[i])
                || spec_i32_str(n)[i] == '-',
{
    let s = spec_i32_str(n);
    if n < 0 {
        lemma_nat_digits_val(-n);
        assert forall|i: int|
            0 <= i < s.len() implies is_digit_char(#[trigger] s[i]) || s[i] == '-' by {
            if i >= 1 {
                assert(s[i] == spec_nat_digits(-n)[i - 1]);
            }
        }
    } else {
        lemma_nat_digits_val(n);
    }
}

/// Rendering an integer and parsing the text back yields the same
/// integer: Edit pre-population followed by an untouched commit
/// preserves a record's rating (up to the validator's clamp).
pub proof fn lemma_i32_text_round_trip(n: i32)
    ensures
        spec_parse_i32(spec_i32_str(n as int)) == Some(n as int),
{
    let s = spec_i32_str(n as int);
    if n < 0 {
        lemma_nat_digits_val(-(n as int));
        assert(s[0] == '-');
        assert(s.drop_first() =~= spec_nat_digits(-(n as int)));
    } else {
        lemma_nat_digits_val(n as int);
        assert(is_digit_char(s[0]));
        assert(s[0] as u32 != 45 && s[0] as u32 != 43);
    }
}

/// The decimal rendering of `n` as characters.
pub fn i32_to_chars(n: i32) -> (v: Vec<char>)
    ensures
        v@ == spec_i32_str(n as int),
{
    let mut out: Vec<char> = Vec::new();
    if n < 0 {
        out.push('-');
        let mag: u32 = (-(n as i64)) as u32;
        push_u32_digits(mag, &mut out);
        proof {
            assert(out@ =~= seq!['-'] + spec_nat_digits(mag as int));
        }
    } else {
        push_u32_digits(n as u32, &mut out);
        proof {
            assert(out@ =~= spec_nat_digits(n as int));
        }
    }
    out
}

/// The decimal rendering of `n` as a string.
pub fn i32_to_string(n: i32) -> (s: String)
    ensures
        s@ == spec_i32_str(n as int),
{
    let v = i32_to_chars(n);
    string_from_chars(&v)
}

} // verus!
