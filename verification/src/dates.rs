//! Current-date generation and comparison for daily-reset logic: a date
//! is rendered and parsed in the fixed `YYYY-MM-DD` form. Only the
//! reading of the host clock is delegated to an outside crate; the
//! rendering, parsing and comparison are the library's own.

use vstd::prelude::*;
use vstd::string::*;
use vstd::arithmetic::div_mod::{
    lemma_basic_div, lemma_div_denominator, lemma_fundamental_div_mod, lemma_small_mod,
};
use crate::text::{dec_digit, dec_rep, digit_val, is_dec_digit, push_digit, push_decimal};

verus! {

/// A calendar date with day granularity, in the host's local time zone.
#[derive(Clone, Copy, Debug, PartialEq, Eq, Structural)]
pub struct CalendarDate {
    pub year: i32,
    pub month: u32,
    pub day: u32,
}

/// The digits of a year magnitude, zero-padded on the left to at least
/// four digits.
pub open spec fn year_digits(n: int) -> Seq<char>
    recommends
        n >= 0,
{
    if n < 10 {
        seq!['0', '0', '0'] + dec_rep(n)
    } else if n < 100 {
        seq!['0', '0'] + dec_rep(n)
    } else if n < 1000 {
        seq!['0'] + dec_rep(n)
    } else {
        dec_rep(n)
    }
}

/// The text of a year: its magnitude padded to at least four digits,
/// preceded by a minus sign when negative.
pub open spec fn year_text(y: int) -> Seq<char> {
    if y < 0 {
        seq!['-'] + year_digits(-y)
    } else {
        year_digits(y)
    }
}

/// A number between 0 and 99 as exactly two digits.
pub open spec fn two_digits(n: int) -> Seq<char>
    recommends
        0 <= n <= 99,
{
    seq![dec_digit(n / 10), dec_digit(n % 10)]
}

/// The `YYYY-MM-DD` rendering of a date.
pub open spec fn date_text(y: int, m: int, d: int) -> Seq<char> {
    year_text(y) + seq!['-'] + two_digits(m) + seq!['-'] + two_digits(d)
}

pub open spec fn is_leap_year(y: int) -> bool {
    y % 4 == 0 && (y % 100 != 0 || y % 400 == 0)
}

pub open spec fn days_in_month(y: int, m: int) -> int
    recommends
        1 <= m <= 12,
{
    if m == 2 {
        if is_leap_year(y) {
            29
        } else {
            28
        }
    } else if m == 4 || m == 6 || m == 9 || m == 11 {
        30
    } else {
        31
    }
}

/// A proleptic Gregorian calendar date that actually exists.
pub open spec fn is_valid_date(y: int, m: int, d: int) -> bool {
    1 <= m <= 12 && 1 <= d <= days_in_month(y, m)
}

/// Renders a date as `YYYY-MM-DD`: the year zero-padded to at least
/// four digits (with a leading minus sign when negative), then the
/// month and day as two digits each.
pub fn format_date(date: CalendarDate) -> (r: String)
    requires
        1 <= date.month <= 12,
        1 <= date.day <= 31,
    ensures
        r@ == date_text(date.year as int, date.month as int, date.day as int),
{
    let mut out = String::new();
    let mag: u64;
    if date.year < 0 {
        out.append("-");
        proof {
            reveal_strlit("-");
        }
        mag = (-(date.year as i64)) as u64;
    } else {
        mag = date.year as u64;
    }
    let ghost prefix: Seq<char> = out@;
    if mag < 10 {
        out.append("000");
        proof {
            reveal_strlit("000");
            assert("000"@ =~= seq!['0', '0', '0']);
        }
    } else if mag < 100 {
        out.append("00");
        proof {
            reveal_strlit("00");
            assert("00"@ =~= seq!['0', '0']);
        }
    } else if mag < 1000 {
        out.append("0");
        proof {
            reveal_strlit("0");
            assert("0"@ =~= seq!['0']);
        }
    }
    push_decimal(&mut out, mag);
    proof {
        assert(out@ =~= prefix + year_digits(mag as int));
        assert(out@ =~= year_text(date.year as int));
    }
    out.append("-");
    push_digit(&mut out, (date.month / 10) as u8);
    push_digit(&mut out, (date.month % 10) as u8);
    out.append("-");
    push_digit(&mut out, (date.day / 10) as u8);
    push_digit(&mut out, (date.day % 10) as u8);
    proof {
        reveal_strlit("-");
        assert("-"@ =~= seq!['-']);
        assert(out@ =~= date_text(date.year as int, date.month as int, date.day as int));
    }
    out
}

/// Whether a string has the shape `DDDD-DD-DD`: four digits, a dash,
/// two digits, a dash, two digits, and nothing more.
pub open spec fn matches_date_pattern(s: Seq<char>) -> bool {
    &&& s.len() == 10
    &&& is_dec_digit(s[0])
    &&& is_dec_digit(s[1])
    &&& is_dec_digit(s[2])
    &&& is_dec_digit(s[3])
    &&& s[4] == '-'
    &&& is_dec_digit(s[5])
    &&& is_dec_digit(s[6])
    &&& s[7] == '-'
    &&& is_dec_digit(s[8])
    &&& is_dec_digit(s[9])
}

pub open spec fn pattern_year(s: Seq<char>) -> int {
    1000 * digit_val(s[0]) + 100 * digit_val(s[1]) + 10 * digit_val(s[2]) + digit_val(s[3])
}

pub open spec fn pattern_month(s: Seq<char>) -> int {
    10 * digit_val(s[5]) + digit_val(s[6])
}

pub open spec fn pattern_day(s: Seq<char>) -> int {
    10 * digit_val(s[8]) + digit_val(s[9])
}

/// Strict parse of a `YYYY-MM-DD` string: the shape must match exactly
/// and the numbers must name a date that exists on the calendar.
pub open spec fn parse_date_spec(s: Seq<char>) -> Option<(int, int, int)> {
    if matches_date_pattern(s) && is_valid_date(pattern_year(s), pattern_month(s), pattern_day(s)) {
        Some((pattern_year(s), pattern_month(s), pattern_day(s)))
    } else {
        None
    }
}

fn digit_value(c: char) -> (r: Option<u8>)
    ensures
        (match r {
            Some(v) => is_dec_digit(c) && v < 10 && v as int == digit_val(c),
            None => !is_dec_digit(c),
        }),
{
    let v = c as u32;
    if 48 <= v && v <= 57 {
        Some((v - 48) as u8)
    } else {
        None
    }
}

fn days_in_month_exec(y: u32, m: u32) -> (r: u32)
    requires
        1 <= m <= 12,
    ensures
        r as int == days_in_month(y as int, m as int),
{
    if m == 2 {
        if y % 4 == 0 && (y % 100 != 0 || y % 400 == 0) {
            29
        } else {
            28
        }
    } else if m == 4 || m == 6 || m == 9 || m == 11 {
        30
    } else {
        31
    }
}

/// Parses a string strictly against `YYYY-MM-DD`, accepting only dates
/// that exist on the proleptic Gregorian calendar.
pub fn parse_date(s: &str) -> (r: Option<CalendarDate>)
    ensures
        (match r {
            Some(date) => parse_date_spec(s@) == Some(
                (date.year as int, date.month as int, date.day as int),
            ),
            None => parse_date_spec(s@) is None,
        }),
{
    let n = s.unicode_len();
    if n != 10 {
        return None;
    }
    let v0 = match digit_value(s.get_char(0)) {
        Some(v) => v,
        None => { return None; },
    };
    let v1 = match digit_value(s.get_char(1)) {
        Some(v) => v,
        None => { return None; },
    };
    let v2 = match digit_value(s.get_char(2)) {
        Some(v) => v,
        None => { return None; },
    };
    let v3 = match digit_value(s.get_char(3)) {
        Some(v) => v,
        None => { return None; },
    };
    if s.get_char(4) != '-' {
        return None;
    }
    let v5 = match digit_value(s.get_char(5)) {
        Some(v) => v,
        None => { return None; },
    };
    let v6 = match digit_value(s.get_char(6)) {
        Some(v) => v,
        None => { return None; },
    };
    if s.get_char(7) != '-' {
        return None;
    }
    let v8 = match digit_value(s.get_char(8)) {
        Some(v) => v,
        None => { return None; },
    };
    let v9 = match digit_value(s.get_char(9)) {
        Some(v) => v,
        None => { return None; },
    };
    let y: u32 = 1000 * (v0 as u32) + 100 * (v1 as u32) + 10 * (v2 as u32) + (v3 as u32);
    let m: u32 = 10 * (v5 as u32) + (v6 as u32);
    let d: u32 = 10 * (v8 as u32) + (v9 as u32);
    if m < 1 || m > 12 {
        return None;
    }
    let dim = days_in_month_exec(y, m);
    if d < 1 || d > dim {
        return None;
    }
    Some(CalendarDate { year: y as i32, month: m, day: d })
}

proof fn lemma_digit_roundtrip(v: int)
    requires
        0 <= v <= 9,
    ensures
        is_dec_digit(dec_digit(v)),
        digit_val(dec_digit(v)) == v,
{
}

proof fn lemma_year_digits_four(n: int)
    requires
        0 <= n <= 9999,
    ensures
        year_digits(n) =~= seq![
            dec_digit(n / 1000),
            dec_digit((n / 100) % 10),
            dec_digit((n / 10) % 10),
            dec_digit(n % 10),
        ],
{
    reveal_with_fuel(dec_rep, 5);
    if n < 10 {
        lemma_basic_div(n, 10);
        lemma_basic_div(n, 100);
        lemma_basic_div(n, 1000);
        lemma_small_mod(n as nat, 10);
    } else if n < 100 {
        lemma_basic_div(n, 100);
        lemma_basic_div(n, 1000);
        lemma_div_denominator(n, 10, 10);
        lemma_small_mod((n / 10) as nat, 10);
    } else if n < 1000 {
        lemma_basic_div(n, 1000);
        lemma_div_denominator(n, 10, 10);
        lemma_div_denominator(n, 100, 10);
        lemma_small_mod((n / 100) as nat, 10);
    } else {
        lemma_div_denominator(n, 10, 10);
        lemma_div_denominator(n, 100, 10);
        lemma_small_mod((n / 1000) as nat, 10);
    }
}

proof fn lemma_date_text_shape(y: int, m: int, d: int)
    requires
        0 <= y <= 9999,
        0 <= m <= 99,
        0 <= d <= 99,
    ensures
        date_text(y, m, d) =~= seq![
            dec_digit(y / 1000),
            dec_digit((y / 100) % 10),
            dec_digit((y / 10) % 10),
            dec_digit(y % 10),
            '-',
            dec_digit(m / 10),
            dec_digit(m % 10),
            '-',
            dec_digit(d / 10),
            dec_digit(d % 10),
        ],
{
    lemma_year_digits_four(y);
}

/// Law: a date with a four-digit year, rendered as `YYYY-MM-DD`, always
/// matches the pattern of four digits, a dash, two digits, a dash and
/// two digits.
pub proof fn lemma_date_text_matches_pattern(y: int, m: int, d: int)
    requires
        0 <= y <= 9999,
        0 <= m <= 99,
        0 <= d <= 99,
    ensures
        matches_date_pattern(date_text(y, m, d)),
{
    lemma_date_text_shape(y, m, d);
    lemma_digit_roundtrip(y / 1000);
    lemma_digit_roundtrip((y / 100) % 10);
    lemma_digit_roundtrip((y / 10) % 10);
    lemma_digit_roundtrip(y % 10);
    lemma_digit_roundtrip(m / 10);
    lemma_digit_roundtrip(m % 10);
    lemma_digit_roundtrip(d / 10);
    lemma_digit_roundtrip(d % 10);
}

/// Law: rendering a valid date with a four-digit year and parsing the
/// rendering back yields exactly that date.
pub proof fn lemma_format_parse_round_trip(y: int, m: int, d: int)
    requires
        0 <= y <= 9999,
        is_valid_date(y, m, d),
    ensures
        parse_date_spec(date_text(y, m, d)) == Some((y, m, d)),
{
    let s = date_text(y, m, d);
    lemma_date_text_shape(y, m, d);
    lemma_date_text_matches_pattern(y, m, d);
    lemma_digit_roundtrip(y / 1000);
    lemma_digit_roundtrip((y / 100) % 10);
    lemma_digit_roundtrip((y / 10) % 10);
    lemma_digit_roundtrip(y % 10);
    lemma_digit_roundtrip(m / 10);
    lemma_digit_roundtrip(m % 10);
    lemma_digit_roundtrip(d / 10);
    lemma_digit_roundtrip(d % 10);
    lemma_fundamental_div_mod(y, 10);
    lemma_fundamental_div_mod(y / 10, 10);
    lemma_div_denominator(y, 10, 10);
    lemma_fundamental_div_mod(y / 100, 10);
    lemma_div_denominator(y, 100, 10);
    lemma_fundamental_div_mod(m, 10);
    lemma_fundamental_div_mod(d, 10);
    assert(pattern_year(s) == y);
    assert(pattern_month(s) == m);
    assert(pattern_day(s) == d);
}

/// Relies on chrono::Local::now().date_naive() and chrono's Datelike
/// accessors: a NaiveDate is always a date that exists on the proleptic
/// Gregorian calendar, with the year within chrono's documented range.
/// The result depends on the host clock, so nothing relates one call to
/// the next.
#[verifier::external_body]
fn current_local_date() -> (r: CalendarDate)
    ensures
        is_valid_date(r.year as int, r.month as int, r.day as int),
        -262144 <= r.year <= 262143,
{
    let now = chrono::Local::now().date_naive();
    CalendarDate {
        year: chrono::Datelike::year(&now),
        month: chrono::Datelike::month(&now),
        day: chrono::Datelike::day(&now),
    }
}

/// Today's local calendar date rendered as `YYYY-MM-DD`; for the
/// four-digit years every real clock reports, the rendering matches the
/// digits-and-dashes pattern.
pub fn generate_current_date() -> (r: String)
    ensures
        (exists|y: int, m: int, d: int|
            {
                &&& -262144 <= y <= 262143
                &&& is_valid_date(y, m, d)
                &&& r@ == date_text(y, m, d)
                &&& (0 <= y <= 9999 ==> matches_date_pattern(r@))
            }),
{
    let today = current_local_date();
    let rendered = format_date(today);
    proof {
        let y = today.year as int;
        let m = today.month as int;
        let d = today.day as int;
        if 0 <= y <= 9999 {
            lemma_date_text_matches_pattern(y, m, d);
        }
        assert(-262144 <= y <= 262143 && is_valid_date(y, m, d) && rendered@ == date_text(y, m, d)
            && (0 <= y <= 9999 ==> matches_date_pattern(rendered@)));
    }
    rendered
}

/// Whether a parse result names exactly the given date.
pub fn date_equals(parsed: Option<CalendarDate>, today: CalendarDate) -> (r: bool)
    ensures
        r == (parsed matches Some(date) && date == today),
{
    match parsed {
        Some(date) => date.year == today.year && date.month == today.month && date.day
            == today.day,
        None => false,
    }
}

/// Whether a string names today's local calendar date. A string that
/// does not parse strictly as `YYYY-MM-DD` never does.
pub fn is_date_current(date_str: &str) -> (r: bool)
    ensures
        parse_date_spec(date_str@) is None ==> r == false,
        r ==> parse_date_spec(date_str@) is Some,
{
    let today = current_local_date();
    let parsed = parse_date(date_str);
    date_equals(parsed, today)
}

} // verus!
