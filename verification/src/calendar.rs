//! Civil dates: reading and writing `YYYY-MM-DD`, month lengths, and the
//! window a day's week is looked up in. The calendar arithmetic itself is the
//! `time` crate's.
use vstd::prelude::*;
use vstd::string::*;

use crate::dobavljaci::{iso_date_shaped, is_iso_date_shaped};
use crate::text::{
    digit_char, is_ascii_digit, lemma_natural_digits_len, natural_digits, push_str, push_zero_padded,
    string_from_chars, zero_padded, zeros,
};

verus! {

/// A proleptic Gregorian leap year.
pub open spec fn is_leap_year(year: int) -> bool {
    year % 4 == 0 && (year % 100 != 0 || year % 400 == 0)
}

/// The number of days in `month` (1–12) of `year`.
pub open spec fn month_length(year: int, month: int) -> int {
    if month == 2 {
        if is_leap_year(year) {
            29
        } else {
            28
        }
    } else if month == 4 || month == 6 || month == 9 || month == 11 {
        30
    } else {
        31
    }
}

/// February has 29 days exactly in a leap year — a year divisible by 4
/// and not by 100, or by 400 — and 28 otherwise; April, June, September and
/// November have 30; the other months 31.
pub proof fn lemma_month_lengths(year: int, month: int)
    requires
        1 <= month <= 12,
    ensures
        month == 2 ==> (month_length(year, month) == 29 <==> (year % 4 == 0 && (year % 100 != 0
            || year % 400 == 0))),
        month == 2 ==> (month_length(year, month) == 28 || month_length(year, month) == 29),
        (month == 4 || month == 6 || month == 9 || month == 11) ==> month_length(year, month) == 30,
        (month == 1 || month == 3 || month == 5 || month == 7 || month == 8 || month == 10 || month
            == 12) ==> month_length(year, month) == 31,
{
}

/// A date `time::Date` can hold: years −9999 to 9999 (the crate's range
/// without its `large-dates` feature), a month 1–12, a day within the month.
pub open spec fn is_calendar_date(year: int, month: int, day: int) -> bool {
    &&& -9999 <= year <= 9999
    &&& 1 <= month <= 12
    &&& 1 <= day <= month_length(year, month)
}

/// `time::util::days_in_month`: 28, 29, 30 or 31 by the Gregorian rules.
#[verifier::external_body]
pub(crate) fn days_in_month(year: i32, month: u8) -> (r: u8)
    requires
        1 <= month <= 12,
    ensures
        r == month_length(year as int, month as int),
{
    time::util::days_in_month(time::Month::try_from(month).unwrap(), year)
}

/// Whether `time::Date::from_calendar_date` accepts the triple. The contract
/// states the crate's range without the `large-dates` feature, which this
/// crate does not enable.
#[verifier::external_body]
pub(crate) fn from_calendar_date_is_ok(year: i32, month: u8, day: u8) -> (r: bool)
    requires
        1 <= month <= 12,
    ensures
        r == is_calendar_date(year as int, month as int, day as int),
{
    time::Date::from_calendar_date(year, time::Month::try_from(month).unwrap(), day).is_ok()
}

/// A calendar date.
#[derive(Debug, Clone, Copy, PartialEq, Eq, Structural)]
pub struct CivilDate {
    pub year: i32,
    pub month: u8,
    pub day: u8,
}

impl CivilDate {
    pub open spec fn valid(self) -> bool {
        is_calendar_date(self.year as int, self.month as int, self.day as int)
    }

    /// Calendar order.
    pub open spec fn before(self, other: CivilDate) -> bool {
        ||| self.year < other.year
        ||| self.year == other.year && self.month < other.month
        ||| self.year == other.year && self.month == other.month && self.day < other.day
    }

    pub fn is_before(&self, other: &CivilDate) -> (r: bool)
        ensures
            r == self.before(*other),
    {
        self.year < other.year || (self.year == other.year && self.month < other.month) || (
        self.year == other.year && self.month == other.month && self.day < other.day)
    }
}

pub open spec fn pow10(k: nat) -> nat
    decreases k,
{
    if k == 0 {
        1
    } else {
        10 * pow10((k - 1) as nat)
    }
}

pub open spec fn digit_value(c: char) -> int {
    (c as int) - ('0' as int)
}

/// The value of the decimal digits `t[from..to]`.
pub open spec fn digits_value(t: Seq<char>, from: int, to: int) -> int
    decreases to - from,
{
    if to <= from {
        0
    } else {
        digits_value(t, from, to - 1) * 10 + digit_value(t[to - 1])
    }
}

/// The date a `YYYY-MM-DD` text names, if it has that shape and names a real
/// day.
pub open spec fn iso_date_of(t: Seq<char>) -> Option<CivilDate> {
    if iso_date_shaped(t) {
        let year = digits_value(t, 0, 4);
        let month = digits_value(t, 5, 7);
        let day = digits_value(t, 8, 10);
        if is_calendar_date(year, month, day) {
            Some(CivilDate { year: year as i32, month: month as u8, day: day as u8 })
        } else {
            None
        }
    } else {
        None
    }
}

fn digits_at(t: &str, from: usize, to: usize) -> (r: u32)
    requires
        iso_date_shaped(t@),
        from <= to <= 10,
        to - from <= 4,
        !(from <= 4 < to),
        !(from <= 7 < to),
    ensures
        r == digits_value(t@, from as int, to as int),
        r < 10000,
    decreases to - from,
{
    if to == from {
        0
    } else {
        let prefix = digits_at(t, from, to - 1);
        assert(t@[to - 1] == t@[(to - 1) as int]);
        let c = t.get_char(to - 1);
        proof {
            lemma_digits_small(t@, from as int, (to - 1) as int);
        }
        let d = (c as u32) - 48;
        proof {
            lemma_digits_small(t@, from as int, to as int);
            lemma_pow10_small((to - from) as nat);
        }
        prefix * 10 + d
    }
}

proof fn lemma_pow10_small(k: nat)
    requires
        k <= 4,
    ensures
        pow10(k) <= 10000,
        k == 4 ==> pow10(k) == 10000,
        k == 2 ==> pow10(k) == 100,
{
    reveal_with_fuel(pow10, 5);
}

proof fn lemma_digits_small(t: Seq<char>, from: int, to: int)
    requires
        iso_date_shaped(t),
        0 <= from <= to <= 10,
        !(from <= 4 < to),
        !(from <= 7 < to),
    ensures
        0 <= digits_value(t, from, to) < pow10((to - from) as nat),
    decreases to - from,
{
    if to > from {
        lemma_digits_small(t, from, to - 1);
        assert(pow10((to - from) as nat) == 10 * pow10(
            (to - 1 - from) as nat,
        ));
    }
}

/// Reads `YYYY-MM-DD`: exactly that shape, and a day the calendar has.
pub fn parse_iso_date(text: &str) -> (r: Option<CivilDate>)
    ensures
        r == iso_date_of(text@),
{
    if !is_iso_date_shaped(text) {
        return None;
    }
    proof {
        lemma_digits_small(text@, 0, 4);
        lemma_digits_small(text@, 5, 7);
        lemma_digits_small(text@, 8, 10);
        lemma_pow10_small(4);
        lemma_pow10_small(2);
    }
    let year = digits_at(text, 0, 4);
    let month = digits_at(text, 5, 7);
    let day = digits_at(text, 8, 10);
    if month < 1 || month > 12 || day > 99 {
        return None;
    }
    if from_calendar_date_is_ok(year as i32, month as u8, day as u8) {
        Some(CivilDate { year: year as i32, month: month as u8, day: day as u8 })
    } else {
        None
    }
}

/// The civil date of an RFC 3339 timestamp: its first ten characters read as
/// `YYYY-MM-DD`.
pub open spec fn civil_date_of(now: Seq<char>) -> Option<CivilDate> {
    if now.len() >= 10 {
        iso_date_of(now.subrange(0, 10))
    } else {
        None
    }
}

/// The civil date of an RFC 3339 timestamp.
pub fn civil_date(now: &str) -> (r: Option<CivilDate>)
    ensures
        r == civil_date_of(now@),
{
    if now.unicode_len() < 10 {
        return None;
    }
    parse_iso_date(now.substring_char(0, 10))
}

/// A date as `YYYY-MM-DD`: the year zero-padded to four places, month and day
/// to two.
pub open spec fn iso_text(d: CivilDate) -> Seq<char> {
    zero_padded(d.year as int, 4) + "-"@ + zero_padded(d.month as int, 2) + "-"@ + zero_padded(
        d.day as int,
        2,
    )
}

/// Renders a date as `YYYY-MM-DD`.
pub fn iso_date(d: CivilDate) -> (r: String)
    ensures
        r@ == iso_text(d),
{
    let mut out: Vec<char> = Vec::new();
    push_zero_padded(&mut out, d.year as i64, 4);
    push_str(&mut out, "-");
    push_zero_padded(&mut out, d.month as i64, 2);
    push_str(&mut out, "-");
    push_zero_padded(&mut out, d.day as i64, 2);
    proof {
        assert(out@ =~= iso_text(d));
    }
    string_from_chars(&out)
}

/// The days of `year` before the first of `month`.
pub open spec fn days_before_month(year: int, month: int) -> int
    decreases month,
{
    if month <= 1 {
        0
    } else {
        days_before_month(year, month - 1) + month_length(year, month - 1)
    }
}

/// The day of the year, 1 for the first of January.
pub open spec fn ordinal_of(d: CivilDate) -> int {
    days_before_month(d.year as int, d.month as int) + d.day as int
}

/// The Julian day number of a date: the days before its year, counted from a
/// year shifted far enough to be non-negative, plus its day of the year, less
/// the shift.
pub open spec fn day_number(d: CivilDate) -> int {
    let adj = d.year as int + 999_999;
    let century = adj / 100;
    (1461 * adj) / 4 - century + century / 4 + ordinal_of(d) - 363_521_075
}

/// −9999-01-01, the first day a `time::Date` holds.
pub open spec fn first_day() -> CivilDate {
    CivilDate { year: -9999i32, month: 1u8, day: 1u8 }
}

/// 9999-12-31, the last day a `time::Date` holds.
pub open spec fn last_day() -> CivilDate {
    CivilDate { year: 9999i32, month: 12u8, day: 31u8 }
}

/// The day numbers of the first and last day `time` holds.
proof fn lemma_day_number_bounds()
    ensures
        day_number(first_day()) == -1_930_999,
        day_number(last_day()) == 5_373_484,
{
    reveal_with_fuel(days_before_month, 13);
    assert(days_before_month(9999, 12) == 334);
    assert((1461 * 989_999int) / 4 == 361_597_134);
    assert((1461 * 1_009_998int) / 4 == 368_901_769);
}

/// `time::Date::to_julian_day` of a real calendar day: the formula of
/// [`day_number`], which is the one that function evaluates.
#[verifier::external_body]
fn julian_day_of(d: CivilDate) -> (r: i32)
    requires
        d.valid(),
    ensures
        r == day_number(d),
{
    let month = time::Month::try_from(d.month).unwrap();
    time::Date::from_calendar_date(d.year, month, d.day).unwrap().to_julian_day()
}

/// `time::Date::from_julian_day`: none outside the day numbers of the first
/// and last day the crate holds, else the real day with that number.
#[verifier::external_body]
fn date_from_julian_day(jd: i32) -> (r: Option<CivilDate>)
    ensures
        r is None <==> (jd < day_number(first_day()) || jd > day_number(last_day())),
        r matches Some(d) ==> d.valid() && day_number(d) == jd,
{
    match time::Date::from_julian_day(jd) {
        Ok(date) => Some(CivilDate { year: date.year(), month: u8::from(date.month()), day: date.day() }),
        Err(_) => None,
    }
}

/// Whether the texts `w` are those of the days seven days before and seven
/// days after the day with number `jd`.
pub open spec fn is_week_window(jd: int, w: (Seq<char>, Seq<char>)) -> bool {
    exists|a: CivilDate, b: CivilDate|
        #![trigger day_number(a), day_number(b)]
        {
            &&& a.valid() && day_number(a) == jd - 7 && w.0 == iso_text(a)
            &&& b.valid() && day_number(b) == jd + 7 && w.1 == iso_text(b)
        }
}

/// The lookup window of `dan`'s week: the texts of the days seven days before
/// and after it. None when `dan` is no date, or when either end falls outside
/// the days `time` holds.
pub fn week_window(dan: &str) -> (r: Option<(String, String)>)
    ensures
        match iso_date_of(dan@) {
            None => r is None,
            Some(d) => if day_number(first_day()) <= day_number(d) - 7 && day_number(d) + 7
                <= day_number(last_day()) {
                r matches Some(w) && is_week_window(day_number(d), (w.0@, w.1@))
            } else {
                r is None
            },
        },
{
    let date = match parse_iso_date(dan) {
        None => return None,
        Some(d) => d,
    };
    let jd = julian_day_of(date);
    proof {
        lemma_day_number_bounds();
    }
    if jd < i32::MIN + 7 || jd > i32::MAX - 7 {
        return None;
    }
    let first = match date_from_julian_day(jd - 7) {
        None => return None,
        Some(d) => d,
    };
    let last = match date_from_julian_day(jd + 7) {
        None => return None,
        Some(d) => d,
    };
    let a = iso_date(first);
    let b = iso_date(last);
    assert(day_number(first) == day_number(date) - 7 && day_number(last) == day_number(date) + 7);
    Some((a, b))
}

/// The digits `t[from..to]` and `s[0..to - from]` are the same characters,
/// so they read as the same number.
proof fn lemma_digits_value_shift(t: Seq<char>, s: Seq<char>, from: int, to: int)
    requires
        0 <= from <= to,
        forall|i: int| 0 <= i < to - from ==> s[i] == t[from + i],
    ensures
        digits_value(t, from, to) == digits_value(s, 0, to - from),
    decreases to - from,
{
    if to > from {
        lemma_digits_value_shift(t, s, from, to - 1);
        assert(s[to - 1 - from] == t[from + (to - 1 - from)]);
    }
}

proof fn lemma_zero_run(t: Seq<char>, from: int, to: int)
    requires
        from <= to,
        forall|i: int| from <= i < to ==> t[i] == '0',
    ensures
        digits_value(t, from, to) == 0,
    decreases to - from,
{
    if to > from {
        lemma_zero_run(t, from, to - 1);
    }
}

/// Leading zeros do not change the value read.
proof fn lemma_leading_zeros(t: Seq<char>, from: int, k: int, to: int)
    requires
        0 <= k,
        from + k <= to,
        forall|i: int| from <= i < from + k ==> t[i] == '0',
    ensures
        digits_value(t, from, to) == digits_value(t, from + k, to),
    decreases to - from,
{
    if to > from + k {
        lemma_leading_zeros(t, from, k, to - 1);
    } else {
        lemma_zero_run(t, from, to);
    }
}

proof fn lemma_digit_char(d: int)
    requires
        0 <= d < 10,
    ensures
        digit_value(digit_char(d)) == d,
        is_ascii_digit(digit_char(d)),
{
    assert(('0' as u32) == 48);
    assert(digit_char(d) as int == 48 + d);
}

proof fn lemma_natural_digits_read_back(n: nat)
    ensures
        digits_value(natural_digits(n), 0, natural_digits(n).len() as int) == n,
        forall|i: int|
            0 <= i < natural_digits(n).len() ==> is_ascii_digit(#[trigger] natural_digits(n)[i]),
    decreases n,
{
    lemma_natural_digits_len(n);
    lemma_digit_char((n % 10) as int);
    if n < 10 {
        let t = natural_digits(n);
        assert(t[0] == digit_char(n as int));
        assert(digits_value(t, 0, 1) == digits_value(t, 0, 0) * 10 + digit_value(t[0]));
    } else {
        lemma_natural_digits_read_back(n / 10);
        let s = natural_digits(n / 10);
        let t = natural_digits(n);
        let len = t.len() as int;
        lemma_digits_value_shift(t, s, 0, s.len() as int);
        assert(t[len - 1] == digit_char((n % 10) as int));
        assert(digits_value(t, 0, len) == digits_value(t, 0, len - 1) * 10 + digit_value(t[len - 1]));
        assert(n == (n / 10) * 10 + n % 10);
        assert forall|i: int| 0 <= i < t.len() implies is_ascii_digit(#[trigger] t[i]) by {
            if i < s.len() {
                assert(t[i] == s[i]);
            }
        }
    }
}

proof fn lemma_zero_padded_read_back(n: nat, w: int)
    requires
        natural_digits(n).len() <= w,
    ensures
        zero_padded(n as int, w).len() == w,
        digits_value(zero_padded(n as int, w), 0, w) == n,
        forall|i: int| 0 <= i < w ==> is_ascii_digit(#[trigger] zero_padded(n as int, w)[i]),
{
    let digits = natural_digits(n);
    let k = w - digits.len();
    let p = zero_padded(n as int, w);
    assert(p =~= zeros(k) + digits);
    lemma_natural_digits_read_back(n);
    lemma_leading_zeros(p, 0, k, w);
    lemma_digits_value_shift(p, digits, k, w);
    assert forall|i: int| 0 <= i < w implies is_ascii_digit(#[trigger] p[i]) by {
        if i >= k {
            assert(p[i] == digits[i - k]);
        }
    }
}

/// Reading back what [`iso_date`] writes gives the same day, for every date
/// of a year from 0 on (an earlier year is written with a sign, which
/// `YYYY-MM-DD` has no place for).
pub proof fn lemma_iso_date_round_trip(d: CivilDate)
    requires
        d.valid(),
        d.year >= 0,
    ensures
        iso_date_of(iso_text(d)) == Some(d),
{
    lemma_natural_digits_len(d.year as nat);
    lemma_natural_digits_len(d.month as nat);
    lemma_natural_digits_len(d.day as nat);
    lemma_zero_padded_read_back(d.year as nat, 4);
    lemma_zero_padded_read_back(d.month as nat, 2);
    lemma_zero_padded_read_back(d.day as nat, 2);
    let a = zero_padded(d.year as int, 4);
    let b = zero_padded(d.month as int, 2);
    let c = zero_padded(d.day as int, 2);
    let t = iso_text(d);
    reveal_strlit("-");
    assert(t.len() == 10);
    assert forall|i: int| 0 <= i < 4 implies #[trigger] t[i] == a[i] by {}
    assert forall|i: int| 0 <= i < 2 implies t[5 + i] == #[trigger] b[i] by {}
    assert forall|i: int| 0 <= i < 2 implies t[8 + i] == #[trigger] c[i] by {}
    assert(iso_date_shaped(t)) by {
        assert forall|i: int| 0 <= i < 10 implies if i == 4 || i == 7 {
            #[trigger] t[i] == '-'
        } else {
            is_ascii_digit(t[i])
        } by {
            if i < 4 {
                assert(t[i] == a[i]);
            } else if 5 <= i < 7 {
                assert(t[i] == b[i - 5]);
            } else if 8 <= i {
                assert(t[i] == c[i - 8]);
            }
        }
    }
    lemma_digits_value_shift(t, a, 0, 4);
    lemma_digits_value_shift(t, b, 5, 7);
    lemma_digits_value_shift(t, c, 8, 10);
}

} // verus!
