//! Calendar dates for window-based query parameters, and timestamp
//! parsing for upstream payload fields.
//!
//! The library holds a date as plain year/month/day numbers with its
//! own validity invariant; what only a calendar implementation can
//! compute - today's date, date arithmetic across month and leap-year
//! boundaries, datetime parsing - is obtained through trusted wrappers
//! over the `chrono` crate, and verified code validates and formats the
//! plain values that come back.

use crate::digits::digit_char;
use crate::digits::digit_string;
use chrono::Datelike;
use vstd::prelude::*;

verus! {

/// A calendar date as plain values.
#[derive(Clone, Copy, Debug, PartialEq, Eq, Structural)]
pub struct Date {
    pub year: u16,
    pub month: u8,
    pub day: u8,
}

/// Whether `year` is a leap year (proleptic Gregorian).
pub open spec fn is_leap_year(year: nat) -> bool {
    year % 4 == 0 && (year % 100 != 0 || year % 400 == 0)
}

/// Days in the given month.
pub open spec fn days_in_month(year: nat, month: nat) -> nat
    recommends
        1 <= month <= 12,
{
    if month == 2 {
        if is_leap_year(year) {
            29
        } else {
            28
        }
    } else if month == 4 || month == 6 || month == 9 || month == 11 {
        30
    } else {
        31
    }
}

impl Date {
    /// A real calendar date within the four-digit-year era.
    pub open spec fn wf(self) -> bool {
        &&& 1 <= self.year <= 9999
        &&& 1 <= self.month <= 12
        &&& 1 <= self.day <= days_in_month(self.year as nat, self.month as nat)
    }
}

/// A plain year/month/day triple as a `Date`, exactly when it is a real
/// calendar date within the four-digit-year era.
pub open spec fn date_from_ymd_spec(year: i64, month: u8, day: u8) -> Option<Date> {
    if 1 <= year <= 9999 && 1 <= month <= 12 && 1 <= day <= days_in_month(
        year as nat,
        month as nat,
    ) {
        Some(Date { year: year as u16, month, day })
    } else {
        None
    }
}

/// Days in the given month, as executable code.
pub fn month_length(year: u16, month: u8) -> (n: u8)
    requires
        1 <= month <= 12,
    ensures
        n == days_in_month(year as nat, month as nat),
{
    if month == 2 {
        if year % 4 == 0 && (year % 100 != 0 || year % 400 == 0) {
            29
        } else {
            28
        }
    } else if month == 4 || month == 6 || month == 9 || month == 11 {
        30
    } else {
        31
    }
}

/// Validate a plain year/month/day triple.
pub fn date_from_ymd(year: i64, month: u8, day: u8) -> (r: Option<Date>)
    ensures
        r == date_from_ymd_spec(year, month, day),
        r matches Some(d) ==> d.wf(),
{
    if 1 <= year && year <= 9999 && 1 <= month && month <= 12 && 1 <= day && day <= month_length(
        year as u16,
        month,
    ) {
        Some(Date { year: year as u16, month, day })
    } else {
        None
    }
}

/// The calendar date `n` days before the given year/month/day, as the
/// `chrono` crate computes it: `None` when the input triple is not a
/// real date or the result falls outside the representable range. A
/// pure function of its arguments.
pub uninterp spec fn ymd_back(year: u16, month: u8, day: u8, n: u64) -> Option<(i64, u8, u8)>;

/// Relies on chrono's `NaiveDate::from_ymd_opt`, `checked_sub_days` and
/// the `Datelike` accessors: the date `n` days earlier, a pure function
/// of the arguments; month and day of a `NaiveDate` are always in
/// range.
#[verifier::external_body]
fn ymd_minus_days(year: u16, month: u8, day: u8, n: u64) -> (r: Option<(i64, u8, u8)>)
    ensures
        r == ymd_back(year, month, day, n),
        r matches Some(t) ==> 1 <= t.1 <= 12 && 1 <= t.2 <= 31,
{
    let start = match chrono::NaiveDate::from_ymd_opt(year as i32, month as u32, day as u32) {
        Some(d) => d,
        None => return None,
    };
    let back = match start.checked_sub_days(chrono::Days::new(n)) {
        Some(d) => d,
        None => return None,
    };
    Some((back.year() as i64, back.month() as u8, back.day() as u8))
}

/// The date `n` days before `d`, when it exists and is itself within
/// the four-digit-year era.
pub open spec fn date_back(d: Date, n: u64) -> Option<Date> {
    match ymd_back(d.year, d.month, d.day, n) {
        Some(t) => date_from_ymd_spec(t.0, t.1, t.2),
        None => None,
    }
}

/// Step a date back `n` days through the calendar.
pub fn date_minus_days(d: &Date, n: u64) -> (r: Option<Date>)
    ensures
        r == date_back(*d, n),
        r matches Some(e) ==> e.wf(),
{
    match ymd_minus_days(d.year, d.month, d.day, n) {
        Some(t) => date_from_ymd(t.0, t.1, t.2),
        None => None,
    }
}

/// Relies on chrono's `Utc::now` and `NaiveDate`'s `Datelike`
/// accessors: today's UTC date as plain values. The value depends on
/// the clock; month and day of a `NaiveDate` are always in range.
#[verifier::external_body]
fn now_ymd() -> (r: (i64, u8, u8))
    ensures
        1 <= r.1 <= 12,
        1 <= r.2 <= 31,
{
    let t = chrono::Utc::now().date_naive();
    (t.year() as i64, t.month() as u8, t.day() as u8)
}

/// Today's UTC date, validated; `None` only if the clock reports a date
/// outside the four-digit-year era.
pub fn today_utc() -> (r: Option<Date>)
    ensures
        r matches Some(d) ==> d.wf(),
{
    let (y, m, d) = now_ymd();
    date_from_ymd(y, m, d)
}

/// Two decimal digits, zero-padded.
pub open spec fn two_digits(n: nat) -> Seq<char>
    recommends
        n < 100,
{
    seq![digit_char(n / 10), digit_char(n % 10)]
}

/// Four decimal digits, zero-padded.
pub open spec fn four_digits(n: nat) -> Seq<char>
    recommends
        n < 10000,
{
    seq![
        digit_char(n / 1000),
        digit_char((n / 100) % 10),
        digit_char((n / 10) % 10),
        digit_char(n % 10),
    ]
}

/// A date in `YYYY-MM-DD` form.
pub open spec fn date_str(d: Date) -> Seq<char> {
    four_digits(d.year as nat) + seq!['-'] + two_digits(d.month as nat) + seq!['-'] + two_digits(
        d.day as nat,
    )
}

fn push_two_digits(s: &mut String, n: u8)
    requires
        n < 100,
    ensures
        final(s)@ == old(s)@ + two_digits(n as nat),
{
    let d1 = digit_string((n / 10) as u64);
    let d2 = digit_string((n % 10) as u64);
    s.append(d1.as_str());
    s.append(d2.as_str());
    proof {
        assert(old(s)@ + seq![digit_char((n / 10) as nat)] + seq![digit_char((n % 10) as nat)]
            =~= old(s)@ + two_digits(n as nat));
    }
}

/// Render a date as `YYYY-MM-DD`, the form the upstream APIs take in
/// their date-range query parameters.
pub fn format_date(d: &Date) -> (s: String)
    requires
        d.wf(),
    ensures
        s@ == date_str(*d),
{
    proof {
        reveal_strlit("-");
    }
    let y = d.year;
    let mut s = String::new();
    let y1 = digit_string((y / 1000) as u64);
    let y2 = digit_string(((y / 100) % 10) as u64);
    let y3 = digit_string(((y / 10) % 10) as u64);
    let y4 = digit_string((y % 10) as u64);
    s.append(y1.as_str());
    s.append(y2.as_str());
    s.append(y3.as_str());
    s.append(y4.as_str());
    s.append("-");
    push_two_digits(&mut s, d.month);
    s.append("-");
    push_two_digits(&mut s, d.day);
    proof {
        assert("-"@ =~= seq!['-']);
        assert(s@ =~= date_str(*d));
    }
    s
}

/// The date range "`n` days ago .. today" for window-based feeds, both
/// ends in `YYYY-MM-DD` form.
pub fn last_days_range(today: &Date, n: u64) -> (r: Option<(String, String)>)
    requires
        today.wf(),
    ensures
        (r is Some) == (date_back(*today, n) is Some),
        r matches Some(p) ==> (date_back(*today, n) matches Some(e) && p.0@ == date_str(e) && p.1@
            == date_str(*today)),
{
    match date_minus_days(today, n) {
        Some(from) => Some((format_date(&from), format_date(today))),
        None => None,
    }
}

/// Epoch seconds parsed from RFC 3339 / ISO 8601 text with a UTC
/// conversion, as the `chrono` crate parses it: a pure function of the
/// text, `None` when the text does not parse.
pub uninterp spec fn utc_datetime_epoch(s: Seq<char>) -> Option<i64>;

/// Relies on chrono's `FromStr` for `DateTime<Utc>` and `timestamp`:
/// the parsed instant in epoch seconds, a pure function of the text.
#[verifier::external_body]
pub fn parse_utc_datetime(s: &str) -> (r: Option<i64>)
    ensures
        r == utc_datetime_epoch(s@),
{
    s.parse::<chrono::DateTime<chrono::Utc>>().ok().map(|d| d.timestamp())
}

/// Epoch seconds parsed from `"YYYY-MM-DD HH:MM:SS"` text taken as UTC,
/// as the `chrono` crate parses it: a pure function of the text, `None`
/// when the text does not parse.
pub uninterp spec fn naive_datetime_epoch(s: Seq<char>) -> Option<i64>;

/// Relies on chrono's `NaiveDateTime::parse_from_str` with the fixed
/// format `"%Y-%m-%d %H:%M:%S"`, then `and_utc` and `timestamp`: a pure
/// function of the text.
#[verifier::external_body]
pub fn parse_naive_datetime(s: &str) -> (r: Option<i64>)
    ensures
        r == naive_datetime_epoch(s@),
{
    chrono::NaiveDateTime::parse_from_str(s, "%Y-%m-%d %H:%M:%S").ok().map(
        |n| n.and_utc().timestamp(),
    )
}

/// Whether a count of epoch seconds is within chrono's representable
/// datetime range: a pure function of the number.
pub uninterp spec fn epoch_seconds_valid(n: i64) -> bool;

/// Relies on chrono's `DateTime::from_timestamp`: whether `n` epoch
/// seconds names a representable instant, a pure function of `n`.
#[verifier::external_body]
pub fn check_epoch_seconds(n: i64) -> (r: bool)
    ensures
        r == epoch_seconds_valid(n),
{
    chrono::DateTime::from_timestamp(n, 0).is_some()
}

} // verus!
