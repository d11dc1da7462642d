//! Calendar dates in the proleptic Gregorian calendar, their order, and the
//! whole-day distance between two of them.
use vstd::prelude::*;

use chrono::Datelike;

verus! {

/// Smallest year that a calendar date of this library may carry.
pub const MIN_YEAR: i32 = -262143;

/// Largest year that a calendar date of this library may carry.
pub const MAX_YEAR: i32 = 262142;

/// A calendar date without time of day.
#[derive(Clone, Copy, Debug, PartialEq, Eq, Structural)]
pub struct Date {
    pub year: i32,
    pub month: u32,
    pub day: u32,
}

pub open spec fn is_leap_year(y: int) -> bool {
    y % 4 == 0 && (y % 100 != 0 || y % 400 == 0)
}

pub open spec fn days_in_month(y: int, m: int) -> int {
    if m == 2 {
        if is_leap_year(y) { 29 } else { 28 }
    } else if m == 4 || m == 6 || m == 9 || m == 11 {
        30
    } else {
        31
    }
}

/// Days of the year `y` that precede the first day of month `m`.
pub open spec fn days_before_month(y: int, m: int) -> int
    decreases m,
{
    if m <= 1 {
        0
    } else {
        days_before_month(y, m - 1) + days_in_month(y, m - 1)
    }
}

/// Days from January 1 of year 1 to January 1 of year `y`.
pub open spec fn days_before_year(y: int) -> int {
    365 * (y - 1) + (y - 1) / 4 - (y - 1) / 100 + (y - 1) / 400
}

impl Date {
    /// The date exists in the calendar, within the supported years.
    pub open spec fn wf(&self) -> bool {
        &&& MIN_YEAR <= self.year <= MAX_YEAR
        &&& 1 <= self.month <= 12
        &&& 1 <= self.day <= days_in_month(self.year as int, self.month as int)
    }

    /// Day number of the date, January 1 of year 1 being day 1.
    pub open spec fn day_number(&self) -> int {
        days_before_year(self.year as int) + days_before_month(self.year as int, self.month as int)
            + self.day as int
    }
}

/// Strict chronological order of two dates, by year, then month, then day.
pub open spec fn date_lt(a: Date, b: Date) -> bool {
    ||| a.year < b.year
    ||| a.year == b.year && a.month < b.month
    ||| a.year == b.year && a.month == b.month && a.day < b.day
}

/// Signed number of whole days from `today` to `target`.
pub open spec fn days_between(target: Date, today: Date) -> int {
    target.day_number() - today.day_number()
}

/// What chrono's `%Y-%m-%d` parser makes of a text, if anything.
pub uninterp spec fn parsed_date(s: Seq<char>) -> Option<Date>;

/// Relies on chrono's `NaiveDate::parse_from_str` with the format `%Y-%m-%d`:
/// its result depends on the text alone, and a `NaiveDate` is always a date
/// that exists, in the years chrono supports.
#[verifier::external_body]
fn parse_ymd(s: &str) -> (r: Option<Date>)
    ensures
        r == parsed_date(s@),
        r matches Some(d) ==> d.wf(),
{
    chrono::NaiveDate::parse_from_str(s, "%Y-%m-%d").ok().map(
        |d| Date { year: d.year(), month: d.month(), day: d.day() },
    )
}

/// Relies on chrono's `Datelike::num_days_from_ce` for `NaiveDate`: the day
/// number in the proleptic Gregorian calendar, January 1 of year 1 being day 1.
#[verifier::external_body]
fn num_days_from_ce(d: &Date) -> (r: i32)
    requires
        d.wf(),
    ensures
        r == d.day_number(),
{
    chrono::NaiveDate::from_ymd_opt(d.year, d.month, d.day).unwrap().num_days_from_ce()
}

pub fn is_leap(y: i32) -> (r: bool)
    ensures
        r == is_leap_year(y as int),
{
    // Shifting by a multiple of 400 keeps every divisibility tested here and
    // makes the value non-negative, where `%` agrees with its mathematical form.
    let v: i64 = y as i64 + 2147483600;
    v % 4 == 0 && (v % 100 != 0 || v % 400 == 0)
}

pub fn month_length(y: i32, m: u32) -> (r: u32)
    ensures
        r == days_in_month(y as int, m as int),
{
    if m == 2 {
        if is_leap(y) { 29 } else { 28 }
    } else if m == 4 || m == 6 || m == 9 || m == 11 {
        30
    } else {
        31
    }
}

impl Date {
    /// The date with the given year, month and day, if it exists.
    pub fn from_ymd(year: i32, month: u32, day: u32) -> (r: Option<Date>)
        ensures
            r matches Some(d) ==> d == (Date { year, month, day }),
            r is Some <==> (Date { year, month, day }).wf(),
    {
        if year < MIN_YEAR || year > MAX_YEAR || month < 1 || month > 12 || day < 1 {
            return None;
        }
        if day > month_length(year, month) {
            return None;
        }
        Some(Date { year, month, day })
    }

    /// Reads a date written `YYYY-MM-DD`; `None` where the text is no such date.
    pub fn parse(s: &str) -> (r: Option<Date>)
        ensures
            r == parsed_date(s@),
            r matches Some(d) ==> d.wf(),
    {
        parse_ymd(s)
    }

    /// Whether `self` comes strictly before `other`.
    pub fn is_before(&self, other: &Date) -> (r: bool)
        ensures
            r == date_lt(*self, *other),
    {
        self.year < other.year || (self.year == other.year && (self.month < other.month || (
        self.month == other.month && self.day < other.day)))
    }
}

/// Whole days from `today` until `target`; negative where `target` has passed.
pub fn days_until(target: &Date, today: &Date) -> (r: i64)
    requires
        target.wf(),
        today.wf(),
    ensures
        r == days_between(*target, *today),
{
    let t = num_days_from_ce(target);
    let d = num_days_from_ce(today);
    t as i64 - d as i64
}

/// A date is zero days away from itself, and swapping the two dates only
/// changes the sign of the distance.
pub proof fn lemma_days_between_antisymmetric(a: Date, b: Date)
    ensures
        days_between(a, a) == 0,
        days_between(a, b) == -days_between(b, a),
{
}

/// Days in the year `y`.
pub open spec fn days_in_year(y: int) -> int {
    if is_leap_year(y) { 366 } else { 365 }
}

proof fn lemma_days_before_month_grows(y: int, m1: int, m2: int)
    requires
        1 <= m1 < m2,
    ensures
        days_before_month(y, m1) + days_in_month(y, m1) <= days_before_month(y, m2),
    decreases m2 - m1,
{
    if m2 > m1 + 1 {
        lemma_days_before_month_grows(y, m1, m2 - 1);
    }
}

proof fn lemma_day_of_year_bounds(d: Date)
    requires
        d.wf(),
    ensures
        1 <= days_before_month(d.year as int, d.month as int) + d.day <= days_in_year(
            d.year as int,
        ),
{
    let y = d.year as int;
    let m = d.month as int;
    reveal_with_fuel(days_before_month, 13);
    if m < 12 {
        lemma_days_before_month_grows(y, m, 12);
    }
}

proof fn lemma_days_before_next_year(y: int)
    ensures
        days_before_year(y + 1) == days_before_year(y) + days_in_year(y),
{
}

proof fn lemma_days_before_year_grows(y1: int, y2: int)
    requires
        y1 < y2,
    ensures
        days_before_year(y1) + days_in_year(y1) <= days_before_year(y2),
    decreases y2 - y1,
{
    lemma_days_before_next_year(y1);
    if y2 > y1 + 1 {
        lemma_days_before_year_grows(y1 + 1, y2);
        lemma_days_before_next_year(y1 + 1);
    }
}

/// Chronological order and day numbers agree: of two existing dates, the
/// earlier one has the smaller day number.
pub proof fn lemma_earlier_has_smaller_day_number(a: Date, b: Date)
    requires
        a.wf(),
        b.wf(),
        date_lt(a, b),
    ensures
        a.day_number() < b.day_number(),
        days_between(b, a) >= 1,
{
    lemma_day_of_year_bounds(a);
    lemma_day_of_year_bounds(b);
    if a.year < b.year {
        lemma_days_before_year_grows(a.year as int, b.year as int);
    } else if a.month < b.month {
        lemma_days_before_month_grows(a.year as int, a.month as int, b.month as int);
    }
}

} // verus!
