use vstd::prelude::*;

use crate::clock::{local_year_month, LocalMonth};
use crate::error::StringError;

verus! {

/// Whether `year` is a leap year of the proleptic Gregorian calendar
/// (years numbered astronomically: year 0 is 1 BCE).
pub open spec fn is_leap_year(year: int) -> bool {
    (year % 4 == 0 && year % 100 != 0) || year % 400 == 0
}

/// The number of days of `month` (1 to 12) of `year`.
pub open spec fn days_in_month(year: int, month: int) -> int {
    if month == 2 {
        if is_leap_year(year) { 29 } else { 28 }
    } else if month == 4 || month == 6 || month == 9 || month == 11 {
        30
    } else {
        31
    }
}

/// The number of days of `year` that lie before the first day of `month`.
pub open spec fn days_before_month(year: int, month: int) -> int
    decreases month,
{
    if month <= 1 {
        0
    } else {
        days_before_month(year, month - 1) + days_in_month(year, month - 1)
    }
}

/// The number of days from 1 January of year 0 to 1 January of `year`
/// (negative for years before year 0).
pub open spec fn days_before_year(year: int) -> int {
    365 * year + (year + 3) / 4 - (year + 99) / 100 + (year + 399) / 400
}

/// The number of days from 1 January 1970 to the given day.
pub open spec fn days_since_epoch(year: int, month: int, day: int) -> int {
    days_before_year(year) - days_before_year(1970) + days_before_month(year, month) + day - 1
}

/// The Unix time of midnight UTC at the start of the given day.
pub open spec fn midnight_utc(year: int, month: int, day: int) -> int {
    86400 * days_since_epoch(year, month, day)
}

/// The first year of the range of dates that chrono represents.
pub open spec fn first_date_year() -> int {
    -262143
}

/// The last year of the range of dates that chrono represents.
pub open spec fn last_date_year() -> int {
    262142
}

/// Whether chrono has a date for the given year, month and day.
pub open spec fn date_exists(year: int, month: int, day: int) -> bool {
    &&& first_date_year() <= year <= last_date_year()
    &&& 1 <= month <= 12
    &&& 1 <= day <= days_in_month(year, month)
}

/// The month that follows `month` of `year`, as (year, month).
pub open spec fn next_month(year: int, month: int) -> (int, int) {
    if month < 12 {
        (year, month + 1)
    } else {
        (year + 1, 1)
    }
}

/// Unix times of the start of the month and of the start of the following month.
pub open spec fn month_bounds(year: int, month: int) -> (int, int) {
    (midnight_utc(year, month, 1), midnight_utc(next_month(year, month).0, next_month(year, month).1, 1))
}

/// Whether chrono has both the first day of the month and that of the next one.
pub open spec fn month_bounds_exist(year: int, month: int) -> bool {
    date_exists(year, month, 1) && date_exists(next_month(year, month).0, next_month(year, month).1, 1)
}

/// `chrono::NaiveDate::from_ymd_opt`. chrono documents that it returns `None`
/// exactly for an invalid month or day and for a year outside the range of its
/// dates; the contract says that `b` tells these cases apart.
#[verifier::external_body]
fn chrono_date_exists(year: i32, month: u32, day: u32) -> (b: bool)
    ensures
        b == date_exists(year as int, month as int, day as int),
{
    chrono::NaiveDate::from_ymd_opt(year, month, day).is_some()
}

/// `chrono::DateTime::<Utc>::timestamp` of midnight at the start of a day (the day
/// is first made with `chrono::NaiveDate::from_ymd_opt`, then joined with midnight
/// by `NaiveDateTime::new` and placed in UTC by `and_utc`). chrono documents the
/// result as the number of non-leap seconds since 1 January 1970 00:00 UTC, which
/// is what the contract states.
#[verifier::external_body]
fn chrono_midnight_utc(year: i32, month: u32, day: u32) -> (t: i64)
    requires
        date_exists(year as int, month as int, day as int),
    ensures
        t == midnight_utc(year as int, month as int, day as int),
{
    let date = chrono::NaiveDate::from_ymd_opt(year, month, day).unwrap_or_default();
    chrono::NaiveDateTime::new(date, chrono::NaiveTime::MIN).and_utc().timestamp()
}

/// The time range of a month's network metrics: from midnight UTC of its
/// first day up to midnight UTC of the first day of the next month.
#[derive(Debug, Clone, Copy, PartialEq, Eq)]
pub struct MonthPeriod {
    pub start: i64,
    pub end: i64,
}

/// The period of `month` of `year`. It fails with "none NaiveDate" when the first
/// day of the month is not a date, and with "None EndDate" when the first day
/// of the next month is not.
pub fn month_period(year: i32, month: u32) -> (r: Result<MonthPeriod, StringError>)
    ensures
        r is Ok <==> month_bounds_exist(year as int, month as int),
        !date_exists(year as int, month as int, 1) ==> (r matches Err(e) && e@
            == "none NaiveDate"@),
        date_exists(year as int, month as int, 1) && !month_bounds_exist(year as int, month as int)
            ==> (r matches Err(e) && e@ == "None EndDate"@),
        r matches Ok(p) ==> p.start == month_bounds(year as int, month as int).0 && p.end
            == month_bounds(year as int, month as int).1,
{
    if !chrono_date_exists(year, month, 1) {
        return Err(StringError::new("none NaiveDate"));
    }
    let (next_year, next_month) = if month < 12 {
        (year, month + 1)
    } else {
        (year + 1, 1)
    };
    if !chrono_date_exists(next_year, next_month, 1) {
        return Err(StringError::new("None EndDate"));
    }
    let start = chrono_midnight_utc(year, month, 1);
    let end = chrono_midnight_utc(next_year, next_month, 1);
    Ok(MonthPeriod { start, end })
}

/// What `month_period` returns for `month` of `year`: `r` is its result.
pub open spec fn is_month_period(year: int, month: int, r: Result<MonthPeriod, StringError>) -> bool {
    &&& (r is Ok <==> month_bounds_exist(year, month))
    &&& (!date_exists(year, month, 1) ==> (r matches Err(e) && e@ == "none NaiveDate"@))
    &&& (date_exists(year, month, 1) && !month_bounds_exist(year, month) ==> (r matches Err(e)
        && e@ == "None EndDate"@))
    &&& (r matches Ok(p) ==> p.start == month_bounds(year, month).0 && p.end == month_bounds(
        year,
        month,
    ).1)
}

/// The current month of the machine's local clock, as read, and its period.
#[derive(Debug)]
pub struct CurrentMonth {
    /// The reading of the clock.
    pub reading: LocalMonth,
    /// The year read.
    pub year: i32,
    /// The month read, one of 1 to 12.
    pub month: u32,
    pub period: Result<MonthPeriod, StringError>,
}

/// Reads the year and month of the machine's local clock and gives the
/// period of that month: the year and month of the result are those of the
/// reading it carries, which only the clock gives.
pub fn current_month_period() -> (r: CurrentMonth)
    ensures
        r.year == r.reading.read_year(),
        r.month == r.reading.read_month(),
        1 <= r.month <= 12,
        is_month_period(r.year as int, r.month as int, r.period),
{
    let reading = local_year_month();
    let year = reading.year();
    let month = reading.month();
    let period = month_period(year, month);
    CurrentMonth { reading, year, month, period }
}

proof fn lemma_div_step(x: int, d: int)
    requires
        d > 0,
    ensures
        (x + d) / d - (x + d - 1) / d == if x % d == 0 { 1int } else { 0int },
{
    let q = x / d;
    let r = x % d;
    vstd::arithmetic::div_mod::lemma_fundamental_div_mod(x, d);
    assert(x == q * d + r && 0 <= r < d) by (nonlinear_arith)
        requires
            x == d * (x / d) + x % d,
            0 <= x % d < d,
            q == x / d,
            r == x % d,
    ;
    assert(x + d == (q + 1) * d + r) by (nonlinear_arith)
        requires
            x == q * d + r,
    ;
    vstd::arithmetic::div_mod::lemma_fundamental_div_mod_converse(x + d, d, q + 1, r);
    if r == 0 {
        assert(x + d - 1 == q * d + (d - 1)) by (nonlinear_arith)
            requires
                x == q * d + r,
                r == 0,
        ;
        vstd::arithmetic::div_mod::lemma_fundamental_div_mod_converse(x + d - 1, d, q, d - 1);
    } else {
        assert(x + d - 1 == (q + 1) * d + (r - 1)) by (nonlinear_arith)
            requires
                x == q * d + r,
        ;
        vstd::arithmetic::div_mod::lemma_fundamental_div_mod_converse(
            x + d - 1,
            d,
            q + 1,
            r - 1,
        );
    }
}

proof fn lemma_year_length(year: int)
    ensures
        days_before_year(year + 1) - days_before_year(year) == if is_leap_year(year) {
            366int
        } else {
            365int
        },
{
    lemma_div_step(year, 4);
    lemma_div_step(year, 100);
    lemma_div_step(year, 400);
}

/// A month's period lasts exactly as many days as the month has: its end is
/// later than its start by 86400 seconds per day of the month.
pub proof fn lemma_period_spans_month(year: int, month: int)
    requires
        1 <= month <= 12,
    ensures
        month_bounds(year, month).1 - month_bounds(year, month).0 == 86400 * days_in_month(
            year,
            month,
        ),
        month_bounds(year, month).0 < month_bounds(year, month).1,
{
    reveal_with_fuel(days_before_month, 13);
    lemma_year_length(year);
}

/// Periods of consecutive months meet: each one ends where the next begins.
pub proof fn lemma_periods_meet(year: int, month: int)
    requires
        1 <= month <= 12,
    ensures
        month_bounds(year, month).1 == month_bounds(
            next_month(year, month).0,
            next_month(year, month).1,
        ).0,
{
}

} // verus!
