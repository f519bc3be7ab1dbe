//! The proleptic Gregorian calendar in UTC, and the clock.
//!
//! Instants are Unix timestamps in whole seconds. The calendar itself is
//! stated here as mathematics; the conversions between dates and timestamps
//! are made by `chrono`.
use vstd::prelude::*;
use vstd::arithmetic::div_mod::lemma_fundamental_div_mod_converse;

use chrono::Datelike;

verus! {

/// The first year that `chrono` can represent in full.
pub const MIN_YEAR: i32 = -262143;

/// The last year that `chrono` can represent.
pub const MAX_YEAR: i32 = 262142;

pub open spec fn is_leap_year(y: int) -> bool {
    y % 4 == 0 && (y % 100 != 0 || y % 400 == 0)
}

pub open spec fn days_in_month(y: int, m: int) -> int {
    if m == 2 {
        if is_leap_year(y) {
            29
        } else {
            28
        }
    } else if m == 4 || m == 6 || m == 9 || m == 11 {
        30
    } else {
        31
    }
}

pub open spec fn is_valid_date(y: int, m: int, d: int) -> bool {
    1 <= m <= 12 && 1 <= d <= days_in_month(y, m)
}

/// The number of leap years in `..y`, up to a constant.
pub open spec fn leap_years_before(y: int) -> int {
    (y - 1) / 4 - (y - 1) / 100 + (y - 1) / 400
}

/// Days from 1970-01-01 to the first day of year `y`.
pub open spec fn days_before_year(y: int) -> int {
    365 * (y - 1970) + leap_years_before(y) - leap_years_before(1970)
}

/// Days from the first of January to the first day of month `m`.
pub open spec fn days_before_month(y: int, m: int) -> int
    decreases m,
{
    if m <= 1 {
        0
    } else {
        days_before_month(y, m - 1) + days_in_month(y, m - 1)
    }
}

/// Days from 1970-01-01 to the given date.
pub open spec fn epoch_day(y: int, m: int, d: int) -> int {
    days_before_year(y) + days_before_month(y, m) + d - 1
}

/// The Unix timestamp of the given date at the given hour, UTC.
pub open spec fn utc_timestamp(y: int, m: int, d: int, h: int) -> int {
    epoch_day(y, m, d) * 86400 + h * 3600
}

pub open spec fn next_month(y: int, m: int) -> (int, int) {
    if m == 12 {
        (y + 1, 1)
    } else {
        (y, m + 1)
    }
}

pub open spec fn prev_month(y: int, m: int) -> (int, int) {
    if m == 1 {
        (y - 1, 12)
    } else {
        (y, m - 1)
    }
}

/// The day before a date.
pub open spec fn previous_day(y: int, m: int, d: int) -> (int, int, int) {
    if d > 1 {
        (y, m, d - 1)
    } else {
        let p = prev_month(y, m);
        (p.0, p.1, days_in_month(p.0, p.1))
    }
}

/// Whether instant `t` falls in month `m` of year `y`.
pub open spec fn month_contains(y: int, m: int, t: int) -> bool {
    &&& 1 <= m <= 12
    &&& utc_timestamp(y, m, 1, 0) <= t
    &&& t < utc_timestamp(next_month(y, m).0, next_month(y, m).1, 1, 0)
}

/// The earliest instant `chrono` represents.
pub open spec fn min_instant() -> int {
    utc_timestamp(MIN_YEAR as int, 1, 1, 0)
}

/// The latest instant `chrono` represents.
pub open spec fn max_instant() -> int {
    utc_timestamp(MAX_YEAR as int, 12, 31, 0) + 86399
}

/// Whether `t` is an instant `chrono` represents.
pub open spec fn is_representable(t: int) -> bool {
    min_instant() <= t <= max_instant()
}

/// The clock's current instant.
///
/// Trusted: calls `chrono::Utc::now` and `DateTime::timestamp`. The promise
/// is that the instant is one that `chrono` can represent, which holds of
/// every `DateTime`, and not before 1970 (`Utc::now` panics on a system
/// clock set before the Unix epoch); what time it is is not stated.
#[verifier::external_body]
pub(crate) fn now_timestamp() -> (t: i64)
    ensures
        is_representable(t as int),
        t >= 0,
{
    chrono::Utc::now().timestamp()
}

/// The year and month of an instant.
///
/// Trusted: calls `chrono::DateTime::from_timestamp` and reads the year and
/// month of `date_naive()`; the contract says the instant lies in that month.
#[verifier::external_body]
pub(crate) fn year_month_of(t: i64) -> (r: (i32, u32))
    requires
        is_representable(t as int),
    ensures
        MIN_YEAR <= r.0 <= MAX_YEAR,
        month_contains(r.0 as int, r.1 as int, t as int),
{
    let date = chrono::DateTime::from_timestamp(t, 0).unwrap().date_naive();
    (date.year(), date.month())
}

/// The instant at the start of the given hour of a date.
///
/// Trusted: builds the date with `NaiveDate::from_ymd_opt` and the time with
/// `NaiveTime::from_hms_opt`, joins them with `NaiveDateTime::new`, and reads
/// `and_utc().timestamp()`, the number of non-leap seconds since 1970-01-01.
#[verifier::external_body]
pub(crate) fn timestamp_at(y: i32, m: u32, d: u32, h: u32) -> (t: i64)
    requires
        MIN_YEAR <= y <= MAX_YEAR,
        is_valid_date(y as int, m as int, d as int),
        h < 24,
    ensures
        t == utc_timestamp(y as int, m as int, d as int, h as int),
{
    let date = chrono::NaiveDate::from_ymd_opt(y, m, d).unwrap();
    let time = chrono::NaiveTime::from_hms_opt(h, 0, 0).unwrap();
    chrono::NaiveDateTime::new(date, time).and_utc().timestamp()
}

/// The day before a date.
///
/// Trusted: calls `NaiveDate::pred_opt`; the contract states the calendar
/// rule for the previous day.
#[verifier::external_body]
pub(crate) fn day_before(y: i32, m: u32, d: u32) -> (r: (i32, u32, u32))
    requires
        MIN_YEAR <= y <= MAX_YEAR,
        is_valid_date(y as int, m as int, d as int),
        !(y == MIN_YEAR && m == 1 && d == 1),
    ensures
        (r.0 as int, r.1 as int, r.2 as int) == previous_day(y as int, m as int, d as int),
{
    let date = chrono::NaiveDate::from_ymd_opt(y, m, d).unwrap().pred_opt().unwrap();
    (date.year(), date.month(), date.day())
}

/// The index of a month, counting from January of year 0.
pub open spec fn month_index(y: int, m: int) -> int {
    y * 12 + m - 1
}

/// The year and month of a month index.
pub open spec fn month_at(k: int) -> (int, int) {
    (k / 12, k % 12 + 1)
}

/// The first day of the month with index `k`.
pub open spec fn month_start_day(k: int) -> int {
    epoch_day(month_at(k).0, month_at(k).1, 1)
}

pub proof fn lemma_month_at_index(y: int, m: int)
    requires
        1 <= m <= 12,
    ensures
        month_at(month_index(y, m)) == (y, m),
{
    lemma_fundamental_div_mod_converse(month_index(y, m), 12, y, m - 1);
}

pub proof fn lemma_month_at_valid(k: int)
    ensures
        1 <= month_at(k).1 <= 12,
        month_index(month_at(k).0, month_at(k).1) == k,
{
    assert(k == 12 * (k / 12) + k % 12) by {
        vstd::arithmetic::div_mod::lemma_fundamental_div_mod(k, 12);
    }
    vstd::arithmetic::div_mod::lemma_mod_bound(k, 12);
}

pub proof fn lemma_next_month_index(y: int, m: int)
    requires
        1 <= m <= 12,
    ensures
        month_index(next_month(y, m).0, next_month(y, m).1) == month_index(y, m) + 1,
        1 <= next_month(y, m).1 <= 12,
        prev_month(next_month(y, m).0, next_month(y, m).1) == (y, m),
{
}

/// The number of days of a month.
pub fn days_in_month_exec(y: i32, m: u32) -> (d: u32)
    requires
        1 <= m <= 12,
    ensures
        d == days_in_month(y as int, m as int),
{
    if m == 2 {
        if y % 4 == 0 && (y % 100 != 0 || y % 400 == 0) {
            29
        } else {
            28
        }
    } else if m == 4 || m == 6 || m == 9 || m == 11 {
        30
    } else {
        31
    }
}

pub proof fn lemma_days_in_month_bounds(y: int, m: int)
    ensures
        28 <= days_in_month(y, m) <= 31,
{
}

proof fn lemma_floor_div_step(x: int, d: int)
    requires
        d > 0,
    ensures
        x / d - (x - 1) / d == (if x % d == 0 {
            1int
        } else {
            0int
        }),
{
    vstd::arithmetic::div_mod::lemma_fundamental_div_mod(x, d);
    vstd::arithmetic::div_mod::lemma_mod_bound(x, d);
    let q = x / d;
    let r = x % d;
    assert((q - 1) * d == q * d - d) by (nonlinear_arith);
    assert(d * q == q * d) by (nonlinear_arith);
    if r == 0 {
        lemma_fundamental_div_mod_converse(x - 1, d, q - 1, d - 1);
    } else {
        lemma_fundamental_div_mod_converse(x - 1, d, q, r - 1);
    }
}

proof fn lemma_century_divisible_by_four(y: int)
    requires
        y % 100 == 0,
    ensures
        y % 4 == 0,
{
    vstd::arithmetic::div_mod::lemma_fundamental_div_mod(y, 100);
    let q = y / 100;
    lemma_fundamental_div_mod_converse(y, 4, q * 25, 0);
}

proof fn lemma_quad_century_divisible_by_century(y: int)
    requires
        y % 400 == 0,
    ensures
        y % 100 == 0,
{
    vstd::arithmetic::div_mod::lemma_fundamental_div_mod(y, 400);
    let q = y / 400;
    lemma_fundamental_div_mod_converse(y, 100, q * 4, 0);
}

/// A year has 365 days, 366 in a leap year.
pub proof fn lemma_days_in_year(y: int)
    ensures
        days_before_year(y + 1) == days_before_year(y) + (if is_leap_year(y) {
            366int
        } else {
            365int
        }),
{
    lemma_floor_div_step(y, 4);
    lemma_floor_div_step(y, 100);
    lemma_floor_div_step(y, 400);
    if y % 400 == 0 {
        lemma_quad_century_divisible_by_century(y);
    }
    if y % 100 == 0 {
        lemma_century_divisible_by_four(y);
    }
}

proof fn lemma_days_before_december(y: int)
    ensures
        days_before_month(y, 12) + 31 == (if is_leap_year(y) {
            366int
        } else {
            365int
        }),
{
    reveal_with_fuel(days_before_month, 12);
}

/// The first day of the next month follows the last day of this one.
pub proof fn lemma_next_month_start(y: int, m: int)
    requires
        1 <= m <= 12,
    ensures
        epoch_day(next_month(y, m).0, next_month(y, m).1, 1) == epoch_day(y, m, 1) + days_in_month(
            y,
            m,
        ),
{
    if m == 12 {
        lemma_days_in_year(y);
        lemma_days_before_december(y);
    }
}

/// Consecutive months start at least 28 days apart.
pub proof fn lemma_month_start_step(k: int)
    ensures
        month_start_day(k + 1) == month_start_day(k) + days_in_month(month_at(k).0, month_at(k).1),
        month_start_day(k + 1) >= month_start_day(k) + 28,
{
    lemma_month_at_valid(k);
    let (y, m) = month_at(k);
    lemma_next_month_start(y, m);
    lemma_next_month_index(y, m);
    let (ny, nm) = next_month(y, m);
    lemma_month_at_index(ny, nm);
    lemma_days_in_month_bounds(y, m);
}

/// Later months start later: 28 days per month at least.
pub proof fn lemma_month_start_monotone(k1: int, k2: int)
    requires
        k1 <= k2,
    ensures
        month_start_day(k1) + 28 * (k2 - k1) <= month_start_day(k2),
    decreases k2 - k1,
{
    if k1 < k2 {
        lemma_month_start_monotone(k1, k2 - 1);
        lemma_month_start_step(k2 - 1);
    }
}

/// The first day of a month, through its index.
pub proof fn lemma_month_start_of(y: int, m: int)
    requires
        1 <= m <= 12,
    ensures
        month_start_day(month_index(y, m)) == epoch_day(y, m, 1),
{
    lemma_month_at_index(y, m);
}

/// An instant lies in one month only.
pub proof fn lemma_month_unique(y1: int, m1: int, y2: int, m2: int, t: int)
    requires
        month_contains(y1, m1, t),
        month_contains(y2, m2, t),
    ensures
        y1 == y2 && m1 == m2,
{
    let k1 = month_index(y1, m1);
    let k2 = month_index(y2, m2);
    lemma_month_start_of(y1, m1);
    lemma_month_start_of(y2, m2);
    lemma_next_month_index(y1, m1);
    lemma_next_month_index(y2, m2);
    lemma_month_start_of(next_month(y1, m1).0, next_month(y1, m1).1);
    lemma_month_start_of(next_month(y2, m2).0, next_month(y2, m2).1);
    if k1 < k2 {
        lemma_month_start_monotone(k1 + 1, k2);
    } else if k2 < k1 {
        lemma_month_start_monotone(k2 + 1, k1);
    } else {
        lemma_month_at_index(y1, m1);
        lemma_month_at_index(y2, m2);
    }
}

/// A later month starts no earlier than the month after an earlier one.
pub proof fn lemma_month_order(y1: int, m1: int, y2: int, m2: int)
    requires
        1 <= m1 <= 12,
        1 <= m2 <= 12,
        month_index(y1, m1) < month_index(y2, m2),
    ensures
        utc_timestamp(next_month(y1, m1).0, next_month(y1, m1).1, 1, 0) <= utc_timestamp(y2, m2, 1, 0),
{
    lemma_next_month_index(y1, m1);
    lemma_month_start_of(next_month(y1, m1).0, next_month(y1, m1).1);
    lemma_month_start_of(y2, m2);
    lemma_month_start_monotone(month_index(y1, m1) + 1, month_index(y2, m2));
}

proof fn lemma_find_month(k: int, t: int) -> (j: int)
    requires
        month_start_day(k) * 86400 <= t,
    ensures
        j >= k,
        month_start_day(j) * 86400 <= t < month_start_day(j + 1) * 86400,
    decreases t - month_start_day(k) * 86400,
{
    lemma_month_start_step(k);
    if t < month_start_day(k + 1) * 86400 {
        k
    } else {
        lemma_find_month(k + 1, t)
    }
}

/// An instant after the start of a month lies in that month or a later one.
pub proof fn lemma_month_exists(y0: int, m0: int, t: int)
    requires
        1 <= m0 <= 12,
        utc_timestamp(y0, m0, 1, 0) <= t,
    ensures
        month_contains(month_of(t).0, month_of(t).1, t),
        month_index(month_of(t).0, month_of(t).1) >= month_index(y0, m0),
{
    lemma_month_start_of(y0, m0);
    let j = lemma_find_month(month_index(y0, m0), t);
    lemma_month_at_valid(j);
    let (y, m) = month_at(j);
    lemma_month_start_of(y, m);
    lemma_next_month_index(y, m);
    lemma_month_start_of(next_month(y, m).0, next_month(y, m).1);
    assert(month_contains(y, m, t));
    lemma_month_of(y, m, t);
}

/// The month in which an instant lies.
pub open spec fn month_of(t: int) -> (int, int) {
    choose|ym: (int, int)| month_contains(ym.0, ym.1, t)
}

pub proof fn lemma_month_of(y: int, m: int, t: int)
    requires
        month_contains(y, m, t),
    ensures
        month_of(t) == (y, m),
{
    assert(month_contains((y, m).0, (y, m).1, t));
    let ym = month_of(t);
    assert(month_contains(ym.0, ym.1, t));
    lemma_month_unique(ym.0, ym.1, y, m, t);
}

} // verus!
