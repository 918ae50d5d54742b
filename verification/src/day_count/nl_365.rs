//! NL/365 (No-Leap): actual days minus the 29 Februaries in the period,
//! divided by 365.
//!
//! The count is sign-preserving: `fraction(end, start)` is the negation of
//! `fraction(start, end)`.
use vstd::prelude::*;

use crate::civil::{days_from_civil, is_leap, lemma_day_order_is_lexicographic, lemma_year_length};
use crate::date::{days_between_value, Date};
use crate::day_count::YearFraction;

verus! {

/// Number of 29 Februaries of the years `y0..y1` lying in `[lo, hi)` (day
/// numbers).
pub open spec fn leap_days_in_years(lo: int, hi: int, y0: int, y1: int) -> int
    decreases y1 - y0,
{
    if y1 <= y0 {
        0
    } else {
        leap_days_in_years(lo, hi, y0, y1 - 1) + if is_leap(y1 - 1) && lo <= days_from_civil(
            y1 - 1,
            2,
            29,
        ) < hi {
            1int
        } else {
            0int
        }
    }
}

/// Number of 29 Februaries in `[lo, hi)`.
pub open spec fn leap_days_between(lo: Date, hi: Date) -> int {
    leap_days_in_years(lo.day_number(), hi.day_number(), lo.year() as int, hi.year() + 1)
}

/// The NL/365 fraction.
pub open spec fn value(start: Date, end: Date) -> YearFraction {
    let raw = days_between_value(start, end);
    if raw >= 0 {
        YearFraction::of(raw - leap_days_between(start, end), 365)
    } else {
        YearFraction::of(raw + leap_days_between(end, start), 365)
    }
}

/// An empty interval contains no 29 February.
pub proof fn lemma_no_leap_days_in_empty(d: Date)
    ensures
        leap_days_between(d, d) == 0,
{
    lemma_no_leap_days_in_years(d.day_number(), d.year() as int, d.year() + 1);
}

/// No 29 February lies in an empty range of day numbers.
proof fn lemma_no_leap_days_in_years(z: int, y0: int, y1: int)
    ensures
        leap_days_in_years(z, z, y0, y1) == 0,
    decreases y1 - y0,
{
    if y1 > y0 {
        lemma_no_leap_days_in_years(z, y0, y1 - 1);
    }
}

/// Each year contributes at most one 29 February.
pub proof fn lemma_leap_days_bounds(lo: int, hi: int, y0: int, y1: int)
    ensures
        0 <= leap_days_in_years(lo, hi, y0, y1),
        y0 <= y1 ==> leap_days_in_years(lo, hi, y0, y1) <= y1 - y0,
    decreases y1 - y0,
{
    if y1 > y0 {
        lemma_leap_days_bounds(lo, hi, y0, y1 - 1);
    }
}

/// From 1 January of one year to 1 January of the next, NL/365 counts 365
/// days: the 29 February of a leap year is left out.
pub proof fn lemma_whole_year(start: Date, end: Date)
    requires
        start.wf(),
        end.wf(),
        start.month() == 1 && start.day() == 1,
        end.month() == 1 && end.day() == 1,
        end.year() == start.year() + 1,
    ensures
        value(start, end) == YearFraction::of(365, 365),
{
    let y = start.year() as int;
    let s = start.day_number();
    let e = end.day_number();
    lemma_year_length(y);
    if is_leap(y) {
        lemma_day_order_is_lexicographic(y, 1, 1, y, 2, 29);
        lemma_day_order_is_lexicographic(y, 2, 29, y + 1, 1, 1);
    }
    if is_leap(y + 1) {
        lemma_day_order_is_lexicographic(y + 1, 1, 1, y + 1, 2, 29);
    }
    assert(leap_days_in_years(s, e, y, y) == 0);
    assert(leap_days_in_years(s, e, y, y + 1) == if is_leap(y) {
        1int
    } else {
        0int
    });
    assert(leap_days_in_years(s, e, y, y + 2) == leap_days_in_years(s, e, y, y + 1));
}

/// NL/365 year fraction.
pub fn fraction(start: Date, end: Date) -> (r: YearFraction)
    requires
        start.wf(),
        end.wf(),
    ensures
        r == value(start, end),
{
    let raw = start.days_between(end) as i64;
    let numerator = if raw >= 0 {
        raw - leap_days_in_interval(start, end)
    } else {
        raw + leap_days_in_interval(end, start)
    };
    YearFraction { numerator, denominator: 365 }
}

/// Counts the 29 Februaries in `[lo, hi)`.
fn leap_days_in_interval(lo: Date, hi: Date) -> (r: i64)
    requires
        lo.wf(),
        hi.wf(),
    ensures
        r == leap_days_between(lo, hi),
        0 <= r <= i32::MAX as int + 1,
{
    let mut count: i64 = 0;
    let y_start = lo.year() as i64;
    let y_end = hi.year() as i64;
    let mut y = y_start;
    while y <= y_end
        invariant
            lo.wf(),
            hi.wf(),
            y_start == lo.year(),
            y_end == hi.year(),
            y_start <= y <= y_end + 1 || (y == y_start && y_start > y_end + 1),
            0 <= count <= y - y_start,
            count == leap_days_in_years(lo.day_number(), hi.day_number(), y_start as int, y as int),
        decreases y_end + 1 - y,
    {
        if Date::is_leap_year(y as i32) {
            let feb29 = Date::ymd_unchecked(y as i32, 2, 29);
            if !feb29.is_before(lo) && feb29.is_before(hi) {
                count += 1;
            }
        }
        y += 1;
    }
    count
}

} // verus!
