//! Actual/365L: actual days divided by 366 when the period contains a
//! 29 February, by 365 otherwise.
//!
//! The period is the half-open interval between the two dates taken in
//! increasing order, so `fraction(end, start)` is the negation of
//! `fraction(start, end)`.
use vstd::prelude::*;

use crate::civil::{days_from_civil, is_leap, lemma_day_order_is_lexicographic, lemma_year_length};
use crate::date::{days_between_value, lemma_chronological_is_lexicographic, Date};
use crate::day_count::YearFraction;

verus! {

/// `[lower, upper)` contains a 29 February.
pub open spec fn contains_leap_day(lower: Date, upper: Date) -> bool {
    exists|y: int|
        lower.year() <= y <= upper.year() && is_leap(y) && lower.day_number() <= #[trigger] days_from_civil(
            y,
            2,
            29,
        ) < upper.day_number()
}

/// The Act/365L fraction.
pub open spec fn value(start: Date, end: Date) -> YearFraction {
    let leap = if start.day_number() <= end.day_number() {
        contains_leap_day(start, end)
    } else {
        contains_leap_day(end, start)
    };
    YearFraction::of(
        days_between_value(start, end),
        if leap {
            366
        } else {
            365
        },
    )
}

/// From 1 January of one year to 1 January of the next, Act/365L divides
/// the length of the year by itself: 366 / 366 for a leap year, 365 / 365
/// otherwise.
pub proof fn lemma_whole_year(start: Date, end: Date)
    requires
        start.wf(),
        end.wf(),
        start.month() == 1 && start.day() == 1,
        end.month() == 1 && end.day() == 1,
        end.year() == start.year() + 1,
    ensures
        value(start, end) == (if is_leap(start.year() as int) {
            YearFraction::of(366, 366)
        } else {
            YearFraction::of(365, 365)
        }),
{
    let y = start.year() as int;
    lemma_year_length(y);
    if is_leap(y) {
        lemma_day_order_is_lexicographic(y, 1, 1, y, 2, 29);
        lemma_day_order_is_lexicographic(y, 2, 29, y + 1, 1, 1);
        assert(contains_leap_day(start, end));
    } else {
        if is_leap(y + 1) {
            lemma_day_order_is_lexicographic(y + 1, 1, 1, y + 1, 2, 29);
        }
        assert(!contains_leap_day(start, end));
    }
}

/// Act/365L year fraction.
pub fn fraction(start: Date, end: Date) -> (r: YearFraction)
    requires
        start.wf(),
        end.wf(),
    ensures
        r == value(start, end),
{
    let numerator = start.days_between(end) as i64;
    let denominator: i64 = if period_contains_leap_day(start, end) {
        366
    } else {
        365
    };
    YearFraction { numerator, denominator }
}

/// Returns `true` if the half-open interval between the two dates (taken in
/// increasing order) contains a 29 February.
fn period_contains_leap_day(start: Date, end: Date) -> (r: bool)
    requires
        start.wf(),
        end.wf(),
    ensures
        r == if start.day_number() <= end.day_number() {
            contains_leap_day(start, end)
        } else {
            contains_leap_day(end, start)
        },
{
    let (lower, upper) = if !end.is_before(start) {
        (start, end)
    } else {
        (end, start)
    };
    proof {
        lemma_chronological_is_lexicographic(upper, lower);
    }
    let y_lo = lower.year() as i64;
    let y_hi = upper.year() as i64;
    let mut y = y_lo;
    while y <= y_hi
        invariant
            lower.wf(),
            upper.wf(),
            start.day_number() <= end.day_number() ==> lower == start && upper == end,
            !(start.day_number() <= end.day_number()) ==> lower == end && upper == start,
            y_lo == lower.year(),
            y_hi == upper.year(),
            y_lo <= y <= y_hi + 1,
            forall|k: int|
                y_lo <= k < y ==> !(is_leap(k) && lower.day_number() <= #[trigger] days_from_civil(
                    k,
                    2,
                    29,
                ) < upper.day_number()),
        decreases y_hi + 1 - y,
    {
        if Date::is_leap_year(y as i32) {
            let feb29 = Date::ymd_unchecked(y as i32, 2, 29);
            if !feb29.is_before(lower) && feb29.is_before(upper) {
                proof {
                    assert(feb29.day_number() == days_from_civil(y as int, 2, 29));
                }
                return true;
            }
        }
        y += 1;
    }
    false
}

} // verus!
