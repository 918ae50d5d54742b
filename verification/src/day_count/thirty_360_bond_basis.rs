//! 30/360 Bond Basis (ISDA 2006 §4.16(f)).
//!
//! `[360 (Y2 - Y1) + 30 (M2 - M1) + (D2 - D1)] / 360`, where `D1 = 31`
//! becomes 30, and `D2 = 31` becomes 30 only when (the adjusted) `D1` is 30.
use vstd::prelude::*;

use crate::date::Date;
use crate::day_count::{thirty_days, thirty_fits, YearFraction};

verus! {

/// Adjusted start day: 31 becomes 30.
pub open spec fn start_day(start: Date) -> int {
    if start.day() == 31 {
        30
    } else {
        start.day() as int
    }
}

/// Adjusted end day: 31 becomes 30 when the adjusted start day is 30.
pub open spec fn end_day(start: Date, end: Date) -> int {
    if end.day() == 31 && start_day(start) == 30 {
        30
    } else {
        end.day() as int
    }
}

/// The arithmetic of the convention fits in an `i32`.
pub open spec fn in_domain(start: Date, end: Date) -> bool {
    thirty_fits(
        start.year() as int,
        start.month() as int,
        start_day(start),
        end.year() as int,
        end.month() as int,
        end_day(start, end),
    )
}

/// The 30/360 Bond Basis fraction.
pub open spec fn value(start: Date, end: Date) -> YearFraction {
    YearFraction::of(
        thirty_days(
            start.year() as int,
            start.month() as int,
            start_day(start),
            end.year() as int,
            end.month() as int,
            end_day(start, end),
        ),
        360,
    )
}

/// 30/360 Bond Basis year fraction.
pub fn fraction(start: Date, end: Date) -> (r: YearFraction)
    requires
        in_domain(start, end),
    ensures
        r == value(start, end),
{
    let y1 = start.year();
    let m1 = start.month() as i32;
    let mut d1 = start.day() as i32;
    let y2 = end.year();
    let m2 = end.month() as i32;
    let mut d2 = end.day() as i32;
    if d1 == 31 {
        d1 = 30;
    }
    if d2 == 31 && d1 == 30 {
        d2 = 30;
    }
    let numerator = 360 * (y2 - y1) + 30 * (m2 - m1) + (d2 - d1);
    YearFraction { numerator: numerator as i64, denominator: 360 }
}

} // verus!
