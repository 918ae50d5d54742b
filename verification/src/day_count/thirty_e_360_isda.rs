//! 30E/360 ISDA (ISDA 2006 §4.16(h)).
//!
//! `[360 (Y2 - Y1) + 30 (M2 - M1) + (D2 - D1)] / 360`, where `D1` becomes
//! 30 when it is the last day of its month, and `D2` becomes 30 when it is
//! the last day of its month — except when the end date is the maturity
//! date and falls in February.
use vstd::prelude::*;

use crate::civil::month_len;
use crate::date::Date;
use crate::day_count::{thirty_days, thirty_e_360, thirty_fits, YearFraction};

verus! {

/// Adjusted start day: the last day of the month becomes 30.
pub open spec fn start_day(start: Date) -> int {
    if start.day() == month_len(start.year() as int, start.month() as int) {
        30
    } else {
        start.day() as int
    }
}

/// Adjusted end day: the last day of the month becomes 30, unless the end
/// date is the maturity date in February.
pub open spec fn end_day(end: Date, end_is_maturity: bool) -> int {
    if end.day() == month_len(end.year() as int, end.month() as int) && !(end.month() == 2
        && end_is_maturity) {
        30
    } else {
        end.day() as int
    }
}

/// The arithmetic of the convention fits in an `i32`.
pub open spec fn in_domain(start: Date, end: Date, end_is_maturity: bool) -> bool {
    thirty_fits(
        start.year() as int,
        start.month() as int,
        start_day(start),
        end.year() as int,
        end.month() as int,
        end_day(end, end_is_maturity),
    )
}

/// The 30E/360 ISDA fraction.
pub open spec fn value(start: Date, end: Date, end_is_maturity: bool) -> YearFraction {
    YearFraction::of(
        thirty_days(
            start.year() as int,
            start.month() as int,
            start_day(start),
            end.year() as int,
            end.month() as int,
            end_day(end, end_is_maturity),
        ),
        360,
    )
}

/// The maturity flag only matters for an end date on the last day of
/// February. For any other end date both flags give the same fraction; at
/// the end of February, the non-maturity fraction counts the end day as 30,
/// that is `30 - end.day()` more days than the maturity fraction.
pub proof fn lemma_maturity_only_matters_in_february(start: Date, end: Date)
    requires
        start.wf(),
        end.wf(),
    ensures
        !(end.month() == 2 && end.day() == month_len(end.year() as int, 2)) ==> value(
            start,
            end,
            true,
        ) == value(start, end, false),
        end.month() == 2 && end.day() == month_len(end.year() as int, 2) ==> value(
            start,
            end,
            false,
        ).numerator == value(start, end, true).numerator + (30 - end.day()),
{
    lemma_thirty_days_bounds(start, end, true);
    lemma_thirty_days_bounds(start, end, false);
}

/// An end date on the last day of a month other than February counts as
/// the 30th of that month, whatever the maturity flag: the fraction to it
/// equals the fraction to the 30th of the same month.
pub proof fn lemma_month_end_counts_as_thirtieth(
    start: Date,
    end: Date,
    thirtieth: Date,
    end_is_maturity: bool,
    thirtieth_is_maturity: bool,
)
    requires
        start.wf(),
        end.wf(),
        thirtieth.wf(),
        end.month() != 2,
        end.day() == month_len(end.year() as int, end.month() as int),
        thirtieth.year() == end.year(),
        thirtieth.month() == end.month(),
        thirtieth.day() == 30,
    ensures
        value(start, end, end_is_maturity) == value(start, thirtieth, thirtieth_is_maturity),
{
}

/// 30E/360 ISDA and 30E/360 differ only at the end of February: when
/// neither date is the last day of February, the two fractions are equal,
/// whatever the maturity flag.
pub proof fn lemma_agrees_with_eurobond_off_february(
    start: Date,
    end: Date,
    end_is_maturity: bool,
)
    requires
        start.wf(),
        end.wf(),
        !(start.month() == 2 && start.day() == month_len(start.year() as int, 2)),
        !(end.month() == 2 && end.day() == month_len(end.year() as int, 2)),
    ensures
        value(start, end, end_is_maturity) == thirty_e_360::value(start, end),
{
}

/// The day count of the convention on well-formed dates stays within
/// `360 × (|Y2 - Y1| + 2)`.
proof fn lemma_thirty_days_bounds(start: Date, end: Date, end_is_maturity: bool)
    requires
        start.wf(),
        end.wf(),
    ensures
        -360 * 4_294_967_296 <= thirty_days(
            start.year() as int,
            start.month() as int,
            start_day(start),
            end.year() as int,
            end.month() as int,
            end_day(end, end_is_maturity),
        ) <= 360 * 4_294_967_296,
{
}

/// 30E/360 ISDA year fraction; `end_is_maturity` tells whether `end` is the
/// maturity date of the instrument.
pub fn fraction(start: Date, end: Date, end_is_maturity: bool) -> (r: YearFraction)
    requires
        in_domain(start, end, end_is_maturity),
    ensures
        r == value(start, end, end_is_maturity),
{
    let y1 = start.year();
    let m1 = start.month();
    let mut d1 = start.day();
    let y2 = end.year();
    let m2 = end.month();
    let mut d2 = end.day();
    if d1 == Date::days_in_month(y1, m1) {
        d1 = 30;
    }
    if d2 == Date::days_in_month(y2, m2) && !(m2 == 2 && end_is_maturity) {
        d2 = 30;
    }
    let numerator = 360 * (y2 - y1) + 30 * (m2 as i32 - m1 as i32) + (d2 as i32 - d1 as i32);
    YearFraction { numerator: numerator as i64, denominator: 360 }
}

} // verus!
