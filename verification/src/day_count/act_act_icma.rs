//! Actual/Actual ICMA (ICMA Rule 251).
//!
//! The accrual days divided by `freq` times the days of the reference
//! (coupon) period: `days(start, end) / (freq × days(ref_start, ref_end))`.
use vstd::prelude::*;

use crate::date::{days_between_value, Date};
use crate::day_count::YearFraction;

verus! {

/// The ICMA fraction; `0 / 1` when `freq` is 0 or the reference period is
/// empty.
pub open spec fn value(start: Date, end: Date, ref_start: Date, ref_end: Date, freq: u8) -> YearFraction {
    if freq == 0 || days_between_value(ref_start, ref_end) == 0 {
        YearFraction::of(0, 1)
    } else {
        YearFraction::of(
            days_between_value(start, end),
            freq * days_between_value(ref_start, ref_end),
        )
    }
}

/// Accruing over the whole reference period gives `1 / freq`: the
/// fraction is `days / (freq × days)`.
pub proof fn lemma_full_period(start: Date, end: Date, freq: u8)
    requires
        freq != 0,
        start.day_number() != end.day_number(),
        i32::MIN <= end.day_number() - start.day_number() <= i32::MAX,
    ensures
        value(start, end, start, end, freq) == YearFraction::of(
            days_between_value(start, end),
            freq * days_between_value(start, end),
        ),
        value(start, end, start, end, freq).numerator * freq == value(
            start,
            end,
            start,
            end,
            freq,
        ).denominator,
{
    let d = days_between_value(start, end);
    assert(-600_000_000_000 <= freq * d <= 600_000_000_000) by (nonlinear_arith)
        requires
            0 <= freq <= 255,
            i32::MIN <= d <= i32::MAX,
    ;
    assert(d * freq == freq * d) by (nonlinear_arith);
}

/// Act/Act ICMA year fraction for the accrual `[start, end)` inside the
/// reference period `[ref_start, ref_end)` of a bond paying `freq` coupons a
/// year.
pub fn fraction(start: Date, end: Date, ref_start: Date, ref_end: Date, freq: u8) -> (r: YearFraction)
    requires
        start.wf(),
        end.wf(),
        ref_start.wf(),
        ref_end.wf(),
    ensures
        r == value(start, end, ref_start, ref_end, freq),
{
    if freq == 0 {
        return YearFraction { numerator: 0, denominator: 1 };
    }
    let ref_days = ref_start.days_between(ref_end);
    if ref_days == 0 {
        return YearFraction { numerator: 0, denominator: 1 };
    }
    let calc_days = start.days_between(end);
    let f = freq as i64;
    let rd = ref_days as i64;
    assert(-600_000_000_000 <= f * rd <= 600_000_000_000) by (nonlinear_arith)
        requires
            0 <= f <= 255,
            i32::MIN <= rd <= i32::MAX,
    ;
    YearFraction { numerator: calc_days as i64, denominator: f * rd }
}

} // verus!
