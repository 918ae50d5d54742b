//! Actual/365 Fixed (ISDA 2006 §4.16(d)): actual days divided by 365.
use vstd::prelude::*;

use crate::date::{days_between_value, Date};
use crate::day_count::YearFraction;

verus! {

/// Act/365F year fraction: `days_between(start, end) / 365` (negative when
/// `end` precedes `start`).
pub fn fraction(start: Date, end: Date) -> (r: YearFraction)
    requires
        start.wf(),
        end.wf(),
    ensures
        r == YearFraction::of(days_between_value(start, end), 365),
{
    YearFraction { numerator: start.days_between(end) as i64, denominator: 365 }
}

} // verus!
