//! Actual/360 (ISDA 2006 §4.16(e)): actual days divided by 360.
use vstd::prelude::*;

use crate::date::{days_between_value, Date};
use crate::day_count::YearFraction;

verus! {

/// Act/360 year fraction: `days_between(start, end) / 360` (negative when
/// `end` precedes `start`).
pub fn fraction(start: Date, end: Date) -> (r: YearFraction)
    requires
        start.wf(),
        end.wf(),
    ensures
        r == YearFraction::of(days_between_value(start, end), 360),
{
    YearFraction { numerator: start.days_between(end) as i64, denominator: 360 }
}

} // verus!
