//! 1/1: the year fraction is 1 whatever the interval.
use vstd::prelude::*;

use crate::date::Date;
use crate::day_count::YearFraction;

verus! {

/// 1/1 year fraction: always `1 / 1`, even on a zero-length interval.
pub fn fraction(start: Date, end: Date) -> (r: YearFraction)
    ensures
        r == YearFraction::of(1, 1),
{
    YearFraction { numerator: 1, denominator: 1 }
}

} // verus!
