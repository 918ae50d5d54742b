//! Bus/252 (Brazilian convention): business days in `[start, end)` divided
//! by 252.
//!
//! The business-day predicate is supplied by the caller. The count walks
//! at most [`MAX_DAYS`] days; when `end` precedes `start` the result is the
//! negation of the forward fraction.
use vstd::prelude::*;

use crate::date::{day_in_range, lemma_at_day_number, lemma_wf_in_range, Date};
use crate::day_count::YearFraction;
use crate::roll::{computes, count_holding, holds_at, lemma_count_additive};

verus! {

/// Cap on the number of days the count walks.
pub const MAX_DAYS: u32 = 73_000;

/// Number of days of `[lo, hi)` (walking at most [`MAX_DAYS`] days) on
/// which `p` holds.
pub open spec fn business_days_counted(p: spec_fn(Date) -> bool, lo: Date, hi: Date) -> int {
    let n = hi.day_number() - lo.day_number();
    count_holding(
        p,
        lo.day_number(),
        if n < 73000 {
            n
        } else {
            73000
        },
    )
}

/// The Bus/252 fraction under the business-day predicate `p`.
pub open spec fn value(p: spec_fn(Date) -> bool, start: Date, end: Date) -> YearFraction {
    if start.day_number() <= end.day_number() {
        YearFraction::of(business_days_counted(p, start, end), 252)
    } else {
        YearFraction::of(-business_days_counted(p, end, start), 252)
    }
}

/// A count of `n` days is between 0 and `n`.
proof fn lemma_count_bounds(p: spec_fn(Date) -> bool, z: int, n: int)
    requires
        0 <= n,
    ensures
        0 <= count_holding(p, z, n) <= n,
    decreases n,
{
    if n > 0 {
        lemma_count_bounds(p, z, n - 1);
    }
}

/// Swapping the two dates negates the Bus/252 fraction.
pub proof fn lemma_swap_negates(p: spec_fn(Date) -> bool, start: Date, end: Date)
    requires
        start.wf(),
        end.wf(),
    ensures
        value(p, end, start) == value(p, start, end).negated(),
{
    Date::lemma_eq_day_number(start, end);
    if start.day_number() <= end.day_number() {
        let n = end.day_number() - start.day_number();
        lemma_count_bounds(p, start.day_number(), if n < 73000 { n } else { 73000 });
    } else {
        let n = start.day_number() - end.day_number();
        lemma_count_bounds(p, end.day_number(), if n < 73000 { n } else { 73000 });
    }
}

/// The Bus/252 numerator adds over a split of the period (within the
/// [`MAX_DAYS`] walk): for `a` not after `b` not after `c`, the count over
/// `[a, c)` is the count over `[a, b)` plus the count over `[b, c)`.
pub proof fn lemma_additive(p: spec_fn(Date) -> bool, a: Date, b: Date, c: Date)
    requires
        a.wf(),
        b.wf(),
        c.wf(),
        a.day_number() <= b.day_number() <= c.day_number(),
        c.day_number() - a.day_number() <= 73000,
    ensures
        value(p, a, c).numerator == value(p, a, b).numerator + value(p, b, c).numerator,
        value(p, a, c).denominator == 252,
{
    let za = a.day_number();
    let zb = b.day_number();
    let zc = c.day_number();
    lemma_count_additive(p, za, zb - za, zc - zb);
    lemma_count_bounds(p, za, zb - za);
    lemma_count_bounds(p, zb, zc - zb);
    lemma_count_bounds(p, za, zc - za);
}

/// A one-day period counts 1 when its day is a business day and 0
/// otherwise.
pub proof fn lemma_one_day(p: spec_fn(Date) -> bool, d: Date, next: Date)
    requires
        d.wf(),
        next.wf(),
        next.day_number() == d.day_number() + 1,
    ensures
        value(p, d, next) == YearFraction::of(if p(d) { 1 } else { 0 }, 252),
{
    lemma_wf_in_range(d);
    lemma_at_day_number(d.day_number(), d);
    assert(count_holding(p, d.day_number(), 0) == 0);
}

/// Bus/252 year fraction under the caller's business-day predicate: for
/// every predicate `p` that `is_business_day` computes, the result is
/// `value(p, start, end)`.
pub fn fraction(start: Date, end: Date, is_business_day: impl Fn(Date) -> bool) -> (r: YearFraction)
    requires
        start.wf(),
        end.wf(),
        forall|d: Date| d.wf() ==> call_requires(is_business_day, (d,)),
    ensures
        forall|p: spec_fn(Date) -> bool| computes(is_business_day, p) ==> r == value(p, start, end),
{
    if start == end {
        proof {
            Date::lemma_eq_day_number(start, end);
        }
        return YearFraction { numerator: 0, denominator: 252 };
    }
    if end.is_before(start) {
        let count = count_business_days(end, start, &is_business_day);
        return YearFraction { numerator: -(count as i64), denominator: 252 };
    }
    let count = count_business_days(start, end, &is_business_day);
    YearFraction { numerator: count as i64, denominator: 252 }
}

/// Counts the days of `[lo, hi)` on which `is_biz` holds, walking at most
/// [`MAX_DAYS`] days.
fn count_business_days<F: Fn(Date) -> bool>(lo: Date, hi: Date, is_biz: &F) -> (r: u32)
    requires
        lo.wf(),
        hi.wf(),
        lo.day_number() <= hi.day_number(),
        forall|d: Date| d.wf() ==> call_requires(*is_biz, (d,)),
    ensures
        forall|p: spec_fn(Date) -> bool|
            computes(*is_biz, p) ==> r == business_days_counted(p, lo, hi),
{
    let ghost z = lo.day_number();
    let mut count: u32 = 0;
    let mut d = lo;
    let mut steps: u32 = 0;
    proof {
        lemma_wf_in_range(lo);
        lemma_wf_in_range(hi);
        lemma_at_day_number(z, lo);
    }
    while d.is_before(hi)
        invariant
            lo.wf(),
            hi.wf(),
            day_in_range(hi.day_number()),
            day_in_range(z),
            z == lo.day_number(),
            z <= hi.day_number(),
            forall|d: Date| d.wf() ==> call_requires(*is_biz, (d,)),
            d.wf(),
            d.day_number() == z + steps,
            d == Date::at_day_number(z + steps),
            steps <= hi.day_number() - z,
            steps <= 73000,
            count <= steps,
            forall|p: spec_fn(Date) -> bool|
                computes(*is_biz, p) ==> count == count_holding(p, z, steps as int),
        decreases hi.day_number() - d.day_number(),
    {
        if steps >= MAX_DAYS {
            return count;
        }
        let b = is_biz(d);
        if b {
            count = count + 1;
        }
        proof {
            assert forall|p: spec_fn(Date) -> bool| computes(*is_biz, p) implies count
                == count_holding(p, z, steps + 1) by {
                assert(holds_at(p, z + steps) == b);
            }
            lemma_at_day_number(z + steps + 1, lo);
        }
        d = d.add_days(1);
        steps = steps + 1;
    }
    count
}

} // verus!
