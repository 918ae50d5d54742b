//! Actual/Actual ISDA (ISDA 2006 §4.16(b)).
//!
//! The interval `[start, end)` is split at each 1 January; the days falling
//! in a leap year are divided by 366 and the others by 365, and the parts
//! are summed. When `end` precedes `start` the result is the negation of
//! the forward fraction.
//!
//! Within one year the fraction is `days / 365` or `days / 366`; across
//! years it is returned over the common denominator `365 × 366`.
use vstd::prelude::*;

use crate::civil::{days_from_civil, is_leap, lemma_day_order_is_lexicographic, lemma_year_length};
use crate::date::{lemma_chronological_is_lexicographic, Date};
use crate::day_count::YearFraction;

verus! {

/// Day number of 1 January of `y`.
pub open spec fn jan1(y: int) -> int {
    days_from_civil(y, 1, 1)
}

/// Number of days of `[s, e)` (day numbers) falling in year `y`.
pub open spec fn portion(s: int, e: int, y: int) -> int {
    let a = if s > jan1(y) {
        s
    } else {
        jan1(y)
    };
    let b = if e < jan1(y + 1) {
        e
    } else {
        jan1(y + 1)
    };
    if b > a {
        b - a
    } else {
        0
    }
}

/// Days of `[s, e)` in the years `y0..y1`, as `(days in non-leap years,
/// days in leap years)`.
pub open spec fn split(s: int, e: int, y0: int, y1: int) -> (int, int)
    decreases y1 - y0,
{
    if y1 <= y0 {
        (0, 0)
    } else {
        let (nl, l) = split(s, e, y0, y1 - 1);
        if is_leap(y1 - 1) {
            (nl, l + portion(s, e, y1 - 1))
        } else {
            (nl + portion(s, e, y1 - 1), l)
        }
    }
}

/// Each year contributes between 0 and 366 days to either part of the
/// split.
pub proof fn lemma_split_bounds(s: int, e: int, y0: int, y1: int)
    requires
        y0 <= y1,
    ensures
        0 <= split(s, e, y0, y1).0 <= 366 * (y1 - y0),
        0 <= split(s, e, y0, y1).1 <= 366 * (y1 - y0),
    decreases y1 - y0,
{
    if y1 > y0 {
        lemma_split_bounds(s, e, y0, y1 - 1);
        lemma_year_length(y1 - 1);
    }
}

/// From 1 January of one year to 1 January of the next, the whole interval
/// lies in the first year: the fraction is 1, as `365 × 366 / 133590`.
pub proof fn lemma_whole_year(start: Date, end: Date)
    requires
        start.wf(),
        end.wf(),
        start.month() == 1 && start.day() == 1,
        end.month() == 1 && end.day() == 1,
        end.year() == start.year() + 1,
    ensures
        value(start, end) == YearFraction::of(133590, 133590),
{
    let y = start.year() as int;
    let s = start.day_number();
    let e = end.day_number();
    lemma_year_length(y);
    lemma_year_length(y + 1);
    assert(s == jan1(y));
    assert(e == jan1(y + 1));
    assert(split(s, e, y, y) == (0int, 0int));
    assert(portion(s, e, y) == e - s);
    assert(portion(s, e, y + 1) == 0);
    assert(split(s, e, y, y + 1) == (if is_leap(y) {
        (0int, e - s)
    } else {
        (e - s, 0int)
    }));
    assert(split(s, e, y, y + 2) == split(s, e, y, y + 1));
}

/// The forward fraction for `start` not after `end`.
pub open spec fn forward_value(start: Date, end: Date) -> YearFraction {
    if start.day_number() == end.day_number() {
        YearFraction::of(0, 1)
    } else if start.year() == end.year() {
        YearFraction::of(
            end.day_number() - start.day_number(),
            if is_leap(start.year() as int) {
                366
            } else {
                365
            },
        )
    } else {
        let (nl, l) = split(
            start.day_number(),
            end.day_number(),
            start.year() as int,
            end.year() + 1,
        );
        YearFraction::of(366 * nl + 365 * l, 133590)
    }
}

/// The Act/Act ISDA fraction.
pub open spec fn value(start: Date, end: Date) -> YearFraction {
    if end.day_number() < start.day_number() {
        forward_value(end, start).negated()
    } else {
        forward_value(start, end)
    }
}

/// The year walk stays below year `i32::MAX`.
pub open spec fn in_domain(start: Date, end: Date) -> bool {
    start.year() < i32::MAX && end.year() < i32::MAX
}

// ─── Laws ────────────────────────────────────────────────────────────────────

/// The days of `[s, e)` in the years `y0..y1`, each weighted by the other
/// year length: `366 × (days in non-leap years) + 365 × (days in leap
/// years)`, the numerator over `365 × 366 = 133590`.
pub open spec fn scaled_days(s: int, e: int, y0: int, y1: int) -> int {
    366 * split(s, e, y0, y1).0 + 365 * split(s, e, y0, y1).1
}

/// 1 January of a later year comes later.
proof fn lemma_jan1_mono(a: int, b: int)
    requires
        a <= b,
    ensures
        jan1(a) <= jan1(b),
        a < b ==> jan1(a) < jan1(b),
    decreases b - a,
{
    if a < b {
        lemma_jan1_mono(a, b - 1);
        lemma_year_length(b - 1);
    }
}

/// A well-formed date lies between 1 January of its year and 1 January of
/// the next.
proof fn lemma_in_year(d: Date)
    requires
        d.wf(),
    ensures
        jan1(d.year() as int) <= d.day_number() < jan1(d.year() + 1),
{
    let y = d.year() as int;
    lemma_day_order_is_lexicographic(y, 1, 1, y, d.month() as int, d.day() as int);
    lemma_day_order_is_lexicographic(y, d.month() as int, d.day() as int, y + 1, 1, 1);
}

/// The split over `y0..y1` is the split over `y0..k` plus that over `k..y1`.
proof fn lemma_split_concat(s: int, e: int, y0: int, k: int, y1: int)
    requires
        y0 <= k <= y1,
    ensures
        split(s, e, y0, y1).0 == split(s, e, y0, k).0 + split(s, e, k, y1).0,
        split(s, e, y0, y1).1 == split(s, e, y0, k).1 + split(s, e, k, y1).1,
    decreases y1 - k,
{
    if k < y1 {
        lemma_split_concat(s, e, y0, k, y1 - 1);
    }
}

/// An empty interval, or years lying wholly after `e` or wholly before `s`,
/// contribute nothing.
proof fn lemma_split_zero(s: int, e: int, y0: int, y1: int)
    requires
        y0 <= y1,
        e <= s || e <= jan1(y0) || jan1(y1) <= s,
    ensures
        split(s, e, y0, y1) == (0int, 0int),
    decreases y1 - y0,
{
    if y0 < y1 {
        lemma_jan1_mono(y0, y1 - 1);
        lemma_jan1_mono(y1 - 1, y1);
        lemma_split_zero(s, e, y0, y1 - 1);
        assert(portion(s, e, y1 - 1) == 0);
    }
}

/// Splitting `[s, e)` at `m` splits each year's share.
proof fn lemma_split_additive(s: int, m: int, e: int, y0: int, y1: int)
    requires
        s <= m <= e,
        y0 <= y1,
    ensures
        split(s, e, y0, y1).0 == split(s, m, y0, y1).0 + split(m, e, y0, y1).0,
        split(s, e, y0, y1).1 == split(s, m, y0, y1).1 + split(m, e, y0, y1).1,
    decreases y1 - y0,
{
    if y0 < y1 {
        lemma_split_additive(s, m, e, y0, y1 - 1);
        lemma_year_length(y1 - 1);
        assert(portion(s, e, y1 - 1) == portion(s, m, y1 - 1) + portion(m, e, y1 - 1));
    }
}

/// The shares of the years `y0..y1` add up to the days of `[s, e)` up to
/// 1 January of `y1`.
proof fn lemma_split_total(s: int, e: int, y0: int, y1: int)
    requires
        s <= e,
        jan1(y0) <= s,
        y0 <= y1,
    ensures
        split(s, e, y0, y1).0 + split(s, e, y0, y1).1 == if e < jan1(y1) {
            if e - s > 0 { e - s } else { 0 }
        } else {
            if jan1(y1) - s > 0 { jan1(y1) - s } else { 0 }
        },
    decreases y1 - y0,
{
    if y0 < y1 {
        lemma_split_total(s, e, y0, y1 - 1);
        lemma_jan1_mono(y0, y1 - 1);
        lemma_year_length(y1 - 1);
    }
}

/// The numerator of the Act/Act ISDA fraction from `start` to a date not
/// before it, scaled to the denominator 133590, is the weighted day count
/// of the interval; the fraction's denominator is positive.
proof fn lemma_value_scaled(start: Date, end: Date)
    requires
        start.wf(),
        end.wf(),
        start.day_number() <= end.day_number(),
    ensures
        value(start, end).denominator > 0,
        value(start, end).numerator * 133590 == scaled_days(
            start.day_number(),
            end.day_number(),
            start.year() as int,
            end.year() + 1,
        ) * value(start, end).denominator,
        0 <= value(start, end).numerator <= 800_000_000_000_000,
        start.day_number() < end.day_number() ==> value(start, end).numerator > 0,
        365 * (end.day_number() - start.day_number()) <= scaled_days(
            start.day_number(),
            end.day_number(),
            start.year() as int,
            end.year() + 1,
        ) <= 366 * (end.day_number() - start.day_number()),
{
    let s = start.day_number();
    let e = end.day_number();
    let y0 = start.year() as int;
    let y1 = end.year() + 1;
    lemma_chronological_is_lexicographic(end, start);
    lemma_in_year(start);
    lemma_in_year(end);
    lemma_split_bounds(s, e, y0, y1);
    lemma_split_total(s, e, y0, y1);
    let (nl, l) = split(s, e, y0, y1);
    assert(nl + l == e - s);
    if s == e {
        Date::lemma_eq_day_number(start, end);
        lemma_split_zero(s, e, y0, y1);
    } else if start.year() == end.year() {
        lemma_year_length(y0);
        assert(split(s, e, y0, y0) == (0int, 0int));
        assert(portion(s, e, y0) == e - s);
        if is_leap(y0) {
            assert(split(s, e, y0, y1) == (0int, e - s));
            assert(value(start, end) == YearFraction::of(e - s, 366));
            assert((e - s) * 133590 == (365 * (e - s)) * 366);
        } else {
            assert(split(s, e, y0, y1) == (e - s, 0int));
            assert(value(start, end) == YearFraction::of(e - s, 365));
            assert((e - s) * 133590 == (366 * (e - s)) * 365);
        }
    } else {
        assert(0 <= 366 * nl + 365 * l <= 366 * 366 * 2 * (y1 - y0)) by (nonlinear_arith)
            requires
                0 <= nl <= 366 * (y1 - y0),
                0 <= l <= 366 * (y1 - y0),
        ;
        assert(value(start, end).numerator == 366 * nl + 365 * l);
    }
    assert(365 * (e - s) <= 366 * nl + 365 * l <= 366 * (e - s));
}

/// The Act/Act ISDA fraction has a positive denominator, and its sign is
/// that of the interval: positive exactly when `start` is before `end`,
/// zero exactly when they are the same date, negative exactly when `end`
/// is before `start`.
pub proof fn lemma_sign(start: Date, end: Date)
    requires
        start.wf(),
        end.wf(),
    ensures
        value(start, end).denominator > 0,
        value(start, end).numerator > 0 <==> start.day_number() < end.day_number(),
        value(start, end).numerator == 0 <==> start == end,
        value(start, end).numerator < 0 <==> end.day_number() < start.day_number(),
{
    Date::lemma_eq_day_number(start, end);
    if start.day_number() <= end.day_number() {
        lemma_value_scaled(start, end);
    } else {
        lemma_value_scaled(end, start);
    }
}

/// Whole years count one each: from 1 January of one year to 1 January of
/// a later (or the same) year, the fraction is the number of years.
pub proof fn lemma_whole_years(start: Date, end: Date)
    requires
        start.wf(),
        end.wf(),
        start.month() == 1 && start.day() == 1,
        end.month() == 1 && end.day() == 1,
        start.year() <= end.year(),
    ensures
        value(start, end).numerator == (end.year() - start.year()) * value(start, end).denominator,
{
    let y0 = start.year() as int;
    let y2 = end.year() as int;
    lemma_whole_years_scaled(start.day_number(), end.day_number(), y0, y2, y2);
    lemma_jan1_mono(y0, y2);
    lemma_value_scaled(start, end);
    lemma_split_zero(start.day_number(), end.day_number(), y2, y2 + 1);
    lemma_split_concat(start.day_number(), end.day_number(), y0, y2, y2 + 1);
    let n = y2 - y0;
    let d = value(start, end).denominator;
    assert(value(start, end).numerator * 133590 == 133590 * n * d);
    assert(value(start, end).numerator == n * d) by (nonlinear_arith)
        requires
            value(start, end).numerator * 133590 == 133590 * n * d,
    ;
}

/// Each whole year from `y0` up to `k` adds 133590 to the weighted count.
proof fn lemma_whole_years_scaled(s: int, e: int, y0: int, k: int, y2: int)
    requires
        y0 <= k <= y2,
        s == jan1(y0),
        e == jan1(y2),
    ensures
        scaled_days(s, e, y0, k) == 133590 * (k - y0),
    decreases k - y0,
{
    if y0 < k {
        lemma_whole_years_scaled(s, e, y0, k - 1, y2);
        lemma_jan1_mono(y0, k - 1);
        lemma_jan1_mono(k, y2);
        lemma_year_length(k - 1);
        assert(portion(s, e, k - 1) == jan1(k) - jan1(k - 1));
    }
}

/// The fraction adds over a split of the interval: for `a` not after `b`
/// not after `c`, `f(a, c) = f(a, b) + f(b, c)` as ratios, stated with
/// the denominators multiplied out.
pub proof fn lemma_additive(a: Date, b: Date, c: Date)
    requires
        a.wf(),
        b.wf(),
        c.wf(),
        a.day_number() <= b.day_number() <= c.day_number(),
    ensures
        value(a, c).numerator * value(a, b).denominator * value(b, c).denominator == (value(
            a,
            b,
        ).numerator * value(b, c).denominator + value(b, c).numerator * value(
            a,
            b,
        ).denominator) * value(a, c).denominator,
{
    let za = a.day_number();
    let zb = b.day_number();
    let zc = c.day_number();
    let ya = a.year() as int;
    let yb = b.year() as int;
    let yc = c.year() as int;
    lemma_chronological_is_lexicographic(b, a);
    lemma_chronological_is_lexicographic(c, b);
    lemma_in_year(a);
    lemma_in_year(b);
    lemma_in_year(c);
    lemma_value_scaled(a, b);
    lemma_value_scaled(b, c);
    lemma_value_scaled(a, c);
    // All three over the years ya..yc + 1.
    lemma_split_additive(za, zb, zc, ya, yc + 1);
    lemma_split_concat(za, zb, ya, yb + 1, yc + 1);
    lemma_jan1_mono(yb + 1, yc + 1);
    lemma_split_zero(za, zb, yb + 1, yc + 1);
    lemma_split_concat(zb, zc, ya, yb, yc + 1);
    lemma_jan1_mono(ya, yb);
    lemma_split_zero(zb, zc, ya, yb);
    let sab = scaled_days(za, zb, ya, yb + 1);
    let sbc = scaled_days(zb, zc, yb, yc + 1);
    let sac = scaled_days(za, zc, ya, yc + 1);
    assert(sac == sab + sbc);
    let nab = value(a, b).numerator as int;
    let dab = value(a, b).denominator as int;
    let nbc = value(b, c).numerator as int;
    let dbc = value(b, c).denominator as int;
    let nac = value(a, c).numerator as int;
    let dac = value(a, c).denominator as int;
    let lhs = nac * dab * dbc;
    let rhs = (nab * dbc + nbc * dab) * dac;
    assert(lhs * 133590 == sac * dac * dab * dbc) by (nonlinear_arith)
        requires
            nac * 133590 == sac * dac,
            lhs == nac * dab * dbc,
    ;
    assert(rhs * 133590 == (sab * dab * dbc + sbc * dbc * dab) * dac) by (nonlinear_arith)
        requires
            nab * 133590 == sab * dab,
            nbc * 133590 == sbc * dbc,
            rhs == (nab * dbc + nbc * dab) * dac,
    ;
    assert(sac * dac * dab * dbc == (sab * dab * dbc + sbc * dbc * dab) * dac) by (nonlinear_arith)
        requires
            sac == sab + sbc,
    ;
    assert(lhs == rhs) by (nonlinear_arith)
        requires
            lhs * 133590 == rhs * 133590,
    ;
}

/// Act/Act ISDA year fraction.
pub fn fraction(start: Date, end: Date) -> (r: YearFraction)
    requires
        start.wf(),
        end.wf(),
        in_domain(start, end),
    ensures
        r == value(start, end),
{
    if end.is_before(start) {
        let f = forward(end, start);
        return YearFraction { numerator: -f.numerator, denominator: f.denominator };
    }
    forward(start, end)
}

/// The fraction for `start` not after `end`.
fn forward(start: Date, end: Date) -> (r: YearFraction)
    requires
        start.wf(),
        end.wf(),
        in_domain(start, end),
        start.day_number() <= end.day_number(),
    ensures
        r == forward_value(start, end),
        -800_000_000_000_000 <= r.numerator <= 800_000_000_000_000,
{
    if start == end {
        return YearFraction { numerator: 0, denominator: 1 };
    }
    proof {
        Date::lemma_eq_day_number(start, end);
    }
    let start_year = start.year();
    let end_year = end.year();
    if start_year == end_year {
        let d = start.days_between(end) as i64;
        proof {
            lemma_year_length(start_year as int);
            lemma_day_order_is_lexicographic(
                start_year as int,
                1,
                1,
                start.year() as int,
                start.month() as int,
                start.day() as int,
            );
            lemma_day_order_is_lexicographic(
                end.year() as int,
                end.month() as int,
                end.day() as int,
                start_year + 1,
                1,
                1,
            );
        }
        let denom: i64 = if Date::is_leap_year(start_year) {
            366
        } else {
            365
        };
        return YearFraction { numerator: d, denominator: denom };
    }
    let ghost s = start.day_number();
    let ghost e = end.day_number();
    proof {
        lemma_chronological_is_lexicographic(end, start);
    }
    let mut non_leap: i64 = 0;
    let mut leap: i64 = 0;
    let mut y = start_year;
    while y <= end_year
        invariant
            start.wf(),
            end.wf(),
            in_domain(start, end),
            s == start.day_number(),
            e == end.day_number(),
            s < e,
            start_year == start.year(),
            end_year == end.year(),
            start_year <= y <= end_year + 1,
            0 <= non_leap <= 366 * (y - start_year),
            0 <= leap <= 366 * (y - start_year),
            (non_leap as int, leap as int) == split(s, e, start_year as int, y as int),
        decreases end_year + 1 - y,
    {
        let year_start = Date::ymd_unchecked(y, 1, 1);
        let year_end = Date::ymd_unchecked(y + 1, 1, 1);
        let sub_start = if year_start.is_before(start) {
            start
        } else {
            year_start
        };
        let sub_end = if end.is_before(year_end) {
            end
        } else {
            year_end
        };
        proof {
            lemma_year_length(y as int);
            lemma_day_order_is_lexicographic(
                y as int,
                1,
                1,
                end.year() as int,
                end.month() as int,
                end.day() as int,
            );
            lemma_day_order_is_lexicographic(
                start.year() as int,
                start.month() as int,
                start.day() as int,
                y + 1,
                1,
                1,
            );
        }
        let d_y = sub_start.days_between(sub_end);
        if d_y > 0 {
            if Date::is_leap_year(y) {
                leap = leap + d_y as i64;
            } else {
                non_leap = non_leap + d_y as i64;
            }
        }
        y = y + 1;
    }
    YearFraction { numerator: 366 * non_leap + 365 * leap, denominator: 133590 }
}

} // verus!
