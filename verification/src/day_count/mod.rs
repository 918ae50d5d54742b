//! Catalogue of day-count fractions and their dispatcher.
//!
//! A day-count fraction is the year fraction a date interval represents
//! under a convention. Every convention here is a ratio of integers; it is
//! returned exactly as a [`YearFraction`] `numerator / denominator`, whose
//! floating-point value is `numerator as f64 / denominator as f64`.
use vstd::prelude::*;

use crate::date::{days_between_value, lemma_chronological_is_lexicographic, Date};

pub mod act_360;
pub mod act_365f;
pub mod act_365l;
pub mod act_act_icma;
pub mod act_act_isda;
pub mod bus_252;
pub mod nl_365;
pub mod one_one;
pub mod thirty_360_bond_basis;
pub mod thirty_e_360;
pub mod thirty_e_360_isda;

verus! {

/// An exact year fraction `numerator / denominator`.
///
/// `0 / 0` stands for a fraction the dispatcher cannot compute without
/// more input (its floating-point value is NaN).
#[derive(Debug, Clone, Copy, PartialEq, Eq, Structural)]
pub struct YearFraction {
    /// The numerator (days, or 30/360 day units, or business days).
    pub numerator: i64,
    /// The denominator (days in the reference year or period).
    pub denominator: i64,
}

impl YearFraction {
    /// The fraction `numerator / denominator`.
    pub open spec fn of(numerator: int, denominator: int) -> YearFraction {
        YearFraction { numerator: numerator as i64, denominator: denominator as i64 }
    }

    /// The fraction with its numerator negated.
    pub open spec fn negated(self) -> YearFraction {
        YearFraction { numerator: (-self.numerator) as i64, denominator: self.denominator }
    }
}

/// The 30/360 day count `360 (y2 - y1) + 30 (m2 - m1) + (d2 - d1)` of two
/// (already adjusted) dates.
pub open spec fn thirty_days(y1: int, m1: int, d1: int, y2: int, m2: int, d2: int) -> int {
    360 * (y2 - y1) + 30 * (m2 - m1) + (d2 - d1)
}

/// The 30/360 day count, evaluated left to right, stays within `i32`.
pub open spec fn thirty_fits(y1: int, m1: int, d1: int, y2: int, m2: int, d2: int) -> bool {
    i32::MIN <= 360 * (y2 - y1) <= i32::MAX && i32::MIN <= 360 * (y2 - y1) + 30 * (m2 - m1)
        <= i32::MAX && i32::MIN <= thirty_days(y1, m1, d1, y2, m2, d2) <= i32::MAX
}

/// A day-count convention.
#[derive(Debug, Clone, Copy, PartialEq, Eq, Structural, Hash)]
pub enum DayCount {
    /// Actual / 360 (ISDA 2006 §4.16(e)).
    Act360,
    /// Actual / 365 Fixed (ISDA 2006 §4.16(d)).
    Act365F,
    /// Actual / Actual ISDA (ISDA 2006 §4.16(b)).
    ActActIsda,
    /// Actual / Actual ICMA (ICMA Rule 251); needs a reference period.
    ActActIcma,
    /// 30/360 Bond Basis (ISDA 2006 §4.16(f)).
    Thirty360BondBasis,
    /// 30E/360 Eurobond Basis (ISDA 2006 §4.16(g)).
    ThirtyE360,
    /// 30E/360 ISDA (ISDA 2006 §4.16(h)).
    ThirtyE360Isda,
    /// Actual / 365 Leap year.
    Act365L,
    /// NL / 365 (no leap days).
    Nl365,
    /// Business days / 252; needs a business-day predicate.
    Bus252,
    /// 1/1.
    OneOne,
}

/// The inputs are in the domain of the dispatcher for `basis`: the 30/360
/// arithmetic fits in an `i32` and the Act/Act ISDA year walk does not run
/// past year `i32::MAX - 1`.
pub open spec fn in_domain(start: Date, end: Date, basis: DayCount) -> bool {
    match basis {
        DayCount::ActActIsda => act_act_isda::in_domain(start, end),
        DayCount::Thirty360BondBasis => thirty_360_bond_basis::in_domain(start, end),
        DayCount::ThirtyE360 => thirty_e_360::in_domain(start, end),
        DayCount::ThirtyE360Isda => thirty_e_360_isda::in_domain(start, end, false),
        _ => true,
    }
}

/// The fraction the dispatcher returns for `basis`.
pub open spec fn fraction_value(start: Date, end: Date, basis: DayCount) -> YearFraction {
    match basis {
        DayCount::Act360 => YearFraction::of(days_between_value(start, end), 360),
        DayCount::Act365F => YearFraction::of(days_between_value(start, end), 365),
        DayCount::ActActIsda => act_act_isda::value(start, end),
        DayCount::Thirty360BondBasis => thirty_360_bond_basis::value(start, end),
        DayCount::ThirtyE360 => thirty_e_360::value(start, end),
        DayCount::ThirtyE360Isda => thirty_e_360_isda::value(start, end, false),
        DayCount::Act365L => act_365l::value(start, end),
        DayCount::Nl365 => nl_365::value(start, end),
        DayCount::OneOne => YearFraction::of(1, 1),
        DayCount::ActActIcma | DayCount::Bus252 => YearFraction::of(0, 0),
    }
}

/// Year fraction between `start` and `end` under `basis`.
///
/// `ActActIcma` needs a reference period and `Bus252` a business-day
/// predicate; without them the dispatcher returns `0 / 0`. 30E/360 ISDA is
/// computed with `end` not the maturity date.
pub fn fraction(start: Date, end: Date, basis: DayCount) -> (r: YearFraction)
    requires
        start.wf(),
        end.wf(),
        in_domain(start, end, basis),
    ensures
        r == fraction_value(start, end, basis),
{
    match basis {
        DayCount::Act360 => act_360::fraction(start, end),
        DayCount::Act365F => act_365f::fraction(start, end),
        DayCount::ActActIsda => act_act_isda::fraction(start, end),
        DayCount::Thirty360BondBasis => thirty_360_bond_basis::fraction(start, end),
        DayCount::ThirtyE360 => thirty_e_360::fraction(start, end),
        DayCount::ThirtyE360Isda => thirty_e_360_isda::fraction(start, end, false),
        DayCount::Act365L => act_365l::fraction(start, end),
        DayCount::Nl365 => nl_365::fraction(start, end),
        DayCount::OneOne => one_one::fraction(start, end),
        DayCount::ActActIcma | DayCount::Bus252 => YearFraction { numerator: 0, denominator: 0 },
    }
}

/// Year fraction for conventions that need a coupon frequency and a
/// reference period: `ActActIcma` uses them; every other basis ignores them
/// and goes through [`fraction`].
pub fn year_fraction_with_freq(
    start: Date,
    end: Date,
    basis: DayCount,
    freq: u8,
    ref_start: Date,
    ref_end: Date,
) -> (r: YearFraction)
    requires
        start.wf(),
        end.wf(),
        ref_start.wf(),
        ref_end.wf(),
        in_domain(start, end, basis),
    ensures
        basis == DayCount::ActActIcma ==> r == act_act_icma::value(
            start,
            end,
            ref_start,
            ref_end,
            freq,
        ),
        basis != DayCount::ActActIcma ==> r == fraction_value(start, end, basis),
{
    match basis {
        DayCount::ActActIcma => act_act_icma::fraction(start, end, ref_start, ref_end, freq),
        _ => fraction(start, end, basis),
    }
}

/// A zero-length interval has year fraction zero under every convention
/// but 1/1 (whose fraction is 1 everywhere).
pub proof fn lemma_zero_length_interval(d: Date, basis: DayCount)
    requires
        d.wf(),
    ensures
        basis != DayCount::OneOne ==> fraction_value(d, d, basis).numerator == 0,
        basis == DayCount::OneOne ==> fraction_value(d, d, basis) == YearFraction::of(1, 1),
{
    reveal_with_fuel(nl_365::leap_days_in_years, 1);
    if basis == DayCount::Act365L {
        assert(!act_365l::contains_leap_day(d, d));
    }
    if basis == DayCount::Nl365 {
        nl_365::lemma_no_leap_days_in_empty(d);
    }
}

/// Act/360 is additive: the fraction from `a` to `c` is the sum of the
/// fractions from `a` to `b` and from `b` to `c` (when the day counts fit in
/// an `i32`).
pub proof fn lemma_act_360_additive(a: Date, b: Date, c: Date)
    requires
        i32::MIN <= b.day_number() - a.day_number() <= i32::MAX,
        i32::MIN <= c.day_number() - b.day_number() <= i32::MAX,
        i32::MIN <= c.day_number() - a.day_number() <= i32::MAX,
    ensures
        fraction_value(a, c, DayCount::Act360).numerator == fraction_value(
            a,
            b,
            DayCount::Act360,
        ).numerator + fraction_value(b, c, DayCount::Act360).numerator,
        fraction_value(a, c, DayCount::Act360).denominator == 360,
{
}

/// A whole calendar year, 1 January to 1 January, is exactly one year under
/// the leap-aware conventions Act/Act ISDA, Act/365L and NL/365.
pub proof fn lemma_whole_year_is_one(start: Date, end: Date, basis: DayCount)
    requires
        start.wf(),
        end.wf(),
        start.month() == 1 && start.day() == 1,
        end.month() == 1 && end.day() == 1,
        end.year() == start.year() + 1,
        basis == DayCount::ActActIsda || basis == DayCount::Act365L || basis == DayCount::Nl365,
    ensures
        fraction_value(start, end, basis).numerator == fraction_value(start, end, basis).denominator,
        fraction_value(start, end, basis).denominator > 0,
{
    act_act_isda::lemma_whole_year(start, end);
    act_365l::lemma_whole_year(start, end);
    nl_365::lemma_whole_year(start, end);
}

/// The actual-day conventions are antisymmetric: swapping the two dates
/// negates the fraction (when the day count fits in an `i32` both ways).
pub proof fn lemma_swap_negates(start: Date, end: Date, basis: DayCount)
    requires
        start.wf(),
        end.wf(),
        i32::MIN < end.day_number() - start.day_number() <= i32::MAX,
        basis == DayCount::Act360 || basis == DayCount::Act365F || basis == DayCount::Act365L
            || basis == DayCount::Nl365 || basis == DayCount::ActActIsda,
    ensures
        fraction_value(end, start, basis) == fraction_value(start, end, basis).negated(),
{
    Date::lemma_eq_day_number(start, end);
    assert(days_between_value(end, start) == -days_between_value(start, end));
    if basis == DayCount::Nl365 {
        lemma_nl_365_swap(start, end);
    } else if basis == DayCount::ActActIsda {
        lemma_act_act_isda_swap(start, end);
        lemma_act_act_isda_swap(end, start);
    }
}

/// NL/365 negates under a swap of its dates.
proof fn lemma_nl_365_swap(start: Date, end: Date)
    requires
        start.wf(),
        end.wf(),
        i32::MIN < end.day_number() - start.day_number() <= i32::MAX,
    ensures
        nl_365::value(end, start) == nl_365::value(start, end).negated(),
{
    Date::lemma_eq_day_number(start, end);
    lemma_chronological_is_lexicographic(start, end);
    lemma_chronological_is_lexicographic(end, start);
    nl_365::lemma_leap_days_bounds(
        start.day_number(),
        end.day_number(),
        start.year() as int,
        end.year() + 1,
    );
    nl_365::lemma_leap_days_bounds(
        end.day_number(),
        start.day_number(),
        end.year() as int,
        start.year() + 1,
    );
    if start.day_number() == end.day_number() {
        nl_365::lemma_no_leap_days_in_empty(start);
    }
    let raw = days_between_value(start, end);
    assert(days_between_value(end, start) == -raw);
    if raw > 0 {
        let x = raw - nl_365::leap_days_between(start, end);
        assert(nl_365::value(start, end).numerator == x);
        assert(nl_365::value(end, start).numerator == -x);
    } else if raw < 0 {
        let x = raw + nl_365::leap_days_between(end, start);
        assert(nl_365::value(start, end).numerator == x);
        assert(nl_365::value(end, start).numerator == -x);
    }
}

/// For `start` strictly before `end`, the Act/Act ISDA value from `end` back
/// to `start` is the negation of the forward value, and the forward
/// numerator is small.
proof fn lemma_act_act_isda_swap(start: Date, end: Date)
    requires
        start.wf(),
        end.wf(),
        i32::MIN < end.day_number() - start.day_number() <= i32::MAX,
    ensures
        start.day_number() < end.day_number() ==> act_act_isda::value(end, start)
            == act_act_isda::value(start, end).negated(),
        start.day_number() < end.day_number() ==> act_act_isda::value(start, end)
            == act_act_isda::value(end, start).negated(),
{
    if start.day_number() < end.day_number() {
        lemma_chronological_is_lexicographic(end, start);
        let f = act_act_isda::forward_value(start, end);
        if start.year() != end.year() {
            act_act_isda::lemma_split_bounds(
                start.day_number(),
                end.day_number(),
                start.year() as int,
                end.year() + 1,
            );
            let (nl, l) = act_act_isda::split(
                start.day_number(),
                end.day_number(),
                start.year() as int,
                end.year() + 1,
            );
            assert(0 <= 366 * nl + 365 * l <= 366 * 366 * 2 * (end.year() + 1 - start.year()))
                by (nonlinear_arith)
                requires
                    0 <= nl <= 366 * (end.year() + 1 - start.year()),
                    0 <= l <= 366 * (end.year() + 1 - start.year()),
            ;
            assert(f.numerator == 366 * nl + 365 * l);
        }
        assert(act_act_isda::value(start, end) == f);
        assert(act_act_isda::value(end, start) == f.negated());
        assert(f.negated().negated() == f);
    }
}

} // verus!
