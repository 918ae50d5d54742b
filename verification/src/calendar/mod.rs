//! Catalogue of holiday calendars and their dispatcher.
//!
//! A calendar decides, for a given date, whether the market it names is
//! open. TARGET2 and Luxembourg are fixed rules derived from the year; the
//! other named calendars are dated snapshots of published holiday lists.
//! Weekends are not holidays: a business day is a date that is neither a
//! weekend nor a holiday.
use vstd::prelude::*;

use crate::date::{
    day_in_range, easter_month_day, lemma_at_day_number, lemma_at_ymd, lemma_easter_is_sunday,
    lemma_supported_day_range, lemma_wf_in_range, max_day_number, min_day_number, Date, Weekday,
};
use crate::civil::{
    days_from_civil, lemma_day_order_is_lexicographic, lemma_days_closed_form, lemma_days_same_month,
};
use crate::day_count::{bus_252, YearFraction};
use crate::roll::{self, computes, count_holding, holds_at, rollable, rolled, Roll};

pub mod composite;
pub mod hong_kong;
pub mod japan;
pub mod luxembourg;
pub mod singapore;
pub mod switzerland;
pub mod target2;
pub mod united_kingdom;
pub mod united_states;

pub use composite::{Composite, JointBusiness};

verus! {

/// A named holiday calendar.
#[derive(Debug, Clone, Copy, PartialEq, Eq, Structural, Hash)]
pub enum Calendar {
    /// ECB TARGET2 closing days (fixed rule).
    Target2,
    /// Luxembourg bank holidays (fixed rule).
    Luxembourg,
    /// NYSE / Federal Reserve (snapshot).
    UnitedStates,
    /// Bank of England, England & Wales (snapshot).
    UnitedKingdom,
    /// Japan Exchange Group (snapshot).
    Japan,
    /// SIX Swiss Exchange (snapshot).
    Switzerland,
    /// HKEX (snapshot).
    HongKong,
    /// SGX (snapshot).
    Singapore,
}

/// Day number of Easter Sunday of `year`.
pub open spec fn easter_day_number(year: int) -> int {
    days_from_civil(year, easter_month_day(year).0, easter_month_day(year).1)
}

/// The days from Good Friday to Whit Monday of a year are representable.
pub proof fn lemma_easter_window(year: int)
    requires
        0 <= year <= i32::MAX,
    ensures
        day_in_range(easter_day_number(year) - 2),
        day_in_range(easter_day_number(year) + 50),
{
    lemma_easter_is_sunday(year);
    let (m, d) = easter_month_day(year);
    lemma_at_ymd(year, 3, 20);
    lemma_at_ymd(year, 6, 14);
    lemma_day_order_is_lexicographic(year, 3, 22, year, m, d);
    lemma_day_order_is_lexicographic(year, m, d, year, 4, 25);
    lemma_days_same_month(year, 3, 20, 22);
    lemma_days_closed_form(year, 4, 25);
    lemma_days_closed_form(year, 6, 14);
}

/// Returns `true` if `table` lists `(year, month, day)`.
pub(crate) fn table_contains(table: &[(i32, u8, u8)], year: i32, month: u8, day: u8) -> (r: bool)
    ensures
        r == table@.contains((year, month, day)),
{
    let mut i: usize = 0;
    while i < table.len()
        invariant
            i <= table@.len(),
            forall|j: int| 0 <= j < i ==> table@[j] != (year, month, day),
        decreases table@.len() - i,
    {
        let e = table[i];
        if e.0 == year && e.1 == month && e.2 == day {
            proof {
                assert(table@[i as int] == (year, month, day));
            }
            return true;
        }
        i += 1;
    }
    false
}

/// `date` falls on a Saturday or a Sunday.
pub open spec fn weekend(date: Date) -> bool {
    date.weekday() == Weekday::Sat || date.weekday() == Weekday::Sun
}

/// `date` is a holiday under `cal`.
pub open spec fn holiday(date: Date, cal: Calendar) -> bool {
    match cal {
        Calendar::Target2 => target2::holiday(date),
        Calendar::Luxembourg => luxembourg::holiday(date),
        Calendar::UnitedStates => united_states::holiday(date),
        Calendar::UnitedKingdom => united_kingdom::holiday(date),
        Calendar::Japan => japan::holiday(date),
        Calendar::Switzerland => switzerland::holiday(date),
        Calendar::HongKong => hong_kong::holiday(date),
        Calendar::Singapore => singapore::holiday(date),
    }
}

/// `date` is a business day under `cal`: neither a weekend nor a holiday.
pub open spec fn business_day(date: Date, cal: Calendar) -> bool {
    !weekend(date) && !holiday(date, cal)
}

/// The business-day predicate of `cal`.
pub open spec fn business_days_of(cal: Calendar) -> spec_fn(Date) -> bool {
    |d: Date| business_day(d, cal)
}

/// The table of a snapshot calendar of the years `2020..=2040` (both ends
/// included).
pub open spec fn snapshot_table(cal: Calendar) -> Seq<(i32, u8, u8)> {
    match cal {
        Calendar::UnitedStates => united_states::HOLIDAYS@,
        Calendar::UnitedKingdom => united_kingdom::HOLIDAYS@,
        Calendar::Japan => japan::HOLIDAYS@,
        Calendar::Switzerland => switzerland::HOLIDAYS@,
        Calendar::HongKong => hong_kong::HOLIDAYS@,
        Calendar::Singapore => singapore::HOLIDAYS@,
        _ => Seq::empty(),
    }
}

/// A snapshot calendar reports exactly the rows of its table that fall in
/// the years 2020 to 2040, both included: every such row is a holiday,
/// and no other date is.
pub proof fn lemma_snapshot_holidays_are_table_rows(date: Date, cal: Calendar)
    requires
        cal != Calendar::Target2,
        cal != Calendar::Luxembourg,
    ensures
        holiday(date, cal) <==> (2020 <= date.year() <= 2040 && snapshot_table(cal).contains(
            (date.year(), date.month(), date.day()),
        )),
{
}

/// Outside the years 2020 to 2040 that the snapshots cover, a snapshot
/// calendar has no holidays.
pub proof fn lemma_snapshot_out_of_coverage(date: Date, cal: Calendar)
    requires
        cal != Calendar::Target2,
        cal != Calendar::Luxembourg,
        date.year() < 2020 || date.year() > 2040,
    ensures
        !holiday(date, cal),
{
}

/// Every date of the years 1583 to 9999 that [`Date::ymd`] accepts is far
/// enough from the ends of the representable range for every roll and for
/// [`add_business_days`].
pub proof fn lemma_supported_dates_have_headroom(d: Date)
    requires
        d.wf(),
        1583 <= d.year() <= 9999,
    ensures
        rollable(d),
        far_from_limits(d),
{
    lemma_supported_day_range(d);
}

/// Returns `true` if `date` is a Saturday or a Sunday.
pub fn is_weekend(date: Date) -> (r: bool)
    requires
        date.wf(),
    ensures
        r == weekend(date),
{
    let wd = date.day_of_week();
    wd == Weekday::Sat || wd == Weekday::Sun
}

/// Returns `true` if `date` is a holiday under `cal`. Weekends are not
/// counted as holidays here.
pub fn is_holiday(date: Date, cal: Calendar) -> (r: bool)
    requires
        date.wf(),
    ensures
        r == holiday(date, cal),
{
    match cal {
        Calendar::Target2 => target2::is_holiday(date),
        Calendar::Luxembourg => luxembourg::is_holiday(date),
        Calendar::UnitedStates => united_states::is_holiday(date),
        Calendar::UnitedKingdom => united_kingdom::is_holiday(date),
        Calendar::Japan => japan::is_holiday(date),
        Calendar::Switzerland => switzerland::is_holiday(date),
        Calendar::HongKong => hong_kong::is_holiday(date),
        Calendar::Singapore => singapore::is_holiday(date),
    }
}

/// Returns `true` if `date` is neither a weekend nor a holiday under `cal`.
pub fn is_business_day(date: Date, cal: Calendar) -> (r: bool)
    requires
        date.wf(),
    ensures
        r == business_day(date, cal),
{
    !is_weekend(date) && !is_holiday(date, cal)
}

/// Applies the roll `conv` to `date` under `cal`'s business days.
pub fn adjust(date: Date, conv: Roll, cal: Calendar) -> (r: Date)
    requires
        rollable(date),
    ensures
        r.wf(),
        r == rolled(business_days_of(cal), date, conv),
{
    let is_biz = |d: Date| -> (b: bool)
        requires
            d.wf(),
        ensures
            b == business_day(d, cal),
        { is_business_day(d, cal) };
    let r = roll::apply(date, conv, is_biz);
    proof {
        assert(computes(is_biz, business_days_of(cal)));
    }
    r
}

/// Cap on the number of days [`business_days_between`] walks.
pub const BD_MAX_STEPS: u32 = 73_000;

/// Number of business days under `cal` in `[start, end)`, walking at most
/// [`BD_MAX_STEPS`] days (0 when `start` is not before `end`).
pub open spec fn business_days_in(start: Date, end: Date, cal: Calendar) -> int {
    let n = end.day_number() - start.day_number();
    if n <= 0 {
        0
    } else {
        count_holding(
            business_days_of(cal),
            start.day_number(),
            if n < 73000 {
                n
            } else {
                73000
            },
        )
    }
}

/// Counts business days under `cal` in the half-open interval
/// `[start, end)`; returns 0 when `start >= end`.
pub fn business_days_between(start: Date, end: Date, cal: Calendar) -> (r: u32)
    requires
        start.wf(),
        end.wf(),
    ensures
        r == business_days_in(start, end, cal),
{
    if !start.is_before(end) {
        return 0;
    }
    let ghost z = start.day_number();
    let mut count: u32 = 0;
    let mut d = start;
    let mut steps: u32 = 0;
    proof {
        lemma_wf_in_range(start);
        lemma_wf_in_range(end);
        lemma_at_day_number(z, start);
    }
    while d.is_before(end)
        invariant
            start.wf(),
            end.wf(),
            day_in_range(end.day_number()),
            day_in_range(z),
            z == start.day_number(),
            z < end.day_number(),
            d.wf(),
            d.day_number() == z + steps,
            d == Date::at_day_number(z + steps),
            steps <= end.day_number() - z,
            steps <= 73000,
            count <= steps,
            count == count_holding(business_days_of(cal), z, steps as int),
        decreases end.day_number() - d.day_number(),
    {
        if steps >= BD_MAX_STEPS {
            return count;
        }
        let b = is_business_day(d, cal);
        if b {
            count = count + 1;
        }
        proof {
            assert(holds_at(business_days_of(cal), z + steps) == b);
            lemma_at_day_number(z + steps + 1, start);
        }
        d = d.add_days(1);
        steps = steps + 1;
    }
    count
}

/// The business-day count adds over a split of the period (within the
/// [`BD_MAX_STEPS`] walk): for `a` not after `b` not after `c`, the count
/// over `[a, c)` is the count over `[a, b)` plus the count over `[b, c)`.
pub proof fn lemma_business_days_additive(a: Date, b: Date, c: Date, cal: Calendar)
    requires
        a.day_number() <= b.day_number() <= c.day_number(),
        c.day_number() - a.day_number() <= 73000,
    ensures
        business_days_in(a, c, cal) == business_days_in(a, b, cal) + business_days_in(b, c, cal),
{
    let za = a.day_number();
    let zb = b.day_number();
    let zc = c.day_number();
    roll::lemma_count_additive(business_days_of(cal), za, zb - za, zc - zb);
}

/// A one-day period holds one business day when its day is a business day
/// and none otherwise.
pub proof fn lemma_business_days_one_day(d: Date, next: Date, cal: Calendar)
    requires
        d.wf(),
        next.day_number() == d.day_number() + 1,
    ensures
        business_days_in(d, next, cal) == if business_day(d, cal) {
            1int
        } else {
            0int
        },
{
    lemma_wf_in_range(d);
    lemma_at_day_number(d.day_number(), d);
    assert(count_holding(business_days_of(cal), d.day_number(), 0) == 0);
    assert(holds_at(business_days_of(cal), d.day_number()) == business_day(d, cal));
}

/// The next business day on or after `date` (`Following` under `cal`).
pub fn next_business_day(date: Date, cal: Calendar) -> (r: Date)
    requires
        rollable(date),
    ensures
        r.wf(),
        r == rolled(business_days_of(cal), date, Roll::Following),
{
    adjust(date, Roll::Following, cal)
}

/// The previous business day on or before `date` (`Preceding` under `cal`).
pub fn previous_business_day(date: Date, cal: Calendar) -> (r: Date)
    requires
        rollable(date),
    ensures
        r.wf(),
        r == rolled(business_days_of(cal), date, Roll::Preceding),
{
    adjust(date, Roll::Preceding, cal)
}

/// Cap on the number of days [`add_business_days`] walks.
pub const ABD_MAX_STEPS: u32 = 73_000;

/// Day number reached from day `z` by stepping `step` days at a time,
/// counting down `remaining` on every business day under `p` reached, with
/// at most `budget` steps left.
pub open spec fn advance_business(
    p: spec_fn(Date) -> bool,
    z: int,
    step: int,
    remaining: int,
    budget: int,
) -> int
    decreases budget,
{
    if remaining <= 0 || budget <= 0 {
        z
    } else {
        advance_business(
            p,
            z + step,
            step,
            if holds_at(p, z + step) {
                remaining - 1
            } else {
                remaining
            },
            budget - 1,
        )
    }
}

/// The date is far enough from the ends of the representable range for
/// [`add_business_days`] to walk [`ABD_MAX_STEPS`] days either way.
pub open spec fn far_from_limits(d: Date) -> bool {
    d.wf() && min_day_number() + 73000 <= d.day_number() <= max_day_number() - 73000
}

/// Returns the date `n` business days after `date` under `cal` (before it
/// when `n < 0`), stepping one calendar day at a time; `n = 0` rolls a
/// non-business day forward to the next business day. After
/// [`ABD_MAX_STEPS`] steps the walk stops where it is.
pub fn add_business_days(date: Date, n: i32, cal: Calendar) -> (r: Date)
    requires
        far_from_limits(date),
    ensures
        r.wf(),
        n == 0 ==> r == rolled(business_days_of(cal), date, Roll::Following),
        n != 0 ==> r == Date::at_day_number(
            advance_business(
                business_days_of(cal),
                date.day_number(),
                if n > 0 {
                    1int
                } else {
                    -1int
                },
                if n > 0 {
                    n as int
                } else {
                    -n
                },
                73000,
            ),
        ),
{
    if n == 0 {
        return next_business_day(date, cal);
    }
    let step: i32 = if n > 0 {
        1
    } else {
        -1
    };
    let mut remaining: u32 = if n > 0 {
        n as u32
    } else {
        (-(n as i64)) as u32
    };
    let ghost z = date.day_number();
    let ghost target = advance_business(
        business_days_of(cal),
        z,
        step as int,
        remaining as int,
        73000,
    );
    let mut d = date;
    let mut steps: u32 = 0;
    proof {
        lemma_wf_in_range(date);
        lemma_at_day_number(z, date);
    }
    while remaining > 0
        invariant
            far_from_limits(date),
            z == date.day_number(),
            n != 0,
            step == (if n > 0 {
                1int
            } else {
                -1int
            }),
            target == advance_business(
                business_days_of(cal),
                z,
                if n > 0 {
                    1int
                } else {
                    -1int
                },
                if n > 0 {
                    n as int
                } else {
                    -n
                },
                73000,
            ),
            steps <= 73000,
            d.wf(),
            d.day_number() == (if n > 0 {
                z + steps
            } else {
                z - steps
            }),
            d == Date::at_day_number(d.day_number()),
            target == advance_business(
                business_days_of(cal),
                d.day_number(),
                step as int,
                remaining as int,
                73000 - steps,
            ),
        decreases 73000 - steps,
    {
        if steps >= ABD_MAX_STEPS {
            return d;
        }
        proof {
            lemma_at_day_number(d.day_number() + step, date);
        }
        d = d.add_days(step);
        steps = steps + 1;
        if is_business_day(d, cal) {
            remaining = remaining - 1;
        }
    }
    d
}

/// Walking forward from day `z` until `m >= 1` days satisfying `p` have
/// been passed ends on the `m`-th such day after `z`, provided the budget
/// of `b` days holds that many.
proof fn lemma_advance_forward(p: spec_fn(Date) -> bool, z: int, m: int, b: int)
    requires
        m >= 1,
        b >= 0,
        count_holding(p, z + 1, b) >= m,
    ensures
        z < advance_business(p, z, 1, m, b) <= z + b,
        holds_at(p, advance_business(p, z, 1, m, b)),
        count_holding(p, z + 1, advance_business(p, z, 1, m, b) - z) == m,
    decreases b,
{
    if b == 0 {
        assert(count_holding(p, z + 1, 0) == 0);
    } else {
        roll::lemma_count_front(p, z + 1, b);
        let h: int = if holds_at(p, z + 1) { 1 } else { 0 };
        if m - h == 0 {
            assert(advance_business(p, z + 1, 1, 0, b - 1) == z + 1);
            assert(count_holding(p, z + 1, 0) == 0);
        } else {
            lemma_advance_forward(p, z + 1, m - h, b - 1);
            let r = advance_business(p, z + 1, 1, m - h, b - 1);
            roll::lemma_count_front(p, z + 1, r - z);
        }
    }
}

/// Walking backward from day `z` until `m >= 1` days satisfying `p` have
/// been passed ends on the `m`-th such day before `z`, provided the `b`
/// days before `z` hold that many.
proof fn lemma_advance_backward(p: spec_fn(Date) -> bool, z: int, m: int, b: int)
    requires
        m >= 1,
        b >= 0,
        count_holding(p, z - b, b) >= m,
    ensures
        z - b <= advance_business(p, z, -1, m, b) < z,
        holds_at(p, advance_business(p, z, -1, m, b)),
        count_holding(p, advance_business(p, z, -1, m, b), z - advance_business(p, z, -1, m, b))
            == m,
    decreases b,
{
    if b == 0 {
        assert(count_holding(p, z, 0) == 0);
    } else {
        assert(count_holding(p, z - b, b) == count_holding(p, z - b, b - 1) + if holds_at(
            p,
            z - 1,
        ) {
            1int
        } else {
            0int
        });
        let h: int = if holds_at(p, z - 1) { 1 } else { 0 };
        if m - h == 0 {
            assert(advance_business(p, z - 1, -1, 0, b - 1) == z - 1);
            assert(count_holding(p, z - 1, 0) == 0);
        } else {
            assert(z - b == (z - 1) - (b - 1));
            lemma_advance_backward(p, z - 1, m - h, b - 1);
            let r = advance_business(p, z - 1, -1, m - h, b - 1);
            assert(count_holding(p, r, z - r) == count_holding(p, r, z - r - 1) + if holds_at(
                p,
                r + (z - r - 1),
            ) {
                1int
            } else {
                0int
            });
        }
    }
}

/// [`add_business_days`] lands on the `n`-th business day after `date`
/// (before it when `n < 0`), whether or not `date` is itself a business
/// day: the result is a business day, and exactly `|n|` business days lie
/// in `(date, result]` (in `[result, date)` when `n < 0`) — provided the
/// [`ABD_MAX_STEPS`] days walked hold that many.
pub proof fn lemma_add_business_days_counts(date: Date, n: i32, cal: Calendar)
    requires
        far_from_limits(date),
        n > 0 ==> count_holding(business_days_of(cal), date.day_number() + 1, 73000) >= n,
        n < 0 ==> count_holding(business_days_of(cal), date.day_number() - 73000, 73000) >= -n,
    ensures
        ({
            let r = advance_business(
                business_days_of(cal),
                date.day_number(),
                if n > 0 {
                    1int
                } else {
                    -1int
                },
                if n > 0 {
                    n as int
                } else {
                    -n
                },
                73000,
            );
            &&& n > 0 ==> date.day_number() < r && holds_at(business_days_of(cal), r)
                && count_holding(business_days_of(cal), date.day_number() + 1, r - date.day_number())
                == n
            &&& n < 0 ==> r < date.day_number() && holds_at(business_days_of(cal), r)
                && count_holding(business_days_of(cal), r, date.day_number() - r) == -n
        }),
{
    if n > 0 {
        lemma_advance_forward(business_days_of(cal), date.day_number(), n as int, 73000);
    } else if n < 0 {
        lemma_advance_backward(business_days_of(cal), date.day_number(), -n, 73000);
    }
}

/// Bus/252 year fraction between `start` and `end` under `cal`'s business
/// days.
pub fn bus_252_for_calendar(start: Date, end: Date, cal: Calendar) -> (r: YearFraction)
    requires
        start.wf(),
        end.wf(),
    ensures
        r == bus_252::value(business_days_of(cal), start, end),
{
    let is_biz = |d: Date| -> (b: bool)
        requires
            d.wf(),
        ensures
            b == business_day(d, cal),
        { is_business_day(d, cal) };
    let r = bus_252::fraction(start, end, is_biz);
    proof {
        assert(computes(is_biz, business_days_of(cal)));
    }
    r
}

/// Bus/252 under a calendar counts exactly the business days that
/// [`business_days_between`] counts: for `start` not after `end` the
/// numerator is that count, for `end` before `start` its negation over
/// `[end, start)`, and the denominator is 252.
pub proof fn lemma_bus_252_counts_business_days(start: Date, end: Date, cal: Calendar)
    ensures
        start.day_number() <= end.day_number() ==> bus_252::value(business_days_of(cal), start, end)
            == YearFraction::of(business_days_in(start, end, cal), 252),
        end.day_number() < start.day_number() ==> bus_252::value(business_days_of(cal), start, end)
            == YearFraction::of(-business_days_in(end, start, cal), 252),
{
}

/// Exactly one of "business day" and "weekend or holiday" holds of a date,
/// under every calendar.
pub proof fn lemma_business_day_partition(date: Date, cal: Calendar)
    ensures
        business_day(date, cal) == (!weekend(date) && !holiday(date, cal)),
        business_day(date, cal) != (weekend(date) || holiday(date, cal)),
{
}

} // verus!
