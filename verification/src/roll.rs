//! Date-roll conventions — the rules that adjust a date that falls on a
//! non-business day to a neighbouring business day (ISDA 2006 §4.12).
//!
//! [`apply`] takes the business-day predicate as a closure, so that it does
//! not depend on the calendar module. Its contract is stated for every
//! predicate `p` on dates that the closure computes: the result is
//! [`rolled`]`(p, date, conv)`.
use vstd::prelude::*;

use crate::civil::{days_from_civil, lemma_days_same_month, month_len};
use crate::date::{
    day_in_range, lemma_add_one_day_is_next_calendar_day, lemma_at_day_number, lemma_at_ymd,
    lemma_wf_in_range, max_day_number, min_day_number, Date,
};

verus! {

/// A date-roll convention — how a non-business date is adjusted to a
/// business day.
#[derive(Debug, Clone, Copy, PartialEq, Eq, Structural, Hash)]
pub enum Roll {
    /// Return the date as given, even if it is a weekend or holiday.
    Unadjusted,
    /// Roll forward to the next business day.
    Following,
    /// Roll forward to the next business day, unless that crosses a month
    /// boundary — in which case roll back to the previous business day.
    ModifiedFollowing,
    /// Roll back to the previous business day.
    Preceding,
    /// Roll back to the previous business day, unless that crosses a month
    /// boundary — in which case roll forward to the next business day.
    ModifiedPreceding,
    /// Roll to the nearer business day; ties are broken forward.
    Nearest,
    /// Anchor to the last business day of the month when the input is the
    /// last business day of its month; otherwise `ModifiedFollowing`.
    EndOfMonth,
}

/// Maximum number of one-day steps a walk takes in either direction before
/// giving up and returning the date it started from.
pub const MAX_STEPS: u32 = 366;

/// The closure `f` computes the predicate `p` on well-formed dates.
pub open spec fn computes<F: Fn(Date) -> bool>(f: F, p: spec_fn(Date) -> bool) -> bool {
    forall|d: Date, b: bool| d.wf() && call_ensures(f, (d,), b) ==> b == p(d)
}

/// `p` holds on the date with day number `z`.
pub open spec fn holds_at(p: spec_fn(Date) -> bool, z: int) -> bool {
    p(Date::at_day_number(z))
}

/// Number of the `n` days `z, z + 1, ..., z + n - 1` on which `p` holds.
pub open spec fn count_holding(p: spec_fn(Date) -> bool, z: int, n: int) -> int
    decreases n,
{
    if n <= 0 {
        0
    } else {
        count_holding(p, z, n - 1) + if holds_at(p, z + n - 1) {
            1int
        } else {
            0int
        }
    }
}

/// Day number reached by walking forward from day `z`, starting `k` days
/// ahead, to the first day on which `p` holds — or `z` itself when no such
/// day is found within [`MAX_STEPS`] days.
pub open spec fn scan_forward(p: spec_fn(Date) -> bool, z: int, k: int) -> int
    decreases 367 - k,
{
    if k < 0 || k > 366 {
        z
    } else if holds_at(p, z + k) {
        z + k
    } else {
        scan_forward(p, z, k + 1)
    }
}

/// Day number reached by walking backward from day `z`, starting `k` days
/// back, to the first day on which `p` holds — or `z` itself when no such
/// day is found within [`MAX_STEPS`] days.
pub open spec fn scan_backward(p: spec_fn(Date) -> bool, z: int, k: int) -> int
    decreases 367 - k,
{
    if k < 0 || k > 366 {
        z
    } else if holds_at(p, z - k) {
        z - k
    } else {
        scan_backward(p, z, k + 1)
    }
}

/// The `Following` adjustment of `d` under `p`.
pub open spec fn following(p: spec_fn(Date) -> bool, d: Date) -> Date {
    Date::at_day_number(scan_forward(p, d.day_number(), 0))
}

/// The `Preceding` adjustment of `d` under `p`.
pub open spec fn preceding(p: spec_fn(Date) -> bool, d: Date) -> Date {
    Date::at_day_number(scan_backward(p, d.day_number(), 0))
}

/// `a` and `b` fall in the same calendar month: same year and same month.
pub open spec fn same_month(a: Date, b: Date) -> bool {
    a.year() == b.year() && a.month() == b.month()
}

/// The `ModifiedFollowing` adjustment of `d` under `p`.
pub open spec fn modified_following_roll(p: spec_fn(Date) -> bool, d: Date) -> Date {
    if same_month(following(p, d), d) {
        following(p, d)
    } else {
        preceding(p, d)
    }
}

/// The `ModifiedPreceding` adjustment of `d` under `p`.
pub open spec fn modified_preceding(p: spec_fn(Date) -> bool, d: Date) -> Date {
    if same_month(preceding(p, d), d) {
        preceding(p, d)
    } else {
        following(p, d)
    }
}

/// The `Nearest` adjustment of `d` under `p`: `d` itself on a business day,
/// otherwise the nearer of the following and preceding business days, ties
/// going forward.
pub open spec fn nearest(p: spec_fn(Date) -> bool, d: Date) -> Date {
    if p(d) {
        d
    } else if following(p, d).day_number() - d.day_number() <= d.day_number() - preceding(
        p,
        d,
    ).day_number() {
        following(p, d)
    } else {
        preceding(p, d)
    }
}

/// Day number of the date `(y, m, k)`.
pub open spec fn day_in_month(y: int, m: int, k: int) -> int {
    days_from_civil(y, m, k)
}

/// Scanning days `k, k - 1, ..., 1` of month `(y, m)`, the day number of the
/// first on which `p` holds, or of the last day of the month when none.
pub open spec fn last_business_scan(p: spec_fn(Date) -> bool, y: int, m: int, k: int) -> int
    decreases k,
{
    if k < 1 {
        day_in_month(y, m, month_len(y, m))
    } else if holds_at(p, day_in_month(y, m, k)) {
        day_in_month(y, m, k)
    } else {
        last_business_scan(p, y, m, k - 1)
    }
}

/// The last day of `d`'s month on which `p` holds (the last calendar day of
/// the month when `p` holds on none).
pub open spec fn month_end_business_day(p: spec_fn(Date) -> bool, d: Date) -> Date {
    Date::at_day_number(
        last_business_scan(
            p,
            d.year() as int,
            d.month() as int,
            month_len(d.year() as int, d.month() as int),
        ),
    )
}

/// `p` holds on `d` and on no later day of its month.
pub open spec fn is_month_end_business_day(p: spec_fn(Date) -> bool, d: Date) -> bool {
    p(d) && forall|k: int|
        d.day() < k <= month_len(d.year() as int, d.month() as int) ==> !holds_at(
            p,
            #[trigger] day_in_month(d.year() as int, d.month() as int, k),
        )
}

/// The `EndOfMonth` adjustment of `d` under `p`.
pub open spec fn end_of_month(p: spec_fn(Date) -> bool, d: Date) -> Date {
    if is_month_end_business_day(p, d) {
        month_end_business_day(p, d)
    } else {
        modified_following_roll(p, d)
    }
}

/// The date `conv` rolls `d` to under the business-day predicate `p`.
pub open spec fn rolled(p: spec_fn(Date) -> bool, d: Date, conv: Roll) -> Date {
    match conv {
        Roll::Unadjusted => d,
        Roll::Following => following(p, d),
        Roll::Preceding => preceding(p, d),
        Roll::ModifiedFollowing => modified_following_roll(p, d),
        Roll::ModifiedPreceding => modified_preceding(p, d),
        Roll::Nearest => nearest(p, d),
        Roll::EndOfMonth => end_of_month(p, d),
    }
}

/// The date is far enough from the ends of the representable range for a
/// roll to walk [`MAX_STEPS`] days either way.
pub open spec fn rollable(d: Date) -> bool {
    d.wf() && min_day_number() + 366 <= d.day_number() <= max_day_number() - 366
}

// ─── Facts about the scans ───────────────────────────────────────────────────

/// Counting `n >= 1` days from `z` is counting day `z`, then the `n - 1`
/// days from `z + 1`.
pub proof fn lemma_count_front(p: spec_fn(Date) -> bool, z: int, n: int)
    requires
        n >= 1,
    ensures
        count_holding(p, z, n) == (if holds_at(p, z) {
            1int
        } else {
            0int
        }) + count_holding(p, z + 1, n - 1),
    decreases n,
{
    assert(count_holding(p, z, 0) == 0);
    assert(count_holding(p, z + 1, 0) == 0);
    if n > 1 {
        lemma_count_front(p, z, n - 1);
        assert(count_holding(p, z, n) == count_holding(p, z, n - 1) + if holds_at(p, z + n - 1) {
            1int
        } else {
            0int
        });
        assert(count_holding(p, z + 1, n - 1) == count_holding(p, z + 1, n - 2) + if holds_at(
            p,
            z + 1 + (n - 1) - 1,
        ) {
            1int
        } else {
            0int
        });
    }
}

/// Counting `a + b` days from `z` is counting the first `a` days, then the
/// `b` days after them.
pub proof fn lemma_count_additive(p: spec_fn(Date) -> bool, z: int, a: int, b: int)
    requires
        a >= 0,
        b >= 0,
    ensures
        count_holding(p, z, a + b) == count_holding(p, z, a) + count_holding(p, z + a, b),
    decreases b,
{
    if b > 0 {
        lemma_count_additive(p, z, a, b - 1);
    }
}

/// Skipping days on which `p` fails does not change a forward scan.
proof fn lemma_scan_forward_skip(p: spec_fn(Date) -> bool, z: int, k: int, n: int)
    requires
        0 <= k <= n <= 367,
        forall|j: int| k <= j < n ==> !holds_at(p, #[trigger] (z + j)),
    ensures
        scan_forward(p, z, k) == scan_forward(p, z, n),
    decreases n - k,
{
    if k < n {
        lemma_scan_forward_skip(p, z, k + 1, n);
    }
}

/// Skipping days on which `p` fails does not change a backward scan.
proof fn lemma_scan_backward_skip(p: spec_fn(Date) -> bool, z: int, k: int, n: int)
    requires
        0 <= k <= n <= 367,
        forall|j: int| k <= j < n ==> !holds_at(p, #[trigger] (z - j)),
    ensures
        scan_backward(p, z, k) == scan_backward(p, z, n),
    decreases n - k,
{
    if k < n {
        lemma_scan_backward_skip(p, z, k + 1, n);
    }
}

/// Skipping days on which `p` fails does not change the month-end scan.
proof fn lemma_last_scan_skip(p: spec_fn(Date) -> bool, y: int, m: int, k: int, n: int)
    requires
        0 <= n <= k,
        forall|j: int| n < j <= k ==> !holds_at(p, #[trigger] day_in_month(y, m, j)),
    ensures
        last_business_scan(p, y, m, k) == last_business_scan(p, y, m, n),
    decreases k - n,
{
    if n < k {
        lemma_last_scan_skip(p, y, m, k - 1, n);
    }
}

// ─── Walkers ─────────────────────────────────────────────────────────────────

/// Advances `date` one day at a time until `is_biz` holds, up to
/// [`MAX_STEPS`] steps; returns `date` unchanged if the cap is reached.
fn walk_forward<F: Fn(Date) -> bool>(date: Date, is_biz: &F) -> (r: Date)
    requires
        rollable(date),
        forall|d: Date| d.wf() ==> call_requires(*is_biz, (d,)),
    ensures
        r.wf(),
        date.day_number() <= r.day_number() <= date.day_number() + 366,
        forall|p: spec_fn(Date) -> bool| computes(*is_biz, p) ==> r == following(p, date),
{
    let ghost z = date.day_number();
    proof {
        lemma_at_day_number(z, date);
    }
    let mut d = date;
    let mut steps: u32 = 0;
    loop
        invariant
            rollable(date),
            z == date.day_number(),
            forall|d: Date| d.wf() ==> call_requires(*is_biz, (d,)),
            0 <= steps <= 366,
            d.wf(),
            d.day_number() == z + steps,
            d == Date::at_day_number(z + steps),
            date == Date::at_day_number(z),
            forall|j: int|
                0 <= j < steps ==> call_ensures(
                    *is_biz,
                    (Date::at_day_number(#[trigger] (z + j)),),
                    false,
                ),
        decreases 367 - steps,
    {
        let b = is_biz(d);
        if b {
            proof {
                assert forall|p: spec_fn(Date) -> bool| computes(*is_biz, p) implies d == following(
                    p,
                    date,
                ) by {
                    assert forall|j: int| 0 <= j < steps implies !holds_at(p, #[trigger] (z + j)) by {
                        lemma_at_day_number(z + j, date);
                    }
                    lemma_scan_forward_skip(p, z, 0, steps as int);
                }
            }
            return d;
        }
        if steps >= MAX_STEPS {
            proof {
                assert forall|p: spec_fn(Date) -> bool| computes(*is_biz, p) implies date
                    == following(p, date) by {
                    assert forall|j: int| 0 <= j < 367 implies !holds_at(p, #[trigger] (z + j)) by {
                        lemma_at_day_number(z + j, date);
                    }
                    lemma_scan_forward_skip(p, z, 0, 367);
                }
            }
            return date;
        }
        proof {
            lemma_at_day_number(z + steps + 1, date);
        }
        d = d.add_days(1);
        steps = steps + 1;
    }
}

/// Steps `date` back one day at a time until `is_biz` holds, up to
/// [`MAX_STEPS`] steps; returns `date` unchanged if the cap is reached.
fn walk_backward<F: Fn(Date) -> bool>(date: Date, is_biz: &F) -> (r: Date)
    requires
        rollable(date),
        forall|d: Date| d.wf() ==> call_requires(*is_biz, (d,)),
    ensures
        r.wf(),
        date.day_number() - 366 <= r.day_number() <= date.day_number(),
        forall|p: spec_fn(Date) -> bool| computes(*is_biz, p) ==> r == preceding(p, date),
{
    let ghost z = date.day_number();
    proof {
        lemma_at_day_number(z, date);
    }
    let mut d = date;
    let mut steps: u32 = 0;
    loop
        invariant
            rollable(date),
            z == date.day_number(),
            forall|d: Date| d.wf() ==> call_requires(*is_biz, (d,)),
            0 <= steps <= 366,
            d.wf(),
            d.day_number() == z - steps,
            d == Date::at_day_number(z - steps),
            date == Date::at_day_number(z),
            forall|j: int|
                0 <= j < steps ==> call_ensures(
                    *is_biz,
                    (Date::at_day_number(#[trigger] (z - j)),),
                    false,
                ),
        decreases 367 - steps,
    {
        let b = is_biz(d);
        if b {
            proof {
                assert forall|p: spec_fn(Date) -> bool| computes(*is_biz, p) implies d == preceding(
                    p,
                    date,
                ) by {
                    assert forall|j: int| 0 <= j < steps implies !holds_at(p, #[trigger] (z - j)) by {
                        lemma_at_day_number(z - j, date);
                    }
                    lemma_scan_backward_skip(p, z, 0, steps as int);
                }
            }
            return d;
        }
        if steps >= MAX_STEPS {
            proof {
                assert forall|p: spec_fn(Date) -> bool| computes(*is_biz, p) implies date
                    == preceding(p, date) by {
                    assert forall|j: int| 0 <= j < 367 implies !holds_at(p, #[trigger] (z - j)) by {
                        lemma_at_day_number(z - j, date);
                    }
                    lemma_scan_backward_skip(p, z, 0, 367);
                }
            }
            return date;
        }
        proof {
            lemma_at_day_number(z - steps - 1, date);
        }
        d = d.add_days(-1);
        steps = steps + 1;
    }
}

/// Returns the last business day of `date`'s month under `is_biz`, or the
/// last calendar day of the month when the month has no business day.
fn last_business_day_of_month<F: Fn(Date) -> bool>(date: Date, is_biz: &F) -> (r: Date)
    requires
        rollable(date),
        forall|d: Date| d.wf() ==> call_requires(*is_biz, (d,)),
    ensures
        r.wf(),
        forall|p: spec_fn(Date) -> bool|
            computes(*is_biz, p) ==> r == month_end_business_day(p, date),
{
    let ghost y = date.year() as int;
    let ghost m = date.month() as int;
    let dim = Date::days_in_month(date.year(), date.month());
    let last = Date::ymd_unchecked(date.year(), date.month(), dim);
    proof {
        lemma_at_ymd(y, m, dim as int);
        lemma_at_day_number(last.day_number(), last);
    }
    let mut d = last;
    let mut steps: u32 = 0;
    loop
        invariant
            rollable(date),
            y == date.year(),
            m == date.month(),
            dim == month_len(y, m),
            last.wf(),
            last == Date::at_day_number(day_in_month(y, m, dim as int)),
            forall|d: Date| d.wf() ==> call_requires(*is_biz, (d,)),
            0 <= steps < dim,
            d.wf(),
            d.year() == y,
            d.month() == m,
            d.day() == dim - steps,
            d == Date::at_day_number(day_in_month(y, m, dim - steps)),
            forall|j: int|
                dim - steps < j <= dim ==> call_ensures(
                    *is_biz,
                    (Date::at_day_number(#[trigger] day_in_month(y, m, j)),),
                    false,
                ),
        decreases dim - steps,
    {
        let b = is_biz(d);
        if b {
            proof {
                assert forall|p: spec_fn(Date) -> bool| computes(*is_biz, p) implies d
                    == month_end_business_day(p, date) by {
                    assert forall|j: int| dim - steps < j <= dim implies !holds_at(
                        p,
                        #[trigger] day_in_month(y, m, j),
                    ) by {
                        lemma_at_ymd(y, m, j);
                    }
                    lemma_last_scan_skip(p, y, m, dim as int, dim - steps);
                }
            }
            return d;
        }
        if steps >= MAX_STEPS {
            return last;
        }
        proof {
            lemma_days_same_month(y, m, date.day() as int, d.day() as int);
            lemma_at_day_number(d.day_number() - 1, d);
        }
        let prev = d.add_days(-1);
        if prev.month() != date.month() || prev.year() != date.year() {
            proof {
                if d.day() > 1 {
                    lemma_at_ymd(y, m, d.day() - 1);
                    lemma_days_same_month(y, m, d.day() - 1, d.day() as int);
                }
                assert(d.day() == 1);
                assert forall|p: spec_fn(Date) -> bool| computes(*is_biz, p) implies last
                    == month_end_business_day(p, date) by {
                    assert forall|j: int| 0 < j <= dim implies !holds_at(
                        p,
                        #[trigger] day_in_month(y, m, j),
                    ) by {
                        lemma_at_ymd(y, m, j);
                    }
                    lemma_last_scan_skip(p, y, m, dim as int, 0);
                }
            }
            return last;
        }
        proof {
            // The day before the first of a month lies in an earlier month.
            lemma_days_same_month(y, m, 1, prev.day() as int);
            lemma_days_same_month(y, m, 1, d.day() as int);
            assert(d.day() > 1);
            lemma_at_ymd(y, m, d.day() - 1);
        }
        d = prev;
        steps = steps + 1;
    }
}

/// Returns `true` if `date` is a business day and no later day of its month
/// is one.
fn is_last_business_day_of_month<F: Fn(Date) -> bool>(date: Date, is_biz: &F) -> (r: bool)
    requires
        rollable(date),
        forall|d: Date| d.wf() ==> call_requires(*is_biz, (d,)),
    ensures
        forall|p: spec_fn(Date) -> bool|
            computes(*is_biz, p) ==> r == is_month_end_business_day(p, date),
{
    if !is_biz(date) {
        return false;
    }
    let ghost y = date.year() as int;
    let ghost m = date.month() as int;
    let ghost dd = date.day() as int;
    let ghost dim = month_len(y, m);
    proof {
        lemma_at_day_number(date.day_number() + 1, date);
        lemma_days_same_month(y, m, dd, dd + 1);
        if dd + 1 <= dim {
            lemma_at_ymd(y, m, dd + 1);
        } else {
            lemma_add_one_day_is_next_calendar_day(date);
        }
    }
    let mut d = date.add_days(1);
    let ghost mut s: int = 1;
    while d.month() == date.month() && d.year() == date.year()
        invariant
            rollable(date),
            y == date.year(),
            m == date.month(),
            dd == date.day(),
            dim == month_len(y, m),
            forall|d: Date| d.wf() ==> call_requires(*is_biz, (d,)),
            1 <= s <= dim - dd + 1,
            d.wf(),
            d.day_number() == date.day_number() + s,
            d == Date::at_day_number(date.day_number() + s),
            dd + s <= dim ==> d.year() == y && d.month() == m && d.day() == dd + s,
            dd + s > dim ==> !(d.year() == y && d.month() == m),
            call_ensures(*is_biz, (date,), true),
            forall|j: int|
                dd < j < dd + s ==> call_ensures(
                    *is_biz,
                    (Date::at_day_number(#[trigger] day_in_month(y, m, j)),),
                    false,
                ),
        decreases dim - dd + 1 - s,
    {
        if is_biz(d) {
            proof {
                lemma_days_same_month(y, m, dd, dd + s);
                assert(d == Date::at_day_number(day_in_month(y, m, dd + s)));
            }
            return false;
        }
        proof {
            lemma_at_day_number(date.day_number() + s + 1, date);
            lemma_days_same_month(y, m, dd, dd + s + 1);
            lemma_days_same_month(y, m, dd, dd + s);
            if dd + s + 1 <= dim {
                lemma_at_ymd(y, m, dd + s + 1);
            } else {
                lemma_add_one_day_is_next_calendar_day(d);
            }
        }
        d = d.add_days(1);
        proof {
            s = s + 1;
        }
    }
    proof {
        assert forall|p: spec_fn(Date) -> bool| computes(*is_biz, p) implies is_month_end_business_day(
            p,
            date,
        ) by {
            assert forall|k: int| dd < k <= dim implies !holds_at(
                p,
                #[trigger] day_in_month(y, m, k),
            ) by {
                lemma_at_ymd(y, m, k);
            }
        }
    }
    true
}

/// `ModifiedFollowing`: `Following`, unless that leaves the calendar month
/// (year and month) — then `Preceding`.
fn modified_following<F: Fn(Date) -> bool>(date: Date, is_biz: &F) -> (r: Date)
    requires
        rollable(date),
        forall|d: Date| d.wf() ==> call_requires(*is_biz, (d,)),
    ensures
        r.wf(),
        forall|p: spec_fn(Date) -> bool| computes(*is_biz, p) ==> r == modified_following_roll(p, date),
{
    let f = walk_forward(date, is_biz);
    if f.year() == date.year() && f.month() == date.month() {
        f
    } else {
        walk_backward(date, is_biz)
    }
}

/// Applies a date-roll convention to `date` under a caller-supplied
/// business-day predicate.
///
/// `Unadjusted` returns `date` whatever the predicate. For every predicate
/// `p` that `is_business_day` computes, the result is `rolled(p, date,
/// conv)`: `Following` / `Preceding` walk forward / backward day by day to
/// the first business day (giving up after [`MAX_STEPS`] days and returning
/// `date`); the `Modified` variants fall back to the other direction when
/// the first walk leaves the calendar month (a different year or month);
/// `Nearest` keeps a business day and otherwise takes the nearer
/// neighbour, ties forward; `EndOfMonth` returns the last business day of
/// the month when `date` is it, and `ModifiedFollowing` otherwise.
pub fn apply(date: Date, conv: Roll, is_business_day: impl Fn(Date) -> bool) -> (r: Date)
    requires
        rollable(date),
        forall|d: Date| d.wf() ==> call_requires(is_business_day, (d,)),
    ensures
        r.wf(),
        conv == Roll::Unadjusted ==> r == date,
        forall|p: spec_fn(Date) -> bool|
            computes(is_business_day, p) ==> r == rolled(p, date, conv),
{
    proof {
        lemma_at_day_number(date.day_number(), date);
    }
    match conv {
        Roll::Unadjusted => date,
        Roll::Following => walk_forward(date, &is_business_day),
        Roll::Preceding => walk_backward(date, &is_business_day),
        Roll::ModifiedFollowing => modified_following(date, &is_business_day),
        Roll::ModifiedPreceding => {
            let p = walk_backward(date, &is_business_day);
            if p.year() == date.year() && p.month() == date.month() {
                p
            } else {
                walk_forward(date, &is_business_day)
            }
        },
        Roll::Nearest => {
            if is_business_day(date) {
                return date;
            }
            let forward = walk_forward(date, &is_business_day);
            let backward = walk_backward(date, &is_business_day);
            let fwd_dist = date.days_between(forward) as i64;
            let bwd_dist = -(date.days_between(backward) as i64);
            if fwd_dist <= bwd_dist {
                forward
            } else {
                backward
            }
        },
        Roll::EndOfMonth => {
            if is_last_business_day_of_month(date, &is_business_day) {
                last_business_day_of_month(date, &is_business_day)
            } else {
                modified_following(date, &is_business_day)
            }
        },
    }
}

// ─── Laws ────────────────────────────────────────────────────────────────────

/// What a forward scan from offset `k` finds: the first day at or after
/// `z + k` (within the cap) on which `p` holds, or `z` when there is none.
proof fn lemma_scan_forward_finds(p: spec_fn(Date) -> bool, z: int, k: int)
    requires
        0 <= k <= 367,
    ensures
        (holds_at(p, scan_forward(p, z, k)) && z + k <= scan_forward(p, z, k) <= z + 366
            && forall|j: int| z + k <= j < scan_forward(p, z, k) ==> !holds_at(p, j)) || (
        scan_forward(p, z, k) == z && forall|j: int| k <= j <= 366 ==> !holds_at(p, #[trigger] (z + j))),
    decreases 367 - k,
{
    if k <= 366 && !holds_at(p, z + k) {
        lemma_scan_forward_finds(p, z, k + 1);
    }
}

/// What a backward scan from offset `k` finds: the first day at or before
/// `z - k` (within the cap) on which `p` holds, or `z` when there is none.
proof fn lemma_scan_backward_finds(p: spec_fn(Date) -> bool, z: int, k: int)
    requires
        0 <= k <= 367,
    ensures
        (holds_at(p, scan_backward(p, z, k)) && z - 366 <= scan_backward(p, z, k) <= z - k
            && forall|j: int| scan_backward(p, z, k) < j <= z - k ==> !holds_at(p, j)) || (
        scan_backward(p, z, k) == z && forall|j: int| k <= j <= 366 ==> !holds_at(p, #[trigger] (z - j))),
    decreases 367 - k,
{
    if k <= 366 && !holds_at(p, z - k) {
        lemma_scan_backward_finds(p, z, k + 1);
    }
}

/// `Following` finds the next business day: when some business day lies
/// within [`MAX_STEPS`] days at or after `d`, the result is a business day,
/// not before `d`, and no business day lies between `d` and it.
pub proof fn lemma_following_is_next_business_day(p: spec_fn(Date) -> bool, d: Date, k: int)
    requires
        d.wf(),
        0 <= k <= 366,
        day_in_range(d.day_number() + k),
        holds_at(p, d.day_number() + k),
    ensures
        p(following(p, d)),
        d.day_number() <= following(p, d).day_number() <= d.day_number() + k,
        forall|z: int| d.day_number() <= z < following(p, d).day_number() ==> !holds_at(p, z),
{
    let z = d.day_number();
    lemma_scan_forward_finds(p, z, 0);
    let r = scan_forward(p, z, 0);
    lemma_wf_in_range(d);
    lemma_at_day_number(r, d);
}

/// `Preceding` finds the previous business day: when some business day lies
/// within [`MAX_STEPS`] days at or before `d`, the result is a business day,
/// not after `d`, and no business day lies between it and `d`.
pub proof fn lemma_preceding_is_previous_business_day(p: spec_fn(Date) -> bool, d: Date, k: int)
    requires
        d.wf(),
        0 <= k <= 366,
        day_in_range(d.day_number() - k),
        holds_at(p, d.day_number() - k),
    ensures
        p(preceding(p, d)),
        d.day_number() - k <= preceding(p, d).day_number() <= d.day_number(),
        forall|z: int| preceding(p, d).day_number() < z <= d.day_number() ==> !holds_at(p, z),
{
    let z = d.day_number();
    lemma_scan_backward_finds(p, z, 0);
    let r = scan_backward(p, z, 0);
    lemma_wf_in_range(d);
    lemma_at_day_number(r, d);
}

/// Every roll in terms of the two neighbouring business days: when the
/// first business day at or after `d` is `k` days ahead and the first at or
/// before `d` is `j` days back (both within [`MAX_STEPS`]), `Following` and
/// `Preceding` return them; `ModifiedFollowing` returns the forward one when
/// it is in `d`'s calendar month (same year and month) and the backward one
/// otherwise; `ModifiedPreceding` the reverse; `Nearest` the closer one,
/// ties going forward.
pub proof fn lemma_rolls_from_neighbours(p: spec_fn(Date) -> bool, d: Date, k: int, j: int)
    requires
        d.wf(),
        0 <= k <= 366,
        0 <= j <= 366,
        day_in_range(d.day_number() + k),
        day_in_range(d.day_number() - j),
        holds_at(p, d.day_number() + k),
        holds_at(p, d.day_number() - j),
        forall|i: int| 0 <= i < k ==> !holds_at(p, #[trigger] (d.day_number() + i)),
        forall|i: int| 0 <= i < j ==> !holds_at(p, #[trigger] (d.day_number() - i)),
    ensures
        ({
            let fwd = Date::at_day_number(d.day_number() + k);
            let bwd = Date::at_day_number(d.day_number() - j);
            &&& rolled(p, d, Roll::Following) == fwd
            &&& rolled(p, d, Roll::Preceding) == bwd
            &&& fwd.year() == d.year() && fwd.month() == d.month() ==> rolled(
                p,
                d,
                Roll::ModifiedFollowing,
            ) == fwd
            &&& !(fwd.year() == d.year() && fwd.month() == d.month()) ==> rolled(
                p,
                d,
                Roll::ModifiedFollowing,
            ) == bwd
            &&& bwd.year() == d.year() && bwd.month() == d.month() ==> rolled(
                p,
                d,
                Roll::ModifiedPreceding,
            ) == bwd
            &&& !(bwd.year() == d.year() && bwd.month() == d.month()) ==> rolled(
                p,
                d,
                Roll::ModifiedPreceding,
            ) == fwd
            &&& k <= j ==> rolled(p, d, Roll::Nearest) == fwd
            &&& j < k ==> rolled(p, d, Roll::Nearest) == bwd
        }),
{
    let z = d.day_number();
    lemma_wf_in_range(d);
    lemma_scan_forward_skip(p, z, 0, k);
    lemma_scan_backward_skip(p, z, 0, j);
    lemma_at_day_number(z + k, d);
    lemma_at_day_number(z - j, d);
    lemma_at_day_number(z, d);
}

/// `EndOfMonth` on a non-business day is `ModifiedFollowing`; in
/// particular, when the next business day (within [`MAX_STEPS`] days) falls
/// in the same calendar month, `EndOfMonth` returns that day.
pub proof fn lemma_end_of_month_off_business_day(p: spec_fn(Date) -> bool, d: Date, k: int)
    requires
        d.wf(),
        !p(d),
    ensures
        rolled(p, d, Roll::EndOfMonth) == rolled(p, d, Roll::ModifiedFollowing),
        0 <= k <= 366 && day_in_range(d.day_number() + k) && holds_at(p, d.day_number() + k)
            && same_month(Date::at_day_number(d.day_number() + k), d) && (forall|j: int|
            0 <= j < k ==> !holds_at(p, #[trigger] (d.day_number() + j))) ==> rolled(
            p,
            d,
            Roll::EndOfMonth,
        ) == Date::at_day_number(d.day_number() + k),
{
    if 0 <= k <= 366 && day_in_range(d.day_number() + k) && holds_at(p, d.day_number() + k)
        && forall|j: int| 0 <= j < k ==> !holds_at(p, #[trigger] (d.day_number() + j)) {
        lemma_scan_forward_skip(p, d.day_number(), 0, k);
    }
}

/// No convention moves a business day: on a date where `p` holds, every
/// roll returns the date itself.
pub proof fn lemma_business_day_is_fixed(p: spec_fn(Date) -> bool, d: Date, conv: Roll)
    requires
        d.wf(),
        p(d),
    ensures
        rolled(p, d, conv) == d,
{
    let z = d.day_number();
    lemma_wf_in_range(d);
    lemma_at_day_number(z, d);
    assert(holds_at(p, z));
    assert(scan_forward(p, z, 0) == z);
    assert(scan_backward(p, z, 0) == z);
    if conv == Roll::EndOfMonth && is_month_end_business_day(p, d) {
        let y = d.year() as int;
        let m = d.month() as int;
        let dim = month_len(y, m);
        assert forall|j: int| d.day() < j <= dim implies !holds_at(
            p,
            #[trigger] day_in_month(y, m, j),
        ) by {}
        lemma_last_scan_skip(p, y, m, dim, d.day() as int);
        assert(day_in_month(y, m, d.day() as int) == z);
    }
}

} // verus!
