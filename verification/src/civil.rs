//! Civil day numbers of proleptic Gregorian dates.
//!
//! A date `(y, m, d)` is numbered by its signed count of days from
//! 1970-01-01. The numbering works on "March-based" years, which start on
//! 1 March so that the leap day falls at the end, and on 400-year eras of
//! 146 097 days. [`days_from_civil`] and [`civil_from_days`] are the two
//! directions; the lemmas here show that they are inverse to each other on
//! valid dates, that the numbering is the lexicographic order of dates, and
//! that consecutive dates get consecutive numbers.
use vstd::prelude::*;

verus! {

/// `y` is a Gregorian leap year: divisible by 4 and either not by 100 or
/// by 400.
pub open spec fn is_leap(y: int) -> bool {
    (y % 4 == 0 && y % 100 != 0) || y % 400 == 0
}

/// Number of days of month `m` of year `y` (0 when `m` is not `1..=12`).
pub open spec fn month_len(y: int, m: int) -> int {
    if m == 1 || m == 3 || m == 5 || m == 7 || m == 8 || m == 10 || m == 12 {
        31
    } else if m == 4 || m == 6 || m == 9 || m == 11 {
        30
    } else if m == 2 {
        if is_leap(y) { 29 } else { 28 }
    } else {
        0
    }
}

/// `(y, m, d)` names a real day of the Gregorian calendar.
pub open spec fn valid_ymd(y: int, m: int, d: int) -> bool {
    1 <= m <= 12 && 1 <= d <= month_len(y, m)
}

/// Offset, in days, of the start of March-based year `yoe` of an era.
pub open spec fn year_start(yoe: int) -> int {
    365 * yoe + yoe / 4 - yoe / 100
}

/// Length of March-based year `yoe` of an era: it holds the February of
/// year `yoe + 1`.
pub open spec fn march_year_len(yoe: int) -> int {
    if is_leap(yoe + 1) { 366 } else { 365 }
}

/// The March-based year of an era in which day `doe` of the era falls.
pub open spec fn yoe_of(doe: int) -> int {
    (doe - doe / 1460 + doe / 36524 - doe / 146096) / 365
}

/// Position of civil month `m` in the March-based year (March is 0).
pub open spec fn march_month(m: int) -> int {
    if m > 2 { m - 3 } else { m + 9 }
}

/// The civil month at position `mp` of the March-based year.
pub open spec fn civil_month(mp: int) -> int {
    if mp < 10 { mp + 3 } else { mp - 9 }
}

/// Offset, in days, of position `mp` from the start of the March-based
/// year.
pub open spec fn month_offset(mp: int) -> int {
    (153 * mp + 2) / 5
}

/// Day number of `(y, m, d)`: days from 1970-01-01 (negative before it).
#[verifier::opaque]
pub open spec fn days_from_civil(y: int, m: int, d: int) -> int {
    let yp = if m <= 2 { y - 1 } else { y };
    let era = yp / 400;
    let yoe = yp - era * 400;
    era * 146097 + year_start(yoe) + month_offset(march_month(m)) + d - 1 - 719468
}

/// The `(year, month, day)` carrying day number `z`.
#[verifier::opaque]
pub open spec fn civil_from_days(z: int) -> (int, int, int) {
    let zz = z + 719468;
    let era = zz / 146097;
    let doe = zz - era * 146097;
    let yoe = yoe_of(doe);
    let doy = doe - year_start(yoe);
    let mp = (5 * doy + 2) / 153;
    let m = civil_month(mp);
    (yoe + era * 400 + if m <= 2 { 1int } else { 0int }, m, doy - month_offset(mp) + 1)
}

/// Day `doe` of an era falls inside March-based year `yoe_of(doe)`.
proof fn lemma_yoe_of(doe: int)
    requires
        0 <= doe <= 146096,
    ensures
        0 <= yoe_of(doe) <= 399,
        year_start(yoe_of(doe)) <= doe,
        doe < year_start(yoe_of(doe)) + march_year_len(yoe_of(doe)),
{
}

/// A day inside March-based year `yoe` is found back in `yoe`.
proof fn lemma_yoe_of_unique(yoe: int, doy: int)
    requires
        0 <= yoe <= 399,
        0 <= doy < march_year_len(yoe),
    ensures
        0 <= year_start(yoe) + doy <= 146096,
        yoe_of(year_start(yoe) + doy) == yoe,
{
    let doe = year_start(yoe) + doy;
    lemma_yoe_of(doe);
}

/// Day `doy` of a March-based year falls in a month position whose
/// offset is at most `doy`, and the day of the month is valid.
proof fn lemma_month_of_doy(doy: int, leap: bool)
    requires
        0 <= doy < if leap { 366int } else { 365int },
    ensures
        0 <= (5 * doy + 2) / 153 <= 11,
        month_offset((5 * doy + 2) / 153) <= doy,
        doy - month_offset((5 * doy + 2) / 153) + 1 <= month_len(
            if leap { 2000int } else { 2001int },
            civil_month((5 * doy + 2) / 153),
        ),
{
}

/// Day `d` of month position `mp` is found back in position `mp`.
proof fn lemma_doy_of_month(mp: int, d: int, leap: bool)
    requires
        0 <= mp <= 11,
        1 <= d <= month_len(if leap { 2000int } else { 2001int }, civil_month(mp)),
    ensures
        0 <= month_offset(mp) + d - 1 < if leap { 366int } else { 365int },
        (5 * (month_offset(mp) + d - 1) + 2) / 153 == mp,
{
}

/// Shifting a year by whole eras keeps its leap status.
proof fn lemma_leap_shift(era: int, k: int)
    ensures
        is_leap(era * 400 + k) == is_leap(k),
{
    assert((era * 400 + k) % 4 == k % 4) by {
        vstd::arithmetic::div_mod::lemma_mod_multiples_vanish(era * 100, k, 4);
    }
    assert((era * 400 + k) % 100 == k % 100) by {
        vstd::arithmetic::div_mod::lemma_mod_multiples_vanish(era * 4, k, 100);
    }
    assert((era * 400 + k) % 400 == k % 400) by {
        vstd::arithmetic::div_mod::lemma_mod_multiples_vanish(era, k, 400);
    }
}

/// A month's length depends on the year only through its leap status.
proof fn lemma_month_len_leap(y: int, m: int)
    ensures
        month_len(y, m) == month_len(if is_leap(y) { 2000int } else { 2001int }, m),
{
}

/// Day numbers count from 1970-01-01, day 0.
pub proof fn lemma_epoch()
    ensures
        days_from_civil(1970, 1, 1) == 0,
        civil_from_days(0) == (1970int, 1int, 1int),
{
    reveal(days_from_civil);
    lemma_from_to(1970, 1, 1);
}

/// Numbering a valid date and converting back gives the date.
pub proof fn lemma_from_to(y: int, m: int, d: int)
    requires
        valid_ymd(y, m, d),
    ensures
        civil_from_days(days_from_civil(y, m, d)) == (y, m, d),
{
    reveal(days_from_civil);
    reveal(civil_from_days);
    let yp = if m <= 2 { y - 1 } else { y };
    let era = yp / 400;
    let yoe = yp - era * 400;
    let mp = march_month(m);
    let doy = month_offset(mp) + d - 1;
    // leap status of the February inside this march-year
    lemma_leap_shift(era, yoe + 1);
    assert(yp + 1 == era * 400 + yoe + 1);
    let leap = is_leap(yoe + 1);
    lemma_month_len_leap(y, m);
    if m <= 2 {
        assert(y == era * 400 + yoe + 1);
    } else {
        assert(m == 2 ==> false);
    }
    assert(civil_month(mp) == m);
    assert(1 <= d <= month_len(if leap { 2000int } else { 2001int }, civil_month(mp))) by {
        if m == 2 {
            assert(is_leap(y) == leap);
        }
    }
    lemma_doy_of_month(mp, d, leap);
    lemma_yoe_of_unique(yoe, doy);
    let doe = year_start(yoe) + doy;
    let z = days_from_civil(y, m, d);
    assert(z + 719468 == era * 146097 + doe);
    assert((era * 146097 + doe) / 146097 == era) by {
        vstd::arithmetic::div_mod::lemma_fundamental_div_mod_converse(
            era * 146097 + doe,
            146097,
            era,
            doe,
        );
    }
}

/// Every day number is carried by a valid date, which numbers back to it.
pub proof fn lemma_to_from(z: int)
    ensures
        valid_ymd(civil_from_days(z).0, civil_from_days(z).1, civil_from_days(z).2),
        days_from_civil(civil_from_days(z).0, civil_from_days(z).1, civil_from_days(z).2) == z,
{
    reveal(days_from_civil);
    reveal(civil_from_days);
    let zz = z + 719468;
    let era = zz / 146097;
    let doe = zz - era * 146097;
    lemma_yoe_of(doe);
    let yoe = yoe_of(doe);
    let doy = doe - year_start(yoe);
    let leap = is_leap(yoe + 1);
    lemma_month_of_doy(doy, leap);
    let mp = (5 * doy + 2) / 153;
    let (y, m, d) = civil_from_days(z);
    lemma_leap_shift(era, yoe + 1);
    lemma_month_len_leap(y, m);
    if m <= 2 {
        assert(y == era * 400 + yoe + 1);
        assert(y - 1 == era * 400 + yoe);
    } else {
        assert(y == era * 400 + yoe);
    }
    let yp = if m <= 2 { y - 1 } else { y };
    assert(yp == era * 400 + yoe);
    assert(yp / 400 == era) by {
        vstd::arithmetic::div_mod::lemma_fundamental_div_mod_converse(yp, 400, era, yoe);
    }
    assert(march_month(m) == mp);
}

/// Days from 0000-03-01 to the start of March-based year `yp`.
pub open spec fn march_year_start(yp: int) -> int {
    365 * yp + yp / 4 - yp / 100 + yp / 400
}

/// `(y1, m1, d1)` precedes `(y2, m2, d2)` in lexicographic order.
pub open spec fn ymd_lt(y1: int, m1: int, d1: int, y2: int, m2: int, d2: int) -> bool {
    y1 < y2 || (y1 == y2 && (m1 < m2 || (m1 == m2 && d1 < d2)))
}

/// The civil day number in closed form: the start of the March-based year
/// plus the offset of the month inside it plus the day.
pub proof fn lemma_days_closed_form(y: int, m: int, d: int)
    ensures
        days_from_civil(y, m, d) == march_year_start(if m <= 2 { y - 1 } else { y })
            + month_offset(march_month(m)) + d - 1 - 719468,
{
    reveal(days_from_civil);
    let yp = if m <= 2 { y - 1 } else { y };
    let era = yp / 400;
    let yoe = yp - era * 400;
    assert(yp / 4 == era * 100 + yoe / 4) by {
        vstd::arithmetic::div_mod::lemma_fundamental_div_mod_converse(yp, 4, era * 100 + yoe / 4, yoe % 4);
    }
    assert(yp / 100 == era * 4 + yoe / 100) by {
        vstd::arithmetic::div_mod::lemma_fundamental_div_mod_converse(yp, 100, era * 4 + yoe / 100, yoe % 100);
    }
}

/// March-based years start in increasing order.
proof fn lemma_march_year_start_mono(a: int, b: int)
    requires
        a <= b,
    ensures
        march_year_start(a) <= march_year_start(b),
{
    if a < b {
        assert(b / 4 >= a / 4) by {
            vstd::arithmetic::div_mod::lemma_div_is_ordered(a, b, 4);
        }
        assert(b / 400 >= a / 400) by {
            vstd::arithmetic::div_mod::lemma_div_is_ordered(a, b, 400);
        }
        assert(b / 100 - a / 100 <= (b - a) / 100 + 1) by {
            vstd::arithmetic::div_mod::lemma_fundamental_div_mod(a, 100);
            vstd::arithmetic::div_mod::lemma_fundamental_div_mod(b, 100);
            vstd::arithmetic::div_mod::lemma_fundamental_div_mod(b - a, 100);
        }
    }
}

/// Consecutive March-based years start 365 or 366 days apart.
proof fn lemma_march_year_start_step(a: int)
    ensures
        march_year_start(a + 1) == march_year_start(a) + if is_leap(a + 1) { 366int } else { 365int },
{
    vstd::arithmetic::div_mod::lemma_fundamental_div_mod(a, 4);
    vstd::arithmetic::div_mod::lemma_fundamental_div_mod(a, 100);
    vstd::arithmetic::div_mod::lemma_fundamental_div_mod(a, 400);
    vstd::arithmetic::div_mod::lemma_fundamental_div_mod(a + 1, 4);
    vstd::arithmetic::div_mod::lemma_fundamental_div_mod(a + 1, 100);
    vstd::arithmetic::div_mod::lemma_fundamental_div_mod(a + 1, 400);
}

/// A lexicographically earlier valid date has a smaller day number.
proof fn lemma_lt_implies_days_lt(y1: int, m1: int, d1: int, y2: int, m2: int, d2: int)
    requires
        valid_ymd(y1, m1, d1),
        valid_ymd(y2, m2, d2),
        ymd_lt(y1, m1, d1, y2, m2, d2),
    ensures
        days_from_civil(y1, m1, d1) < days_from_civil(y2, m2, d2),
{
    lemma_days_closed_form(y1, m1, d1);
    lemma_days_closed_form(y2, m2, d2);
    let yp1 = if m1 <= 2 { y1 - 1 } else { y1 };
    let yp2 = if m2 <= 2 { y2 - 1 } else { y2 };
    let mp1 = march_month(m1);
    let mp2 = march_month(m2);
    assert(12 * yp1 + mp1 == 12 * y1 + m1 - 3);
    assert(12 * yp2 + mp2 == 12 * y2 + m2 - 3);
    if yp1 == yp2 {
        // same march-year: compare month offsets
        lemma_month_len_leap(y1, m1);
        lemma_month_len_leap(y2, m2);
    } else {
        assert(yp1 < yp2);
        lemma_march_year_start_step(yp1);
        lemma_march_year_start_mono(yp1 + 1, yp2);
        lemma_month_len_leap(y1, m1);
        assert(yp1 + 1 == y1 || m1 > 2);
        assert(month_offset(mp1) + d1 - 1 < if is_leap(yp1 + 1) { 366int } else { 365int }) by {
            if m1 == 2 {
                assert(y1 == yp1 + 1);
            }
        }
    }
}

/// Chronological order of calendar dates is lexicographic order on
/// `(year, month, day)`: for two valid dates, one comes first in the
/// lexicographic order exactly when its day number is smaller.
pub proof fn lemma_day_order_is_lexicographic(y1: int, m1: int, d1: int, y2: int, m2: int, d2: int)
    requires
        valid_ymd(y1, m1, d1),
        valid_ymd(y2, m2, d2),
    ensures
        ymd_lt(y1, m1, d1, y2, m2, d2) <==> days_from_civil(y1, m1, d1) < days_from_civil(y2, m2, d2),
        (y1 == y2 && m1 == m2 && d1 == d2) <==> days_from_civil(y1, m1, d1) == days_from_civil(y2, m2, d2),
{
    if ymd_lt(y1, m1, d1, y2, m2, d2) {
        lemma_lt_implies_days_lt(y1, m1, d1, y2, m2, d2);
    } else if ymd_lt(y2, m2, d2, y1, m1, d1) {
        lemma_lt_implies_days_lt(y2, m2, d2, y1, m1, d1);
    }
}

/// Rust's truncating remainder of `y` by `k` is zero exactly when the
/// Euclidean one is.
pub proof fn lemma_rem_zero_matches(y: int, k: int)
    requires
        k > 0,
    ensures
        (if y >= 0 { y % k } else { -((-y) % k) }) == 0 <==> y % k == 0,
{
    if y < 0 {
        vstd::arithmetic::div_mod::lemma_fundamental_div_mod(y, k);
        vstd::arithmetic::div_mod::lemma_fundamental_div_mod(-y, k);
        let q1 = (-y) / k;
        let q2 = y / k;
        assert((-q1) * k == -(k * q1)) by (nonlinear_arith);
        assert((-q2) * k == -(k * q2)) by (nonlinear_arith);
        if (-y) % k == 0 {
            vstd::arithmetic::div_mod::lemma_fundamental_div_mod_converse(y, k, -q1, 0);
        }
        if y % k == 0 {
            vstd::arithmetic::div_mod::lemma_fundamental_div_mod_converse(-y, k, -q2, 0);
        }
    }
}

/// The calendar day after `(y, m, d)`.
pub open spec fn next_ymd(y: int, m: int, d: int) -> (int, int, int) {
    if d < month_len(y, m) {
        (y, m, d + 1)
    } else if m < 12 {
        (y, m + 1, 1)
    } else {
        (y + 1, 1, 1)
    }
}

/// Day numbers count calendar days: the day after a valid date is a valid
/// date whose day number is one more.
pub proof fn lemma_next_day_number(y: int, m: int, d: int)
    requires
        valid_ymd(y, m, d),
    ensures
        valid_ymd(next_ymd(y, m, d).0, next_ymd(y, m, d).1, next_ymd(y, m, d).2),
        days_from_civil(next_ymd(y, m, d).0, next_ymd(y, m, d).1, next_ymd(y, m, d).2)
            == days_from_civil(y, m, d) + 1,
{
    let (y2, m2, d2) = next_ymd(y, m, d);
    lemma_days_closed_form(y, m, d);
    lemma_days_closed_form(y2, m2, d2);
    if m == 2 && d == month_len(y, m) {
        lemma_march_year_start_step(y - 1);
    }
}

/// A calendar year has 366 days when it is a leap year and 365 otherwise.
pub proof fn lemma_year_length(y: int)
    ensures
        days_from_civil(y + 1, 1, 1) - days_from_civil(y, 1, 1) == if is_leap(y) {
            366int
        } else {
            365int
        },
{
    lemma_days_closed_form(y, 1, 1);
    lemma_days_closed_form(y + 1, 1, 1);
    lemma_march_year_start_step(y - 1);
}

/// Within a month, day numbers advance with the day of the month.
pub proof fn lemma_days_same_month(y: int, m: int, d1: int, d2: int)
    ensures
        days_from_civil(y, m, d2) == days_from_civil(y, m, d1) + (d2 - d1),
{
    reveal(days_from_civil);
}

} // verus!
