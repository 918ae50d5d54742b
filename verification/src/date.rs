//! Gregorian-calendar date primitive.
//!
//! A [`Date`] is a `(year, month, day)` triple under the proleptic Gregorian
//! calendar. Arithmetic goes through the civil day number of
//! [`crate::civil`]: a date is converted to its signed count of days from
//! 1970-01-01, shifted, and converted back.
use vstd::prelude::*;

use crate::civil::{
    civil_from_days, days_from_civil, is_leap, lemma_day_order_is_lexicographic,
    lemma_days_closed_form, lemma_days_same_month, lemma_from_to, lemma_next_day_number,
    lemma_rem_zero_matches, lemma_to_from, month_len, next_ymd, valid_ymd, ymd_lt,
};
use crate::errors::ValidationError;

verus! {

/// A day of the week, in the ISO 8601 Monday-first order.
#[derive(Debug, Clone, Copy, PartialEq, Eq, Structural, Hash)]
pub enum Weekday {
    /// Monday.
    Mon,
    /// Tuesday.
    Tue,
    /// Wednesday.
    Wed,
    /// Thursday.
    Thu,
    /// Friday.
    Fri,
    /// Saturday.
    Sat,
    /// Sunday.
    Sun,
}

impl Weekday {
    /// Position of the weekday in the Monday-first week, `0..=6`.
    pub open spec fn index(self) -> int {
        match self {
            Weekday::Mon => 0,
            Weekday::Tue => 1,
            Weekday::Wed => 2,
            Weekday::Thu => 3,
            Weekday::Fri => 4,
            Weekday::Sat => 5,
            Weekday::Sun => 6,
        }
    }

    /// The weekday at position `i` (taken modulo 7) of the Monday-first week.
    pub open spec fn from_index(i: int) -> Weekday {
        let k = i % 7;
        if k == 0 {
            Weekday::Mon
        } else if k == 1 {
            Weekday::Tue
        } else if k == 2 {
            Weekday::Wed
        } else if k == 3 {
            Weekday::Thu
        } else if k == 4 {
            Weekday::Fri
        } else if k == 5 {
            Weekday::Sat
        } else {
            Weekday::Sun
        }
    }
}

/// The weekday of civil day number `z` (1970-01-01, day 0, was a Thursday).
pub open spec fn weekday_of_day(z: int) -> Weekday {
    Weekday::from_index(z + 3)
}

/// Smallest day number a [`Date`] can carry: 0000-01-01.
pub open spec fn min_day_number() -> int {
    -719528
}

/// Largest day number a [`Date`] can carry: the last day of year `i32::MAX`.
pub open spec fn max_day_number() -> int {
    784351576776
}

/// `z` is the day number of a date whose year lies in `0..=i32::MAX`.
pub open spec fn day_in_range(z: int) -> bool {
    min_day_number() <= z <= max_day_number()
}

/// A Gregorian-calendar date — `(year, month, day)`.
///
/// Every `Date` handed out by this crate is well formed (see [`Date::wf`]):
/// the month is `1..=12`, the day exists in that month of that year, and
/// the year is not negative.
#[derive(Debug, Clone, Copy, PartialEq, Eq, Structural, Hash, PartialOrd, Ord)]
pub struct Date {
    year: i32,
    month: u8,
    day: u8,
}

impl Date {
    /// Smallest year accepted by [`Date::ymd`].
    pub const MIN_YEAR: i32 = 1583;

    /// Largest year accepted by [`Date::ymd`].
    pub const MAX_YEAR: i32 = 9999;

    /// The year of the date.
    pub closed spec fn spec_year(&self) -> i32 {
        self.year
    }

    /// The month of the date.
    pub closed spec fn spec_month(&self) -> u8 {
        self.month
    }

    /// The day of the month of the date.
    pub closed spec fn spec_day(&self) -> u8 {
        self.day
    }

    /// The date names a real Gregorian day in a non-negative year.
    pub open spec fn wf(&self) -> bool {
        0 <= self.year() && valid_ymd(self.year() as int, self.month() as int, self.day() as int)
    }

    /// The day of the week of the date.
    pub open spec fn weekday(&self) -> Weekday {
        weekday_of_day(self.day_number())
    }

    /// The civil day number of the date (days since 1970-01-01).
    pub open spec fn day_number(&self) -> int {
        days_from_civil(self.year() as int, self.month() as int, self.day() as int)
    }

    /// The date carrying day number `z` (meaningful when `day_in_range(z)`).
    pub closed spec fn at_day_number(z: int) -> Date {
        Date {
            year: civil_from_days(z).0 as i32,
            month: civil_from_days(z).1 as u8,
            day: civil_from_days(z).2 as u8,
        }
    }

    /// The fields of the date carrying day number `z`.
    proof fn lemma_at_day_number_fields(z: int)
        requires
            day_in_range(z),
        ensures
            Date::at_day_number(z).year() as int == civil_from_days(z).0,
            Date::at_day_number(z).month() as int == civil_from_days(z).1,
            Date::at_day_number(z).day() as int == civil_from_days(z).2,
    {
        Self::lemma_civil_from_days_in_range(z);
    }

    /// Two dates are equal exactly when their three fields are.
    pub proof fn lemma_eq_fields(a: Date, b: Date)
        ensures
            (a == b) <==> (a.year() == b.year() && a.month() == b.month() && a.day() == b.day()),
    {
    }

    /// Two well-formed dates are equal exactly when their day numbers are.
    pub proof fn lemma_eq_day_number(a: Date, b: Date)
        requires
            a.wf(),
            b.wf(),
        ensures
            (a == b) <==> (a.day_number() == b.day_number()),
    {
        lemma_day_order_is_lexicographic(
            a.year() as int,
            a.month() as int,
            a.day() as int,
            b.year() as int,
            b.month() as int,
            b.day() as int,
        );
    }

    /// A day number in range is carried by a well-formed date whose fields
    /// are those of [`civil_from_days`].
    proof fn lemma_civil_from_days_in_range(z: int)
        requires
            day_in_range(z),
        ensures
            0 <= civil_from_days(z).0 <= i32::MAX,
            valid_ymd(civil_from_days(z).0, civil_from_days(z).1, civil_from_days(z).2),
            days_from_civil(civil_from_days(z).0, civil_from_days(z).1, civil_from_days(z).2)
                == z,
    {
        lemma_to_from(z);
        let (y, m, d) = civil_from_days(z);
        reveal(days_from_civil);
        assert(days_from_civil(0, 1, 1) == min_day_number());
        assert(days_from_civil(2147483647, 12, 31) == max_day_number());
        lemma_day_order_is_lexicographic(y, m, d, 0, 1, 1);
        lemma_day_order_is_lexicographic(y, m, d, 2147483647, 12, 31);
    }

    // ─── Construction ────────────────────────────────────────────────────
    /// Constructs a validated `Date` from a `(year, month, day)` triple.
    ///
    /// Checks, in order: the year is in `MIN_YEAR..=MAX_YEAR`, the month is
    /// in `1..=12`, and the day is in `1..=days_in_month(year, month)`.
    pub fn ymd(year: i32, month: u8, day: u8) -> (r: Result<Self, ValidationError>)
        ensures
            year < 1583 ==> r == Err::<Date, ValidationError>(
                ValidationError::OutOfRange { what: "year < 1583" },
            ),
            year > 9999 ==> r == Err::<Date, ValidationError>(
                ValidationError::OutOfRange { what: "year > 9999" },
            ),
            1583 <= year <= 9999 && !(1 <= month <= 12) ==> r == Err::<Date, ValidationError>(
                ValidationError::InvalidDate { rule: "month-out-of-range" },
            ),
            1583 <= year <= 9999 && 1 <= month <= 12 && !(1 <= day <= month_len(
                year as int,
                month as int,
            )) ==> r == Err::<Date, ValidationError>(
                ValidationError::InvalidDate { rule: "day-out-of-range" },
            ),
            r is Ok <==> (1583 <= year <= 9999 && valid_ymd(year as int, month as int, day as int)),
            r matches Ok(d) ==> d.year() == year && d.month() == month && d.day() == day
                && d.wf(),
    {
        if year < Self::MIN_YEAR {
            return Err(ValidationError::OutOfRange { what: "year < 1583" });
        }
        if year > Self::MAX_YEAR {
            return Err(ValidationError::OutOfRange { what: "year > 9999" });
        }
        if month < 1 || month > 12 {
            return Err(ValidationError::InvalidDate { rule: "month-out-of-range" });
        }
        let dim = Self::days_in_month(year, month);
        if day < 1 || day > dim {
            return Err(ValidationError::InvalidDate { rule: "day-out-of-range" });
        }
        Ok(Date { year, month, day })
    }

    /// Constructs a `Date` from a triple the caller has already validated.
    pub fn ymd_unchecked(year: i32, month: u8, day: u8) -> (r: Self)
        requires
            0 <= year,
            valid_ymd(year as int, month as int, day as int),
        ensures
            r.year() == year,
            r.month() == month,
            r.day() == day,
            r.wf(),
    {
        Date { year, month, day }
    }

    // ─── Trivial accessors ───────────────────────────────────────────────
    /// Returns the year.
    #[verifier::when_used_as_spec(spec_year)]
    pub fn year(&self) -> (r: i32)
        ensures
            r == self.spec_year(),
    {
        self.year
    }

    /// Returns the month, `1..=12`.
    #[verifier::when_used_as_spec(spec_month)]
    pub fn month(&self) -> (r: u8)
        ensures
            r == self.spec_month(),
    {
        self.month
    }

    /// Returns the day of the month, `1..=31`.
    #[verifier::when_used_as_spec(spec_day)]
    pub fn day(&self) -> (r: u8)
        ensures
            r == self.spec_day(),
    {
        self.day
    }

    // ─── Calendar rules ──────────────────────────────────────────────────
    /// Returns `true` if `year` is a Gregorian leap year: divisible by 4 and
    /// either not by 100 or by 400.
    pub fn is_leap_year(year: i32) -> (r: bool)
        ensures
            r == is_leap(year as int),
    {
        let r4 = year % 4;
        let r100 = year % 100;
        let r400 = year % 400;
        proof {
            lemma_rem_zero_matches(year as int, 4);
            lemma_rem_zero_matches(year as int, 100);
            lemma_rem_zero_matches(year as int, 400);
        }
        (r4 == 0 && r100 != 0) || r400 == 0
    }

    /// Returns the number of days in `(year, month)`, or `0` when `month` is
    /// not in `1..=12`.
    pub fn days_in_month(year: i32, month: u8) -> (r: u8)
        ensures
            r == month_len(year as int, month as int),
    {
        match month {
            1 | 3 | 5 | 7 | 8 | 10 | 12 => 31,
            4 | 6 | 9 | 11 => 30,
            2 => {
                if Self::is_leap_year(year) {
                    29
                } else {
                    28
                }
            },
            _ => 0,
        }
    }

    // ─── Civil day numbers ───────────────────────────────────────────────
    /// Days from 1970-01-01 to `(year, month, day)`.
    pub fn to_civil_days(year: i32, month: u8, day: u8) -> (r: i64)
        requires
            1 <= month <= 12,
            1 <= day <= 31,
        ensures
            r == days_from_civil(year as int, month as int, day as int),
            -800_000_000_000 <= r <= 800_000_000_000,
    {
        proof {
            reveal(days_from_civil);
        }
        let y: i64 = year as i64 - if month <= 2 {
            1
        } else {
            0
        };
        let era: i64 = if y >= 0 {
            y / 400
        } else {
            -((399 - y) / 400)
        };
        let yoe: i64 = y - era * 400;
        let m: i64 = month as i64;
        let m_shift: i64 = if m > 2 {
            m - 3
        } else {
            m + 9
        };
        let doy: i64 = (153 * m_shift + 2) / 5 + day as i64 - 1;
        let doe: i64 = yoe * 365 + yoe / 4 - yoe / 100 + doy;
        era * 146_097 + doe - 719_468
    }

    /// The date whose day number is `z`.
    #[verifier::rlimit(40)]
    pub fn from_civil_days(z: i64) -> (r: Self)
        requires
            day_in_range(z as int),
        ensures
            r.wf(),
            r.day_number() == z,
            r == Self::at_day_number(z as int),
    {
        proof {
            Self::lemma_civil_from_days_in_range(z as int);
            reveal(civil_from_days);
        }
        let zz: i64 = z + 719_468;
        let era: i64 = if zz >= 0 {
            zz / 146_097
        } else {
            -((146_096 - zz) / 146_097)
        };
        let doe: i64 = zz - era * 146_097;
        let yoe: i64 = (doe - doe / 1460 + doe / 36_524 - doe / 146_096) / 365;
        let y: i64 = yoe + era * 400;
        let doy: i64 = doe - (365 * yoe + yoe / 4 - yoe / 100);
        let mp: i64 = (5 * doy + 2) / 153;
        let d: i64 = doy - (153 * mp + 2) / 5 + 1;
        let m: i64 = if mp < 10 {
            mp + 3
        } else {
            mp - 9
        };
        let year: i64 = y + if m <= 2 {
            1
        } else {
            0
        };
        assert((year as int, m as int, d as int) == civil_from_days(z as int));
        Date { year: year as i32, month: m as u8, day: d as u8 }
    }

    /// Returns `true` if `self` comes strictly before `other` (compared by
    /// year, then month, then day).
    pub fn is_before(self, other: Self) -> (r: bool)
        requires
            self.wf(),
            other.wf(),
        ensures
            r == (self.day_number() < other.day_number()),
    {
        proof {
            lemma_day_order_is_lexicographic(
                self.year as int,
                self.month as int,
                self.day as int,
                other.year as int,
                other.month as int,
                other.day as int,
            );
        }
        self.year < other.year || (self.year == other.year && (self.month < other.month || (
        self.month == other.month && self.day < other.day)))
    }

    // ─── Day-of-week / arithmetic ────────────────────────────────────────
    /// Returns the day of the week of `self`.
    pub fn day_of_week(self) -> (r: Weekday)
        requires
            self.wf(),
        ensures
            r == weekday_of_day(self.day_number()),
    {
        let z = Self::to_civil_days(self.year, self.month, self.day);
        let t = (z + 3) % 7;
        let idx = if t < 0 {
            t + 7
        } else {
            t
        };
        assert(idx == (z + 3) % 7);
        match idx {
            0 => Weekday::Mon,
            1 => Weekday::Tue,
            2 => Weekday::Wed,
            3 => Weekday::Thu,
            4 => Weekday::Fri,
            5 => Weekday::Sat,
            _ => Weekday::Sun,
        }
    }

    /// Returns `self` advanced by `days` calendar days (negative goes back).
    pub fn add_days(self, days: i32) -> (r: Self)
        requires
            self.wf(),
            day_in_range(self.day_number() + days),
        ensures
            r.wf(),
            r.day_number() == self.day_number() + days,
            r == Self::at_day_number(self.day_number() + days),
    {
        let z = Self::to_civil_days(self.year, self.month, self.day) + days as i64;
        Self::from_civil_days(z)
    }
    /// Returns `self` advanced by `months` months, clamping the day of the
    /// month to the last day of the resulting month when the original day
    /// does not exist there (so 2026-01-31 + 1 month = 2026-02-28).
    ///
    /// When the resulting year does not fit in an `i32`, the year of `self`
    /// is kept.
    pub fn add_months_eom_aware(self, months: i32) -> (r: Self)
        requires
            self.wf(),
            0 <= self.year() * 12 + (self.month() - 1) + months,
        ensures
            r.wf(),
            r.year() == (if add_months_year(self.year() as int, self.month() as int, months as int)
                <= i32::MAX {
                add_months_year(self.year() as int, self.month() as int, months as int)
            } else {
                self.year() as int
            }),
            r.month() == add_months_month(self.year() as int, self.month() as int, months as int),
            r.day() == (if self.day() < month_len(r.year() as int, r.month() as int) {
                self.day() as int
            } else {
                month_len(r.year() as int, r.month() as int)
            }),
    {
        let total: i64 = self.year as i64 * 12 + (self.month as i64 - 1) + months as i64;
        let new_year_i64: i64 = total / 12;
        let new_month_i64: i64 = total % 12 + 1;
        let new_year: i32 = if new_year_i64 <= i32::MAX as i64 {
            new_year_i64 as i32
        } else {
            self.year
        };
        let new_month: u8 = new_month_i64 as u8;
        let dim = Self::days_in_month(new_year, new_month);
        let new_day = if self.day < dim {
            self.day
        } else {
            dim
        };
        Date { year: new_year, month: new_month, day: new_day }
    }

    /// Returns the date of the `n`-th occurrence of `weekday` in
    /// `(year, month)`: the first occurrence in the month plus `(n - 1)`
    /// weeks.
    ///
    /// Errors, in order: `n` not in `1..=5`; the year or month rejected by
    /// [`Date::ymd`]; the computed day past the end of the month.
    pub fn nth_weekday_of_month(year: i32, month: u8, n: u8, weekday: Weekday) -> (r: Result<
        Self,
        ValidationError,
    >)
        ensures
            !(1 <= n <= 5) ==> r == Err::<Date, ValidationError>(
                ValidationError::OutOfRange { what: "n must be 1..=5" },
            ),
            1 <= n <= 5 && year < 1583 ==> r == Err::<Date, ValidationError>(
                ValidationError::OutOfRange { what: "year < 1583" },
            ),
            1 <= n <= 5 && year > 9999 ==> r == Err::<Date, ValidationError>(
                ValidationError::OutOfRange { what: "year > 9999" },
            ),
            1 <= n <= 5 && 1583 <= year <= 9999 && !(1 <= month <= 12) ==> r == Err::<
                Date,
                ValidationError,
            >(ValidationError::InvalidDate { rule: "month-out-of-range" }),
            1 <= n <= 5 && 1583 <= year <= 9999 && 1 <= month <= 12 && nth_weekday_day(
                year as int,
                month as int,
                n as int,
                weekday.index(),
            ) > month_len(year as int, month as int) ==> r == Err::<Date, ValidationError>(
                ValidationError::OutOfRange { what: "nth weekday does not exist in this month" },
            ),
            1 <= n <= 5 && 1583 <= year <= 9999 && 1 <= month <= 12 && nth_weekday_day(
                year as int,
                month as int,
                n as int,
                weekday.index(),
            ) <= month_len(year as int, month as int) ==> (r matches Ok(d) && d.year() == year
                && d.month() == month && d.day() == nth_weekday_day(
                year as int,
                month as int,
                n as int,
                weekday.index(),
            )),
            r matches Ok(d) ==> d.wf() && d.weekday() == weekday && 7 * (n - 1) < d.day() <= 7
                * n,
    {
        if n < 1 || n > 5 {
            return Err(ValidationError::OutOfRange { what: "n must be 1..=5" });
        }
        let first = match Self::ymd(year, month, 1) {
            Ok(d) => d,
            Err(e) => {
                return Err(e);
            },
        };
        let first_wd = first.day_of_week();
        let offset = (weekday_index(weekday) + 7 - weekday_index(first_wd)) % 7;
        let day_in_month: i32 = 1 + offset + (n as i32 - 1) * 7;
        let dim = Self::days_in_month(year, month) as i32;
        if day_in_month > dim {
            return Err(
                ValidationError::OutOfRange { what: "nth weekday does not exist in this month" },
            );
        }
        let r = Date { year, month, day: day_in_month as u8 };
        proof {
            let z0 = first.day_number();
            lemma_days_same_month(year as int, month as int, 1, day_in_month as int);
            assert(r.day_number() == z0 + day_in_month - 1);
            lemma_weekday_offset(z0, weekday.index(), n as int);
        }
        Ok(r)
    }

    /// Returns the date of Easter Sunday in the Gregorian year `year`, by the
    /// anonymous Gregorian (Meeus / Butcher) computus.
    pub fn easter_sunday(year: i32) -> (r: Self)
        requires
            0 <= year,
        ensures
            r.wf(),
            r.year() == year,
            r.month() == easter_month_day(year as int).0,
            r.day() == easter_month_day(year as int).1,
            r.weekday() == Weekday::Sun,
            (r.month() == 3 && 22 <= r.day()) || (r.month() == 4 && r.day() <= 25),
    {
        let y = year;
        let a = y % 19;
        let b = y / 100;
        let c = y % 100;
        let d = b / 4;
        let e = b % 4;
        let f = (b + 8) / 25;
        let g = (b - f + 1) / 3;
        let h = (19 * a + b - d - g + 15) % 30;
        let i = c / 4;
        let k = c % 4;
        let l = (32 + 2 * e + 2 * i - h - k) % 7;
        let m = (a + 11 * h + 22 * l) / 451;
        let month_num = (h + l - 7 * m + 114) / 31;
        let day_num = ((h + l - 7 * m + 114) % 31) + 1;
        let r = Date { year: y, month: month_num as u8, day: day_num as u8 };
        proof {
            lemma_easter_is_sunday(year as int);
        }
        r
    }

    /// Returns the signed number of days from `self` to `other`
    /// (`i32::MAX` when the difference does not fit in an `i32`).
    pub fn days_between(self, other: Self) -> (r: i32)
        requires
            self.wf(),
            other.wf(),
        ensures
            r == (if i32::MIN <= other.day_number() - self.day_number() <= i32::MAX {
                other.day_number() - self.day_number()
            } else {
                i32::MAX as int
            }),
    {
        let a = Self::to_civil_days(self.year, self.month, self.day);
        let b = Self::to_civil_days(other.year, other.month, other.day);
        let diff = b - a;
        if i32::MIN as i64 <= diff && diff <= i32::MAX as i64 {
            diff as i32
        } else {
            i32::MAX
        }
    }
}

/// Year of `(year, month) + months`, with months counted from zero.
pub open spec fn add_months_year(year: int, month: int, months: int) -> int {
    (year * 12 + (month - 1) + months) / 12
}

/// Month of `(year, month) + months`.
pub open spec fn add_months_month(year: int, month: int, months: int) -> int {
    (year * 12 + (month - 1) + months) % 12 + 1
}

/// Day of the month of the `n`-th occurrence of the weekday with index
/// `wd` in `(year, month)`, possibly past the end of the month.
pub open spec fn nth_weekday_day(year: int, month: int, n: int, wd: int) -> int {
    1 + (wd + 7 - (days_from_civil(year, month, 1) + 3) % 7) % 7 + (n - 1) * 7
}

/// `(month, day)` of Easter Sunday in `year` by the anonymous Gregorian
/// computus (Meeus, *Astronomical Algorithms*, §8).
pub open spec fn easter_month_day(y: int) -> (int, int) {
    let a = y % 19;
    let b = y / 100;
    let c = y % 100;
    let d = b / 4;
    let e = b % 4;
    let f = (b + 8) / 25;
    let g = (b - f + 1) / 3;
    let h = (19 * a + b - d - g + 15) % 30;
    let i = c / 4;
    let k = c % 4;
    let l = (32 + 2 * e + 2 * i - h - k) % 7;
    let m = (a + 11 * h + 22 * l) / 451;
    ((h + l - 7 * m + 114) / 31, (h + l - 7 * m + 114) % 31 + 1)
}

/// Numeric index for a `Weekday`, Monday = 0.
fn weekday_index(w: Weekday) -> (r: i32)
    ensures
        r == w.index(),
{
    match w {
        Weekday::Mon => 0,
        Weekday::Tue => 1,
        Weekday::Wed => 2,
        Weekday::Thu => 3,
        Weekday::Fri => 4,
        Weekday::Sat => 5,
        Weekday::Sun => 6,
    }
}

/// The day `z0 + offset + 7 (n - 1)`, where `offset` moves from the weekday
/// of `z0` to weekday `wd`, falls on weekday `wd`.
proof fn lemma_weekday_offset(z0: int, wd: int, n: int)
    requires
        0 <= wd <= 6,
    ensures
        weekday_of_day(z0 + (wd + 7 - (z0 + 3) % 7) % 7 + (n - 1) * 7) == Weekday::from_index(wd),
{
    let t = (z0 + 3) % 7;
    let off = (wd + 7 - t) % 7;
    vstd::arithmetic::div_mod::lemma_fundamental_div_mod(z0 + 3, 7);
    vstd::arithmetic::div_mod::lemma_fundamental_div_mod(wd + 7 - t, 7);
    let q1 = (z0 + 3) / 7;
    let q2 = (wd + 7 - t) / 7;
    assert(z0 + off + (n - 1) * 7 + 3 == 7 * (q1 - q2 + n) + wd);
    vstd::arithmetic::div_mod::lemma_fundamental_div_mod_converse(
        z0 + off + (n - 1) * 7 + 3,
        7,
        q1 - q2 + n,
        wd,
    );
    vstd::arithmetic::div_mod::lemma_fundamental_div_mod_converse(wd, 7, 0, wd);
}

/// The computus lands on a valid date between 22 March and 25 April, and
/// that date is a Sunday.
pub proof fn lemma_easter_is_sunday(y: int)
    requires
        0 <= y,
    ensures
        valid_ymd(y, easter_month_day(y).0, easter_month_day(y).1),
        (easter_month_day(y).0 == 3 && 22 <= easter_month_day(y).1) || (easter_month_day(y).0
            == 4 && easter_month_day(y).1 <= 25),
        weekday_of_day(days_from_civil(y, easter_month_day(y).0, easter_month_day(y).1))
            == Weekday::Sun,
{
    let a = y % 19;
    let b = y / 100;
    let c = y % 100;
    let d = b / 4;
    let e = b % 4;
    let f = (b + 8) / 25;
    let g = (b - f + 1) / 3;
    let h = (19 * a + b - d - g + 15) % 30;
    let i = c / 4;
    let k = c % 4;
    let ll = 32 + 2 * e + 2 * i - h - k;
    let l = ll % 7;
    let m = (a + 11 * h + 22 * l) / 451;
    vstd::arithmetic::div_mod::lemma_fundamental_div_mod(y, 19);
    vstd::arithmetic::div_mod::lemma_fundamental_div_mod(y, 100);
    vstd::arithmetic::div_mod::lemma_fundamental_div_mod(b, 4);
    vstd::arithmetic::div_mod::lemma_fundamental_div_mod(c, 4);
    vstd::arithmetic::div_mod::lemma_fundamental_div_mod(19 * a + b - d - g + 15, 30);
    vstd::arithmetic::div_mod::lemma_fundamental_div_mod(ll, 7);
    vstd::arithmetic::div_mod::lemma_fundamental_div_mod(a + 11 * h + 22 * l, 451);
    let x = h + l - 7 * m;
    assert(0 <= m <= 1);
    assert(m == 1 ==> h + l >= 34);
    assert(m == 0 ==> h + l <= 34);
    let (mo, da) = easter_month_day(y);
    assert(mo == (x + 114) / 31);
    assert(da == (x + 114) % 31 + 1);
    assert(mo == 3 || mo == 4);
    // Day number of the computed date, written over the computus variables.
    lemma_days_closed_form(y, mo, da);
    assert(y / 4 == 25 * b + i) by {
        vstd::arithmetic::div_mod::lemma_fundamental_div_mod_converse(y, 4, 25 * b + i, k);
    }
    assert(y / 400 == d) by {
        vstd::arithmetic::div_mod::lemma_fundamental_div_mod_converse(y, 400, d, 100 * e + c);
    }
    let dn = days_from_civil(y, mo, da);
    assert(dn == 365 * y + y / 4 - y / 100 + y / 400 + x + 21 - 719468);
    let q = (ll / 7);
    assert(dn + 3 == 7 * (5217 * b + 52 * c - m + 3 - 102780 + 3 * d + e + i + 3 - q) + 6);
    vstd::arithmetic::div_mod::lemma_fundamental_div_mod_converse(
        dn + 3,
        7,
        5217 * b + 52 * c - m + 3 - 102780 + 3 * d + e + i + 3 - q,
        6,
    );
}

/// The value [`Date::days_between`] returns for `(a, b)`: the difference of
/// day numbers, or `i32::MAX` when it does not fit in an `i32`.
pub open spec fn days_between_value(a: Date, b: Date) -> int {
    if i32::MIN <= b.day_number() - a.day_number() <= i32::MAX {
        b.day_number() - a.day_number()
    } else {
        i32::MAX as int
    }
}

/// A day number in range is carried by a well-formed date, and a
/// well-formed date is the date carried by its own day number.
pub proof fn lemma_at_day_number(z: int, d: Date)
    requires
        day_in_range(z),
        d.wf(),
    ensures
        Date::at_day_number(z).wf(),
        Date::at_day_number(z).day_number() == z,
        Date::at_day_number(d.day_number()) == d,
{
    Date::lemma_civil_from_days_in_range(z);
    lemma_at_ymd(d.year() as int, d.month() as int, d.day() as int);
    lemma_from_to(d.year() as int, d.month() as int, d.day() as int);
    Date::lemma_at_day_number_fields(z);
    Date::lemma_at_day_number_fields(d.day_number());
}

/// The day number of a valid triple with a year in `0..=i32::MAX` is in
/// range, and the date carrying it has exactly those fields.
pub proof fn lemma_at_ymd(y: int, m: int, d: int)
    requires
        0 <= y <= i32::MAX,
        valid_ymd(y, m, d),
    ensures
        day_in_range(days_from_civil(y, m, d)),
        Date::at_day_number(days_from_civil(y, m, d)).wf(),
        Date::at_day_number(days_from_civil(y, m, d)).year() == y,
        Date::at_day_number(days_from_civil(y, m, d)).month() == m,
        Date::at_day_number(days_from_civil(y, m, d)).day() == d,
{
    reveal(days_from_civil);
    assert(days_from_civil(0, 1, 1) == min_day_number());
    assert(days_from_civil(2147483647, 12, 31) == max_day_number());
    lemma_day_order_is_lexicographic(y, m, d, 0, 1, 1);
    lemma_day_order_is_lexicographic(y, m, d, 2147483647, 12, 31);
    lemma_from_to(y, m, d);
    Date::lemma_civil_from_days_in_range(days_from_civil(y, m, d));
    Date::lemma_at_day_number_fields(days_from_civil(y, m, d));
}

/// The day number of a well-formed date is in range.
pub proof fn lemma_wf_in_range(d: Date)
    requires
        d.wf(),
    ensures
        day_in_range(d.day_number()),
{
    lemma_at_ymd(d.year() as int, d.month() as int, d.day() as int);
}

/// Adding `n` days and then `-n` days gives back the original date.
pub proof fn lemma_add_days_round_trip(d: Date, n: int)
    requires
        d.wf(),
        day_in_range(d.day_number() + n),
    ensures
        Date::at_day_number(Date::at_day_number(d.day_number() + n).day_number() - n) == d,
{
    lemma_at_day_number(d.day_number() + n, d);
}

/// Advancing a date by one day gives the next calendar day: the next day of
/// the month, else the first of the next month, else 1 January of the next
/// year.
pub proof fn lemma_add_one_day_is_next_calendar_day(d: Date)
    requires
        d.wf(),
        day_in_range(d.day_number() + 1),
    ensures
        (Date::at_day_number(d.day_number() + 1).year() as int, Date::at_day_number(
            d.day_number() + 1,
        ).month() as int, Date::at_day_number(d.day_number() + 1).day() as int) == next_ymd(
            d.year() as int,
            d.month() as int,
            d.day() as int,
        ),
{
    let (y, m, dd) = next_ymd(d.year() as int, d.month() as int, d.day() as int);
    lemma_next_day_number(d.year() as int, d.month() as int, d.day() as int);
    lemma_from_to(y, m, dd);
    Date::lemma_civil_from_days_in_range(d.day_number() + 1);
    Date::lemma_at_day_number_fields(d.day_number() + 1);
}

/// Weekdays cycle: the day after a Monday is a Tuesday, ..., the day after
/// a Sunday is a Monday, and a week later is the same weekday.
pub proof fn lemma_weekday_cycle(z: int)
    ensures
        weekday_of_day(z + 1).index() == (weekday_of_day(z).index() + 1) % 7,
        weekday_of_day(z + 7) == weekday_of_day(z),
{
    vstd::arithmetic::div_mod::lemma_fundamental_div_mod(z + 3, 7);
    vstd::arithmetic::div_mod::lemma_fundamental_div_mod(z + 4, 7);
    vstd::arithmetic::div_mod::lemma_fundamental_div_mod(z + 10, 7);
}

/// The order of dates by day number is the lexicographic order of their
/// `(year, month, day)` fields.
pub proof fn lemma_chronological_is_lexicographic(a: Date, b: Date)
    requires
        a.wf(),
        b.wf(),
    ensures
        ymd_lt(
            a.year() as int,
            a.month() as int,
            a.day() as int,
            b.year() as int,
            b.month() as int,
            b.day() as int,
        ) <==> a.day_number() < b.day_number(),
{
    lemma_day_order_is_lexicographic(
        a.year() as int,
        a.month() as int,
        a.day() as int,
        b.year() as int,
        b.month() as int,
        b.day() as int,
    );
}

/// The day number of a date of the years 1583 to 9999 lies between those
/// of 1583-01-01 and 9999-12-31.
pub proof fn lemma_supported_day_range(d: Date)
    requires
        d.wf(),
        1583 <= d.year() <= 9999,
    ensures
        -141349 <= d.day_number() <= 2932896,
{
    reveal(days_from_civil);
    assert(days_from_civil(1583, 1, 1) == -141349);
    assert(days_from_civil(9999, 12, 31) == 2932896);
    lemma_day_order_is_lexicographic(1583, 1, 1, d.year() as int, d.month() as int, d.day() as int);
    lemma_day_order_is_lexicographic(d.year() as int, d.month() as int, d.day() as int, 9999, 12, 31);
}

/// For dates of the years 1583 to 9999, day differences always fit in an
/// `i32`, so [`Date::days_between`] is additive and antisymmetric, is zero
/// from a date to itself, and is positive exactly when the first date comes
/// before the second in `(year, month, day)` order.
pub proof fn lemma_days_between_supported(a: Date, b: Date, c: Date)
    requires
        a.wf(),
        b.wf(),
        c.wf(),
        1583 <= a.year() <= 9999,
        1583 <= b.year() <= 9999,
        1583 <= c.year() <= 9999,
    ensures
        days_between_value(a, b) + days_between_value(b, c) == days_between_value(a, c),
        days_between_value(b, a) == -days_between_value(a, b),
        days_between_value(a, a) == 0,
        days_between_value(a, b) == b.day_number() - a.day_number(),
        ymd_lt(
            a.year() as int,
            a.month() as int,
            a.day() as int,
            b.year() as int,
            b.month() as int,
            b.day() as int,
        ) <==> days_between_value(a, b) > 0,
{
    lemma_supported_day_range(a);
    lemma_supported_day_range(b);
    lemma_supported_day_range(c);
    lemma_days_between_additive(a, b, c);
    lemma_chronological_is_lexicographic(a, b);
}

/// Adding `n` days gives a well-formed date `n` days later, from which
/// adding `-n` days comes back.
pub proof fn lemma_add_days_law(d: Date, n: int)
    requires
        d.wf(),
        day_in_range(d.day_number() + n),
        i32::MIN < n <= i32::MAX,
    ensures
        Date::at_day_number(d.day_number() + n).wf(),
        Date::at_day_number(d.day_number() + n).day_number() == d.day_number() + n,
        days_between_value(d, Date::at_day_number(d.day_number() + n)) == n,
        Date::at_day_number(Date::at_day_number(d.day_number() + n).day_number() - n) == d,
{
    lemma_at_day_number(d.day_number() + n, d);
}

/// Weekdays advance with day numbers: the weekday of `b` is that of `a`
/// moved on by the number of days from `a` to `b`, modulo 7.
pub proof fn lemma_weekday_shift(a: Date, b: Date)
    ensures
        b.weekday().index() == (a.weekday().index() + (b.day_number() - a.day_number())) % 7,
{
    let za = a.day_number() + 3;
    let zb = b.day_number() + 3;
    lemma_index_from_index(za);
    lemma_index_from_index(zb);
    vstd::arithmetic::div_mod::lemma_add_mod_noop(za, zb - za, 7);
    vstd::arithmetic::div_mod::lemma_mod_twice(zb - za, 7);
    vstd::arithmetic::div_mod::lemma_add_mod_noop(za % 7, zb - za, 7);
    vstd::arithmetic::div_mod::lemma_mod_twice(za, 7);
}

/// The position of the weekday at position `i` is `i` modulo 7.
proof fn lemma_index_from_index(i: int)
    ensures
        Weekday::from_index(i).index() == i % 7,
{
}

/// Day differences are additive and antisymmetric: `a -> b -> c` spans as
/// many days as `a -> c`, `a -> a` spans none, and `b -> a` is `-(a -> b)`
/// (when the values fit in an `i32`).
pub proof fn lemma_days_between_additive(a: Date, b: Date, c: Date)
    requires
        i32::MIN <= b.day_number() - a.day_number() <= i32::MAX,
        i32::MIN <= c.day_number() - b.day_number() <= i32::MAX,
        i32::MIN <= c.day_number() - a.day_number() <= i32::MAX,
        i32::MIN + 1 <= b.day_number() - a.day_number(),
    ensures
        days_between_value(a, b) + days_between_value(b, c) == days_between_value(a, c),
        days_between_value(a, a) == 0,
        days_between_value(b, a) == -days_between_value(a, b),
{
}

} // verus!
