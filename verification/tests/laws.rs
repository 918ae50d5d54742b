//! Concrete checks of the library's laws and exact values: one or more
//! cases for each proved law, exact numerators and denominators for each
//! convention, every error variant, and the edge cases the conventions
//! handle.

use regit_daycount::calendar::{self, Composite, JointBusiness};
use regit_daycount::day_count::{
    act_365l, act_act_icma, act_act_isda, bus_252, nl_365, thirty_360_bond_basis, thirty_e_360,
    thirty_e_360_isda,
};
use regit_daycount::errors::ValidationError;
use regit_daycount::roll::apply;
use regit_daycount::{day_count, Calendar, Date, DayCount, Roll, Weekday, YearFraction};

fn ymd(y: i32, m: u8, d: u8) -> Date {
    Date::ymd(y, m, d).unwrap()
}

fn yf(numerator: i64, denominator: i64) -> YearFraction {
    YearFraction { numerator, denominator }
}

fn weekends_only(d: Date) -> bool {
    !calendar::is_weekend(d)
}

const ACTUAL_BASES: [DayCount; 5] = [
    DayCount::Act360,
    DayCount::Act365F,
    DayCount::Act365L,
    DayCount::Nl365,
    DayCount::ActActIsda,
];

// ─── Exact values of each convention ─────────────────────────────────────

#[test]
fn exact_act_act_isda_straddle() {
    // 4 days of 2007 over 365 and 59 days of 2008 over 366, over the
    // common denominator 365 × 366.
    let f = act_act_isda::fraction(ymd(2007, 12, 28), ymd(2008, 2, 29));
    assert_eq!(f, yf(366 * 4 + 365 * 59, 133_590));
}

#[test]
fn exact_act_act_isda_same_year() {
    assert_eq!(act_act_isda::fraction(ymd(2024, 3, 1), ymd(2024, 9, 1)), yf(184, 366));
    assert_eq!(act_act_isda::fraction(ymd(2026, 3, 1), ymd(2026, 9, 1)), yf(184, 365));
    assert_eq!(act_act_isda::fraction(ymd(2026, 3, 1), ymd(2026, 3, 1)), yf(0, 1));
}

#[test]
fn exact_act_act_isda_full_years_are_one() {
    // A whole non-leap year: 365 days × 366 / 133590 = 1.
    assert_eq!(act_act_isda::fraction(ymd(2025, 1, 1), ymd(2026, 1, 1)), yf(133_590, 133_590));
    // A whole leap year: 366 days × 365 / 133590 = 1.
    assert_eq!(act_act_isda::fraction(ymd(2024, 1, 1), ymd(2025, 1, 1)), yf(133_590, 133_590));
}

#[test]
fn exact_thirty_360_family() {
    let s = ymd(2026, 1, 15);
    let e = ymd(2026, 7, 31);
    assert_eq!(thirty_360_bond_basis::fraction(s, e), yf(196, 360));
    assert_eq!(thirty_e_360::fraction(s, e), yf(195, 360));
    assert_eq!(thirty_e_360_isda::fraction(s, e, false), yf(195, 360));
    // 30E/360 ISDA: the last day of February is 30 unless it is maturity.
    let s = ymd(2024, 1, 31);
    let e = ymd(2025, 2, 28);
    assert_eq!(thirty_e_360_isda::fraction(s, e, true), yf(388, 360));
    assert_eq!(thirty_e_360_isda::fraction(s, e, false), yf(390, 360));
}

#[test]
fn exact_act_365l_and_nl_365() {
    let s = ymd(2024, 1, 1);
    let e = ymd(2024, 4, 1);
    assert_eq!(act_365l::fraction(s, e), yf(91, 366));
    assert_eq!(nl_365::fraction(s, e), yf(90, 365));
    // After the leap day, both fall back to 365 days.
    let s = ymd(2024, 7, 1);
    let e = ymd(2024, 10, 1);
    assert_eq!(act_365l::fraction(s, e), yf(92, 365));
    assert_eq!(nl_365::fraction(s, e), yf(92, 365));
    // Two leap days between 2020 and 2028.
    assert_eq!(nl_365::fraction(ymd(2020, 1, 1), ymd(2028, 1, 1)), yf(2920, 365));
}

#[test]
fn exact_act_act_icma_and_its_degenerate_inputs() {
    let s = ymd(2003, 11, 1);
    let e = ymd(2004, 5, 1);
    assert_eq!(act_act_icma::fraction(s, e, s, e, 2), yf(182, 364));
    // A zero frequency or an empty reference period gives 0.
    assert_eq!(act_act_icma::fraction(s, e, s, e, 0), yf(0, 1));
    assert_eq!(act_act_icma::fraction(s, e, s, s, 2), yf(0, 1));
}

#[test]
fn exact_dispatcher_values() {
    let s = ymd(2026, 1, 1);
    let e = ymd(2026, 4, 1);
    assert_eq!(day_count::fraction(s, e, DayCount::Act360), yf(90, 360));
    assert_eq!(day_count::fraction(s, e, DayCount::Act365F), yf(90, 365));
    assert_eq!(day_count::fraction(s, e, DayCount::OneOne), yf(1, 1));
    // The conventions that need more input give 0 / 0 (NaN).
    assert_eq!(day_count::fraction(s, e, DayCount::ActActIcma), yf(0, 0));
    assert_eq!(day_count::fraction(s, e, DayCount::Bus252), yf(0, 0));
    // The frequency-aware dispatcher routes ActActIcma to ICMA.
    assert_eq!(
        day_count::year_fraction_with_freq(s, e, DayCount::ActActIcma, 4, s, e),
        yf(90, 360)
    );
}

// ─── Laws of the day counts ──────────────────────────────────────────────

#[test]
fn law_zero_length_interval() {
    for d in [ymd(1583, 1, 1), ymd(2024, 2, 29), ymd(9999, 12, 31)] {
        for basis in [
            DayCount::Act360,
            DayCount::Act365F,
            DayCount::ActActIsda,
            DayCount::Thirty360BondBasis,
            DayCount::ThirtyE360,
            DayCount::ThirtyE360Isda,
            DayCount::Act365L,
            DayCount::Nl365,
        ] {
            assert_eq!(day_count::fraction(d, d, basis).numerator, 0, "{basis:?}");
        }
        assert_eq!(day_count::fraction(d, d, DayCount::OneOne), yf(1, 1));
    }
}

#[test]
fn law_act_360_additive() {
    let a = ymd(2019, 11, 3);
    let b = ymd(2024, 2, 29);
    let c = ymd(2031, 6, 30);
    let ab = day_count::fraction(a, b, DayCount::Act360);
    let bc = day_count::fraction(b, c, DayCount::Act360);
    let ac = day_count::fraction(a, c, DayCount::Act360);
    assert_eq!(ab.numerator + bc.numerator, ac.numerator);
    assert_eq!(ac.denominator, 360);
}

#[test]
fn law_swap_negates_actual_conventions() {
    let pairs = [
        (ymd(2023, 6, 1), ymd(2025, 6, 1)),
        (ymd(2024, 1, 1), ymd(2024, 4, 1)),
        (ymd(2007, 12, 28), ymd(2008, 2, 29)),
        (ymd(1999, 7, 1), ymd(2000, 7, 1)),
    ];
    for (s, e) in pairs {
        for basis in ACTUAL_BASES {
            let forward = day_count::fraction(s, e, basis);
            let backward = day_count::fraction(e, s, basis);
            assert_eq!(backward, yf(-forward.numerator, forward.denominator), "{basis:?}");
            assert!(forward.numerator > 0);
        }
    }
}

#[test]
fn law_bus_252_swap_negates() {
    let s = ymd(2026, 5, 1);
    let e = ymd(2026, 5, 15);
    let forward = bus_252::fraction(s, e, weekends_only);
    let backward = bus_252::fraction(e, s, weekends_only);
    assert_eq!(forward, yf(10, 252));
    assert_eq!(backward, yf(-10, 252));
}

#[test]
fn law_bus_252_counts_business_days() {
    let s = ymd(2024, 12, 1);
    let e = ymd(2025, 2, 1);
    for cal in [Calendar::Target2, Calendar::UnitedStates, Calendar::Japan] {
        let n = calendar::business_days_between(s, e, cal);
        assert_eq!(calendar::bus_252_for_calendar(s, e, cal), yf(n as i64, 252));
    }
}

// ─── Laws of the date primitive ──────────────────────────────────────────

#[test]
fn law_ymd_round_trip_and_errors() {
    for d in [ymd(1583, 1, 1), ymd(2000, 2, 29), ymd(9999, 12, 31)] {
        assert_eq!(Date::ymd(d.year(), d.month(), d.day()), Ok(d));
    }
    assert_eq!(
        Date::ymd(10_000, 1, 1),
        Err(ValidationError::OutOfRange { what: "year > 9999" })
    );
    assert_eq!(
        Date::ymd(2100, 2, 29),
        Err(ValidationError::InvalidDate { rule: "day-out-of-range" })
    );
}

#[test]
fn law_add_one_day_is_next_calendar_day() {
    assert_eq!(ymd(2024, 2, 28).add_days(1), ymd(2024, 2, 29));
    assert_eq!(ymd(2100, 2, 28).add_days(1), ymd(2100, 3, 1));
    assert_eq!(ymd(2026, 4, 30).add_days(1), ymd(2026, 5, 1));
    assert_eq!(ymd(9998, 12, 31).add_days(1), ymd(9999, 1, 1));
}

#[test]
fn law_weekday_cycle() {
    let order = [
        Weekday::Mon,
        Weekday::Tue,
        Weekday::Wed,
        Weekday::Thu,
        Weekday::Fri,
        Weekday::Sat,
        Weekday::Sun,
    ];
    let mut d = ymd(1583, 1, 3);
    assert_eq!(d.day_of_week(), Weekday::Mon);
    for i in 0..70 {
        assert_eq!(d.day_of_week(), order[i % 7]);
        assert_eq!(d.add_days(7).day_of_week(), d.day_of_week());
        d = d.add_days(1);
    }
}

#[test]
fn law_days_between_additive_and_antisymmetric() {
    let a = ymd(1600, 2, 29);
    let b = ymd(2024, 7, 15);
    let c = ymd(9999, 12, 31);
    assert_eq!(a.days_between(b) + b.days_between(c), a.days_between(c));
    assert_eq!(b.days_between(a), -a.days_between(b));
    assert_eq!(a.days_between(a), 0);
}

#[test]
fn law_chronological_order_matches_field_order() {
    let dates = [ymd(2025, 12, 31), ymd(2026, 1, 1), ymd(2026, 2, 1), ymd(2026, 2, 2)];
    for i in 0..dates.len() {
        for j in 0..dates.len() {
            assert_eq!(dates[i] < dates[j], dates[i].days_between(dates[j]) > 0);
            assert_eq!(dates[i].is_before(dates[j]), dates[i] < dates[j]);
        }
    }
}

#[test]
fn law_easter_is_a_sunday_in_its_window() {
    for year in [1583, 1818, 1943, 2000, 2008, 2285, 9999] {
        let e = Date::easter_sunday(year);
        assert_eq!(e.day_of_week(), Weekday::Sun, "{year}");
        assert!((e.month() == 3 && e.day() >= 22) || (e.month() == 4 && e.day() <= 25));
    }
    // The extremes of the window.
    assert_eq!(Date::easter_sunday(1818), ymd(1818, 3, 22));
    assert_eq!(Date::easter_sunday(1943), ymd(1943, 4, 25));
}

#[test]
fn law_nth_weekday_is_the_nth_occurrence() {
    let d = Date::nth_weekday_of_month(2024, 11, 4, Weekday::Thu).unwrap();
    assert_eq!(d, ymd(2024, 11, 28));
    assert!(d.day() > 21 && d.day() <= 28);
    assert_eq!(
        Date::nth_weekday_of_month(1500, 1, 1, Weekday::Mon),
        Err(ValidationError::OutOfRange { what: "year < 1583" })
    );
    assert_eq!(
        Date::nth_weekday_of_month(10_000, 1, 1, Weekday::Mon),
        Err(ValidationError::OutOfRange { what: "year > 9999" })
    );
    assert_eq!(
        Date::nth_weekday_of_month(2026, 1, 6, Weekday::Mon),
        Err(ValidationError::OutOfRange { what: "n must be 1..=5" })
    );
}

#[test]
fn add_months_clamps_and_wraps() {
    assert_eq!(ymd(2024, 1, 31).add_months_eom_aware(13), ymd(2025, 2, 28));
    assert_eq!(ymd(2024, 3, 31).add_months_eom_aware(-25), ymd(2022, 2, 28));
    assert_eq!(ymd(2024, 5, 15).add_months_eom_aware(0), ymd(2024, 5, 15));
}

// ─── Laws of the rolls ───────────────────────────────────────────────────

#[test]
fn law_following_and_preceding_find_the_neighbouring_business_day() {
    let sat = ymd(2026, 12, 26);
    let f = apply(sat, Roll::Following, |d| calendar::is_business_day(d, Calendar::Target2));
    let p = apply(sat, Roll::Preceding, |d| calendar::is_business_day(d, Calendar::Target2));
    assert_eq!(f, ymd(2026, 12, 28));
    assert_eq!(p, ymd(2026, 12, 24));
    let mut d = p.add_days(1);
    while d < f {
        assert!(!calendar::is_business_day(d, Calendar::Target2));
        d = d.add_days(1);
    }
}

#[test]
fn law_business_day_is_fixed_by_every_roll() {
    let wed = ymd(2026, 5, 13);
    for conv in [
        Roll::Unadjusted,
        Roll::Following,
        Roll::ModifiedFollowing,
        Roll::Preceding,
        Roll::ModifiedPreceding,
        Roll::Nearest,
        Roll::EndOfMonth,
    ] {
        assert_eq!(apply(wed, conv, weekends_only), wed, "{conv:?}");
        assert_eq!(calendar::adjust(wed, conv, Calendar::UnitedKingdom), wed, "{conv:?}");
    }
}

#[test]
fn end_of_month_anchors_to_last_business_day() {
    // Under TARGET2, 2026-12-31 (Thu) is the last business day of
    // December; a non-business month end falls back to ModifiedFollowing.
    let last = ymd(2026, 12, 31);
    assert_eq!(calendar::adjust(last, Roll::EndOfMonth, Calendar::Target2), last);
    let sun = ymd(2026, 5, 31);
    assert_eq!(calendar::adjust(sun, Roll::EndOfMonth, Calendar::Target2), ymd(2026, 5, 29));
}

// ─── Laws of the calendars ───────────────────────────────────────────────

#[test]
fn law_business_day_is_neither_weekend_nor_holiday() {
    let mut d = ymd(2024, 12, 20);
    for _ in 0..20 {
        for cal in [Calendar::Target2, Calendar::Luxembourg, Calendar::HongKong] {
            assert_eq!(
                calendar::is_business_day(d, cal),
                !calendar::is_weekend(d) && !calendar::is_holiday(d, cal)
            );
        }
        d = d.add_days(1);
    }
}

#[test]
fn law_snapshot_calendars_are_empty_outside_coverage() {
    for cal in [
        Calendar::UnitedStates,
        Calendar::UnitedKingdom,
        Calendar::Japan,
        Calendar::Switzerland,
        Calendar::HongKong,
        Calendar::Singapore,
    ] {
        assert!(!calendar::is_holiday(ymd(2019, 1, 1), cal), "{cal:?}");
        assert!(!calendar::is_holiday(ymd(2041, 1, 1), cal), "{cal:?}");
        assert!(!calendar::is_holiday(ymd(2019, 12, 25), cal), "{cal:?}");
    }
    // The rule-based calendars have no coverage window.
    assert!(calendar::is_holiday(ymd(1990, 12, 25), Calendar::Target2));
    assert!(calendar::is_holiday(ymd(2090, 12, 25), Calendar::Luxembourg));
}

#[test]
fn law_composite_duality() {
    let kinds: &'static [Calendar] = &[Calendar::UnitedStates, Calendar::UnitedKingdom];
    let comp = Composite::new(kinds);
    let joint = JointBusiness::new(kinds);
    let mut d = ymd(2024, 5, 20);
    for _ in 0..60 {
        let any_holiday = comp.is_holiday(d);
        assert_eq!(joint.is_holiday(d), any_holiday);
        assert_eq!(comp.is_business_day(d), !calendar::is_weekend(d) && !any_holiday);
        assert_eq!(joint.is_business_day(d), comp.is_business_day(d));
        d = d.add_days(1);
    }
}

#[test]
fn add_business_days_counts_in_both_directions() {
    let fri = ymd(2024, 12, 20);
    assert_eq!(calendar::add_business_days(fri, 3, Calendar::Target2), ymd(2024, 12, 27));
    assert_eq!(calendar::add_business_days(ymd(2024, 12, 27), -3, Calendar::Target2), fri);
    // T+0 on a holiday rolls forward.
    assert_eq!(calendar::add_business_days(ymd(2024, 12, 25), 0, Calendar::Target2), ymd(2024, 12, 27));
    assert_eq!(calendar::next_business_day(ymd(2024, 12, 25), Calendar::Target2), ymd(2024, 12, 27));
    assert_eq!(
        calendar::previous_business_day(ymd(2024, 12, 26), Calendar::Target2),
        ymd(2024, 12, 24)
    );
}

#[test]
fn error_messages_name_their_variant() {
    assert_eq!(
        ValidationError::InvalidDate { rule: "day-out-of-range" }.message(),
        "invalid date: day-out-of-range"
    );
    assert_eq!(
        ValidationError::OutOfRange { what: "n must be 1..=5" }.message(),
        "value out of range: n must be 1..=5"
    );
}

#[test]
fn law_whole_year_is_one() {
    for year in [1900, 2000, 2023, 2024, 2100] {
        let s = ymd(year, 1, 1);
        let e = ymd(year + 1, 1, 1);
        for basis in [DayCount::ActActIsda, DayCount::Act365L, DayCount::Nl365] {
            let f = day_count::fraction(s, e, basis);
            assert_eq!(f.numerator, f.denominator, "{basis:?} {year}");
        }
    }
    assert_eq!(act_365l::fraction(ymd(2024, 1, 1), ymd(2025, 1, 1)), yf(366, 366));
    assert_eq!(nl_365::fraction(ymd(2024, 1, 1), ymd(2025, 1, 1)), yf(365, 365));
}

#[test]
fn law_icma_full_period_is_one_over_freq() {
    let s = ymd(1999, 7, 1);
    let e = ymd(2000, 7, 1);
    for freq in [1u8, 2, 4, 12] {
        let f = act_act_icma::fraction(s, e, s, e, freq);
        assert_eq!(f.numerator * i64::from(freq), f.denominator);
        assert_eq!(f.numerator, 366);
    }
}

#[test]
fn modified_rolls_compare_year_and_month() {
    // The only business day is 2026-01-01. From 2025-01-31, Following lands
    // in January of another year, so ModifiedFollowing falls back to
    // Preceding, which finds nothing and keeps the date.
    let only_new_year = |d: Date| d == Date::ymd_unchecked(2026, 1, 1);
    let jan_2025 = ymd(2025, 1, 31);
    assert_eq!(apply(jan_2025, Roll::Following, only_new_year), ymd(2026, 1, 1));
    assert_eq!(apply(jan_2025, Roll::ModifiedFollowing, only_new_year), jan_2025);
    // The mirror case for ModifiedPreceding.
    let only_jan_31 = |d: Date| d == Date::ymd_unchecked(2025, 1, 31);
    let new_year = ymd(2026, 1, 1);
    assert_eq!(apply(new_year, Roll::Preceding, only_jan_31), ymd(2025, 1, 31));
    assert_eq!(apply(new_year, Roll::ModifiedPreceding, only_jan_31), new_year);
}

#[test]
fn unadjusted_never_moves_the_date() {
    let sat = ymd(2026, 5, 23);
    assert_eq!(apply(sat, Roll::Unadjusted, |_d: Date| false), sat);
    assert_eq!(apply(sat, Roll::Unadjusted, |_d: Date| true), sat);
}

#[test]
fn law_act_act_isda_sign_whole_years_and_additivity() {
    let a = ymd(2019, 3, 15);
    let b = ymd(2020, 2, 29);
    let c = ymd(2023, 11, 30);
    for (s, e) in [(a, b), (b, c), (a, c), (c, a), (a, a)] {
        let f = act_act_isda::fraction(s, e);
        assert!(f.denominator > 0);
        assert_eq!(f.numerator > 0, s < e);
        assert_eq!(f.numerator == 0, s == e);
        assert_eq!(f.numerator < 0, e < s);
    }
    for (y1, y2) in [(2000, 2000), (2000, 2001), (1999, 2025), (1583, 9999)] {
        let f = act_act_isda::fraction(ymd(y1, 1, 1), ymd(y2, 1, 1));
        assert_eq!(f.numerator, i64::from(y2 - y1) * f.denominator);
    }
    let (ab, bc, ac) = (
        act_act_isda::fraction(a, b),
        act_act_isda::fraction(b, c),
        act_act_isda::fraction(a, c),
    );
    assert_eq!(
        i128::from(ac.numerator) * i128::from(ab.denominator) * i128::from(bc.denominator),
        (i128::from(ab.numerator) * i128::from(bc.denominator)
            + i128::from(bc.numerator) * i128::from(ab.denominator))
            * i128::from(ac.denominator)
    );
}

#[test]
fn law_weekday_shift() {
    let a = ymd(1583, 1, 3);
    let idx = |w: Weekday| match w {
        Weekday::Mon => 0,
        Weekday::Tue => 1,
        Weekday::Wed => 2,
        Weekday::Thu => 3,
        Weekday::Fri => 4,
        Weekday::Sat => 5,
        Weekday::Sun => 6,
    };
    for b in [ymd(1700, 2, 28), ymd(2000, 2, 29), ymd(2026, 5, 23), ymd(9999, 12, 31)] {
        assert_eq!(idx(b.day_of_week()), (idx(a.day_of_week()) + a.days_between(b)).rem_euclid(7));
        assert_eq!(idx(a.day_of_week()), (idx(b.day_of_week()) + b.days_between(a)).rem_euclid(7));
    }
}

#[test]
fn law_civil_day_round_trip() {
    assert_eq!(Date::to_civil_days(1970, 1, 1), 0);
    for (y, m, d) in [(1583, 1, 1), (1970, 1, 1), (2024, 2, 29), (9999, 12, 31)] {
        assert_eq!(Date::from_civil_days(Date::to_civil_days(y, m, d)), ymd(y, m, d));
    }
}
