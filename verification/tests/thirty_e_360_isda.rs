//! Tests of the thirty_e_360_isda day-count convention.

use regit_daycount::day_count::thirty_e_360_isda;
use regit_daycount::{Date, YearFraction};

/// The floating-point value of an exact year fraction.
fn as_f64(yf: YearFraction) -> f64 {
    yf.numerator as f64 / yf.denominator as f64
}

/// The convention's year fraction as a floating-point number.
fn fraction(start: Date, end: Date, end_is_maturity: bool) -> f64 {
    as_f64(thirty_e_360_isda::fraction(start, end, end_is_maturity))
}

// The tolerance 1e-12 is the working slack used throughout this crate's
// numeric assertions: it is loose enough that a benign last-bit rounding
// never causes a spurious failure, and tight enough that any drift large
// enough to mis-state a cashflow at the cent level (≥ 1e-9 on a unit
// notional) is caught immediately. We deliberately do not assert against
// `f64::EPSILON`; the goal is auditable, not maximally-tight.
const TOL: f64 = 1e-12;

// ─── D1-and-D2 both last-day, neither at maturity ────────────────────

#[test]
fn isda_aug_31_no_maturity_adjusts() {
    // start = 2024-02-29 (leap), end = 2024-08-31, end_is_maturity=false.
    //   D1 = 29 = days_in_month(2024, 2) = 29 → D1 = 30.
    //   D2 = 31 = days_in_month(2024, 8) = 31 (M2 = 8 ≠ 2) → D2 = 30.
    //   Numerator = 360*0 + 30*(8-2) + (30-30) = 180.
    //   f = 180 / 360 = 0.5.
    let start = Date::ymd(2024, 2, 29).unwrap();
    let end = Date::ymd(2024, 8, 31).unwrap();
    let f = fraction(start, end, false);
    assert!((f - 180.0_f64 / 360.0).abs() < 1e-15);
    assert!((f - 0.5).abs() < TOL);
}

// ─── February-at-maturity suppression — the load-bearing case ────────

#[test]
fn isda_feb_28_at_maturity_does_not_adjust_d2() {
    // start = 2024-01-31, end = 2025-02-28, MATURITY.
    //   D1 = 31 = days_in_month(2024, 1) = 31 → D1 = 30.
    //   D2 = 28 = days_in_month(2025, 2) = 28, AND M2 = 2 AND
    //   end_is_maturity → SUPPRESS, D2 stays 28.
    //   Numerator = 360 + 30*(2-1) + (28-30) = 360 + 30 - 2 = 388.
    //   f = 388 / 360 ≈ 1.077777777777778.
    let start = Date::ymd(2024, 1, 31).unwrap();
    let end = Date::ymd(2025, 2, 28).unwrap();
    let f = fraction(start, end, true);
    assert!((f - 388.0_f64 / 360.0).abs() < TOL);
}

#[test]
fn isda_feb_28_not_at_maturity_does_adjust_d2() {
    // Same dates as above but end_is_maturity = false. Now the
    // February-suppression carve-out does NOT apply.
    //   D1 = 31 → 30 (as above).
    //   D2 = 28 = days_in_month(2025, 2) → D2 = 30.
    //   Numerator = 360 + 30*(2-1) + (30-30) = 390.
    //   f = 390 / 360 ≈ 1.083333333333333.
    let start = Date::ymd(2024, 1, 31).unwrap();
    let end = Date::ymd(2025, 2, 28).unwrap();
    let f = fraction(start, end, false);
    assert!((f - 390.0_f64 / 360.0).abs() < TOL);
}

#[test]
fn isda_feb_29_at_maturity_in_leap_does_not_adjust() {
    // start = 2023-02-28, end = 2024-02-29 (leap), MATURITY.
    //   D1 = 28 = days_in_month(2023, 2) → D1 = 30.
    //   D2 = 29 = days_in_month(2024, 2) (leap), AND M2 = 2 AND
    //   end_is_maturity → SUPPRESS, D2 stays 29.
    //   Numerator = 360 + 30*0 + (29-30) = 359.
    //   f = 359 / 360 ≈ 0.997222222222222.
    let start = Date::ymd(2023, 2, 28).unwrap();
    let end = Date::ymd(2024, 2, 29).unwrap();
    let f = fraction(start, end, true);
    assert!((f - 359.0_f64 / 360.0).abs() < TOL);
}

// ─── No-adjustment path ──────────────────────────────────────────────

#[test]
fn isda_d1_not_last_day_no_adjust() {
    // start = 2026-01-15, end = 2026-07-15, not maturity. Neither
    // endpoint is the last day of its month, so no adjustment fires.
    //   Numerator = 360*0 + 30*(7-1) + (15-15) = 180.
    //   f = 180 / 360 = 0.5.
    let start = Date::ymd(2026, 1, 15).unwrap();
    let end = Date::ymd(2026, 7, 15).unwrap();
    let f = fraction(start, end, false);
    assert!((f - 180.0_f64 / 360.0).abs() < 1e-15);
    assert!((f - 0.5).abs() < TOL);
}

// ─── Zero-length interval ────────────────────────────────────────────

#[test]
fn isda_zero_length() {
    // `fraction(d, d, _)` is identically zero — degenerate but legal.
    // Holds for both flag values, since the numerator is zero regardless.
    let d = Date::ymd(2026, 5, 23).unwrap();
    assert!(fraction(d, d, false).abs() < TOL);
    assert!(fraction(d, d, true).abs() < TOL);
}

// ─── Inverted interval ───────────────────────────────────────────────

#[test]
fn isda_inverted_negative() {
    // The crate does not reject `end < start`; the numerator flips
    // sign by the natural arithmetic of the formula. Picks a pair
    // where neither endpoint is a last day of its month, so the
    // adjustments do not introduce asymmetry between the forward and
    // reverse evaluations.
    let start = Date::ymd(2026, 1, 15).unwrap();
    let end = Date::ymd(2026, 7, 15).unwrap();
    let forward = fraction(start, end, false);
    let backward = fraction(end, start, false);
    assert!((backward + forward).abs() < TOL);
    assert!(backward < 0.0);
}

// ─── D1 = last day of February in a leap year ────────────────────────

#[test]
fn isda_d1_feb_29_in_leap_year_adjusts() {
    // start = 2024-02-29, end = 2024-04-15, not maturity.
    //   D1 = 29 = days_in_month(2024, 2) → D1 = 30.
    //   D2 = 15, not a last day → stays.
    //   Numerator = 360*0 + 30*(4-2) + (15-30) = 60 - 15 = 45.
    //   f = 45 / 360 = 0.125.
    let start = Date::ymd(2024, 2, 29).unwrap();
    let end = Date::ymd(2024, 4, 15).unwrap();
    let f = fraction(start, end, false);
    assert!((f - 45.0_f64 / 360.0).abs() < TOL);
    assert!((f - 0.125).abs() < TOL);
}
