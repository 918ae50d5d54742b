//! Switzerland — SIX Swiss Exchange trading calendar.
//!
//! Dated snapshot of the ten SIX closing days a year: 1 and 2 January, Good
//! Friday, Easter Monday, 1 May, Ascension Day, Whit Monday, 1 August, 25 and 26
//! December. Holidays falling on a weekend are not shifted.
//!
//! The snapshot covers the years of [`COVERAGE`]; outside them no date is a
//! holiday.
use vstd::prelude::*;

use crate::calendar::table_contains;
use crate::date::Date;

verus! {

/// The date on which the snapshot was taken.
pub const SNAPSHOT_DATE: &'static str = "2026-05-23";

/// Inclusive range of years the snapshot covers.
pub const COVERAGE: (i32, i32) = (2020, 2040);

/// The holiday dates `(year, month, day)`, sorted ascending.
pub const HOLIDAYS: [(i32, u8, u8); 210] = [
    // ─── 2020 (Easter Sunday 2020-04-12) ────────────────────────────────
    (2020, 1, 1),   // 2020-01-01 — New Year's Day
    (2020, 1, 2),   // 2020-01-02 — Berchtoldstag
    (2020, 4, 10),  // 2020-04-10 — Good Friday
    (2020, 4, 13),  // 2020-04-13 — Easter Monday
    (2020, 5, 1),   // 2020-05-01 — Labour Day
    (2020, 5, 21),  // 2020-05-21 — Ascension Day
    (2020, 6, 1),   // 2020-06-01 — Whit Monday
    (2020, 8, 1),   // 2020-08-01 — Swiss National Day
    (2020, 12, 25), // 2020-12-25 — Christmas Day
    (2020, 12, 26), // 2020-12-26 — St. Stephen's Day
    // ─── 2021 (Easter Sunday 2021-04-04) ────────────────────────────────
    (2021, 1, 1),   // 2021-01-01 — New Year's Day
    (2021, 1, 2),   // 2021-01-02 — Berchtoldstag
    (2021, 4, 2),   // 2021-04-02 — Good Friday
    (2021, 4, 5),   // 2021-04-05 — Easter Monday
    (2021, 5, 1),   // 2021-05-01 — Labour Day
    (2021, 5, 13),  // 2021-05-13 — Ascension Day
    (2021, 5, 24),  // 2021-05-24 — Whit Monday
    (2021, 8, 1),   // 2021-08-01 — Swiss National Day
    (2021, 12, 25), // 2021-12-25 — Christmas Day
    (2021, 12, 26), // 2021-12-26 — St. Stephen's Day
    // ─── 2022 (Easter Sunday 2022-04-17) ────────────────────────────────
    (2022, 1, 1),   // 2022-01-01 — New Year's Day
    (2022, 1, 2),   // 2022-01-02 — Berchtoldstag
    (2022, 4, 15),  // 2022-04-15 — Good Friday
    (2022, 4, 18),  // 2022-04-18 — Easter Monday
    (2022, 5, 1),   // 2022-05-01 — Labour Day
    (2022, 5, 26),  // 2022-05-26 — Ascension Day
    (2022, 6, 6),   // 2022-06-06 — Whit Monday
    (2022, 8, 1),   // 2022-08-01 — Swiss National Day
    (2022, 12, 25), // 2022-12-25 — Christmas Day
    (2022, 12, 26), // 2022-12-26 — St. Stephen's Day
    // ─── 2023 (Easter Sunday 2023-04-09) ────────────────────────────────
    (2023, 1, 1),   // 2023-01-01 — New Year's Day
    (2023, 1, 2),   // 2023-01-02 — Berchtoldstag
    (2023, 4, 7),   // 2023-04-07 — Good Friday
    (2023, 4, 10),  // 2023-04-10 — Easter Monday
    (2023, 5, 1),   // 2023-05-01 — Labour Day
    (2023, 5, 18),  // 2023-05-18 — Ascension Day
    (2023, 5, 29),  // 2023-05-29 — Whit Monday
    (2023, 8, 1),   // 2023-08-01 — Swiss National Day
    (2023, 12, 25), // 2023-12-25 — Christmas Day
    (2023, 12, 26), // 2023-12-26 — St. Stephen's Day
    // ─── 2024 (Easter Sunday 2024-03-31) ────────────────────────────────
    (2024, 1, 1),   // 2024-01-01 — New Year's Day
    (2024, 1, 2),   // 2024-01-02 — Berchtoldstag
    (2024, 3, 29),  // 2024-03-29 — Good Friday
    (2024, 4, 1),   // 2024-04-01 — Easter Monday
    (2024, 5, 1),   // 2024-05-01 — Labour Day
    (2024, 5, 9),   // 2024-05-09 — Ascension Day
    (2024, 5, 20),  // 2024-05-20 — Whit Monday
    (2024, 8, 1),   // 2024-08-01 — Swiss National Day
    (2024, 12, 25), // 2024-12-25 — Christmas Day
    (2024, 12, 26), // 2024-12-26 — St. Stephen's Day
    // ─── 2025 (Easter Sunday 2025-04-20) ────────────────────────────────
    (2025, 1, 1),   // 2025-01-01 — New Year's Day
    (2025, 1, 2),   // 2025-01-02 — Berchtoldstag
    (2025, 4, 18),  // 2025-04-18 — Good Friday
    (2025, 4, 21),  // 2025-04-21 — Easter Monday
    (2025, 5, 1),   // 2025-05-01 — Labour Day
    (2025, 5, 29),  // 2025-05-29 — Ascension Day
    (2025, 6, 9),   // 2025-06-09 — Whit Monday
    (2025, 8, 1),   // 2025-08-01 — Swiss National Day
    (2025, 12, 25), // 2025-12-25 — Christmas Day
    (2025, 12, 26), // 2025-12-26 — St. Stephen's Day
    // ─── 2026 (Easter Sunday 2026-04-05) ────────────────────────────────
    (2026, 1, 1),   // 2026-01-01 — New Year's Day
    (2026, 1, 2),   // 2026-01-02 — Berchtoldstag
    (2026, 4, 3),   // 2026-04-03 — Good Friday
    (2026, 4, 6),   // 2026-04-06 — Easter Monday
    (2026, 5, 1),   // 2026-05-01 — Labour Day
    (2026, 5, 14),  // 2026-05-14 — Ascension Day
    (2026, 5, 25),  // 2026-05-25 — Whit Monday
    (2026, 8, 1),   // 2026-08-01 — Swiss National Day
    (2026, 12, 25), // 2026-12-25 — Christmas Day
    (2026, 12, 26), // 2026-12-26 — St. Stephen's Day
    // ─── 2027 (Easter Sunday 2027-03-28) ────────────────────────────────
    (2027, 1, 1),   // 2027-01-01 — New Year's Day
    (2027, 1, 2),   // 2027-01-02 — Berchtoldstag
    (2027, 3, 26),  // 2027-03-26 — Good Friday
    (2027, 3, 29),  // 2027-03-29 — Easter Monday
    (2027, 5, 1),   // 2027-05-01 — Labour Day
    (2027, 5, 6),   // 2027-05-06 — Ascension Day
    (2027, 5, 17),  // 2027-05-17 — Whit Monday
    (2027, 8, 1),   // 2027-08-01 — Swiss National Day
    (2027, 12, 25), // 2027-12-25 — Christmas Day
    (2027, 12, 26), // 2027-12-26 — St. Stephen's Day
    // ─── 2028 (Easter Sunday 2028-04-16) ────────────────────────────────
    (2028, 1, 1),   // 2028-01-01 — New Year's Day
    (2028, 1, 2),   // 2028-01-02 — Berchtoldstag
    (2028, 4, 14),  // 2028-04-14 — Good Friday
    (2028, 4, 17),  // 2028-04-17 — Easter Monday
    (2028, 5, 1),   // 2028-05-01 — Labour Day
    (2028, 5, 25),  // 2028-05-25 — Ascension Day
    (2028, 6, 5),   // 2028-06-05 — Whit Monday
    (2028, 8, 1),   // 2028-08-01 — Swiss National Day
    (2028, 12, 25), // 2028-12-25 — Christmas Day
    (2028, 12, 26), // 2028-12-26 — St. Stephen's Day
    // ─── 2029 (Easter Sunday 2029-04-01) ────────────────────────────────
    (2029, 1, 1),   // 2029-01-01 — New Year's Day
    (2029, 1, 2),   // 2029-01-02 — Berchtoldstag
    (2029, 3, 30),  // 2029-03-30 — Good Friday
    (2029, 4, 2),   // 2029-04-02 — Easter Monday
    (2029, 5, 1),   // 2029-05-01 — Labour Day
    (2029, 5, 10),  // 2029-05-10 — Ascension Day
    (2029, 5, 21),  // 2029-05-21 — Whit Monday
    (2029, 8, 1),   // 2029-08-01 — Swiss National Day
    (2029, 12, 25), // 2029-12-25 — Christmas Day
    (2029, 12, 26), // 2029-12-26 — St. Stephen's Day
    // ─── 2030 (Easter Sunday 2030-04-21) ────────────────────────────────
    (2030, 1, 1),   // 2030-01-01 — New Year's Day
    (2030, 1, 2),   // 2030-01-02 — Berchtoldstag
    (2030, 4, 19),  // 2030-04-19 — Good Friday
    (2030, 4, 22),  // 2030-04-22 — Easter Monday
    (2030, 5, 1),   // 2030-05-01 — Labour Day
    (2030, 5, 30),  // 2030-05-30 — Ascension Day
    (2030, 6, 10),  // 2030-06-10 — Whit Monday
    (2030, 8, 1),   // 2030-08-01 — Swiss National Day
    (2030, 12, 25), // 2030-12-25 — Christmas Day
    (2030, 12, 26), // 2030-12-26 — St. Stephen's Day
    // ─── 2031 (Easter Sunday 2031-04-13) ────────────────────────────────
    (2031, 1, 1),   // 2031-01-01 — New Year's Day
    (2031, 1, 2),   // 2031-01-02 — Berchtoldstag
    (2031, 4, 11),  // 2031-04-11 — Good Friday
    (2031, 4, 14),  // 2031-04-14 — Easter Monday
    (2031, 5, 1),   // 2031-05-01 — Labour Day
    (2031, 5, 22),  // 2031-05-22 — Ascension Day
    (2031, 6, 2),   // 2031-06-02 — Whit Monday
    (2031, 8, 1),   // 2031-08-01 — Swiss National Day
    (2031, 12, 25), // 2031-12-25 — Christmas Day
    (2031, 12, 26), // 2031-12-26 — St. Stephen's Day
    // ─── 2032 (Easter Sunday 2032-03-28) ────────────────────────────────
    (2032, 1, 1),   // 2032-01-01 — New Year's Day
    (2032, 1, 2),   // 2032-01-02 — Berchtoldstag
    (2032, 3, 26),  // 2032-03-26 — Good Friday
    (2032, 3, 29),  // 2032-03-29 — Easter Monday
    (2032, 5, 1),   // 2032-05-01 — Labour Day
    (2032, 5, 6),   // 2032-05-06 — Ascension Day
    (2032, 5, 17),  // 2032-05-17 — Whit Monday
    (2032, 8, 1),   // 2032-08-01 — Swiss National Day
    (2032, 12, 25), // 2032-12-25 — Christmas Day
    (2032, 12, 26), // 2032-12-26 — St. Stephen's Day
    // ─── 2033 (Easter Sunday 2033-04-17) ────────────────────────────────
    (2033, 1, 1),   // 2033-01-01 — New Year's Day
    (2033, 1, 2),   // 2033-01-02 — Berchtoldstag
    (2033, 4, 15),  // 2033-04-15 — Good Friday
    (2033, 4, 18),  // 2033-04-18 — Easter Monday
    (2033, 5, 1),   // 2033-05-01 — Labour Day
    (2033, 5, 26),  // 2033-05-26 — Ascension Day
    (2033, 6, 6),   // 2033-06-06 — Whit Monday
    (2033, 8, 1),   // 2033-08-01 — Swiss National Day
    (2033, 12, 25), // 2033-12-25 — Christmas Day
    (2033, 12, 26), // 2033-12-26 — St. Stephen's Day
    // ─── 2034 (Easter Sunday 2034-04-09) ────────────────────────────────
    (2034, 1, 1),   // 2034-01-01 — New Year's Day
    (2034, 1, 2),   // 2034-01-02 — Berchtoldstag
    (2034, 4, 7),   // 2034-04-07 — Good Friday
    (2034, 4, 10),  // 2034-04-10 — Easter Monday
    (2034, 5, 1),   // 2034-05-01 — Labour Day
    (2034, 5, 18),  // 2034-05-18 — Ascension Day
    (2034, 5, 29),  // 2034-05-29 — Whit Monday
    (2034, 8, 1),   // 2034-08-01 — Swiss National Day
    (2034, 12, 25), // 2034-12-25 — Christmas Day
    (2034, 12, 26), // 2034-12-26 — St. Stephen's Day
    // ─── 2035 (Easter Sunday 2035-03-25) ────────────────────────────────
    (2035, 1, 1),   // 2035-01-01 — New Year's Day
    (2035, 1, 2),   // 2035-01-02 — Berchtoldstag
    (2035, 3, 23),  // 2035-03-23 — Good Friday
    (2035, 3, 26),  // 2035-03-26 — Easter Monday
    (2035, 5, 1),   // 2035-05-01 — Labour Day
    (2035, 5, 3),   // 2035-05-03 — Ascension Day
    (2035, 5, 14),  // 2035-05-14 — Whit Monday
    (2035, 8, 1),   // 2035-08-01 — Swiss National Day
    (2035, 12, 25), // 2035-12-25 — Christmas Day
    (2035, 12, 26), // 2035-12-26 — St. Stephen's Day
    // ─── 2036 (Easter Sunday 2036-04-13) ────────────────────────────────
    (2036, 1, 1),   // 2036-01-01 — New Year's Day
    (2036, 1, 2),   // 2036-01-02 — Berchtoldstag
    (2036, 4, 11),  // 2036-04-11 — Good Friday
    (2036, 4, 14),  // 2036-04-14 — Easter Monday
    (2036, 5, 1),   // 2036-05-01 — Labour Day
    (2036, 5, 22),  // 2036-05-22 — Ascension Day
    (2036, 6, 2),   // 2036-06-02 — Whit Monday
    (2036, 8, 1),   // 2036-08-01 — Swiss National Day
    (2036, 12, 25), // 2036-12-25 — Christmas Day
    (2036, 12, 26), // 2036-12-26 — St. Stephen's Day
    // ─── 2037 (Easter Sunday 2037-04-05) ────────────────────────────────
    (2037, 1, 1),   // 2037-01-01 — New Year's Day
    (2037, 1, 2),   // 2037-01-02 — Berchtoldstag
    (2037, 4, 3),   // 2037-04-03 — Good Friday
    (2037, 4, 6),   // 2037-04-06 — Easter Monday
    (2037, 5, 1),   // 2037-05-01 — Labour Day
    (2037, 5, 14),  // 2037-05-14 — Ascension Day
    (2037, 5, 25),  // 2037-05-25 — Whit Monday
    (2037, 8, 1),   // 2037-08-01 — Swiss National Day
    (2037, 12, 25), // 2037-12-25 — Christmas Day
    (2037, 12, 26), // 2037-12-26 — St. Stephen's Day
    // ─── 2038 (Easter Sunday 2038-04-25) ────────────────────────────────
    (2038, 1, 1),   // 2038-01-01 — New Year's Day
    (2038, 1, 2),   // 2038-01-02 — Berchtoldstag
    (2038, 4, 23),  // 2038-04-23 — Good Friday
    (2038, 4, 26),  // 2038-04-26 — Easter Monday
    (2038, 5, 1),   // 2038-05-01 — Labour Day
    (2038, 6, 3),   // 2038-06-03 — Ascension Day
    (2038, 6, 14),  // 2038-06-14 — Whit Monday
    (2038, 8, 1),   // 2038-08-01 — Swiss National Day
    (2038, 12, 25), // 2038-12-25 — Christmas Day
    (2038, 12, 26), // 2038-12-26 — St. Stephen's Day
    // ─── 2039 (Easter Sunday 2039-04-10) ────────────────────────────────
    (2039, 1, 1),   // 2039-01-01 — New Year's Day
    (2039, 1, 2),   // 2039-01-02 — Berchtoldstag
    (2039, 4, 8),   // 2039-04-08 — Good Friday
    (2039, 4, 11),  // 2039-04-11 — Easter Monday
    (2039, 5, 1),   // 2039-05-01 — Labour Day
    (2039, 5, 19),  // 2039-05-19 — Ascension Day
    (2039, 5, 30),  // 2039-05-30 — Whit Monday
    (2039, 8, 1),   // 2039-08-01 — Swiss National Day
    (2039, 12, 25), // 2039-12-25 — Christmas Day
    (2039, 12, 26), // 2039-12-26 — St. Stephen's Day
    // ─── 2040 (Easter Sunday 2040-04-01) ────────────────────────────────
    (2040, 1, 1),   // 2040-01-01 — New Year's Day
    (2040, 1, 2),   // 2040-01-02 — Berchtoldstag
    (2040, 3, 30),  // 2040-03-30 — Good Friday
    (2040, 4, 2),   // 2040-04-02 — Easter Monday
    (2040, 5, 1),   // 2040-05-01 — Labour Day
    (2040, 5, 10),  // 2040-05-10 — Ascension Day
    (2040, 5, 21),  // 2040-05-21 — Whit Monday
    (2040, 8, 1),   // 2040-08-01 — Swiss National Day
    (2040, 12, 25), // 2040-12-25 — Christmas Day
    (2040, 12, 26), // 2040-12-26 — St. Stephen's Day
];

/// The snapshot lists `date`.
pub open spec fn listed(date: Date) -> bool {
    HOLIDAYS@.contains((date.year(), date.month(), date.day()))
}

/// `date` is a holiday of the calendar.
pub open spec fn holiday(date: Date) -> bool {
    COVERAGE.0 <= date.year() <= COVERAGE.1 && listed(date)
}

/// Returns `true` if `date` is a holiday of the snapshot. Weekends are not
/// holidays here; they are handled by the business-day dispatcher.
pub fn is_holiday(date: Date) -> (r: bool)
    ensures
        r == holiday(date),
{
    let (lo, hi) = COVERAGE;
    if date.year() < lo || date.year() > hi {
        return false;
    }
    table_contains(&HOLIDAYS, date.year(), date.month(), date.day())
}

} // verus!
