//! United States — NYSE / Federal Reserve holiday calendar.
//!
//! Dated snapshot of the days the New York Stock Exchange closes: New Year's Day,
//! Martin Luther King Jr. Day, Washington's Birthday, Good Friday, Memorial Day,
//! Juneteenth (from 2022), Independence Day, Labor Day, Thanksgiving and
//! Christmas, each at its observed date (a Saturday holiday is observed on the
//! Friday before, a Sunday holiday on the Monday after).
//!
//! The snapshot covers the years of [`COVERAGE`]; outside them no date is a
//! holiday.
use vstd::prelude::*;

use crate::calendar::table_contains;
use crate::date::Date;

verus! {

/// The date on which the snapshot was taken.
pub const SNAPSHOT_DATE: &'static str = "2026-05-23";

/// Inclusive range of years the snapshot covers.
pub const COVERAGE: (i32, i32) = (2020, 2040);

/// The holiday dates `(year, month, day)`, sorted ascending.
pub const HOLIDAYS: [(i32, u8, u8); 208] = [
    // ─── 2020 ────────────────────────────────────────────────────────────
    (2020, 1, 1),   // 2020-01-01 — New Year's Day
    (2020, 1, 20),  // 2020-01-20 — Martin Luther King Jr. Day
    (2020, 2, 17),  // 2020-02-17 — Washington's Birthday
    (2020, 4, 10),  // 2020-04-10 — Good Friday
    (2020, 5, 25),  // 2020-05-25 — Memorial Day
    (2020, 7, 3),   // 2020-07-03 — Independence Day (observed; Jul 4 was Sat)
    (2020, 9, 7),   // 2020-09-07 — Labor Day
    (2020, 11, 26), // 2020-11-26 — Thanksgiving Day
    (2020, 12, 25), // 2020-12-25 — Christmas Day
    // ─── 2021 ────────────────────────────────────────────────────────────
    (2021, 1, 1),   // 2021-01-01 — New Year's Day
    (2021, 1, 18),  // 2021-01-18 — Martin Luther King Jr. Day
    (2021, 2, 15),  // 2021-02-15 — Washington's Birthday
    (2021, 4, 2),   // 2021-04-02 — Good Friday
    (2021, 5, 31),  // 2021-05-31 — Memorial Day
    (2021, 7, 5),   // 2021-07-05 — Independence Day (observed; Jul 4 was Sun)
    (2021, 9, 6),   // 2021-09-06 — Labor Day
    (2021, 11, 25), // 2021-11-25 — Thanksgiving Day
    (2021, 12, 24), // 2021-12-24 — Christmas Day (observed; Dec 25 was Sat)
    (2021, 12, 31), // 2021-12-31 — New Year's Day 2022 (observed; Jan 1 was Sat)
    // ─── 2022 ────────────────────────────────────────────────────────────
    (2022, 1, 17),  // 2022-01-17 — Martin Luther King Jr. Day
    (2022, 2, 21),  // 2022-02-21 — Washington's Birthday
    (2022, 4, 15),  // 2022-04-15 — Good Friday
    (2022, 5, 30),  // 2022-05-30 — Memorial Day
    (2022, 6, 20),  // 2022-06-20 — Juneteenth (observed; Jun 19 was Sun)
    (2022, 7, 4),   // 2022-07-04 — Independence Day
    (2022, 9, 5),   // 2022-09-05 — Labor Day
    (2022, 11, 24), // 2022-11-24 — Thanksgiving Day
    (2022, 12, 26), // 2022-12-26 — Christmas Day (observed; Dec 25 was Sun)
    // ─── 2023 ────────────────────────────────────────────────────────────
    (2023, 1, 2),   // 2023-01-02 — New Year's Day (observed; Jan 1 was Sun)
    (2023, 1, 16),  // 2023-01-16 — Martin Luther King Jr. Day
    (2023, 2, 20),  // 2023-02-20 — Washington's Birthday
    (2023, 4, 7),   // 2023-04-07 — Good Friday
    (2023, 5, 29),  // 2023-05-29 — Memorial Day
    (2023, 6, 19),  // 2023-06-19 — Juneteenth
    (2023, 7, 4),   // 2023-07-04 — Independence Day
    (2023, 9, 4),   // 2023-09-04 — Labor Day
    (2023, 11, 23), // 2023-11-23 — Thanksgiving Day
    (2023, 12, 25), // 2023-12-25 — Christmas Day
    // ─── 2024 ────────────────────────────────────────────────────────────
    (2024, 1, 1),   // 2024-01-01 — New Year's Day
    (2024, 1, 15),  // 2024-01-15 — Martin Luther King Jr. Day
    (2024, 2, 19),  // 2024-02-19 — Washington's Birthday
    (2024, 3, 29),  // 2024-03-29 — Good Friday
    (2024, 5, 27),  // 2024-05-27 — Memorial Day
    (2024, 6, 19),  // 2024-06-19 — Juneteenth
    (2024, 7, 4),   // 2024-07-04 — Independence Day
    (2024, 9, 2),   // 2024-09-02 — Labor Day
    (2024, 11, 28), // 2024-11-28 — Thanksgiving Day
    (2024, 12, 25), // 2024-12-25 — Christmas Day
    // ─── 2025 ────────────────────────────────────────────────────────────
    (2025, 1, 1),   // 2025-01-01 — New Year's Day
    (2025, 1, 20),  // 2025-01-20 — Martin Luther King Jr. Day
    (2025, 2, 17),  // 2025-02-17 — Washington's Birthday
    (2025, 4, 18),  // 2025-04-18 — Good Friday
    (2025, 5, 26),  // 2025-05-26 — Memorial Day
    (2025, 6, 19),  // 2025-06-19 — Juneteenth
    (2025, 7, 4),   // 2025-07-04 — Independence Day
    (2025, 9, 1),   // 2025-09-01 — Labor Day
    (2025, 11, 27), // 2025-11-27 — Thanksgiving Day
    (2025, 12, 25), // 2025-12-25 — Christmas Day
    // ─── 2026 ────────────────────────────────────────────────────────────
    (2026, 1, 1),   // 2026-01-01 — New Year's Day
    (2026, 1, 19),  // 2026-01-19 — Martin Luther King Jr. Day
    (2026, 2, 16),  // 2026-02-16 — Washington's Birthday
    (2026, 4, 3),   // 2026-04-03 — Good Friday
    (2026, 5, 25),  // 2026-05-25 — Memorial Day
    (2026, 6, 19),  // 2026-06-19 — Juneteenth
    (2026, 7, 3),   // 2026-07-03 — Independence Day (observed; Jul 4 was Sat)
    (2026, 9, 7),   // 2026-09-07 — Labor Day
    (2026, 11, 26), // 2026-11-26 — Thanksgiving Day
    (2026, 12, 25), // 2026-12-25 — Christmas Day
    // ─── 2027 ────────────────────────────────────────────────────────────
    (2027, 1, 1),   // 2027-01-01 — New Year's Day
    (2027, 1, 18),  // 2027-01-18 — Martin Luther King Jr. Day
    (2027, 2, 15),  // 2027-02-15 — Washington's Birthday
    (2027, 3, 26),  // 2027-03-26 — Good Friday
    (2027, 5, 31),  // 2027-05-31 — Memorial Day
    (2027, 6, 18),  // 2027-06-18 — Juneteenth (observed; Jun 19 was Sat)
    (2027, 7, 5),   // 2027-07-05 — Independence Day (observed; Jul 4 was Sun)
    (2027, 9, 6),   // 2027-09-06 — Labor Day
    (2027, 11, 25), // 2027-11-25 — Thanksgiving Day
    (2027, 12, 24), // 2027-12-24 — Christmas Day (observed; Dec 25 was Sat)
    (2027, 12, 31), // 2027-12-31 — New Year's Day 2028 (observed; Jan 1 was Sat)
    // ─── 2028 ────────────────────────────────────────────────────────────
    (2028, 1, 17),  // 2028-01-17 — Martin Luther King Jr. Day
    (2028, 2, 21),  // 2028-02-21 — Washington's Birthday
    (2028, 4, 14),  // 2028-04-14 — Good Friday
    (2028, 5, 29),  // 2028-05-29 — Memorial Day
    (2028, 6, 19),  // 2028-06-19 — Juneteenth
    (2028, 7, 4),   // 2028-07-04 — Independence Day
    (2028, 9, 4),   // 2028-09-04 — Labor Day
    (2028, 11, 23), // 2028-11-23 — Thanksgiving Day
    (2028, 12, 25), // 2028-12-25 — Christmas Day
    // ─── 2029 ────────────────────────────────────────────────────────────
    (2029, 1, 1),   // 2029-01-01 — New Year's Day
    (2029, 1, 15),  // 2029-01-15 — Martin Luther King Jr. Day
    (2029, 2, 19),  // 2029-02-19 — Washington's Birthday
    (2029, 3, 30),  // 2029-03-30 — Good Friday
    (2029, 5, 28),  // 2029-05-28 — Memorial Day
    (2029, 6, 19),  // 2029-06-19 — Juneteenth
    (2029, 7, 4),   // 2029-07-04 — Independence Day
    (2029, 9, 3),   // 2029-09-03 — Labor Day
    (2029, 11, 22), // 2029-11-22 — Thanksgiving Day
    (2029, 12, 25), // 2029-12-25 — Christmas Day
    // ─── 2030 ────────────────────────────────────────────────────────────
    (2030, 1, 1),   // 2030-01-01 — New Year's Day
    (2030, 1, 21),  // 2030-01-21 — Martin Luther King Jr. Day
    (2030, 2, 18),  // 2030-02-18 — Washington's Birthday
    (2030, 4, 19),  // 2030-04-19 — Good Friday
    (2030, 5, 27),  // 2030-05-27 — Memorial Day
    (2030, 6, 19),  // 2030-06-19 — Juneteenth
    (2030, 7, 4),   // 2030-07-04 — Independence Day
    (2030, 9, 2),   // 2030-09-02 — Labor Day
    (2030, 11, 28), // 2030-11-28 — Thanksgiving Day
    (2030, 12, 25), // 2030-12-25 — Christmas Day
    // ─── 2031 ────────────────────────────────────────────────────────────
    (2031, 1, 1),   // 2031-01-01 — New Year's Day
    (2031, 1, 20),  // 2031-01-20 — Martin Luther King Jr. Day
    (2031, 2, 17),  // 2031-02-17 — Washington's Birthday
    (2031, 4, 11),  // 2031-04-11 — Good Friday
    (2031, 5, 26),  // 2031-05-26 — Memorial Day
    (2031, 6, 19),  // 2031-06-19 — Juneteenth
    (2031, 7, 4),   // 2031-07-04 — Independence Day
    (2031, 9, 1),   // 2031-09-01 — Labor Day
    (2031, 11, 27), // 2031-11-27 — Thanksgiving Day
    (2031, 12, 25), // 2031-12-25 — Christmas Day
    // ─── 2032 ────────────────────────────────────────────────────────────
    (2032, 1, 1),   // 2032-01-01 — New Year's Day
    (2032, 1, 19),  // 2032-01-19 — Martin Luther King Jr. Day
    (2032, 2, 16),  // 2032-02-16 — Washington's Birthday
    (2032, 3, 26),  // 2032-03-26 — Good Friday
    (2032, 5, 31),  // 2032-05-31 — Memorial Day
    (2032, 6, 18),  // 2032-06-18 — Juneteenth (observed; Jun 19 was Sat)
    (2032, 7, 5),   // 2032-07-05 — Independence Day (observed; Jul 4 was Sun)
    (2032, 9, 6),   // 2032-09-06 — Labor Day
    (2032, 11, 25), // 2032-11-25 — Thanksgiving Day
    (2032, 12, 24), // 2032-12-24 — Christmas Day (observed; Dec 25 was Sat)
    (2032, 12, 31), // 2032-12-31 — New Year's Day 2033 (observed; Jan 1 was Sat)
    // ─── 2033 ────────────────────────────────────────────────────────────
    (2033, 1, 17),  // 2033-01-17 — Martin Luther King Jr. Day
    (2033, 2, 21),  // 2033-02-21 — Washington's Birthday
    (2033, 4, 15),  // 2033-04-15 — Good Friday
    (2033, 5, 30),  // 2033-05-30 — Memorial Day
    (2033, 6, 20),  // 2033-06-20 — Juneteenth (observed; Jun 19 was Sun)
    (2033, 7, 4),   // 2033-07-04 — Independence Day
    (2033, 9, 5),   // 2033-09-05 — Labor Day
    (2033, 11, 24), // 2033-11-24 — Thanksgiving Day
    (2033, 12, 26), // 2033-12-26 — Christmas Day (observed; Dec 25 was Sun)
    // ─── 2034 ────────────────────────────────────────────────────────────
    (2034, 1, 2),   // 2034-01-02 — New Year's Day (observed; Jan 1 was Sun)
    (2034, 1, 16),  // 2034-01-16 — Martin Luther King Jr. Day
    (2034, 2, 20),  // 2034-02-20 — Washington's Birthday
    (2034, 4, 7),   // 2034-04-07 — Good Friday
    (2034, 5, 29),  // 2034-05-29 — Memorial Day
    (2034, 6, 19),  // 2034-06-19 — Juneteenth
    (2034, 7, 4),   // 2034-07-04 — Independence Day
    (2034, 9, 4),   // 2034-09-04 — Labor Day
    (2034, 11, 23), // 2034-11-23 — Thanksgiving Day
    (2034, 12, 25), // 2034-12-25 — Christmas Day
    // ─── 2035 ────────────────────────────────────────────────────────────
    (2035, 1, 1),   // 2035-01-01 — New Year's Day
    (2035, 1, 15),  // 2035-01-15 — Martin Luther King Jr. Day
    (2035, 2, 19),  // 2035-02-19 — Washington's Birthday
    (2035, 3, 23),  // 2035-03-23 — Good Friday
    (2035, 5, 28),  // 2035-05-28 — Memorial Day
    (2035, 6, 19),  // 2035-06-19 — Juneteenth
    (2035, 7, 4),   // 2035-07-04 — Independence Day
    (2035, 9, 3),   // 2035-09-03 — Labor Day
    (2035, 11, 22), // 2035-11-22 — Thanksgiving Day
    (2035, 12, 25), // 2035-12-25 — Christmas Day
    // ─── 2036 ────────────────────────────────────────────────────────────
    (2036, 1, 1),   // 2036-01-01 — New Year's Day
    (2036, 1, 21),  // 2036-01-21 — Martin Luther King Jr. Day
    (2036, 2, 18),  // 2036-02-18 — Washington's Birthday
    (2036, 4, 11),  // 2036-04-11 — Good Friday
    (2036, 5, 26),  // 2036-05-26 — Memorial Day
    (2036, 6, 19),  // 2036-06-19 — Juneteenth
    (2036, 7, 4),   // 2036-07-04 — Independence Day
    (2036, 9, 1),   // 2036-09-01 — Labor Day
    (2036, 11, 27), // 2036-11-27 — Thanksgiving Day
    (2036, 12, 25), // 2036-12-25 — Christmas Day
    // ─── 2037 ────────────────────────────────────────────────────────────
    (2037, 1, 1),   // 2037-01-01 — New Year's Day
    (2037, 1, 19),  // 2037-01-19 — Martin Luther King Jr. Day
    (2037, 2, 16),  // 2037-02-16 — Washington's Birthday
    (2037, 4, 3),   // 2037-04-03 — Good Friday
    (2037, 5, 25),  // 2037-05-25 — Memorial Day
    (2037, 6, 19),  // 2037-06-19 — Juneteenth
    (2037, 7, 3),   // 2037-07-03 — Independence Day (observed; Jul 4 was Sat)
    (2037, 9, 7),   // 2037-09-07 — Labor Day
    (2037, 11, 26), // 2037-11-26 — Thanksgiving Day
    (2037, 12, 25), // 2037-12-25 — Christmas Day
    // ─── 2038 ────────────────────────────────────────────────────────────
    (2038, 1, 1),   // 2038-01-01 — New Year's Day
    (2038, 1, 18),  // 2038-01-18 — Martin Luther King Jr. Day
    (2038, 2, 15),  // 2038-02-15 — Washington's Birthday
    (2038, 4, 23),  // 2038-04-23 — Good Friday
    (2038, 5, 31),  // 2038-05-31 — Memorial Day
    (2038, 6, 18),  // 2038-06-18 — Juneteenth (observed; Jun 19 was Sat)
    (2038, 7, 5),   // 2038-07-05 — Independence Day (observed; Jul 4 was Sun)
    (2038, 9, 6),   // 2038-09-06 — Labor Day
    (2038, 11, 25), // 2038-11-25 — Thanksgiving Day
    (2038, 12, 24), // 2038-12-24 — Christmas Day (observed; Dec 25 was Sat)
    (2038, 12, 31), // 2038-12-31 — New Year's Day 2039 (observed; Jan 1 was Sat)
    // ─── 2039 ────────────────────────────────────────────────────────────
    (2039, 1, 17),  // 2039-01-17 — Martin Luther King Jr. Day
    (2039, 2, 21),  // 2039-02-21 — Washington's Birthday
    (2039, 4, 8),   // 2039-04-08 — Good Friday
    (2039, 5, 30),  // 2039-05-30 — Memorial Day
    (2039, 6, 20),  // 2039-06-20 — Juneteenth (observed; Jun 19 was Sun)
    (2039, 7, 4),   // 2039-07-04 — Independence Day
    (2039, 9, 5),   // 2039-09-05 — Labor Day
    (2039, 11, 24), // 2039-11-24 — Thanksgiving Day
    (2039, 12, 26), // 2039-12-26 — Christmas Day (observed; Dec 25 was Sun)
    // ─── 2040 ────────────────────────────────────────────────────────────
    (2040, 1, 2),   // 2040-01-02 — New Year's Day (observed; Jan 1 was Sun)
    (2040, 1, 16),  // 2040-01-16 — Martin Luther King Jr. Day
    (2040, 2, 20),  // 2040-02-20 — Washington's Birthday
    (2040, 3, 30),  // 2040-03-30 — Good Friday
    (2040, 5, 28),  // 2040-05-28 — Memorial Day
    (2040, 6, 19),  // 2040-06-19 — Juneteenth
    (2040, 7, 4),   // 2040-07-04 — Independence Day
    (2040, 9, 3),   // 2040-09-03 — Labor Day
    (2040, 11, 22), // 2040-11-22 — Thanksgiving Day
    (2040, 12, 25), // 2040-12-25 — Christmas Day
];

/// The snapshot lists `date`.
pub open spec fn listed(date: Date) -> bool {
    HOLIDAYS@.contains((date.year(), date.month(), date.day()))
}

/// `date` is a holiday of the calendar.
pub open spec fn holiday(date: Date) -> bool {
    COVERAGE.0 <= date.year() <= COVERAGE.1 && listed(date)
}

/// Returns `true` if `date` is a holiday of the snapshot. Weekends are not
/// holidays here; they are handled by the business-day dispatcher.
pub fn is_holiday(date: Date) -> (r: bool)
    ensures
        r == holiday(date),
{
    let (lo, hi) = COVERAGE;
    if date.year() < lo || date.year() > hi {
        return false;
    }
    table_contains(&HOLIDAYS, date.year(), date.month(), date.day())
}

} // verus!
