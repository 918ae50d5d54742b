//! United Kingdom — Bank of England bank holidays (England & Wales).
//!
//! Dated snapshot of the sterling-market bank holidays: New Year's Day, Good
//! Friday, Easter Monday, the early-May, spring and summer bank holidays and
//! Christmas and Boxing Day with their substitute days, plus the one-off
//! royal-proclamation holidays of the period.
//!
//! The snapshot covers the years of [`COVERAGE`]; outside them no date is a
//! holiday.
use vstd::prelude::*;

use crate::calendar::table_contains;
use crate::date::Date;

verus! {

/// The date on which the snapshot was taken.
pub const SNAPSHOT_DATE: &'static str = "2026-05-23";

/// Inclusive range of years the snapshot covers.
pub const COVERAGE: (i32, i32) = (2020, 2040);

/// The holiday dates `(year, month, day)`, sorted ascending.
pub const HOLIDAYS: [(i32, u8, u8); 171] = [
    (2020, 1, 1),   // 2020-01-01 — New Year's Day
    (2020, 4, 10),  // 2020-04-10 — Good Friday
    (2020, 4, 13),  // 2020-04-13 — Easter Monday
    (2020, 5, 8), // 2020-05-08 — Early May Bank Holiday (dated special: moved from Mon 4 May for the 75th anniversary of VE Day)
    (2020, 5, 25), // 2020-05-25 — Spring Bank Holiday
    (2020, 8, 31), // 2020-08-31 — Summer Bank Holiday
    (2020, 12, 25), // 2020-12-25 — Christmas Day
    (2020, 12, 28), // 2020-12-28 — Boxing Day (observed; Dec 26 was Sat)
    (2021, 1, 1), // 2021-01-01 — New Year's Day
    (2021, 4, 2), // 2021-04-02 — Good Friday
    (2021, 4, 5), // 2021-04-05 — Easter Monday
    (2021, 5, 3), // 2021-05-03 — Early May Bank Holiday
    (2021, 5, 31), // 2021-05-31 — Spring Bank Holiday
    (2021, 8, 30), // 2021-08-30 — Summer Bank Holiday
    (2021, 12, 27), // 2021-12-27 — Christmas Day (observed; Dec 25 was Sat)
    (2021, 12, 28), // 2021-12-28 — Boxing Day (observed; Dec 26 was Sun)
    (2022, 1, 3), // 2022-01-03 — New Year's Day (observed; Jan 1 was Sat)
    (2022, 4, 15), // 2022-04-15 — Good Friday
    (2022, 4, 18), // 2022-04-18 — Easter Monday
    (2022, 5, 2), // 2022-05-02 — Early May Bank Holiday
    (2022, 6, 2), // 2022-06-02 — Spring Bank Holiday (dated special: moved for Platinum Jubilee)
    (2022, 6, 3), // 2022-06-03 — Platinum Jubilee Bank Holiday (dated special)
    (2022, 8, 29), // 2022-08-29 — Summer Bank Holiday
    (2022, 9, 19), // 2022-09-19 — State Funeral of Queen Elizabeth II (dated special)
    (2022, 12, 26), // 2022-12-26 — Christmas Day (observed; Dec 25 was Sun)
    (2022, 12, 27), // 2022-12-27 — Boxing Day (observed; substitute Mon taken by Christmas)
    (2023, 1, 2), // 2023-01-02 — New Year's Day (observed; Jan 1 was Sun)
    (2023, 4, 7), // 2023-04-07 — Good Friday
    (2023, 4, 10), // 2023-04-10 — Easter Monday
    (2023, 5, 1), // 2023-05-01 — Early May Bank Holiday
    (2023, 5, 8), // 2023-05-08 — Coronation of King Charles III (dated special)
    (2023, 5, 29), // 2023-05-29 — Spring Bank Holiday
    (2023, 8, 28), // 2023-08-28 — Summer Bank Holiday
    (2023, 12, 25), // 2023-12-25 — Christmas Day
    (2023, 12, 26), // 2023-12-26 — Boxing Day
    (2024, 1, 1), // 2024-01-01 — New Year's Day
    (2024, 3, 29), // 2024-03-29 — Good Friday
    (2024, 4, 1), // 2024-04-01 — Easter Monday
    (2024, 5, 6), // 2024-05-06 — Early May Bank Holiday
    (2024, 5, 27), // 2024-05-27 — Spring Bank Holiday
    (2024, 8, 26), // 2024-08-26 — Summer Bank Holiday
    (2024, 12, 25), // 2024-12-25 — Christmas Day
    (2024, 12, 26), // 2024-12-26 — Boxing Day
    (2025, 1, 1), // 2025-01-01 — New Year's Day
    (2025, 4, 18), // 2025-04-18 — Good Friday
    (2025, 4, 21), // 2025-04-21 — Easter Monday
    (2025, 5, 5), // 2025-05-05 — Early May Bank Holiday
    (2025, 5, 26), // 2025-05-26 — Spring Bank Holiday
    (2025, 8, 25), // 2025-08-25 — Summer Bank Holiday
    (2025, 12, 25), // 2025-12-25 — Christmas Day
    (2025, 12, 26), // 2025-12-26 — Boxing Day
    (2026, 1, 1), // 2026-01-01 — New Year's Day
    (2026, 4, 3), // 2026-04-03 — Good Friday
    (2026, 4, 6), // 2026-04-06 — Easter Monday
    (2026, 5, 4), // 2026-05-04 — Early May Bank Holiday
    (2026, 5, 25), // 2026-05-25 — Spring Bank Holiday
    (2026, 8, 31), // 2026-08-31 — Summer Bank Holiday
    (2026, 12, 25), // 2026-12-25 — Christmas Day
    (2026, 12, 28), // 2026-12-28 — Boxing Day (observed; Dec 26 was Sat)
    (2027, 1, 1), // 2027-01-01 — New Year's Day
    (2027, 3, 26), // 2027-03-26 — Good Friday
    (2027, 3, 29), // 2027-03-29 — Easter Monday
    (2027, 5, 3), // 2027-05-03 — Early May Bank Holiday
    (2027, 5, 31), // 2027-05-31 — Spring Bank Holiday
    (2027, 8, 30), // 2027-08-30 — Summer Bank Holiday
    (2027, 12, 27), // 2027-12-27 — Christmas Day (observed; Dec 25 was Sat)
    (2027, 12, 28), // 2027-12-28 — Boxing Day (observed; Dec 26 was Sun)
    (2028, 1, 3), // 2028-01-03 — New Year's Day (observed; Jan 1 was Sat)
    (2028, 4, 14), // 2028-04-14 — Good Friday
    (2028, 4, 17), // 2028-04-17 — Easter Monday
    (2028, 5, 1), // 2028-05-01 — Early May Bank Holiday
    (2028, 5, 29), // 2028-05-29 — Spring Bank Holiday
    (2028, 8, 28), // 2028-08-28 — Summer Bank Holiday
    (2028, 12, 25), // 2028-12-25 — Christmas Day
    (2028, 12, 26), // 2028-12-26 — Boxing Day
    (2029, 1, 1), // 2029-01-01 — New Year's Day
    (2029, 3, 30), // 2029-03-30 — Good Friday
    (2029, 4, 2), // 2029-04-02 — Easter Monday
    (2029, 5, 7), // 2029-05-07 — Early May Bank Holiday
    (2029, 5, 28), // 2029-05-28 — Spring Bank Holiday
    (2029, 8, 27), // 2029-08-27 — Summer Bank Holiday
    (2029, 12, 25), // 2029-12-25 — Christmas Day
    (2029, 12, 26), // 2029-12-26 — Boxing Day
    (2030, 1, 1), // 2030-01-01 — New Year's Day
    (2030, 4, 19), // 2030-04-19 — Good Friday
    (2030, 4, 22), // 2030-04-22 — Easter Monday
    (2030, 5, 6), // 2030-05-06 — Early May Bank Holiday
    (2030, 5, 27), // 2030-05-27 — Spring Bank Holiday
    (2030, 8, 26), // 2030-08-26 — Summer Bank Holiday
    (2030, 12, 25), // 2030-12-25 — Christmas Day
    (2030, 12, 26), // 2030-12-26 — Boxing Day
    (2031, 1, 1), // 2031-01-01 — New Year's Day
    (2031, 4, 11), // 2031-04-11 — Good Friday
    (2031, 4, 14), // 2031-04-14 — Easter Monday
    (2031, 5, 5), // 2031-05-05 — Early May Bank Holiday
    (2031, 5, 26), // 2031-05-26 — Spring Bank Holiday
    (2031, 8, 25), // 2031-08-25 — Summer Bank Holiday
    (2031, 12, 25), // 2031-12-25 — Christmas Day
    (2031, 12, 26), // 2031-12-26 — Boxing Day
    (2032, 1, 1), // 2032-01-01 — New Year's Day
    (2032, 3, 26), // 2032-03-26 — Good Friday
    (2032, 3, 29), // 2032-03-29 — Easter Monday
    (2032, 5, 3), // 2032-05-03 — Early May Bank Holiday
    (2032, 5, 31), // 2032-05-31 — Spring Bank Holiday
    (2032, 8, 30), // 2032-08-30 — Summer Bank Holiday
    (2032, 12, 27), // 2032-12-27 — Christmas Day (observed; Dec 25 was Sat)
    (2032, 12, 28), // 2032-12-28 — Boxing Day (observed; Dec 26 was Sun)
    (2033, 1, 3), // 2033-01-03 — New Year's Day (observed; Jan 1 was Sat)
    (2033, 4, 15), // 2033-04-15 — Good Friday
    (2033, 4, 18), // 2033-04-18 — Easter Monday
    (2033, 5, 2), // 2033-05-02 — Early May Bank Holiday
    (2033, 5, 30), // 2033-05-30 — Spring Bank Holiday
    (2033, 8, 29), // 2033-08-29 — Summer Bank Holiday
    (2033, 12, 26), // 2033-12-26 — Christmas Day (observed; Dec 25 was Sun)
    (2033, 12, 27), // 2033-12-27 — Boxing Day (observed; substitute Mon taken by Christmas)
    (2034, 1, 2), // 2034-01-02 — New Year's Day (observed; Jan 1 was Sun)
    (2034, 4, 7), // 2034-04-07 — Good Friday
    (2034, 4, 10), // 2034-04-10 — Easter Monday
    (2034, 5, 1), // 2034-05-01 — Early May Bank Holiday
    (2034, 5, 29), // 2034-05-29 — Spring Bank Holiday
    (2034, 8, 28), // 2034-08-28 — Summer Bank Holiday
    (2034, 12, 25), // 2034-12-25 — Christmas Day
    (2034, 12, 26), // 2034-12-26 — Boxing Day
    (2035, 1, 1), // 2035-01-01 — New Year's Day
    (2035, 3, 23), // 2035-03-23 — Good Friday
    (2035, 3, 26), // 2035-03-26 — Easter Monday
    (2035, 5, 7), // 2035-05-07 — Early May Bank Holiday
    (2035, 5, 28), // 2035-05-28 — Spring Bank Holiday
    (2035, 8, 27), // 2035-08-27 — Summer Bank Holiday
    (2035, 12, 25), // 2035-12-25 — Christmas Day
    (2035, 12, 26), // 2035-12-26 — Boxing Day
    (2036, 1, 1), // 2036-01-01 — New Year's Day
    (2036, 4, 11), // 2036-04-11 — Good Friday
    (2036, 4, 14), // 2036-04-14 — Easter Monday
    (2036, 5, 5), // 2036-05-05 — Early May Bank Holiday
    (2036, 5, 26), // 2036-05-26 — Spring Bank Holiday
    (2036, 8, 25), // 2036-08-25 — Summer Bank Holiday
    (2036, 12, 25), // 2036-12-25 — Christmas Day
    (2036, 12, 26), // 2036-12-26 — Boxing Day
    (2037, 1, 1), // 2037-01-01 — New Year's Day
    (2037, 4, 3), // 2037-04-03 — Good Friday
    (2037, 4, 6), // 2037-04-06 — Easter Monday
    (2037, 5, 4), // 2037-05-04 — Early May Bank Holiday
    (2037, 5, 25), // 2037-05-25 — Spring Bank Holiday
    (2037, 8, 31), // 2037-08-31 — Summer Bank Holiday
    (2037, 12, 25), // 2037-12-25 — Christmas Day
    (2037, 12, 28), // 2037-12-28 — Boxing Day (observed; Dec 26 was Sat)
    (2038, 1, 1), // 2038-01-01 — New Year's Day
    (2038, 4, 23), // 2038-04-23 — Good Friday
    (2038, 4, 26), // 2038-04-26 — Easter Monday
    (2038, 5, 3), // 2038-05-03 — Early May Bank Holiday
    (2038, 5, 31), // 2038-05-31 — Spring Bank Holiday
    (2038, 8, 30), // 2038-08-30 — Summer Bank Holiday
    (2038, 12, 27), // 2038-12-27 — Christmas Day (observed; Dec 25 was Sat)
    (2038, 12, 28), // 2038-12-28 — Boxing Day (observed; Dec 26 was Sun)
    (2039, 1, 3), // 2039-01-03 — New Year's Day (observed; Jan 1 was Sat)
    (2039, 4, 8), // 2039-04-08 — Good Friday
    (2039, 4, 11), // 2039-04-11 — Easter Monday
    (2039, 5, 2), // 2039-05-02 — Early May Bank Holiday
    (2039, 5, 30), // 2039-05-30 — Spring Bank Holiday
    (2039, 8, 29), // 2039-08-29 — Summer Bank Holiday
    (2039, 12, 26), // 2039-12-26 — Christmas Day (observed; Dec 25 was Sun)
    (2039, 12, 27), // 2039-12-27 — Boxing Day (observed; substitute Mon taken by Christmas)
    (2040, 1, 2), // 2040-01-02 — New Year's Day (observed; Jan 1 was Sun)
    (2040, 3, 30), // 2040-03-30 — Good Friday
    (2040, 4, 2), // 2040-04-02 — Easter Monday
    (2040, 5, 7), // 2040-05-07 — Early May Bank Holiday
    (2040, 5, 28), // 2040-05-28 — Spring Bank Holiday
    (2040, 8, 27), // 2040-08-27 — Summer Bank Holiday
    (2040, 12, 25), // 2040-12-25 — Christmas Day
    (2040, 12, 26), // 2040-12-26 — Boxing Day
];

/// The snapshot lists `date`.
pub open spec fn listed(date: Date) -> bool {
    HOLIDAYS@.contains((date.year(), date.month(), date.day()))
}

/// `date` is a holiday of the calendar.
pub open spec fn holiday(date: Date) -> bool {
    COVERAGE.0 <= date.year() <= COVERAGE.1 && listed(date)
}

/// Returns `true` if `date` is a holiday of the snapshot. Weekends are not
/// holidays here; they are handled by the business-day dispatcher.
pub fn is_holiday(date: Date) -> (r: bool)
    ensures
        r == holiday(date),
{
    let (lo, hi) = COVERAGE;
    if date.year() < lo || date.year() > hi {
        return false;
    }
    table_contains(&HOLIDAYS, date.year(), date.month(), date.day())
}

} // verus!
