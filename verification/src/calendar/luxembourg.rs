//! Luxembourg — the national bank-holiday calendar (legal rule).
//!
//! The statutory list (Loi du 21 juillet 1928, with Europe Day added from
//! 2019): 1 January, Easter Monday, 1 May, 9 May (from 2019), Ascension Day
//! (Easter + 39 days), Whit Monday (Easter + 50 days), 23 June, 15 August,
//! 1 November, 25 and 26 December. Good Friday is not a bank holiday.
//! Holidays falling on a weekend are not shifted.
use vstd::prelude::*;

use crate::calendar::{easter_day_number, lemma_easter_window};
use crate::date::Date;

verus! {

/// `date` is a Luxembourg bank holiday.
pub open spec fn holiday(date: Date) -> bool {
    let m = date.month();
    let d = date.day();
    let e = easter_day_number(date.year() as int);
    ((m == 1 || m == 5 || m == 11) && d == 1) || (m == 6 && d == 23) || (m == 8 && d == 15) || (m
        == 12 && (d == 25 || d == 26)) || (m == 5 && d == 9 && date.year() >= 2019)
        || date.day_number() == e + 1 || date.day_number() == e + 39 || date.day_number() == e + 50
}

/// Returns `true` if `date` is a Luxembourg bank holiday.
pub fn is_holiday(date: Date) -> (r: bool)
    requires
        date.wf(),
    ensures
        r == holiday(date),
{
    let year = date.year();
    let easter = Date::easter_sunday(year);
    proof {
        lemma_easter_window(year as int);
    }
    let easter_monday = easter.add_days(1);
    let ascension = easter.add_days(39);
    let whit_monday = easter.add_days(50);
    proof {
        Date::lemma_eq_day_number(date, easter_monday);
        Date::lemma_eq_day_number(date, ascension);
        Date::lemma_eq_day_number(date, whit_monday);
    }
    let m = date.month();
    let d = date.day();
    let fixed = ((m == 1 || m == 5 || m == 11) && d == 1) || (m == 6 && d == 23) || (m == 8 && d
        == 15) || (m == 12 && (d == 25 || d == 26));
    let may_9 = Date::ymd_unchecked(year, 5, 9);
    proof {
        Date::lemma_eq_fields(date, may_9);
    }
    let europe_day = date == may_9 && year >= 2019;
    fixed || europe_day || date == easter_monday || date == ascension || date == whit_monday
}

} // verus!
