//! TARGET2 — the Eurosystem closing-days calendar (ECB fixed rule).
//!
//! TARGET2 closes on six days a year, all derivable from the year alone:
//! 1 January, Good Friday (Easter Sunday − 2 days), Easter Monday (Easter
//! Sunday + 1 day), 1 May, 25 December and 26 December. Easter is given by
//! [`Date::easter_sunday`]. Holidays falling on a weekend are not shifted.
use vstd::prelude::*;

use crate::calendar::{easter_day_number, lemma_easter_window};
use crate::date::Date;

verus! {

/// `date` is one of the six TARGET2 closing days of its year.
pub open spec fn holiday(date: Date) -> bool {
    let m = date.month();
    let d = date.day();
    let e = easter_day_number(date.year() as int);
    (m == 1 && d == 1) || date.day_number() == e - 2 || date.day_number() == e + 1 || (m == 5 && d
        == 1) || (m == 12 && d == 25) || (m == 12 && d == 26)
}

/// Returns `true` if `date` is a TARGET2 closing day.
pub fn is_holiday(date: Date) -> (r: bool)
    requires
        date.wf(),
    ensures
        r == holiday(date),
{
    let year = date.year();
    let easter = Date::easter_sunday(year);
    proof {
        lemma_easter_window(year as int);
    }
    let good_friday = easter.add_days(-2);
    let easter_monday = easter.add_days(1);
    let new_year = Date::ymd_unchecked(year, 1, 1);
    let labour_day = Date::ymd_unchecked(year, 5, 1);
    let christmas = Date::ymd_unchecked(year, 12, 25);
    let boxing_day = Date::ymd_unchecked(year, 12, 26);
    proof {
        Date::lemma_eq_day_number(date, good_friday);
        Date::lemma_eq_day_number(date, easter_monday);
        Date::lemma_eq_fields(date, new_year);
        Date::lemma_eq_fields(date, labour_day);
        Date::lemma_eq_fields(date, christmas);
        Date::lemma_eq_fields(date, boxing_day);
    }
    date == new_year || date == good_friday || date == easter_monday || date == labour_day
        || date == christmas || date == boxing_day
}

} // verus!
