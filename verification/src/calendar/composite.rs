//! Compound calendar combinators — [`Composite`] and [`JointBusiness`].
//!
//! - [`Composite`] takes the union of holidays: a date is a holiday on the
//!   composite if it is a holiday on any underlying calendar.
//! - [`JointBusiness`] takes the intersection of business days: a date is a
//!   business day iff every underlying calendar treats it as one.
//!
//! The two are duals: on a non-empty list of calendars, a date is a joint
//! business day exactly when it is not a weekend and not a composite
//! holiday (see [`lemma_composite_duality`]).
use vstd::prelude::*;

use crate::calendar::{business_day, holiday, is_business_day, is_holiday, weekend, Calendar};
use crate::date::Date;

verus! {

/// Some calendar of `kinds` has a holiday on `date`.
pub open spec fn holiday_on_any(kinds: Seq<Calendar>, date: Date) -> bool {
    exists|i: int| 0 <= i < kinds.len() && holiday(date, #[trigger] kinds[i])
}

/// Every calendar of `kinds` treats `date` as a business day.
pub open spec fn business_day_on_all(kinds: Seq<Calendar>, date: Date) -> bool {
    forall|i: int| 0 <= i < kinds.len() ==> business_day(date, #[trigger] kinds[i])
}

/// Returns `true` if some calendar of `kinds` has a holiday on `date`.
fn any_holiday(kinds: &[Calendar], date: Date) -> (r: bool)
    requires
        date.wf(),
    ensures
        r == holiday_on_any(kinds@, date),
{
    let mut i: usize = 0;
    while i < kinds.len()
        invariant
            date.wf(),
            i <= kinds@.len(),
            forall|j: int| 0 <= j < i ==> !holiday(date, #[trigger] kinds@[j]),
        decreases kinds@.len() - i,
    {
        if is_holiday(date, kinds[i]) {
            return true;
        }
        i += 1;
    }
    false
}

/// Every calendar of `kinds` treats `date` as a business day.
fn all_business(kinds: &[Calendar], date: Date) -> (r: bool)
    requires
        date.wf(),
    ensures
        r == business_day_on_all(kinds@, date),
{
    let mut i: usize = 0;
    while i < kinds.len()
        invariant
            date.wf(),
            i <= kinds@.len(),
            forall|j: int| 0 <= j < i ==> business_day(date, #[trigger] kinds@[j]),
        decreases kinds@.len() - i,
    {
        if !is_business_day(date, kinds[i]) {
            return false;
        }
        i += 1;
    }
    true
}

/// Union-of-holidays calendar over a static list of named calendars.
#[derive(Debug, Clone, Copy)]
pub struct Composite {
    /// The underlying calendars.
    pub kinds: &'static [Calendar],
}

impl Composite {
    /// Constructs a `Composite` from a static slice of calendars.
    pub fn new(kinds: &'static [Calendar]) -> (r: Self)
        ensures
            r.kinds@ == kinds@,
    {
        Composite { kinds }
    }

    /// Returns `true` if `date` is a holiday on any underlying calendar.
    pub fn is_holiday(&self, date: Date) -> (r: bool)
        requires
            date.wf(),
        ensures
            r == holiday_on_any(self.kinds@, date),
    {
        any_holiday(self.kinds, date)
    }

    /// Returns `true` if `date` is a business day on every underlying
    /// calendar (vacuously `true` for an empty list).
    pub fn is_business_day(&self, date: Date) -> (r: bool)
        requires
            date.wf(),
        ensures
            r == business_day_on_all(self.kinds@, date),
    {
        all_business(self.kinds, date)
    }
}

/// Intersection-of-business-days calendar over a static list of named
/// calendars.
#[derive(Debug, Clone, Copy)]
pub struct JointBusiness {
    /// The underlying calendars.
    pub kinds: &'static [Calendar],
}

impl JointBusiness {
    /// Constructs a `JointBusiness` from a static slice of calendars.
    pub fn new(kinds: &'static [Calendar]) -> (r: Self)
        ensures
            r.kinds@ == kinds@,
    {
        JointBusiness { kinds }
    }

    /// Returns `true` if every underlying calendar treats `date` as a
    /// business day (vacuously `true` for an empty list).
    pub fn is_business_day(&self, date: Date) -> (r: bool)
        requires
            date.wf(),
        ensures
            r == business_day_on_all(self.kinds@, date),
    {
        all_business(self.kinds, date)
    }

    /// Returns `true` if any underlying calendar has a holiday on `date`.
    pub fn is_holiday(&self, date: Date) -> (r: bool)
        requires
            date.wf(),
        ensures
            r == holiday_on_any(self.kinds@, date),
    {
        any_holiday(self.kinds, date)
    }
}

/// On a non-empty list of calendars, a date is a business day on all of
/// them (what [`Composite::is_business_day`] and
/// [`JointBusiness::is_business_day`] both return) exactly when it is
/// neither a weekend nor a holiday on any of them (what
/// [`Composite::is_holiday`] and [`JointBusiness::is_holiday`] return); on
/// an empty list every date is a business day and none a holiday.
pub proof fn lemma_composite_duality(kinds: Seq<Calendar>, date: Date)
    ensures
        kinds.len() > 0 ==> (business_day_on_all(kinds, date) <==> (!weekend(date)
            && !holiday_on_any(kinds, date))),
        kinds.len() == 0 ==> business_day_on_all(kinds, date) && !holiday_on_any(kinds, date),
{
    if kinds.len() > 0 {
        if business_day_on_all(kinds, date) {
            assert(business_day(date, kinds[0]));
            assert forall|i: int| 0 <= i < kinds.len() implies !holiday(
                date,
                #[trigger] kinds[i],
            ) by {
                assert(business_day(date, kinds[i]));
            }
        }
    }
}

} // verus!
