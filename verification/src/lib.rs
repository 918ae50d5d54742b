//! Day-count fractions and business-day calendars, verified.
//!
//! The crate computes the year fraction between two dates under the common
//! day-count conventions (Act/360, Act/365F, Act/Act ISDA, Act/Act ICMA,
//! 30/360 Bond Basis, 30E/360, 30E/360 ISDA, Act/365L, NL/365, Bus/252,
//! 1/1), adjusts a date under the common date-roll conventions (Unadjusted,
//! Following, ModifiedFollowing, Preceding, ModifiedPreceding, Nearest,
//! EndOfMonth), and classifies dates against holiday calendars (TARGET2,
//! Luxembourg, United States, United Kingdom, Japan, Switzerland, Hong Kong,
//! Singapore, and their composite and joint-business combinations).
//!
//! ```text
//! civil        day numbers of Gregorian dates and their laws
//! errors       typed errors — ValidationError
//! date         Date primitive — leap years, weekday, arithmetic, Easter
//! roll         date-roll conventions
//! day_count    day-count fractions, returned as exact ratios
//! calendar     holiday calendars and their dispatcher
//! ```

pub mod calendar;
pub mod civil;
pub mod date;
pub mod day_count;
pub mod errors;
pub mod roll;

pub use calendar::Calendar;
pub use date::{Date, Weekday};
pub use day_count::{DayCount, YearFraction};
pub use errors::ValidationError;
pub use roll::Roll;
