//! Typed error enum for date construction and convention dispatch.
//!
//! A single enum covers the two failure domains the crate can produce: an
//! input that does not name a real Gregorian date, and an input that is
//! well-formed in isolation but outside the range a convention accepts.
use vstd::prelude::*;

verus! {

/// Error returned when an input cannot be accepted as a valid date or when a
/// value falls outside the range a convention accepts.
#[derive(Debug, Clone, Copy, PartialEq, Eq)]
pub enum ValidationError {
    /// The `(year, month, day)` triple does not name a real Gregorian date;
    /// `rule` names the violated structural rule.
    InvalidDate {
        /// A short, human-readable description of the violated rule.
        rule: &'static str,
    },
    /// A value is well-formed in isolation but falls outside the range the
    /// caller's convention or calendar accepts; `what` names the value.
    OutOfRange {
        /// A short, human-readable description of the out-of-range value.
        what: &'static str,
    },
}

impl ValidationError {
    /// The human-readable rendering of the error: `"invalid date: <rule>"`
    /// or `"value out of range: <what>"`.
    pub open spec fn spec_message(&self) -> Seq<char> {
        match self {
            ValidationError::InvalidDate { rule } => "invalid date: "@ + rule@,
            ValidationError::OutOfRange { what } => "value out of range: "@ + what@,
        }
    }

    /// Renders the error as text, e.g. `"invalid date: month-out-of-range"`.
    pub fn message(&self) -> (r: String)
        ensures
            r@ == self.spec_message(),
    {
        match self {
            ValidationError::InvalidDate { rule } => {
                let mut s = String::from_str("invalid date: ");
                s.append(rule);
                s
            },
            ValidationError::OutOfRange { what } => {
                let mut s = String::from_str("value out of range: ");
                s.append(what);
                s
            },
        }
    }
}

} // verus!
