//! The numeric-date convention: whether a bare `a.b` date reads as
//! day-month or month-day.

use vstd::prelude::*;

use crate::lexer::str_is;

verus! {

/// Which of day-first or month-first order resolves an ambiguous bare
/// numeric date such as `5.12`.
#[derive(Clone, Copy, Debug, PartialEq, Eq, Structural)]
pub enum DateFormat {
    DayMonthYear,
    MonthDayYear,
}

impl From<&str> for DateFormat {
    /// Reads `"dayMonthYear"` or `"monthDayYear"`; anything else falls
    /// back to `MonthDayYear`.
    fn from(input: &str) -> (r: DateFormat) {
        if str_is(input, "dayMonthYear") {
            return DateFormat::DayMonthYear;
        }
        if str_is(input, "monthDayYear") {
            return DateFormat::MonthDayYear;
        }
        DateFormat::MonthDayYear
    }
}

impl vstd::std_specs::convert::FromSpecImpl<&str> for DateFormat {
    open spec fn obeys_from_spec() -> bool {
        true
    }

    open spec fn from_spec(input: &str) -> DateFormat {
        if input@ == "dayMonthYear"@ {
            DateFormat::DayMonthYear
        } else {
            DateFormat::MonthDayYear
        }
    }
}

} // verus!
