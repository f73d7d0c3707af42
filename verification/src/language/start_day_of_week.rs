//! The week-start convention: whether weeks begin on Sunday or Monday.

use vstd::prelude::*;

use crate::lexer::str_is;

verus! {

/// Which weekday anchors "this/next/last week" arithmetic.
#[derive(Clone, Copy, Debug, PartialEq, Eq, Structural)]
pub enum StartDayOfWeek {
    Sunday,
    Monday,
}

impl From<&str> for StartDayOfWeek {
    /// Reads `"sunday"` or `"monday"`; anything else falls back to
    /// `Sunday`.
    fn from(input: &str) -> (r: StartDayOfWeek) {
        if str_is(input, "sunday") {
            return StartDayOfWeek::Sunday;
        }
        if str_is(input, "monday") {
            return StartDayOfWeek::Monday;
        }
        StartDayOfWeek::Sunday
    }
}

impl vstd::std_specs::convert::FromSpecImpl<&str> for StartDayOfWeek {
    open spec fn obeys_from_spec() -> bool {
        true
    }

    open spec fn from_spec(input: &str) -> StartDayOfWeek {
        if input@ == "sunday"@ {
            StartDayOfWeek::Sunday
        } else if input@ == "monday"@ {
            StartDayOfWeek::Monday
        } else {
            StartDayOfWeek::Sunday
        }
    }
}

} // verus!
