//! The date-expression vocabulary shared by every recognizer and the
//! resolver.

use vstd::prelude::*;

use crate::dates::Weekday;

verus! {

/// A month of the year.
#[derive(Clone, Copy, Debug, PartialEq, Eq, Structural)]
pub enum Month {
    January,
    February,
    March,
    April,
    May,
    June,
    July,
    August,
    September,
    October,
    November,
    December,
}

/// The calendar number of a month, 1 through 12.
pub open spec fn spec_month_number(m: Month) -> int {
    match m {
        Month::January => 1,
        Month::February => 2,
        Month::March => 3,
        Month::April => 4,
        Month::May => 5,
        Month::June => 6,
        Month::July => 7,
        Month::August => 8,
        Month::September => 9,
        Month::October => 10,
        Month::November => 11,
        Month::December => 12,
    }
}

/// The month with the given calendar number, if there is one.
pub open spec fn spec_num_to_month(n: int) -> Option<Month> {
    if n == 1 {
        Some(Month::January)
    } else if n == 2 {
        Some(Month::February)
    } else if n == 3 {
        Some(Month::March)
    } else if n == 4 {
        Some(Month::April)
    } else if n == 5 {
        Some(Month::May)
    } else if n == 6 {
        Some(Month::June)
    } else if n == 7 {
        Some(Month::July)
    } else if n == 8 {
        Some(Month::August)
    } else if n == 9 {
        Some(Month::September)
    } else if n == 10 {
        Some(Month::October)
    } else if n == 11 {
        Some(Month::November)
    } else if n == 12 {
        Some(Month::December)
    } else {
        None
    }
}

impl Month {
    /// The calendar number of this month, 1 through 12.
    pub fn number(&self) -> (n: u32)
        ensures
            n == spec_month_number(*self),
    {
        match self {
            Month::January => 1,
            Month::February => 2,
            Month::March => 3,
            Month::April => 4,
            Month::May => 5,
            Month::June => 6,
            Month::July => 7,
            Month::August => 8,
            Month::September => 9,
            Month::October => 10,
            Month::November => 11,
            Month::December => 12,
        }
    }
}

/// Maps a calendar number to its month; numbers outside 1..=12 map to `None`.
pub fn num_to_month(num: u32) -> (r: Option<Month>)
    ensures
        r == spec_num_to_month(num as int),
{
    match num {
        1 => Some(Month::January),
        2 => Some(Month::February),
        3 => Some(Month::March),
        4 => Some(Month::April),
        5 => Some(Month::May),
        6 => Some(Month::June),
        7 => Some(Month::July),
        8 => Some(Month::August),
        9 => Some(Month::September),
        10 => Some(Month::October),
        11 => Some(Month::November),
        12 => Some(Month::December),
        _ => None,
    }
}

/// An abstract syntax for recognized date phrases.
///
/// Month numbers are valid at construction; days of the month are only
/// checked against their month when an expression is resolved.
#[derive(Clone, Copy, Debug, PartialEq, Eq, Structural)]
pub enum DateExpression {
    /// An offset from today in days, e.g. tomorrow is `InXDays(1)`.
    InXDays(i32),
    /// A weekday in a week offset from the current week,
    /// e.g. next week Monday is `DayInXWeeks(1, Mon)`.
    DayInXWeeks(i32, Weekday),
    /// A whole-week offset with no weekday named, e.g. in two weeks.
    InXWeeks(i32),
    /// An offset from today in whole months, e.g. in two months.
    InXMonths(i32),
    /// A day in the named month of an unstated year, e.g. June 8th.
    DayInMonth(Month, u32),
    /// A fully stated day, month and year, e.g. 8.6.2019.
    DayInMonthInYear(Month, u32, i32),
    /// A month in a stated year with no day, e.g. 6.2019.
    InMonthInYear(Month, i32),
}

} // verus!
