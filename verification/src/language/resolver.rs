//! Turns an abstract date expression plus context into a concrete date.
//!
//! Every branch returns `None` instead of failing: a day that does not
//! exist in its month, or an offset that leaves the supported year
//! range, resolves to no date.

use vstd::prelude::*;

use crate::dates::{
    spec_add_year_clamped, spec_date_before, spec_days_from_monday, spec_days_from_sunday,
    spec_from_ymd, spec_plus_days, spec_plus_months, spec_weekday, Date, Weekday,
};
use crate::language::shared::{spec_month_number, DateExpression, Month};
use crate::language::start_day_of_week::StartDayOfWeek;

verus! {

/// Position of a weekday inside a week under the given week-start
/// convention: 0 for the first day of the week, 6 for the last.
pub open spec fn spec_week_offset(sow: StartDayOfWeek, w: Weekday) -> int {
    match sow {
        StartDayOfWeek::Sunday => spec_days_from_sunday(w),
        StartDayOfWeek::Monday => spec_days_from_monday(w),
    }
}

/// What a date expression resolves to for a given reference date and
/// week-start convention.
///
/// - `InXDays(n)` is exactly `now` moved by `n` days.
/// - `InXWeeks(w)` lands on the first day of the week `w` weeks away,
///   counted under the week-start convention.
/// - `DayInXWeeks(w, wd)` lands on weekday `wd` in the week `w` weeks
///   away, counted under the week-start convention.
/// - `InXMonths(n)` keeps the day of the month and moves `n` whole
///   months, with no clamping of the day.
/// - `DayInMonth(m, d)` uses the current year; a date already passed
///   rolls forward one year, with the day clamped to the target month.
/// - `DayInMonthInYear` and `InMonthInYear` are absolute.
pub open spec fn spec_resolve(e: DateExpression, now: Date, sow: StartDayOfWeek) -> Option<Date> {
    match e {
        DateExpression::InXDays(n) => spec_plus_days(now, n as int),
        DateExpression::InXWeeks(w) => spec_plus_days(
            now,
            7 * w - spec_week_offset(sow, spec_weekday(now)),
        ),
        DateExpression::DayInXWeeks(w, wd) => spec_plus_days(
            now,
            7 * w + spec_week_offset(sow, wd) - spec_week_offset(sow, spec_weekday(now)),
        ),
        DateExpression::InXMonths(n) => spec_plus_months(now, n as int),
        DateExpression::DayInMonth(m, day) => {
            match spec_from_ymd(now.year as int, spec_month_number(m), day as int) {
                None => None,
                Some(c) => if spec_date_before(c, now) {
                    spec_add_year_clamped(c)
                } else {
                    Some(c)
                },
            }
        },
        DateExpression::DayInMonthInYear(m, day, year) => spec_from_ymd(
            year as int,
            spec_month_number(m),
            day as int,
        ),
        DateExpression::InMonthInYear(m, year) => spec_from_ymd(
            year as int,
            spec_month_number(m),
            1,
        ),
    }
}

/// Resolves a date expression against the reference date `now` under
/// the given week-start convention.
pub fn resolve_date_expression(expr: &DateExpression, now: &Date, start_of_week: &StartDayOfWeek) -> (r:
    Option<Date>)
    requires
        now.wf(),
    ensures
        r == spec_resolve(*expr, *now, *start_of_week),
        r matches Some(d) ==> d.wf(),
{
    match expr {
        DateExpression::InXDays(n) => now.plus_days(*n as i64),
        DateExpression::InXWeeks(w) => {
            let anchor = week_offset(start_of_week, &now.weekday());
            let diff: i64 = 7 * (*w as i64) - (anchor as i64);
            now.plus_days(diff)
        },
        DateExpression::DayInXWeeks(w, wd) => {
            let target = week_offset(start_of_week, wd);
            let anchor = week_offset(start_of_week, &now.weekday());
            let diff: i64 = 7 * (*w as i64) + (target as i64) - (anchor as i64);
            now.plus_days(diff)
        },
        DateExpression::InXMonths(n) => now.plus_months(*n),
        DateExpression::DayInMonth(m, day) => {
            match Date::from_ymd_opt(now.year, m.number(), *day) {
                None => None,
                Some(c) => {
                    if c.is_before(now) {
                        c.add_year_clamped()
                    } else {
                        Some(c)
                    }
                },
            }
        },
        DateExpression::DayInMonthInYear(m, day, year) => Date::from_ymd_opt(
            *year,
            m.number(),
            *day,
        ),
        DateExpression::InMonthInYear(m, year) => Date::from_ymd_opt(*year, m.number(), 1),
    }
}

/// Position of a weekday inside a week under the given convention.
fn week_offset(sow: &StartDayOfWeek, w: &Weekday) -> (r: u32)
    ensures
        r == spec_week_offset(*sow, *w),
        r <= 6,
{
    match sow {
        StartDayOfWeek::Sunday => w.num_days_from_sunday(),
        StartDayOfWeek::Monday => w.num_days_from_monday(),
    }
}

/// A `RelativeDays` expression resolves to exactly `now` moved by `n`
/// days, for every day count `n`.
pub proof fn lemma_resolve_relative_days(n: i32, now: Date, sow: StartDayOfWeek)
    ensures
        spec_resolve(DateExpression::InXDays(n), now, sow) == spec_plus_days(now, n as int),
{
}

/// The greatest length the named month can have in any year.
pub open spec fn spec_max_days_of(m: Month) -> int {
    days_in_month_max(spec_month_number(m))
}

/// The greatest length month `m` can have in any year.
pub open spec fn days_in_month_max(m: int) -> int {
    if m == 2 {
        29
    } else if m == 4 || m == 6 || m == 9 || m == 11 {
        30
    } else {
        31
    }
}

/// A day of the month that no year can hold (day 30 in February,
/// day 31 in a 30-day month) resolves to no date, whether or not the
/// year is stated.
pub proof fn lemma_impossible_day_resolves_none(
    m: Month,
    day: u32,
    year: i32,
    now: Date,
    sow: StartDayOfWeek,
)
    requires
        day > spec_max_days_of(m),
    ensures
        spec_resolve(DateExpression::DayInMonth(m, day), now, sow) == None::<Date>,
        spec_resolve(DateExpression::DayInMonthInYear(m, day, year), now, sow) == None::<Date>,
{
}

} // verus!
