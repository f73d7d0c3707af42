//! Recognizes numeric dates such as `5.12`, `5.12.2026` or `12.2026`,
//! with separators `.`, `-` and `/`.
//!
//! The same token shapes are read under either numeric-date
//! convention; the convention decides which run is the day and which
//! the month.  Day runs must name 1..=31 and month runs 1..=12; days
//! are only checked against their month at resolution.

use vstd::prelude::*;

use crate::language::shared::{spec_num_to_month, DateExpression, Month};
use crate::lexer::{spec_tokens, tokenize, Token};

verus! {

/// A run that can name a day of the month.
pub open spec fn day_run_ok(v: u32) -> bool {
    1 <= v <= 31
}

/// A run that can name a month.
pub open spec fn month_run_ok(v: u32) -> bool {
    1 <= v <= 12
}

/// The month with calendar number `n`, for `n` in 1..=12.
pub open spec fn month_of_num(n: int) -> Month {
    spec_num_to_month(n)->0
}

/// The match at token `i` with the day run first, as under the
/// day-month-year convention.
pub open spec fn at_date_month_year(ts: Seq<Token>, i: int) -> Option<DateExpression> {
    if 0 <= i < ts.len() {
        match ts[i] {
            Token::NumPair { a, b } => if day_run_ok(a) && month_run_ok(b) {
                Some(DateExpression::DayInMonth(month_of_num(b as int), a))
            } else {
                None
            },
            Token::NumPairYear { a, b, year } => if day_run_ok(a) && month_run_ok(b) {
                Some(DateExpression::DayInMonthInYear(month_of_num(b as int), a, year as i32))
            } else {
                None
            },
            Token::NumYear { a, year } => if month_run_ok(a) {
                Some(DateExpression::InMonthInYear(month_of_num(a as int), year as i32))
            } else {
                None
            },
            _ => None,
        }
    } else {
        None
    }
}

/// The match at token `i` with the month run first, as under the
/// month-day-year convention.
pub open spec fn at_month_date_year(ts: Seq<Token>, i: int) -> Option<DateExpression> {
    if 0 <= i < ts.len() {
        match ts[i] {
            Token::NumPair { a, b } => if month_run_ok(a) && day_run_ok(b) {
                Some(DateExpression::DayInMonth(month_of_num(a as int), b))
            } else {
                None
            },
            Token::NumPairYear { a, b, year } => if month_run_ok(a) && day_run_ok(b) {
                Some(DateExpression::DayInMonthInYear(month_of_num(a as int), b, year as i32))
            } else {
                None
            },
            Token::NumYear { a, year } => if month_run_ok(a) {
                Some(DateExpression::InMonthInYear(month_of_num(a as int), year as i32))
            } else {
                None
            },
            _ => None,
        }
    } else {
        None
    }
}

/// First day-first match at or after token `i`.
pub open spec fn date_month_year_from(ts: Seq<Token>, i: int) -> Option<DateExpression>
    decreases ts.len() - i,
{
    if i >= ts.len() {
        None
    } else if at_date_month_year(ts, i) is Some {
        at_date_month_year(ts, i)
    } else {
        date_month_year_from(ts, i + 1)
    }
}

/// First month-first match at or after token `i`.
pub open spec fn month_date_year_from(ts: Seq<Token>, i: int) -> Option<DateExpression>
    decreases ts.len() - i,
{
    if i >= ts.len() {
        None
    } else if at_month_date_year(ts, i) is Some {
        at_month_date_year(ts, i)
    } else {
        month_date_year_from(ts, i + 1)
    }
}

/// What [`parse_date_month_year`] recognizes in a text.
pub open spec fn spec_parse_date_month_year(s: Seq<char>) -> Option<DateExpression> {
    date_month_year_from(spec_tokens(s), 0)
}

/// What [`parse_month_date_year`] recognizes in a text.
pub open spec fn spec_parse_month_date_year(s: Seq<char>) -> Option<DateExpression> {
    month_date_year_from(spec_tokens(s), 0)
}

/// The month with calendar number `n`; mirrors [`month_of_num`].
fn month_of_num_x(n: u32) -> (m: Month)
    requires
        1 <= n <= 12,
    ensures
        m == month_of_num(n as int),
{
    match n {
        1 => Month::January,
        2 => Month::February,
        3 => Month::March,
        4 => Month::April,
        5 => Month::May,
        6 => Month::June,
        7 => Month::July,
        8 => Month::August,
        9 => Month::September,
        10 => Month::October,
        11 => Month::November,
        _ => Month::December,
    }
}

/// The day-first match at token `i`; mirrors [`at_date_month_year`].
fn at_date_month_year_x(ts: &Vec<Token>, i: usize) -> (r: Option<DateExpression>)
    requires
        i < ts@.len(),
    ensures
        r == at_date_month_year(ts@, i as int),
{
    match ts[i] {
        Token::NumPair { a, b } => {
            if 1 <= a && a <= 31 && 1 <= b && b <= 12 {
                Some(DateExpression::DayInMonth(month_of_num_x(b), a))
            } else {
                None
            }
        },
        Token::NumPairYear { a, b, year } => {
            if 1 <= a && a <= 31 && 1 <= b && b <= 12 {
                Some(DateExpression::DayInMonthInYear(month_of_num_x(b), a, year as i32))
            } else {
                None
            }
        },
        Token::NumYear { a, year } => {
            if 1 <= a && a <= 12 {
                Some(DateExpression::InMonthInYear(month_of_num_x(a), year as i32))
            } else {
                None
            }
        },
        _ => None,
    }
}

/// The month-first match at token `i`; mirrors [`at_month_date_year`].
fn at_month_date_year_x(ts: &Vec<Token>, i: usize) -> (r: Option<DateExpression>)
    requires
        i < ts@.len(),
    ensures
        r == at_month_date_year(ts@, i as int),
{
    match ts[i] {
        Token::NumPair { a, b } => {
            if 1 <= a && a <= 12 && 1 <= b && b <= 31 {
                Some(DateExpression::DayInMonth(month_of_num_x(a), b))
            } else {
                None
            }
        },
        Token::NumPairYear { a, b, year } => {
            if 1 <= a && a <= 12 && 1 <= b && b <= 31 {
                Some(DateExpression::DayInMonthInYear(month_of_num_x(a), b, year as i32))
            } else {
                None
            }
        },
        Token::NumYear { a, year } => {
            if 1 <= a && a <= 12 {
                Some(DateExpression::InMonthInYear(month_of_num_x(a), year as i32))
            } else {
                None
            }
        },
        _ => None,
    }
}

/// Finds a numeric date read day-first, e.g. `10.12` as the 10th of
/// December.
pub fn parse_date_month_year(input: &str) -> (r: Option<DateExpression>)
    ensures
        r == spec_parse_date_month_year(input@),
{
    let ts = tokenize(input);
    let mut i: usize = 0;
    while i < ts.len()
        invariant
            i <= ts@.len(),
            ts@ == spec_tokens(input@),
            date_month_year_from(ts@, 0) == date_month_year_from(ts@, i as int),
        decreases ts@.len() - i,
    {
        let m = at_date_month_year_x(&ts, i);
        if m.is_some() {
            return m;
        }
        i += 1;
    }
    None
}

/// Finds a numeric date read month-first, e.g. `12.10` as the 10th of
/// December.
pub fn parse_month_date_year(input: &str) -> (r: Option<DateExpression>)
    ensures
        r == spec_parse_month_date_year(input@),
{
    let ts = tokenize(input);
    let mut i: usize = 0;
    while i < ts.len()
        invariant
            i <= ts@.len(),
            ts@ == spec_tokens(input@),
            month_date_year_from(ts@, 0) == month_date_year_from(ts@, i as int),
        decreases ts@.len() - i,
    {
        let m = at_month_date_year_x(&ts, i);
        if m.is_some() {
            return m;
        }
        i += 1;
    }
    None
}

} // verus!
