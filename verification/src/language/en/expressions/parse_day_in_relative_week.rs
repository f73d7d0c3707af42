//! Recognizes a weekday next to "last/this/next week", in either
//! order, e.g. "monday next week" or "next week on monday".

use vstd::prelude::*;

use crate::language::shared::DateExpression;
use crate::lexer::{spec_tokens, tokenize, Token};

verus! {

/// The match at token `i`: weekday then relative week, or relative
/// week then (optionally "on" and) a weekday.
pub open spec fn at_day_in_relative_week(ts: Seq<Token>, i: int) -> Option<DateExpression> {
    if 0 <= i && ts.len() - i > 2 {
        match (ts[i], ts[i + 1], ts[i + 2]) {
            (Token::WeekdayName(wd), Token::Rel(r), Token::WeekUnit) => Some(
                DateExpression::DayInXWeeks(r, wd),
            ),
            (Token::Rel(r), Token::WeekUnit, Token::WeekdayName(wd)) => Some(
                DateExpression::DayInXWeeks(r, wd),
            ),
            (Token::Rel(r), Token::WeekUnit, Token::OnWord) => if ts.len() - i > 3 {
                match ts[i + 3] {
                    Token::WeekdayName(wd) => Some(DateExpression::DayInXWeeks(r, wd)),
                    _ => None,
                }
            } else {
                None
            },
            _ => None,
        }
    } else {
        None
    }
}

/// First match at or after token `i`.
pub open spec fn day_in_relative_week_from(ts: Seq<Token>, i: int) -> Option<DateExpression>
    decreases ts.len() - i,
{
    if i >= ts.len() {
        None
    } else if at_day_in_relative_week(ts, i) is Some {
        at_day_in_relative_week(ts, i)
    } else {
        day_in_relative_week_from(ts, i + 1)
    }
}

/// What [`parse_day_in_relative_week`] recognizes in a text.
pub open spec fn spec_parse_day_in_relative_week(s: Seq<char>) -> Option<DateExpression> {
    day_in_relative_week_from(spec_tokens(s), 0)
}

/// The match at token `i`; mirrors [`at_day_in_relative_week`].
fn at_day_in_relative_week_x(ts: &Vec<Token>, i: usize) -> (r: Option<DateExpression>)
    requires
        i < ts@.len(),
    ensures
        r == at_day_in_relative_week(ts@, i as int),
{
    if ts.len() - i > 2 {
        match (ts[i], ts[i + 1], ts[i + 2]) {
            (Token::WeekdayName(wd), Token::Rel(r), Token::WeekUnit) => Some(
                DateExpression::DayInXWeeks(r, wd),
            ),
            (Token::Rel(r), Token::WeekUnit, Token::WeekdayName(wd)) => Some(
                DateExpression::DayInXWeeks(r, wd),
            ),
            (Token::Rel(r), Token::WeekUnit, Token::OnWord) => {
                if ts.len() - i > 3 {
                    match ts[i + 3] {
                        Token::WeekdayName(wd) => Some(DateExpression::DayInXWeeks(r, wd)),
                        _ => None,
                    }
                } else {
                    None
                }
            },
            _ => None,
        }
    } else {
        None
    }
}

/// Finds a weekday tied to "last/this/next week" anywhere in the text.
pub fn parse_day_in_relative_week(text: &str) -> (r: Option<DateExpression>)
    ensures
        r == spec_parse_day_in_relative_week(text@),
{
    let ts = tokenize(text);
    let mut i: usize = 0;
    while i < ts.len()
        invariant
            i <= ts@.len(),
            ts@ == spec_tokens(text@),
            day_in_relative_week_from(ts@, 0) == day_in_relative_week_from(ts@, i as int),
        decreases ts@.len() - i,
    {
        let m = at_day_in_relative_week_x(&ts, i);
        if m.is_some() {
            return m;
        }
        i += 1;
    }
    None
}

} // verus!
