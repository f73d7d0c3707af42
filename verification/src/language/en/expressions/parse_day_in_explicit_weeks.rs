//! Recognizes a weekday tied to an explicit week count, e.g.
//! "tuesday in 3 weeks" or "in three weeks on tuesday".

use vstd::prelude::*;

use crate::language::en::expressions::{count_of, count_of_x};
use crate::language::shared::DateExpression;
use crate::lexer::{spec_tokens, tokenize, Token};

verus! {

/// The match at token `i`: weekday, optional "in", count, "week(s)";
/// or "in", count, "week(s)", optional "on", weekday.
pub open spec fn at_day_in_explicit_week(ts: Seq<Token>, i: int) -> Option<DateExpression> {
    if 0 <= i < ts.len() {
        match ts[i] {
            Token::WeekdayName(wd) => {
                let j = if ts.len() - i > 1 && ts[i + 1] == Token::InWord {
                    i + 2
                } else {
                    i + 1
                };
                if ts.len() - j > 1 {
                    match (count_of(ts[j]), ts[j + 1]) {
                        (Some(n), Token::WeekUnit) => Some(DateExpression::DayInXWeeks(n, wd)),
                        _ => None,
                    }
                } else {
                    None
                }
            },
            Token::InWord => if ts.len() - i > 2 {
                match (count_of(ts[i + 1]), ts[i + 2]) {
                    (Some(n), Token::WeekUnit) => if ts.len() - i > 3 {
                        match ts[i + 3] {
                            Token::WeekdayName(wd) => Some(DateExpression::DayInXWeeks(n, wd)),
                            Token::OnWord => if ts.len() - i > 4 {
                                match ts[i + 4] {
                                    Token::WeekdayName(wd) => Some(
                                        DateExpression::DayInXWeeks(n, wd),
                                    ),
                                    _ => None,
                                }
                            } else {
                                None
                            },
                            _ => None,
                        }
                    } else {
                        None
                    },
                    _ => None,
                }
            } else {
                None
            },
            _ => None,
        }
    } else {
        None
    }
}

/// First match at or after token `i`.
pub open spec fn day_in_explicit_week_from(ts: Seq<Token>, i: int) -> Option<DateExpression>
    decreases ts.len() - i,
{
    if i >= ts.len() {
        None
    } else if at_day_in_explicit_week(ts, i) is Some {
        at_day_in_explicit_week(ts, i)
    } else {
        day_in_explicit_week_from(ts, i + 1)
    }
}

/// What [`parse_day_in_explicit_week`] recognizes in a text.
pub open spec fn spec_parse_day_in_explicit_week(s: Seq<char>) -> Option<DateExpression> {
    day_in_explicit_week_from(spec_tokens(s), 0)
}

/// The match at token `i`; mirrors [`at_day_in_explicit_week`].
fn at_day_in_explicit_week_x(ts: &Vec<Token>, i: usize) -> (r: Option<DateExpression>)
    requires
        i < ts@.len(),
    ensures
        r == at_day_in_explicit_week(ts@, i as int),
{
    match ts[i] {
        Token::WeekdayName(wd) => {
            let j = if ts.len() - i > 1 && ts[i + 1] == Token::InWord {
                i + 2
            } else {
                i + 1
            };
            if ts.len() - j > 1 {
                match (count_of_x(&ts[j]), ts[j + 1]) {
                    (Some(n), Token::WeekUnit) => Some(DateExpression::DayInXWeeks(n, wd)),
                    _ => None,
                }
            } else {
                None
            }
        },
        Token::InWord => {
            if ts.len() - i > 2 {
                match (count_of_x(&ts[i + 1]), ts[i + 2]) {
                    (Some(n), Token::WeekUnit) => {
                        if ts.len() - i > 3 {
                            match ts[i + 3] {
                                Token::WeekdayName(wd) => Some(DateExpression::DayInXWeeks(n, wd)),
                                Token::OnWord => {
                                    if ts.len() - i > 4 {
                                        match ts[i + 4] {
                                            Token::WeekdayName(wd) => Some(
                                                DateExpression::DayInXWeeks(n, wd),
                                            ),
                                            _ => None,
                                        }
                                    } else {
                                        None
                                    }
                                },
                                _ => None,
                            }
                        } else {
                            None
                        }
                    },
                    _ => None,
                }
            } else {
                None
            }
        },
        _ => None,
    }
}

/// Finds a weekday tied to an explicit week count anywhere in the text.
pub fn parse_day_in_explicit_week(text: &str) -> (r: Option<DateExpression>)
    ensures
        r == spec_parse_day_in_explicit_week(text@),
{
    let ts = tokenize(text);
    let mut i: usize = 0;
    while i < ts.len()
        invariant
            i <= ts@.len(),
            ts@ == spec_tokens(text@),
            day_in_explicit_week_from(ts@, 0) == day_in_explicit_week_from(ts@, i as int),
        decreases ts@.len() - i,
    {
        let m = at_day_in_explicit_week_x(&ts, i);
        if m.is_some() {
            return m;
        }
        i += 1;
    }
    None
}

} // verus!
