//! Recognizes a month name next to a day of the month, e.g. "June 5",
//! "5th June" or "10th of december".

use vstd::prelude::*;

use crate::language::date_format::DateFormat;
use crate::language::en::expressions::{day_num_of, day_num_of_x};
use crate::language::shared::DateExpression;
use crate::lexer::{spec_tokens, tokenize, Token};

verus! {

/// The match at token `i`: a day before a month name, with an optional
/// "of" between, or a month name before a day.
pub open spec fn at_month_date(ts: Seq<Token>, i: int) -> Option<DateExpression> {
    if 0 <= i && ts.len() - i > 1 {
        match (day_num_of(ts[i]), ts[i + 1]) {
            (Some(d), Token::MonthName(m)) => Some(DateExpression::DayInMonth(m, d)),
            (Some(d), Token::OfWord) => if ts.len() - i > 2 {
                match ts[i + 2] {
                    Token::MonthName(m) => Some(DateExpression::DayInMonth(m, d)),
                    _ => None,
                }
            } else {
                None
            },
            _ => match (ts[i], day_num_of(ts[i + 1])) {
                (Token::MonthName(m), Some(d)) => Some(DateExpression::DayInMonth(m, d)),
                _ => None,
            },
        }
    } else {
        None
    }
}

/// First match at or after token `i`.
pub open spec fn month_date_from(ts: Seq<Token>, i: int) -> Option<DateExpression>
    decreases ts.len() - i,
{
    if i >= ts.len() {
        None
    } else if at_month_date(ts, i) is Some {
        at_month_date(ts, i)
    } else {
        month_date_from(ts, i + 1)
    }
}

/// What [`parse_month_date`] recognizes in a text.
pub open spec fn spec_parse_month_date(s: Seq<char>) -> Option<DateExpression> {
    month_date_from(spec_tokens(s), 0)
}

/// The match at token `i`; mirrors [`at_month_date`].
fn at_month_date_x(ts: &Vec<Token>, i: usize) -> (r: Option<DateExpression>)
    requires
        i < ts@.len(),
    ensures
        r == at_month_date(ts@, i as int),
{
    if ts.len() - i > 1 {
        match (day_num_of_x(&ts[i]), ts[i + 1]) {
            (Some(d), Token::MonthName(m)) => Some(DateExpression::DayInMonth(m, d)),
            (Some(d), Token::OfWord) => {
                if ts.len() - i > 2 {
                    match ts[i + 2] {
                        Token::MonthName(m) => Some(DateExpression::DayInMonth(m, d)),
                        _ => None,
                    }
                } else {
                    None
                }
            },
            _ => {
                match (ts[i], day_num_of_x(&ts[i + 1])) {
                    (Token::MonthName(m), Some(d)) => Some(DateExpression::DayInMonth(m, d)),
                    _ => None,
                }
            },
        }
    } else {
        None
    }
}

/// Finds a month name with an adjacent day of the month anywhere in
/// the text.
pub fn parse_month_date(text: &str, _date_format: &DateFormat) -> (r: Option<DateExpression>)
    ensures
        r == spec_parse_month_date(text@),
{
    let ts = tokenize(text);
    let mut i: usize = 0;
    while i < ts.len()
        invariant
            i <= ts@.len(),
            ts@ == spec_tokens(text@),
            month_date_from(ts@, 0) == month_date_from(ts@, i as int),
        decreases ts@.len() - i,
    {
        let m = at_month_date_x(&ts, i);
        if m.is_some() {
            return m;
        }
        i += 1;
    }
    None
}

} // verus!
