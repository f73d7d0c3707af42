//! Recognizes "next/last/this month".

use vstd::prelude::*;

use crate::language::shared::DateExpression;
use crate::lexer::{spec_tokens, tokenize, Token};

verus! {

/// The match at token `i`: "next/last/this" directly before "month".
pub open spec fn at_relative_month(ts: Seq<Token>, i: int) -> Option<DateExpression> {
    if 0 <= i && ts.len() - i > 1 {
        match (ts[i], ts[i + 1]) {
            (Token::Rel(r), Token::MonthUnit) => Some(DateExpression::InXMonths(r)),
            _ => None,
        }
    } else {
        None
    }
}

/// First match at or after token `i`.
pub open spec fn relative_month_from(ts: Seq<Token>, i: int) -> Option<DateExpression>
    decreases ts.len() - i,
{
    if i >= ts.len() {
        None
    } else if at_relative_month(ts, i) is Some {
        at_relative_month(ts, i)
    } else {
        relative_month_from(ts, i + 1)
    }
}

/// What [`parse_relative_month`] recognizes in a text.
pub open spec fn spec_parse_relative_month(s: Seq<char>) -> Option<DateExpression> {
    relative_month_from(spec_tokens(s), 0)
}

/// Finds "next/last/this month" anywhere in the text.
pub fn parse_relative_month(text: &str) -> (r: Option<DateExpression>)
    ensures
        r == spec_parse_relative_month(text@),
{
    let ts = tokenize(text);
    let mut i: usize = 0;
    while i < ts.len()
        invariant
            i <= ts@.len(),
            ts@ == spec_tokens(text@),
            relative_month_from(ts@, 0) == relative_month_from(ts@, i as int),
        decreases ts@.len() - i,
    {
        if ts.len() - i > 1 {
            match (ts[i], ts[i + 1]) {
                (Token::Rel(r), Token::MonthUnit) => {
                    return Some(DateExpression::InXMonths(r));
                },
                _ => {},
            }
        }
        i += 1;
    }
    None
}

} // verus!
