//! Recognizes "next/last/this week" with no weekday named.  The
//! resulting expression is a whole-week offset, so resolution anchors
//! it to the first day of the named week under the configured
//! week-start convention.

use vstd::prelude::*;

use crate::language::date_format::DateFormat;
use crate::language::shared::DateExpression;
use crate::lexer::{spec_tokens, tokenize, Token};

verus! {

/// The match at token `i`: "next/last/this" directly before "week".
pub open spec fn at_keyword_relative_week(ts: Seq<Token>, i: int) -> Option<DateExpression> {
    if 0 <= i && ts.len() - i > 1 {
        match (ts[i], ts[i + 1]) {
            (Token::Rel(r), Token::WeekUnit) => Some(DateExpression::InXWeeks(r)),
            _ => None,
        }
    } else {
        None
    }
}

/// First match at or after token `i`.
pub open spec fn keyword_relative_week_from(ts: Seq<Token>, i: int) -> Option<DateExpression>
    decreases ts.len() - i,
{
    if i >= ts.len() {
        None
    } else if at_keyword_relative_week(ts, i) is Some {
        at_keyword_relative_week(ts, i)
    } else {
        keyword_relative_week_from(ts, i + 1)
    }
}

/// What [`parse_keyword_relative_week`] recognizes in a text.
pub open spec fn spec_parse_keyword_relative_week(s: Seq<char>) -> Option<DateExpression> {
    keyword_relative_week_from(spec_tokens(s), 0)
}

/// Finds "next/last/this week"; the resulting expression names the
/// whole week, anchored at resolution to its first day.
pub fn parse_keyword_relative_week(text: &str, _date_format: &DateFormat) -> (r: Option<
    DateExpression,
>)
    ensures
        r == spec_parse_keyword_relative_week(text@),
{
    let ts = tokenize(text);
    let mut i: usize = 0;
    while i < ts.len()
        invariant
            i <= ts@.len(),
            ts@ == spec_tokens(text@),
            keyword_relative_week_from(ts@, 0) == keyword_relative_week_from(ts@, i as int),
        decreases ts@.len() - i,
    {
        if ts.len() - i > 1 {
            match (ts[i], ts[i + 1]) {
                (Token::Rel(r), Token::WeekUnit) => {
                    return Some(DateExpression::InXWeeks(r));
                },
                _ => {},
            }
        }
        i += 1;
    }
    None
}

} // verus!
