//! Recognizes a bare weekday name anywhere in the text, taken as that
//! weekday within the current week.

use vstd::prelude::*;

use crate::language::shared::DateExpression;
use crate::lexer::{spec_tokens, tokenize, Token};

verus! {

/// First weekday name at or after token `i`.
pub open spec fn day_alone_from(ts: Seq<Token>, i: int) -> Option<DateExpression>
    decreases ts.len() - i,
{
    if i >= ts.len() {
        None
    } else {
        match ts[i] {
            Token::WeekdayName(wd) => Some(DateExpression::DayInXWeeks(0, wd)),
            _ => day_alone_from(ts, i + 1),
        }
    }
}

/// What [`parse_day_alone`] recognizes in a text.
pub open spec fn spec_parse_day_alone(s: Seq<char>) -> Option<DateExpression> {
    day_alone_from(spec_tokens(s), 0)
}

/// Finds the first bare weekday name in the text.
pub fn parse_day_alone(text: &str) -> (r: Option<DateExpression>)
    ensures
        r == spec_parse_day_alone(text@),
{
    let ts = tokenize(text);
    let mut i: usize = 0;
    while i < ts.len()
        invariant
            i <= ts@.len(),
            ts@ == spec_tokens(text@),
            day_alone_from(ts@, 0) == day_alone_from(ts@, i as int),
        decreases ts@.len() - i,
    {
        match ts[i] {
            Token::WeekdayName(wd) => {
                return Some(DateExpression::DayInXWeeks(0, wd));
            },
            _ => {},
        }
        i += 1;
    }
    None
}

} // verus!
