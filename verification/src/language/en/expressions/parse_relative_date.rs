//! Recognizes "in N days", where N is a digit run of at most three
//! digits or a spelled number "one" through "twelve".

use vstd::prelude::*;

use crate::language::en::expressions::{count_of, count_of_x};
use crate::language::shared::DateExpression;
use crate::lexer::{spec_tokens, tokenize, Token};

verus! {

/// The match at token `i`: "in", a count, "day(s)".
pub open spec fn at_relative_day(ts: Seq<Token>, i: int) -> Option<DateExpression> {
    if 0 <= i && ts.len() - i > 2 && ts[i] == Token::InWord && ts[i + 2] == Token::DayUnit {
        match count_of(ts[i + 1]) {
            Some(n) => Some(DateExpression::InXDays(n)),
            None => None,
        }
    } else {
        None
    }
}

/// First match at or after token `i`.
pub open spec fn relative_day_from(ts: Seq<Token>, i: int) -> Option<DateExpression>
    decreases ts.len() - i,
{
    if i >= ts.len() {
        None
    } else if at_relative_day(ts, i) is Some {
        at_relative_day(ts, i)
    } else {
        relative_day_from(ts, i + 1)
    }
}

/// What [`parse_relative_day`] recognizes in a text.
pub open spec fn spec_parse_relative_day(s: Seq<char>) -> Option<DateExpression> {
    relative_day_from(spec_tokens(s), 0)
}

/// Finds "in N days" anywhere in the text.
pub fn parse_relative_day(text: &str) -> (r: Option<DateExpression>)
    ensures
        r == spec_parse_relative_day(text@),
{
    let ts = tokenize(text);
    let mut i: usize = 0;
    while i < ts.len()
        invariant
            i <= ts@.len(),
            ts@ == spec_tokens(text@),
            relative_day_from(ts@, 0) == relative_day_from(ts@, i as int),
        decreases ts@.len() - i,
    {
        if ts.len() - i > 2 && matches!(ts[i], Token::InWord) && matches!(
            ts[i + 2],
            Token::DayUnit,
        ) {
            match count_of_x(&ts[i + 1]) {
                Some(n) => {
                    return Some(DateExpression::InXDays(n));
                },
                None => {},
            }
        }
        i += 1;
    }
    None
}

} // verus!
