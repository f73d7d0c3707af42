//! Recognizes "next/last/this" followed by a word; the word must be a
//! weekday, e.g. "next thursday" or "last wed".
//!
//! The first "next/last/this" that has a following word decides: if
//! that word is no weekday, the recognizer gives up.

use vstd::prelude::*;

use crate::language::date_format::DateFormat;
use crate::language::shared::DateExpression;
use crate::lexer::{spec_tokens, tokenize, Token};

verus! {

/// Decision at the first "next/last/this" token at or after `i` that
/// still has a token after it.
pub open spec fn date_in_week_from(ts: Seq<Token>, i: int) -> Option<DateExpression>
    decreases ts.len() - i,
{
    if i + 1 >= ts.len() {
        None
    } else {
        match ts[i] {
            Token::Rel(r) => match ts[i + 1] {
                Token::WeekdayName(wd) => Some(DateExpression::DayInXWeeks(r, wd)),
                _ => None,
            },
            _ => date_in_week_from(ts, i + 1),
        }
    }
}

/// What [`parse_date_in_week`] recognizes in a text.
pub open spec fn spec_parse_date_in_week(s: Seq<char>) -> Option<DateExpression> {
    date_in_week_from(spec_tokens(s), 0)
}

/// Finds "next/last/this" followed by a weekday name.
pub fn parse_date_in_week(text: &str, _date_format: &DateFormat) -> (r: Option<DateExpression>)
    ensures
        r == spec_parse_date_in_week(text@),
{
    let ts = tokenize(text);
    let mut i: usize = 0;
    while ts.len() - i > 1
        invariant
            i <= ts@.len(),
            ts@ == spec_tokens(text@),
            date_in_week_from(ts@, 0) == date_in_week_from(ts@, i as int),
        decreases ts@.len() - i,
    {
        match ts[i] {
            Token::Rel(r) => {
                match ts[i + 1] {
                    Token::WeekdayName(wd) => {
                        return Some(DateExpression::DayInXWeeks(r, wd));
                    },
                    _ => {
                        return None;
                    },
                }
            },
            _ => {},
        }
        i += 1;
    }
    None
}

} // verus!
