//! Recognizes "in N months", where N is a digit run of at most three
//! digits.

use vstd::prelude::*;

use crate::language::en::expressions::{digit_count_of, digit_count_of_x};
use crate::language::shared::DateExpression;
use crate::lexer::{spec_tokens, tokenize, Token};

verus! {

/// The match at token `i`: "in", a digit count, "month(s)".
pub open spec fn at_in_n_months(ts: Seq<Token>, i: int) -> Option<DateExpression> {
    if 0 <= i && ts.len() - i > 2 && ts[i] == Token::InWord && ts[i + 2] == Token::MonthUnit {
        match digit_count_of(ts[i + 1]) {
            Some(n) => Some(DateExpression::InXMonths(n)),
            None => None,
        }
    } else {
        None
    }
}

/// First match at or after token `i`.
pub open spec fn in_n_months_from(ts: Seq<Token>, i: int) -> Option<DateExpression>
    decreases ts.len() - i,
{
    if i >= ts.len() {
        None
    } else if at_in_n_months(ts, i) is Some {
        at_in_n_months(ts, i)
    } else {
        in_n_months_from(ts, i + 1)
    }
}

/// What [`parse_in_n_months`] recognizes in a text.
pub open spec fn spec_parse_in_n_months(s: Seq<char>) -> Option<DateExpression> {
    in_n_months_from(spec_tokens(s), 0)
}

/// Finds "in N months" anywhere in the text.
pub fn parse_in_n_months(text: &str) -> (r: Option<DateExpression>)
    ensures
        r == spec_parse_in_n_months(text@),
{
    let ts = tokenize(text);
    let mut i: usize = 0;
    while i < ts.len()
        invariant
            i <= ts@.len(),
            ts@ == spec_tokens(text@),
            in_n_months_from(ts@, 0) == in_n_months_from(ts@, i as int),
        decreases ts@.len() - i,
    {
        if ts.len() - i > 2 && matches!(ts[i], Token::InWord) && matches!(
            ts[i + 2],
            Token::MonthUnit,
        ) {
            match digit_count_of_x(&ts[i + 1]) {
                Some(n) => {
                    return Some(DateExpression::InXMonths(n));
                },
                None => {},
            }
        }
        i += 1;
    }
    None
}

} // verus!
