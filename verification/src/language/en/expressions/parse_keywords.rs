//! Recognizes the keywords "today", "tomorrow" and "yesterday".

use vstd::prelude::*;

use crate::language::shared::DateExpression;
use crate::lexer::{spec_tokens, tokenize, Token};

verus! {

/// The day offset a keyword token stands for, if the token is one.
pub open spec fn at_keyword(ts: Seq<Token>, i: int) -> Option<DateExpression> {
    if 0 <= i < ts.len() {
        match ts[i] {
            Token::KeyToday => Some(DateExpression::InXDays(0)),
            Token::KeyTomorrow => Some(DateExpression::InXDays(1)),
            Token::KeyYesterday => Some(DateExpression::InXDays(-1i32)),
            _ => None,
        }
    } else {
        None
    }
}

/// First keyword match at or after token `i`.
pub open spec fn keywords_from(ts: Seq<Token>, i: int) -> Option<DateExpression>
    decreases ts.len() - i,
{
    if i >= ts.len() {
        None
    } else if at_keyword(ts, i) is Some {
        at_keyword(ts, i)
    } else {
        keywords_from(ts, i + 1)
    }
}

/// What [`parse_keywords`] recognizes in a text.
pub open spec fn spec_parse_keywords(s: Seq<char>) -> Option<DateExpression> {
    keywords_from(spec_tokens(s), 0)
}

/// Finds the first "today", "tomorrow" or "yesterday" in the text and
/// returns it as a day offset from today.
pub fn parse_keywords(text: &str) -> (r: Option<DateExpression>)
    ensures
        r == spec_parse_keywords(text@),
{
    let ts = tokenize(text);
    let mut i: usize = 0;
    while i < ts.len()
        invariant
            i <= ts@.len(),
            ts@ == spec_tokens(text@),
            keywords_from(ts@, 0) == keywords_from(ts@, i as int),
        decreases ts@.len() - i,
    {
        match ts[i] {
            Token::KeyToday => {
                return Some(DateExpression::InXDays(0));
            },
            Token::KeyTomorrow => {
                return Some(DateExpression::InXDays(1));
            },
            Token::KeyYesterday => {
                return Some(DateExpression::InXDays(-1));
            },
            _ => {},
        }
        i += 1;
    }
    None
}

} // verus!
