//! The English phrase recognizers, one per file, and the token
//! helpers they share.

pub mod parse_date_in_week;
pub mod parse_date_in_x_weeks;
pub mod parse_day_alone;
pub mod parse_day_in_explicit_weeks;
pub mod parse_day_in_relative_week;
pub mod parse_in_n_months;
pub mod parse_keywords;
pub mod parse_month_date;
pub mod parse_relative_date;
pub mod parse_relative_keyword_week;
pub mod parse_relative_month;

use vstd::prelude::*;

use crate::lexer::Token;

verus! {

/// The count a token contributes to phrases like "in N weeks": a
/// spelled number, or a digit run of at most three digits.
pub open spec fn count_of(t: Token) -> Option<i32> {
    match t {
        Token::NumWord(n) => Some(n as i32),
        Token::Digits { value, len, th } => if len <= 3 && !th {
            Some(value as i32)
        } else {
            None
        },
        _ => None,
    }
}

/// The count a token contributes where only digits are accepted, as in
/// "in N months".
pub open spec fn digit_count_of(t: Token) -> Option<i32> {
    match t {
        Token::Digits { value, len, th } => if len <= 3 && !th {
            Some(value as i32)
        } else {
            None
        },
        _ => None,
    }
}

/// The day of the month a token names: a digit run of at most two
/// digits, with or without a "th" suffix.
pub open spec fn day_num_of(t: Token) -> Option<u32> {
    match t {
        Token::Digits { value, len, th } => if len <= 2 {
            Some(value)
        } else {
            None
        },
        _ => None,
    }
}

/// Whether two tokens are interchangeable for count recognizers: they
/// are the same token, or both carry the same count, one perhaps
/// spelled and the other in digits.
pub open spec fn same_count_token(x: Token, y: Token) -> bool {
    ||| x == y
    ||| (count_of(x) is Some && count_of(x) == count_of(y))
}

/// Whether two token sequences agree except for the spelling of their
/// count tokens.
pub open spec fn count_equivalent(a: Seq<Token>, b: Seq<Token>) -> bool {
    &&& a.len() == b.len()
    &&& forall|i: int| 0 <= i < a.len() ==> #[trigger] same_count_token(a[i], b[i])
}

/// A spelled number and its digit form are interchangeable count
/// tokens.
pub proof fn lemma_spelled_digit_same_count(n: u32, len: u32)
    requires
        1 <= n <= 12,
        1 <= len <= 3,
    ensures
        same_count_token(Token::NumWord(n), Token::Digits { value: n, len, th: false }),
{
}

/// Reads the count of a token; mirrors [`count_of`].
pub fn count_of_x(t: &Token) -> (r: Option<i32>)
    ensures
        r == count_of(*t),
{
    match t {
        Token::NumWord(n) => Some(*n as i32),
        Token::Digits { value, len, th } => {
            if *len <= 3 && !*th {
                Some(*value as i32)
            } else {
                None
            }
        },
        _ => None,
    }
}

/// Reads the digits-only count of a token; mirrors [`digit_count_of`].
pub fn digit_count_of_x(t: &Token) -> (r: Option<i32>)
    ensures
        r == digit_count_of(*t),
{
    match t {
        Token::Digits { value, len, th } => {
            if *len <= 3 && !*th {
                Some(*value as i32)
            } else {
                None
            }
        },
        _ => None,
    }
}

/// The "in N weeks" recognizer reads only the value of a count token,
/// never its spelling: count-equivalent texts match identically.
pub proof fn lemma_in_x_weeks_count_form(a: Seq<Token>, b: Seq<Token>, i: int)
    requires
        count_equivalent(a, b),
        0 <= i,
    ensures
        parse_date_in_x_weeks::in_x_weeks_from(a, i) == parse_date_in_x_weeks::in_x_weeks_from(
            b,
            i,
        ),
    decreases a.len() - i,
{
    if i < a.len() {
        assert(same_count_token(a[i], b[i]));
        if a.len() - i > 2 {
            assert(same_count_token(a[i + 1], b[i + 1]));
            assert(same_count_token(a[i + 2], b[i + 2]));
        }
        assert(parse_date_in_x_weeks::at_in_x_weeks(a, i) == parse_date_in_x_weeks::at_in_x_weeks(
            b,
            i,
        ));
        lemma_in_x_weeks_count_form(a, b, i + 1);
    }
}

/// The "in N days" recognizer reads only the value of a count token,
/// never its spelling: count-equivalent texts match identically.
pub proof fn lemma_relative_day_count_form(a: Seq<Token>, b: Seq<Token>, i: int)
    requires
        count_equivalent(a, b),
        0 <= i,
    ensures
        parse_relative_date::relative_day_from(a, i) == parse_relative_date::relative_day_from(
            b,
            i,
        ),
    decreases a.len() - i,
{
    if i < a.len() {
        assert(same_count_token(a[i], b[i]));
        if a.len() - i > 2 {
            assert(same_count_token(a[i + 1], b[i + 1]));
            assert(same_count_token(a[i + 2], b[i + 2]));
        }
        assert(parse_relative_date::at_relative_day(a, i) == parse_relative_date::at_relative_day(
            b,
            i,
        ));
        lemma_relative_day_count_form(a, b, i + 1);
    }
}

/// The "weekday in N weeks" recognizer reads only the value of a count
/// token, never its spelling: count-equivalent texts match identically.
pub proof fn lemma_day_in_explicit_week_count_form(a: Seq<Token>, b: Seq<Token>, i: int)
    requires
        count_equivalent(a, b),
        0 <= i,
    ensures
        parse_day_in_explicit_weeks::day_in_explicit_week_from(a, i)
            == parse_day_in_explicit_weeks::day_in_explicit_week_from(b, i),
    decreases a.len() - i,
{
    if i < a.len() {
        assert(same_count_token(a[i], b[i]));
        if a.len() - i > 1 {
            assert(same_count_token(a[i + 1], b[i + 1]));
        }
        if a.len() - i > 2 {
            assert(same_count_token(a[i + 2], b[i + 2]));
        }
        if a.len() - i > 3 {
            assert(same_count_token(a[i + 3], b[i + 3]));
        }
        if a.len() - i > 4 {
            assert(same_count_token(a[i + 4], b[i + 4]));
        }
        assert(parse_day_in_explicit_weeks::at_day_in_explicit_week(a, i)
            == parse_day_in_explicit_weeks::at_day_in_explicit_week(b, i));
        lemma_day_in_explicit_week_count_form(a, b, i + 1);
    }
}

/// Reads the day of the month a token names; mirrors [`day_num_of`].
pub fn day_num_of_x(t: &Token) -> (r: Option<u32>)
    ensures
        r == day_num_of(*t),
{
    match t {
        Token::Digits { value, len, th: _ } => {
            if *len <= 2 {
                Some(*value)
            } else {
                None
            }
        },
        _ => None,
    }
}

} // verus!
