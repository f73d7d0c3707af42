//! The English date parser: the ordered recognition cascade and the
//! engine facade that resolves what the cascade found.

use vstd::prelude::*;

use crate::date_parser::DateParser;
use crate::dates::{Date, Weekday};
use crate::language::date_format::DateFormat;
use crate::language::en::expressions::parse_date_in_week::{
    parse_date_in_week, spec_parse_date_in_week,
};
use crate::language::en::expressions::parse_date_in_x_weeks::{
    parse_in_x_weeks, spec_parse_in_x_weeks,
};
use crate::language::en::expressions::parse_day_alone::{parse_day_alone, spec_parse_day_alone};
use crate::language::en::expressions::parse_day_in_explicit_weeks::{
    parse_day_in_explicit_week, spec_parse_day_in_explicit_week,
};
use crate::language::en::expressions::parse_day_in_relative_week::{
    parse_day_in_relative_week, spec_parse_day_in_relative_week,
};
use crate::language::en::expressions::parse_in_n_months::{
    parse_in_n_months, spec_parse_in_n_months,
};
use crate::language::en::expressions::parse_keywords::{parse_keywords, spec_parse_keywords};
use crate::language::en::expressions::parse_month_date::{
    parse_month_date, spec_parse_month_date,
};
use crate::language::en::expressions::parse_relative_date::{
    parse_relative_day, spec_parse_relative_day,
};
use crate::language::en::expressions::parse_relative_keyword_week::{
    parse_keyword_relative_week, spec_parse_keyword_relative_week,
};
use crate::language::en::expressions::parse_relative_month::{
    parse_relative_month, spec_parse_relative_month,
};
use crate::language::resolver::{resolve_date_expression, spec_resolve};
use crate::language::shared::{DateExpression, Month};
use crate::language::shared_date_parser::{
    parse_date_month_year, parse_month_date_year, spec_parse_date_month_year,
    spec_parse_month_date_year,
};
use crate::language::start_day_of_week::StartDayOfWeek;
use crate::lexer::{lower_chars, chars_eq, spec_lower, spec_tokens, str_is, tokenize, Token};
use crate::recognizable::Recognizable;

verus! {

/// First month name at or after token `i`.
pub open spec fn month_name_from(ts: Seq<Token>, i: int) -> Option<Month>
    decreases ts.len() - i,
{
    if i >= ts.len() {
        None
    } else {
        match ts[i] {
            Token::MonthName(m) => Some(m),
            _ => month_name_from(ts, i + 1),
        }
    }
}

/// What [`Month::recognize`] finds in a text: its first month name.
pub open spec fn spec_parse_month_of_year_english(s: Seq<char>) -> Option<Month> {
    month_name_from(spec_tokens(s), 0)
}

/// Finds the first English month name, abbreviated or full, in a text.
fn parse_month_of_year_english(text: &str) -> (r: Option<Month>)
    ensures
        r == spec_parse_month_of_year_english(text@),
{
    let ts = tokenize(text);
    let mut i: usize = 0;
    while i < ts.len()
        invariant
            i <= ts@.len(),
            ts@ == spec_tokens(text@),
            month_name_from(ts@, 0) == month_name_from(ts@, i as int),
        decreases ts@.len() - i,
    {
        match ts[i] {
            Token::MonthName(m) => {
                return Some(m);
            },
            _ => {},
        }
        i += 1;
    }
    None
}

/// The number an English numeral word "one" through "twelve" spells.
pub open spec fn spec_string_to_num_english(s: Seq<char>) -> Option<i32> {
    if s == "one"@ {
        Some(1)
    } else if s == "two"@ {
        Some(2)
    } else if s == "three"@ {
        Some(3)
    } else if s == "four"@ {
        Some(4)
    } else if s == "five"@ {
        Some(5)
    } else if s == "six"@ {
        Some(6)
    } else if s == "seven"@ {
        Some(7)
    } else if s == "eight"@ {
        Some(8)
    } else if s == "nine"@ {
        Some(9)
    } else if s == "ten"@ {
        Some(10)
    } else if s == "eleven"@ {
        Some(11)
    } else if s == "twelve"@ {
        Some(12)
    } else {
        None
    }
}

/// Maps the numeral words "one" through "twelve" to their values; any
/// other input, including "zero" and "thirteen", yields no match.
pub fn string_to_num_english(input: &str) -> (r: Option<i32>)
    ensures
        r == spec_string_to_num_english(input@),
{
    if str_is(input, "one") {
        Some(1)
    } else if str_is(input, "two") {
        Some(2)
    } else if str_is(input, "three") {
        Some(3)
    } else if str_is(input, "four") {
        Some(4)
    } else if str_is(input, "five") {
        Some(5)
    } else if str_is(input, "six") {
        Some(6)
    } else if str_is(input, "seven") {
        Some(7)
    } else if str_is(input, "eight") {
        Some(8)
    } else if str_is(input, "nine") {
        Some(9)
    } else if str_is(input, "ten") {
        Some(10)
    } else if str_is(input, "eleven") {
        Some(11)
    } else if str_is(input, "twelve") {
        Some(12)
    } else {
        None
    }
}

/// The full English name of a weekday, in lowercase.
pub open spec fn spec_weekday_english(w: Weekday) -> Seq<char> {
    match w {
        Weekday::Mon => "monday"@,
        Weekday::Tue => "tuesday"@,
        Weekday::Wed => "wednesday"@,
        Weekday::Thu => "thursday"@,
        Weekday::Fri => "friday"@,
        Weekday::Sat => "saturday"@,
        Weekday::Sun => "sunday"@,
    }
}

/// The full English name of a weekday, in lowercase.
pub fn weekday_to_english(input: &Weekday) -> (r: &str)
    ensures
        r@ == spec_weekday_english(*input),
{
    match input {
        Weekday::Mon => "monday",
        Weekday::Tue => "tuesday",
        Weekday::Wed => "wednesday",
        Weekday::Thu => "thursday",
        Weekday::Fri => "friday",
        Weekday::Sat => "saturday",
        Weekday::Sun => "sunday",
    }
}

/// The weekday a whole string names, abbreviated or full, in any case.
pub open spec fn spec_weekday_from_str(s: Seq<char>) -> Option<Weekday> {
    let w = spec_lower(s);
    if w == "mon"@ || w == "monday"@ {
        Some(Weekday::Mon)
    } else if w == "tue"@ || w == "tuesday"@ {
        Some(Weekday::Tue)
    } else if w == "wed"@ || w == "wednesday"@ {
        Some(Weekday::Wed)
    } else if w == "thu"@ || w == "thursday"@ {
        Some(Weekday::Thu)
    } else if w == "fri"@ || w == "friday"@ {
        Some(Weekday::Fri)
    } else if w == "sat"@ || w == "saturday"@ {
        Some(Weekday::Sat)
    } else if w == "sun"@ || w == "sunday"@ {
        Some(Weekday::Sun)
    } else {
        None
    }
}

impl Weekday {
    /// Reads a whole string as a weekday name, abbreviated or full,
    /// case-insensitively.
    pub fn recognize(text: &str, _date_format: &DateFormat) -> (r: Option<Weekday>)
        ensures
            r == spec_weekday_from_str(text@),
    {
        let w = lower_chars(text);
        if chars_eq(&w, "mon") || chars_eq(&w, "monday") {
            Some(Weekday::Mon)
        } else if chars_eq(&w, "tue") || chars_eq(&w, "tuesday") {
            Some(Weekday::Tue)
        } else if chars_eq(&w, "wed") || chars_eq(&w, "wednesday") {
            Some(Weekday::Wed)
        } else if chars_eq(&w, "thu") || chars_eq(&w, "thursday") {
            Some(Weekday::Thu)
        } else if chars_eq(&w, "fri") || chars_eq(&w, "friday") {
            Some(Weekday::Fri)
        } else if chars_eq(&w, "sat") || chars_eq(&w, "saturday") {
            Some(Weekday::Sat)
        } else if chars_eq(&w, "sun") || chars_eq(&w, "sunday") {
            Some(Weekday::Sun)
        } else {
            None
        }
    }
}

/// Parsing a `str` into a `Weekday` accepts English abbreviations and
/// full names.
impl Recognizable for Weekday {
    fn recognize(text: &str, date_format: &DateFormat) -> Option<Weekday> {
        Weekday::recognize(text, date_format)
    }

    fn describe() -> &'static str {
        "day of week"
    }
}

impl Month {
    /// Finds the first English month name in a text.
    pub fn recognize(text: &str, _date_format: &DateFormat) -> (r: Option<Month>)
        ensures
            r == spec_parse_month_of_year_english(text@),
    {
        parse_month_of_year_english(text)
    }
}

/// Parsing a `str` into a `Month` uses English abbreviations and full
/// names.
impl Recognizable for Month {
    fn recognize(text: &str, date_format: &DateFormat) -> Option<Month> {
        Month::recognize(text, date_format)
    }

    fn describe() -> &'static str {
        "month of year"
    }
}

/// The numeric-date recognizer the convention selects.
pub open spec fn spec_parse_numeric_date(s: Seq<char>, fmt: DateFormat) -> Option<DateExpression> {
    match fmt {
        DateFormat::DayMonthYear => spec_parse_date_month_year(s),
        DateFormat::MonthDayYear => spec_parse_month_date_year(s),
    }
}

/// What the recognition cascade yields: the first recognizer, in the
/// fixed priority order, that finds a date expression in the text.
pub open spec fn spec_recognize_en(s: Seq<char>, fmt: DateFormat) -> Option<DateExpression> {
    if spec_parse_keywords(s) is Some {
        spec_parse_keywords(s)
    } else if spec_parse_day_in_relative_week(s) is Some {
        spec_parse_day_in_relative_week(s)
    } else if spec_parse_day_in_explicit_week(s) is Some {
        spec_parse_day_in_explicit_week(s)
    } else if spec_parse_date_in_week(s) is Some {
        spec_parse_date_in_week(s)
    } else if spec_parse_day_alone(s) is Some {
        spec_parse_day_alone(s)
    } else if spec_parse_keyword_relative_week(s) is Some {
        spec_parse_keyword_relative_week(s)
    } else if spec_parse_in_x_weeks(s) is Some {
        spec_parse_in_x_weeks(s)
    } else if spec_parse_relative_day(s) is Some {
        spec_parse_relative_day(s)
    } else if spec_parse_numeric_date(s, fmt) is Some {
        spec_parse_numeric_date(s, fmt)
    } else if spec_parse_month_date(s) is Some {
        spec_parse_month_date(s)
    } else if spec_parse_in_n_months(s) is Some {
        spec_parse_in_n_months(s)
    } else if spec_parse_relative_month(s) is Some {
        spec_parse_relative_month(s)
    } else {
        None
    }
}

impl DateExpression {
    /// Applies the recognizers in their fixed priority order and
    /// returns the first match.
    pub fn recognize(input: &str, date_format: &DateFormat) -> (r: Option<DateExpression>)
        ensures
            r == spec_recognize_en(input@, *date_format),
    {
        // things like today, tomorrow, yesterday
        if let Some(date) = parse_keywords(input) {
            return Some(date);
        }
        if let Some(date) = parse_day_in_relative_week(input) {
            return Some(date);
        }
        if let Some(date) = parse_day_in_explicit_week(input) {
            return Some(date);
        }
        // next monday or last tuesday
        if let Some(date) = parse_date_in_week(input, date_format) {
            return Some(date);
        }
        // a single day of the week
        if let Some(date) = parse_day_alone(input) {
            return Some(date);
        }
        // next week, last week, this week
        if let Some(date) = parse_keyword_relative_week(input, date_format) {
            return Some(date);
        }
        // in three weeks or in 3 weeks
        if let Some(date) = parse_in_x_weeks(input) {
            return Some(date);
        }
        // in three days or in four days
        if let Some(date) = parse_relative_day(input) {
            return Some(date);
        }
        // full dates in DD.MM.YYYY or MM.DD.YYYY form
        let numeric = match date_format {
            DateFormat::DayMonthYear => parse_date_month_year(input),
            DateFormat::MonthDayYear => parse_month_date_year(input),
        };
        if let Some(date) = numeric {
            return Some(date);
        }
        // 12th of january or 5th of may
        if let Some(date) = parse_month_date(input, date_format) {
            return Some(date);
        }
        // in n months
        if let Some(date) = parse_in_n_months(input) {
            return Some(date);
        }
        // next month, last month or this month
        if let Some(date) = parse_relative_month(input) {
            return Some(date);
        }
        None
    }
}

impl Recognizable for DateExpression {
    fn recognize(input: &str, date_format: &DateFormat) -> Option<DateExpression> {
        DateExpression::recognize(input, date_format)
    }

    fn describe() -> &'static str {
        ""
    }
}

/// What the engine returns: the recognized expression, resolved
/// against the reference date.
pub open spec fn spec_search_en(
    s: Seq<char>,
    now: Date,
    fmt: DateFormat,
    sow: StartDayOfWeek,
) -> Option<Date> {
    match spec_recognize_en(s, fmt) {
        Some(e) => spec_resolve(e, now, sow),
        None => None,
    }
}

/// The English date parser: parses English date information out of
/// free-form text.
pub struct EnDateParser {}

impl EnDateParser {
    /// Searches `text` for an English date phrase and resolves it
    /// against `now` under the given conventions.
    pub fn search_relative_date_expression(
        text: &str,
        now: &Date,
        date_format: &DateFormat,
        start_of_week: &StartDayOfWeek,
    ) -> (r: Option<Date>)
        requires
            now.wf(),
        ensures
            r == spec_search_en(text@, *now, *date_format, *start_of_week),
            r matches Some(d) ==> d.wf(),
    {
        match DateExpression::recognize(text, date_format) {
            Some(expr) => resolve_date_expression(&expr, now, start_of_week),
            None => None,
        }
    }
}

impl DateParser for EnDateParser {
    fn search_relative_date_expression(
        input: &str,
        now: &Date,
        date_format: &DateFormat,
        start_of_week: &StartDayOfWeek,
    ) -> (r: Option<Date>) {
        EnDateParser::search_relative_date_expression(input, now, date_format, start_of_week)
    }
}

/// The keyword phrases resolve as offsets from the reference date:
/// "today" to the reference date itself, "tomorrow" to the day after,
/// "yesterday" to the day before, under every convention.
pub proof fn lemma_keyword_phrases(now: Date, fmt: DateFormat, sow: StartDayOfWeek)
    ensures
        spec_search_en("today"@, now, fmt, sow) == Some(now),
        spec_search_en("tomorrow"@, now, fmt, sow) == crate::dates::spec_plus_days(now, 1),
        spec_search_en("yesterday"@, now, fmt, sow) == crate::dates::spec_plus_days(now, -1),
{
    reveal_strlit("today");
    reveal_strlit("tomorrow");
    reveal_strlit("yesterday");
    crate::lexer::lemma_word_tokens("today"@);
    crate::lexer::lemma_word_tokens("tomorrow"@);
    crate::lexer::lemma_word_tokens("yesterday"@);
    assert(spec_parse_keywords("today"@) == Some(DateExpression::InXDays(0)));
    assert(spec_parse_keywords("tomorrow"@) == Some(DateExpression::InXDays(1)));
    assert(spec_parse_keywords("yesterday"@) == Some(DateExpression::InXDays(-1i32)));
}

/// Cascade priority: a text the keyword recognizer matches is decided
/// by it, whatever the looser recognizers would have said.
pub proof fn lemma_keyword_priority(s: Seq<char>, fmt: DateFormat)
    requires
        spec_parse_keywords(s) is Some,
    ensures
        spec_recognize_en(s, fmt) == spec_parse_keywords(s),
{
}

/// The engine is deterministic: its result is a function of the text,
/// the reference date and the two conventions alone, so two calls on
/// identical inputs yield identical results.
pub proof fn lemma_search_deterministic(
    r1: Option<Date>,
    r2: Option<Date>,
    s: Seq<char>,
    now: Date,
    fmt: DateFormat,
    sow: StartDayOfWeek,
)
    requires
        r1 == spec_search_en(s, now, fmt, sow),
        r2 == spec_search_en(s, now, fmt, sow),
    ensures
        r1 == r2,
{
}

} // verus!
