//! The interface a language's date parser offers to callers.

use vstd::prelude::*;

use crate::dates::Date;
use crate::language::date_format::DateFormat;
use crate::language::start_day_of_week::StartDayOfWeek;

verus! {

/// A parser that finds a date expression in free text and resolves it
/// against a reference date.
pub trait DateParser {
    /// Searches `input` for a date phrase and resolves it against
    /// `now` under the given conventions.
    fn search_relative_date_expression(
        input: &str,
        now: &Date,
        date_format: &DateFormat,
        start_of_week: &StartDayOfWeek,
    ) -> (r: Option<Date>)
        requires
            now.wf(),
        ensures
            r matches Some(d) ==> d.wf(),
    ;
}

} // verus!
