use date_time_parser_multi_language::language::en::en_date_parser::{
    string_to_num_english, weekday_to_english,
};
use date_time_parser_multi_language::language::resolver::resolve_date_expression;
use date_time_parser_multi_language::language::shared::{DateExpression, Month};
use date_time_parser_multi_language::{Date, DateFormat, EnDateParser, StartDayOfWeek, Weekday};

fn ymd(y: i32, m: u32, d: u32) -> Date {
    Date::from_ymd_opt(y, m, d).unwrap()
}

fn search(text: &str, now: &Date, fmt: &DateFormat, sow: &StartDayOfWeek) -> Option<Date> {
    EnDateParser::search_relative_date_expression(text, now, fmt, sow)
}

#[test]
fn relative_days_resolve_to_exact_offsets() {
    let now = ymd(2024, 12, 1);
    let sow = StartDayOfWeek::Monday;

    for n in [-400, -60, -1, 0, 1, 5, 30, 365, 1000, 10000] {
        let expected = now.plus_days(n as i64);
        assert!(expected.is_some());
        assert_eq!(
            resolve_date_expression(&DateExpression::InXDays(n), &now, &sow),
            expected,
            "offset {}",
            n
        );
    }

    // extreme offsets leave the supported year range and fail gracefully
    assert_eq!(resolve_date_expression(&DateExpression::InXDays(i32::MAX), &now, &sow), None);
    assert_eq!(resolve_date_expression(&DateExpression::InXDays(-4000000), &now, &sow), None);
}

#[test]
fn keywords_resolve_under_every_convention() {
    let now = ymd(2024, 12, 1);
    for fmt in [DateFormat::DayMonthYear, DateFormat::MonthDayYear] {
        for sow in [StartDayOfWeek::Sunday, StartDayOfWeek::Monday] {
            assert_eq!(search("today", &now, &fmt, &sow), Some(now));
            assert_eq!(search("tomorrow", &now, &fmt, &sow), Some(ymd(2024, 12, 2)));
            assert_eq!(search("yesterday", &now, &fmt, &sow), Some(ymd(2024, 11, 30)));
        }
    }
}

#[test]
fn numeral_words_and_digits_agree() {
    let now = ymd(2024, 12, 1);
    let fmt = DateFormat::DayMonthYear;
    let sow = StartDayOfWeek::Monday;
    let words = [
        (1, "one"),
        (2, "two"),
        (3, "three"),
        (4, "four"),
        (5, "five"),
        (6, "six"),
        (7, "seven"),
        (8, "eight"),
        (9, "nine"),
        (10, "ten"),
        (11, "eleven"),
        (12, "twelve"),
    ];

    for (n, word) in words {
        assert_eq!(string_to_num_english(word), Some(n));
        let spelled_days = format!("in {} days", word);
        let digit_days = format!("in {} days", n);
        assert_eq!(
            search(&spelled_days, &now, &fmt, &sow),
            search(&digit_days, &now, &fmt, &sow),
            "days: {}",
            word
        );
        assert!(search(&spelled_days, &now, &fmt, &sow).is_some());

        let spelled_weeks = format!("in {} weeks", word);
        let digit_weeks = format!("in {} weeks", n);
        assert_eq!(
            search(&spelled_weeks, &now, &fmt, &sow),
            search(&digit_weeks, &now, &fmt, &sow),
            "weeks: {}",
            word
        );

        let spelled_on_day = format!("on tuesday in {} weeks", word);
        let digit_on_day = format!("on tuesday in {} weeks", n);
        assert_eq!(
            search(&spelled_on_day, &now, &fmt, &sow),
            search(&digit_on_day, &now, &fmt, &sow),
            "weekday in weeks: {}",
            word
        );
    }
}

#[test]
fn out_of_vocabulary_numerals_do_not_match() {
    let now = ymd(2024, 12, 1);
    let fmt = DateFormat::DayMonthYear;
    let sow = StartDayOfWeek::Monday;

    assert_eq!(string_to_num_english("zero"), None);
    assert_eq!(string_to_num_english("thirteen"), None);
    assert_eq!(string_to_num_english("monday"), None);
    assert_eq!(string_to_num_english("One"), None);

    assert_eq!(search("in zero days", &now, &fmt, &sow), None);
    assert_eq!(search("in thirteen days", &now, &fmt, &sow), None);
    assert_eq!(search("in zero weeks", &now, &fmt, &sow), None);
    assert_eq!(search("in thirteen weeks", &now, &fmt, &sow), None);
}

#[test]
fn week_start_convention_changes_results() {
    // a known Sunday
    let now = ymd(2024, 12, 1);
    let fmt = DateFormat::DayMonthYear;

    let sunday = StartDayOfWeek::Sunday;
    assert_eq!(search("next week", &now, &fmt, &sunday), now.plus_days(7));
    assert_eq!(search("in 2 weeks", &now, &fmt, &sunday), now.plus_days(14));

    let monday = StartDayOfWeek::Monday;
    assert_eq!(search("this week", &now, &fmt, &monday), now.plus_days(-6));
    assert_eq!(search("next week", &now, &fmt, &monday), now.plus_days(1));

    // the same phrase and the same reference date, measurably different
    assert_ne!(
        search("next week", &now, &fmt, &sunday),
        search("next week", &now, &fmt, &monday)
    );
}

#[test]
fn month_day_rolls_forward_when_passed() {
    let fmt = DateFormat::DayMonthYear;
    let sow = StartDayOfWeek::Monday;

    let before = ymd(2024, 10, 1);
    assert_eq!(
        search("10th of december", &before, &fmt, &sow),
        Some(ymd(2024, 12, 10))
    );

    let after_new_year = ymd(2025, 1, 15);
    assert_eq!(
        search("10th of december", &after_new_year, &fmt, &sow),
        Some(ymd(2025, 12, 10))
    );

    // a date already passed within the same year rolls to next year
    let late_december = ymd(2024, 12, 20);
    assert_eq!(
        search("10th of december", &late_december, &fmt, &sow),
        Some(ymd(2025, 12, 10))
    );
}

#[test]
fn numeric_convention_disambiguates_identical_digits() {
    let now = ymd(2024, 10, 1);
    let sow = StartDayOfWeek::Monday;

    assert_eq!(
        search("10.12.2025", &now, &DateFormat::DayMonthYear, &sow),
        Some(ymd(2025, 12, 10))
    );
    assert_eq!(
        search("12.10.2025", &now, &DateFormat::MonthDayYear, &sow),
        Some(ymd(2025, 12, 10))
    );
    // and the same digits under the other convention name other days
    assert_eq!(
        search("10.12.2025", &now, &DateFormat::MonthDayYear, &sow),
        Some(ymd(2025, 10, 12))
    );
}

#[test]
fn impossible_calendar_days_resolve_to_none() {
    let now = ymd(2024, 10, 1);
    let sow = StartDayOfWeek::Monday;
    let dmy = DateFormat::DayMonthYear;

    // day 31 in a 30-day month
    assert_eq!(search("31.4.2025", &now, &dmy, &sow), None);
    assert_eq!(search("31.11.2025", &now, &dmy, &sow), None);
    // day 30 in February
    assert_eq!(search("30.2.2025", &now, &dmy, &sow), None);
    // February 29 exists in leap years only
    assert_eq!(search("29.2.2025", &now, &dmy, &sow), None);
    assert_eq!(search("29.2.2024", &now, &dmy, &sow), Some(ymd(2024, 2, 29)));
    // a whole-month jump that lands on a missing day fails, no clamping
    let end_of_december = ymd(2024, 12, 31);
    assert_eq!(search("in 2 months", &end_of_december, &dmy, &sow), None);
    assert_eq!(search("in 2 months", &ymd(2024, 12, 15), &dmy, &sow), Some(ymd(2025, 2, 15)));
}

#[test]
fn cascade_prefers_keywords_and_more_specific_patterns() {
    let now = ymd(2024, 12, 1);
    let fmt = DateFormat::DayMonthYear;
    let sow = StartDayOfWeek::Monday;

    // keyword beats the numeric date recognizer
    assert_eq!(search("today or 5.12", &now, &fmt, &sow), Some(now));
    // keyword beats the relative-days recognizer
    assert_eq!(search("tomorrow in 3 days", &now, &fmt, &sow), Some(ymd(2024, 12, 2)));
    // a weekday tied to a week count beats the bare weekday
    assert_eq!(
        DateExpression::recognize("monday in 2 weeks", &fmt),
        Some(DateExpression::DayInXWeeks(2, Weekday::Mon))
    );
    // "next monday" beats the bare weekday
    assert_eq!(
        DateExpression::recognize("next monday", &fmt),
        Some(DateExpression::DayInXWeeks(1, Weekday::Mon))
    );
    // a weekday phrase beats a numeric date later in the sentence
    assert_eq!(
        DateExpression::recognize("next monday or 5.12", &fmt),
        Some(DateExpression::DayInXWeeks(1, Weekday::Mon))
    );
}

#[test]
fn engine_is_idempotent() {
    let now = ymd(2024, 12, 1);
    let fmt = DateFormat::DayMonthYear;
    let sow = StartDayOfWeek::Monday;

    for text in [
        "today",
        "tomorrow in 3 days",
        "Do something on tuesday next week",
        "10.12.2025",
        "nothing to see here",
    ] {
        let first = search(text, &now, &fmt, &sow);
        let second = search(text, &now, &fmt, &sow);
        assert_eq!(first, second, "input {:?}", text);
    }
}

#[test]
fn no_recognizer_matches_plain_text() {
    let now = ymd(2024, 12, 1);
    let fmt = DateFormat::DayMonthYear;
    let sow = StartDayOfWeek::Monday;

    assert_eq!(search("", &now, &fmt, &sow), None);
    assert_eq!(search("nothing datelike at all", &now, &fmt, &sow), None);
    assert_eq!(search("1234567", &now, &fmt, &sow), None);
}

#[test]
fn weekday_names_round_trip() {
    let all = [
        Weekday::Mon,
        Weekday::Tue,
        Weekday::Wed,
        Weekday::Thu,
        Weekday::Fri,
        Weekday::Sat,
        Weekday::Sun,
    ];
    for w in all {
        let name = weekday_to_english(&w);
        assert_eq!(Weekday::recognize(name, &DateFormat::DayMonthYear), Some(w));
    }
    assert_eq!(Weekday::recognize("Mon", &DateFormat::DayMonthYear), Some(Weekday::Mon));
    assert_eq!(Weekday::recognize("mondays", &DateFormat::DayMonthYear), None);
}

#[test]
fn month_names_are_recognized_in_sentences() {
    let fmt = DateFormat::DayMonthYear;
    assert_eq!(Month::recognize("see you in january", &fmt), Some(Month::January));
    assert_eq!(Month::recognize("Jun", &fmt), Some(Month::June));
    assert_eq!(Month::recognize("nothing here", &fmt), None);
}

#[test]
fn calendar_construction_checks_days() {
    assert!(Date::from_ymd_opt(2024, 2, 29).is_some());
    assert!(Date::from_ymd_opt(2023, 2, 29).is_none());
    assert!(Date::from_ymd_opt(2024, 13, 1).is_none());
    assert!(Date::from_ymd_opt(2024, 0, 1).is_none());
    assert!(Date::from_ymd_opt(2024, 1, 0).is_none());
    assert!(Date::from_ymd_opt(10000, 1, 1).is_none());
    assert!(Date::from_ymd_opt(-1, 1, 1).is_none());
}

#[test]
fn weekdays_follow_the_calendar() {
    assert_eq!(ymd(2024, 12, 1).weekday(), Weekday::Sun);
    assert_eq!(ymd(2024, 12, 2).weekday(), Weekday::Mon);
    assert_eq!(ymd(1970, 1, 1).weekday(), Weekday::Thu);
    assert_eq!(ymd(2000, 1, 1).weekday(), Weekday::Sat);
    assert_eq!(ymd(2024, 2, 29).weekday(), Weekday::Thu);
}

#[test]
fn day_walks_cross_month_and_year_bounds() {
    assert_eq!(ymd(2024, 12, 31).plus_days(1), Some(ymd(2025, 1, 1)));
    assert_eq!(ymd(2024, 3, 1).plus_days(-1), Some(ymd(2024, 2, 29)));
    assert_eq!(ymd(2023, 3, 1).plus_days(-1), Some(ymd(2023, 2, 28)));
    assert_eq!(ymd(9999, 12, 31).plus_days(1), None);
    assert_eq!(ymd(0, 1, 1).plus_days(-1), None);
}

#[test]
fn month_walks_keep_the_day() {
    assert_eq!(ymd(2024, 11, 15).plus_months(3), Some(ymd(2025, 2, 15)));
    assert_eq!(ymd(2024, 1, 15).plus_months(-2), Some(ymd(2023, 11, 15)));
    assert_eq!(ymd(2024, 1, 31).plus_months(1), None);
    assert_eq!(ymd(2024, 12, 1).plus_months(-30000), None);
}
