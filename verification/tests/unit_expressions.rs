use date_time_parser_multi_language::language::en::en_date_parser::weekday_to_english;
use date_time_parser_multi_language::language::en::expressions::parse_date_in_week::parse_date_in_week;
use date_time_parser_multi_language::language::en::expressions::parse_date_in_x_weeks::parse_in_x_weeks;
use date_time_parser_multi_language::language::en::expressions::parse_day_alone::parse_day_alone;
use date_time_parser_multi_language::language::en::expressions::parse_day_in_explicit_weeks::parse_day_in_explicit_week;
use date_time_parser_multi_language::language::en::expressions::parse_day_in_relative_week::parse_day_in_relative_week;
use date_time_parser_multi_language::language::en::expressions::parse_in_n_months::parse_in_n_months;
use date_time_parser_multi_language::language::en::expressions::parse_keywords::parse_keywords;
use date_time_parser_multi_language::language::en::expressions::parse_month_date::parse_month_date;
use date_time_parser_multi_language::language::en::expressions::parse_relative_date::parse_relative_day;
use date_time_parser_multi_language::language::en::expressions::parse_relative_keyword_week::parse_keyword_relative_week;
use date_time_parser_multi_language::language::en::expressions::parse_relative_month::parse_relative_month;
use date_time_parser_multi_language::language::shared::{DateExpression, Month};
use date_time_parser_multi_language::{DateFormat, Weekday};

fn get_weekday_vector() -> Vec<Weekday> {
    vec![
        Weekday::Mon,
        Weekday::Tue,
        Weekday::Wed,
        Weekday::Thu,
        Weekday::Fri,
        Weekday::Sat,
        Weekday::Sun,
    ]
}

/// The short display form of a weekday, as inputs often carry it.
fn short_name(w: &Weekday) -> &'static str {
    match w {
        Weekday::Mon => "Mon",
        Weekday::Tue => "Tue",
        Weekday::Wed => "Wed",
        Weekday::Thu => "Thu",
        Weekday::Fri => "Fri",
        Weekday::Sat => "Sat",
        Weekday::Sun => "Sun",
    }
}

#[test]
fn day_keywords() {
    fn assert_in_n_days(text: &str, n: i32) {
        assert_eq!(parse_keywords(text), Some(DateExpression::InXDays(n)))
    }
    assert_in_n_days("tomorrow", 1);
    assert_in_n_days("yesterday", -1);
    assert_in_n_days("today", 0);
}

#[test]
fn parse_day_in_relative_week_relative_week_day_is_parsed() {
    let mut cases: Vec<(String, i32, Weekday)> = Vec::new();

    for weekday in get_weekday_vector() {
        for prep_pair in [("next", 1), ("this", 0), ("last", -1)] {
            let (prep, in_weeks) = prep_pair;
            cases.push((format!("{} week {}", prep, short_name(&weekday)), in_weeks, weekday));
            cases.push((
                format!("{} week {}", prep, weekday_to_english(&weekday)),
                in_weeks,
                weekday,
            ));
            cases.push((format!("{} week on {}", prep, short_name(&weekday)), in_weeks, weekday));
            cases.push((
                format!("{} week on {}", prep, weekday_to_english(&weekday)),
                in_weeks,
                weekday,
            ));
        }
    }

    for (input, in_weeks, weekday) in cases {
        assert_day_in_relative_week(input.as_str(), in_weeks, weekday);
    }
}

#[test]
fn parse_day_in_relative_week_day_in_relative_week_is_parsed() {
    let mut cases: Vec<(String, i32, Weekday)> = Vec::new();

    for weekday in get_weekday_vector() {
        for prep_pair in [("next", 1), ("this", 0), ("last", -1)] {
            let (prep, in_weeks) = prep_pair;
            cases.push((format!("{} {} week", short_name(&weekday), prep), in_weeks, weekday));
            cases.push((
                format!("{} {} week", weekday_to_english(&weekday), prep),
                in_weeks,
                weekday,
            ));
        }
    }

    for (input, in_weeks, weekday) in cases {
        assert_day_in_relative_week(input.as_str(), in_weeks, weekday);
    }
}

fn assert_day_in_relative_week(text: &str, in_weeks: i32, weekday: Weekday) {
    assert_eq!(
        parse_day_in_relative_week(text),
        Some(DateExpression::DayInXWeeks(in_weeks, weekday)),
        "Failed to parse {:?} from {}",
        Some(DateExpression::DayInXWeeks(in_weeks, weekday)),
        text
    )
}

#[test]
fn parse_day_in_explicit_weeks_relative_week_day_is_parsed() {
    let mut cases: Vec<(String, i32, Weekday)> = Vec::new();

    for weekday in get_weekday_vector() {
        cases.push((format!("in three weeks {}", short_name(&weekday)), 3, weekday));
        cases.push((format!("in three weeks {}", weekday_to_english(&weekday)), 3, weekday));
        cases.push((format!("in three weeks on {}", short_name(&weekday)), 3, weekday));
        cases.push((format!("in three weeks on {}", weekday_to_english(&weekday)), 3, weekday));
    }

    for (input, in_weeks, weekday) in cases {
        assert_day_in_explicit_week(input.as_str(), in_weeks, weekday);
    }
}

#[test]
fn parse_day_in_explicit_weeks_day_in_relative_week_is_parsed() {
    let mut cases: Vec<(String, i32, Weekday)> = Vec::new();

    for weekday in get_weekday_vector() {
        cases.push((format!("{} in three weeks", short_name(&weekday)), 3, weekday));
        cases.push((format!("{} in three weeks", weekday_to_english(&weekday)), 3, weekday));
        cases.push((format!("{} in 3 weeks", weekday_to_english(&weekday)), 3, weekday));
        cases.push((format!("{} in 3 weeks", weekday_to_english(&weekday)), 3, weekday));
    }

    for (input, in_weeks, weekday) in cases {
        assert_day_in_explicit_week(input.as_str(), in_weeks, weekday);
    }
}

fn assert_day_in_explicit_week(text: &str, in_weeks: i32, weekday: Weekday) {
    assert_eq!(
        parse_day_in_explicit_week(text),
        Some(DateExpression::DayInXWeeks(in_weeks, weekday)),
        "Failed to parse {:?} from {}",
        Some(DateExpression::DayInXWeeks(in_weeks, weekday)),
        text
    )
}

#[test]
fn parse_date_in_week_day_in_n_weeks() {
    fn assert_day_in_n_weeks(text: &str, day: Weekday, relative_week: i32) {
        assert_eq!(
            parse_date_in_week(text, &DateFormat::DayMonthYear),
            Some(DateExpression::DayInXWeeks(relative_week, day))
        )
    }
    assert_day_in_n_weeks("next thursday", Weekday::Thu, 1);
    assert_day_in_n_weeks("last wed", Weekday::Wed, -1);
    assert_day_in_n_weeks("this monday", Weekday::Mon, 0);
    assert_day_in_n_weeks("next friday", Weekday::Fri, 1);
}

#[test]
fn recognices_days() {
    fn assert_day(input: &str, expected_day: Weekday) {
        assert_eq!(
            parse_day_alone(input),
            Some(DateExpression::DayInXWeeks(0, expected_day)),
            "expected {} to be {:?}",
            input,
            expected_day
        );
    }
    assert_day("remind me on monday to do stuff", Weekday::Mon);
    assert_day("remind me on monday to do stuff", Weekday::Mon);
    assert_day("remind me on tuesday to do stuff", Weekday::Tue);
    assert_day("remind me on tue to do stuff", Weekday::Tue);
    assert_day("remind me on wednesday to do stuff", Weekday::Wed);
    assert_day("remind me on wed to do stuff", Weekday::Wed);
    assert_day("remind me on thursday to do stuff", Weekday::Thu);
    assert_day("remind me on thu to do stuff", Weekday::Thu);
    assert_day("remind me on friday to do stuff", Weekday::Fri);
    assert_day("remind me on fri to do stuff", Weekday::Fri);
    assert_day("remind me on saturday to do stuff", Weekday::Sat);
    assert_day("remind me on sat to do stuff", Weekday::Sat);
    assert_day("remind me on sunday to do stuff", Weekday::Sun);
    assert_day("remind me on sun to do stuff", Weekday::Sun);
}

#[test]
fn parse_relative_keywork_week_day_in_n_weeks() {
    fn assert_day_in_n_weeks(text: &str, relative_week: i32) {
        assert_eq!(
            parse_keyword_relative_week(text, &DateFormat::DayMonthYear),
            Some(DateExpression::InXWeeks(relative_week))
        )
    }
    assert_day_in_n_weeks("do something next week", 1);
    assert_day_in_n_weeks("do something last week", -1);
    assert_day_in_n_weeks("do something this week", 0);
}

#[test]
fn parse_date_in_x_weeks_expression_with_digit_is_found() {
    fn assert_in_n_weeks(text: &str, n: i32) {
        assert_eq!(parse_in_x_weeks(text), Some(DateExpression::InXWeeks(n)))
    }
    assert_in_n_weeks("Lunch in 6 weeks", 6);
    assert_in_n_weeks("Lunch in 1 week", 1);
    assert_in_n_weeks("Lunch in 300 weeks", 300);
}

#[test]
fn parse_date_in_x_weeks_test_parse_date_expression() {
    let cases = vec![
        ("in one week", Some(DateExpression::InXWeeks(1))),
        ("in One week", Some(DateExpression::InXWeeks(1))),
        ("in ONE weeks", Some(DateExpression::InXWeeks(1))),
        ("in two weeks", Some(DateExpression::InXWeeks(2))),
        ("in Two weeks", Some(DateExpression::InXWeeks(2))),
        ("in TWO weeks", Some(DateExpression::InXWeeks(2))),
        ("in three weeks", Some(DateExpression::InXWeeks(3))),
        ("in four weeks", Some(DateExpression::InXWeeks(4))),
        ("in five weeks", Some(DateExpression::InXWeeks(5))),
        ("in six weeks", Some(DateExpression::InXWeeks(6))),
        ("in seven weeks", Some(DateExpression::InXWeeks(7))),
        ("in eight weeks", Some(DateExpression::InXWeeks(8))),
        ("in nine weeks", Some(DateExpression::InXWeeks(9))),
        ("in ten weeks", Some(DateExpression::InXWeeks(10))),
        ("in eleven weeks", Some(DateExpression::InXWeeks(11))),
        ("in twelve weeks", Some(DateExpression::InXWeeks(12))),
    ];

    for (input, expected) in cases {
        let result = parse_in_x_weeks(input);
        assert_eq!(result, expected, "Failed for input: {}", input);
    }
}

#[test]
fn parse_date_in_x_weeks_test_invalid_cases() {
    let invalid_cases = vec![
        "in zero weeks",
        "in thirteen weeks",
        "in weeks",
        "in one",
        "in twelve",
        "in twelve apples",
    ];

    for input in invalid_cases {
        let result = parse_in_x_weeks(input);
        assert_eq!(result, None, "Expected None for input: {}", input);
    }
}

#[test]
fn parse_relative_date_expression_with_digit_is_found() {
    fn assert_in_n_days(text: &str, n: i32) {
        assert_eq!(parse_relative_day(text), Some(DateExpression::InXDays(n)))
    }
    assert_in_n_days("Lunch in 6 days", 6);
    assert_in_n_days("Lunch in 1 day", 1);
    assert_in_n_days("Lunch in 300 days", 300);
}

#[test]
fn parse_relative_date_test_parse_date_expression() {
    let cases = vec![
        ("in one days", Some(DateExpression::InXDays(1))),
        ("in One days", Some(DateExpression::InXDays(1))),
        ("in ONE days", Some(DateExpression::InXDays(1))),
        ("in two days", Some(DateExpression::InXDays(2))),
        ("in Two days", Some(DateExpression::InXDays(2))),
        ("in TWO days", Some(DateExpression::InXDays(2))),
        ("in three days", Some(DateExpression::InXDays(3))),
        ("in four days", Some(DateExpression::InXDays(4))),
        ("in five days", Some(DateExpression::InXDays(5))),
        ("in six days", Some(DateExpression::InXDays(6))),
        ("in seven days", Some(DateExpression::InXDays(7))),
        ("in eight days", Some(DateExpression::InXDays(8))),
        ("in nine days", Some(DateExpression::InXDays(9))),
        ("in ten days", Some(DateExpression::InXDays(10))),
        ("in eleven days", Some(DateExpression::InXDays(11))),
        ("in twelve days", Some(DateExpression::InXDays(12))),
    ];

    for (input, expected) in cases {
        let result = parse_relative_day(input);
        assert_eq!(result, expected, "Failed for input: {}", input);
    }
}

#[test]
fn parse_relative_date_test_invalid_cases() {
    let invalid_cases = vec![
        "in zero days",
        "in thirteen days",
        "in days",
        "in one",
        "in twelve",
        "in twelve apples",
    ];

    for input in invalid_cases {
        let result = parse_relative_day(input);
        assert_eq!(result, None, "Expected None for input: {}", input);
    }
}

#[test]
fn relative_month_tests() {
    fn assert_relative_month(text: &str, expected_n: i32) {
        assert_eq!(parse_in_n_months(text), Some(DateExpression::InXMonths(expected_n)))
    }
    assert_relative_month("in 4 months", 4);
    assert_relative_month("in 1 month", 1);
}

#[test]
fn next_month_tests() {
    fn assert_relative_month(text: &str, expected_n: i32) {
        assert_eq!(parse_relative_month(text), Some(DateExpression::InXMonths(expected_n)))
    }
    assert_relative_month("next month", 1);
    assert_relative_month("this month", 0);
    assert_relative_month("last month", -1);
}

#[test]
fn absolute_english_date_tests_month_day() {
    assert_recognize_in_month("Jun 15", Month::June, 15);
    assert_recognize_in_month("June 5th", Month::June, 5);
    assert_recognize_in_month("June 5", Month::June, 5);

    assert_recognize_in_month("Jan 15", Month::January, 15);
    assert_recognize_in_month("February 5th", Month::February, 5);
    assert_recognize_in_month("May 25", Month::May, 25);
}

#[test]
fn absolute_english_date_tests_day_month() {
    assert_recognize_in_month("15 Jun ", Month::June, 15);
    assert_recognize_in_month("5th June ", Month::June, 5);
    assert_recognize_in_month("5 June ", Month::June, 5);

    assert_recognize_in_month("15 Jan", Month::January, 15);
    assert_recognize_in_month("5th February", Month::February, 5);
    assert_recognize_in_month("5th of February", Month::February, 5);
    assert_recognize_in_month("25 May", Month::May, 25);
}

fn assert_recognize_in_month(text: &str, expected_m: Month, expected_d: u32) {
    let date_expression = DateExpression::DayInMonth(expected_m, expected_d);

    assert_eq!(
        parse_month_date(text, &DateFormat::DayMonthYear),
        Some(date_expression.clone()),
        "Failed to parse {} to {:?}",
        text,
        date_expression
    )
}
