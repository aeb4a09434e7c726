use chrono::Datelike;
use chrono::Timelike;
use typeql_parser::error::{Construct, Error};
use typeql_parser::parser::literal::{
    attach_fraction, decode_var, found_or_error, get_comparator, get_count, get_date,
    get_date_time, get_long, get_regex, get_string, get_var, is_var, parse_date_time,
    parse_nanoseconds, shape_of_date_time, unescape_regex, unquote_string, DateTimeShape,
};
use typeql_parser::pattern::{Comparator, UnboundVariable};
use typeql_parser::temporal::{Date, DateTime};
use typeql_parser::text::{chars_of, count_char, find_char, parse_digits, text_of};

fn illegal(text: &str) -> Error {
    Error::IllegalGrammar { text: String::from(text) }
}

fn date_time(
    year: i32,
    month: u32,
    day: u32,
    hour: u32,
    minute: u32,
    second: u32,
    nanosecond: u32,
) -> DateTime {
    DateTime { year, month, day, hour, minute, second, nanosecond }
}

#[test]
fn string_token_loses_its_quotes() {
    assert_eq!(unquote_string("\"hello\""), "hello");
    assert_eq!(get_string("\"hello\""), Ok(String::from("hello")));
    assert_eq!(get_string("'it''s'"), Ok(String::from("it''s")));
}

#[test]
fn string_token_of_two_quotes_is_empty() {
    assert_eq!(unquote_string("\"\""), "");
    assert_eq!(get_string("\"\""), Ok(String::new()));
}

#[test]
fn string_token_keeps_characters_of_several_bytes() {
    assert_eq!(unquote_string("\"h\u{e9}llo \u{4e16}\u{754c}\""), "h\u{e9}llo \u{4e16}\u{754c}");
    assert_eq!(unquote_string("\u{ab}x\u{bb}"), "x");
}

#[test]
fn string_token_too_short_is_reported() {
    assert_eq!(get_string(""), Err(illegal("")));
    assert_eq!(get_string("\""), Err(illegal("\"")));
    assert_eq!(get_regex("/"), Err(illegal("/")));
}

#[test]
fn regex_escaped_slashes_become_slashes() {
    assert_eq!(unescape_regex("a\\/b"), "a/b");
    assert_eq!(unescape_regex("\\/\\/"), "//");
    assert_eq!(unescape_regex("^(http|https):\\/\\/.*$"), "^(http|https)://.*$");
}

#[test]
fn regex_other_characters_are_not_altered() {
    assert_eq!(unescape_regex(""), "");
    assert_eq!(unescape_regex("abc"), "abc");
    assert_eq!(unescape_regex("a\\nb"), "a\\nb");
    assert_eq!(unescape_regex("a\\\\b"), "a\\\\b");
    assert_eq!(unescape_regex("a/b"), "a/b");
    assert_eq!(unescape_regex("tail\\"), "tail\\");
    assert_eq!(unescape_regex("\\\\/"), "\\/");
}

#[test]
fn regex_token_is_unquoted_then_unescaped() {
    assert_eq!(get_regex("\"a\\/b\""), Ok(String::from("a/b")));
    assert_eq!(get_regex("\"\\/\""), Ok(String::from("/")));
    assert_eq!(get_regex("\"[a-z]+\""), Ok(String::from("[a-z]+")));
}

#[test]
fn long_decodes_decimal_text() {
    assert_eq!(get_long("0"), Ok(0));
    assert_eq!(get_long("42"), Ok(42));
    assert_eq!(get_long("-42"), Ok(-42));
    assert_eq!(get_long("+42"), Ok(42));
    assert_eq!(get_long("-0"), Ok(0));
    assert_eq!(get_long("0007"), Ok(7));
    assert_eq!(get_long("9223372036854775807"), Ok(i64::MAX));
    assert_eq!(get_long("-9223372036854775808"), Ok(i64::MIN));
    assert_eq!(get_long("00000000000000000000000000000012"), Ok(12));
}

#[test]
fn long_malformed_text_is_reported_with_that_text() {
    let malformed = [
        "",
        "+",
        "-",
        "--1",
        "+-1",
        "1-",
        " 1",
        "1 ",
        "1.0",
        "1e3",
        "abc",
        "12a",
        "0x10",
        "1_000",
        "\u{663}",
        "9223372036854775808",
        "-9223372036854775809",
        "99999999999999999999999999",
    ];
    for text in malformed {
        assert_eq!(get_long(text), Err(illegal(text)));
    }
}

#[test]
fn long_agrees_with_the_standard_parser() {
    let texts = [
        "0", "1", "-1", "+1", "10", "123456789", "-123456789", "9223372036854775807",
        "9223372036854775808", "-9223372036854775808", "-9223372036854775809", "", "+", "-", "a",
        "1a", "a1", "++1", "0000", "-0000", "18446744073709551615", "18446744073709551616",
        "1 2", "٣", "１２", "12\n",
    ];
    for text in texts {
        let expected: Result<i64, Error> = match text.parse::<i64>() {
            Ok(number) => Ok(number),
            Err(_) => Err(illegal(text)),
        };
        assert_eq!(get_long(text), expected);
    }
    let mut number: i64 = -5000;
    while number <= 5000 {
        assert_eq!(get_long(&format!("{}", number)), Ok(number));
        number += 37;
    }
}

#[test]
fn count_is_a_long_that_is_not_negative() {
    assert_eq!(get_count("10"), Ok(10));
    assert_eq!(get_count("0"), Ok(0));
    assert_eq!(get_count("+5"), Ok(5));
    assert_eq!(get_count("9223372036854775807"), Ok(9223372036854775807));
    assert_eq!(get_count("-1"), Err(illegal("-1")));
    assert_eq!(get_count("9223372036854775808"), Err(illegal("9223372036854775808")));
    assert_eq!(get_count("ten"), Err(illegal("ten")));
}

#[test]
fn digits_are_read_up_to_a_limit() {
    let chars = chars_of("x255");
    assert_eq!(parse_digits(&chars, 1, 255), Some(255));
    assert_eq!(parse_digits(&chars, 1, 254), None);
    assert_eq!(parse_digits(&chars, 0, 1000), None);
    assert_eq!(parse_digits(&chars, 4, 1000), None);
    assert_eq!(parse_digits(&chars, 3, 0), None);
    assert_eq!(parse_digits(&chars_of("0"), 0, 0), Some(0));
    assert_eq!(parse_digits(&chars_of("18446744073709551615"), 0, u64::MAX), Some(u64::MAX));
    assert_eq!(parse_digits(&chars_of("18446744073709551616"), 0, u64::MAX), None);
}

#[test]
fn characters_are_counted_found_and_joined() {
    let chars = chars_of("a:b:c");
    assert_eq!(chars, vec!['a', ':', 'b', ':', 'c']);
    assert_eq!(count_char(&chars, ':'), 2);
    assert_eq!(count_char(&chars, 'x'), 0);
    assert_eq!(find_char(&chars, ':'), 1);
    assert_eq!(find_char(&chars, 'c'), 4);
    assert_eq!(find_char(&chars, 'x'), 5);
    assert_eq!(text_of(&chars, 2, 5), "b:c");
    assert_eq!(text_of(&chars, 3, 3), "");
}

#[test]
fn date_decodes_year_month_day() {
    assert_eq!(get_date("2023-01-01"), Ok(Date { year: 2023, month: 1, day: 1 }));
    assert_eq!(get_date("1999-12-31"), Ok(Date { year: 1999, month: 12, day: 31 }));
    assert_eq!(get_date("2024-02-29"), Ok(Date { year: 2024, month: 2, day: 29 }));
}

#[test]
fn date_malformed_text_is_reported_with_that_text() {
    let malformed =
        ["", "2023", "2023-01", "2023-13-01", "2023-02-30", "2023/01/01", "yesterday", "2023-01-01T10:00"];
    for text in malformed {
        assert_eq!(get_date(text), Err(illegal(text)));
    }
}

#[test]
fn date_agrees_with_chrono() {
    let texts = [
        "2023-01-01", "2023-12-31", "2023-02-29", "2024-02-29", "0001-01-01", "9999-12-31",
        "2023-00-10", "2023-10-00", "2023-1-1", "23-01-01", "", "x", "2023-01-01 ", " 2023-01-01",
        "+2023-01-01", "-2023-01-01", "12345-01-01",
    ];
    for text in texts {
        let expected = match chrono::NaiveDate::parse_from_str(text, "%Y-%m-%d") {
            Ok(date) => Ok(Date { year: date.year(), month: date.month(), day: date.day() }),
            Err(_) => Err(illegal(text)),
        };
        assert_eq!(get_date(text), expected);
    }
}

#[test]
fn date_time_without_seconds() {
    assert_eq!(get_date_time("2023-01-01T10:00"), Ok(date_time(2023, 1, 1, 10, 0, 0, 0)));
    assert_eq!(parse_date_time("2023-01-01T10:00"), Some(date_time(2023, 1, 1, 10, 0, 0, 0)));
}

#[test]
fn date_time_with_seconds() {
    assert_eq!(get_date_time("2023-01-01T10:00:05"), Ok(date_time(2023, 1, 1, 10, 0, 5, 0)));
}

#[test]
fn date_time_with_fraction() {
    assert_eq!(
        get_date_time("2023-01-01T10:00:05.123"),
        Ok(date_time(2023, 1, 1, 10, 0, 5, 123_000_000))
    );
    assert_eq!(
        get_date_time("2023-01-01T10:00:05.000000001"),
        Ok(date_time(2023, 1, 1, 10, 0, 5, 1))
    );
    assert_eq!(
        get_date_time("2023-01-01T10:00:05.999999999"),
        Ok(date_time(2023, 1, 1, 10, 0, 5, 999_999_999))
    );
    assert_eq!(get_date_time("2023-01-01T10:00:05.5"), Ok(date_time(2023, 1, 1, 10, 0, 5, 500_000_000)));
    assert_eq!(get_date_time("2023-01-01T10:00:05."), Ok(date_time(2023, 1, 1, 10, 0, 5, 0)));
}

#[test]
fn date_time_fraction_replaces_a_leap_second() {
    assert_eq!(
        get_date_time("2023-06-30T23:59:60"),
        Ok(date_time(2023, 6, 30, 23, 59, 59, 1_000_000_000))
    );
    assert_eq!(
        get_date_time("2023-06-30T23:59:60.25"),
        Ok(date_time(2023, 6, 30, 23, 59, 59, 250_000_000))
    );
}

#[test]
fn date_time_malformed_text_is_reported_with_the_whole_text() {
    let malformed = [
        "",
        "2023-01-01",
        "2023-01-01T10",
        "2023-01-01T25:00",
        "2023-01-01T10:61",
        "2023-01-01T10:00:61",
        "2023-13-01T10:00:00",
        "2023-01-01T10:00:05.1234567890",
        "2023-01-01T10:00:05.12x",
        "2023-01-01T10:00:05.-12",
        "2023-01-01T10:00:05.1.2",
        "2023-01-01T10:00.5",
        "2023-01-01T10:00:05:06",
        "2023-01-01 10:00:05",
        "10:00:05",
    ];
    for text in malformed {
        assert_eq!(get_date_time(text), Err(illegal(text)));
        assert_eq!(parse_date_time(text), None);
    }
}

#[test]
fn date_time_agrees_with_chrono() {
    let texts = [
        ("2023-01-01T10:00", "%Y-%m-%dT%H:%M"),
        ("2023-01-01T00:00", "%Y-%m-%dT%H:%M"),
        ("2023-01-01T23:59", "%Y-%m-%dT%H:%M"),
        ("2023-01-01T24:00", "%Y-%m-%dT%H:%M"),
        ("2023-01-01T10:00:05", "%Y-%m-%dT%H:%M:%S"),
        ("2023-12-31T23:59:59", "%Y-%m-%dT%H:%M:%S"),
        ("2023-12-31T23:59:60", "%Y-%m-%dT%H:%M:%S"),
        ("2023-02-29T10:00:05", "%Y-%m-%dT%H:%M:%S"),
        ("2023-1-1T1:2:3", "%Y-%m-%dT%H:%M:%S"),
        ("2023-01-01t10:00:05", "%Y-%m-%dT%H:%M:%S"),
    ];
    for (text, format) in texts {
        let expected = match chrono::NaiveDateTime::parse_from_str(text, format) {
            Ok(t) => Ok(date_time(
                t.year(),
                t.month(),
                t.day(),
                t.hour(),
                t.minute(),
                t.second(),
                t.nanosecond(),
            )),
            Err(_) => Err(illegal(text)),
        };
        assert_eq!(get_date_time(text), expected);
    }
}

#[test]
fn nanoseconds_pad_the_fraction_to_nine_digits() {
    assert_eq!(parse_nanoseconds(&chars_of("123"), 0), Some(123_000_000));
    assert_eq!(parse_nanoseconds(&chars_of("x.000000001"), 2), Some(1));
    assert_eq!(parse_nanoseconds(&chars_of(""), 0), Some(0));
    assert_eq!(parse_nanoseconds(&chars_of("+5"), 0), Some(50_000_000));
    assert_eq!(parse_nanoseconds(&chars_of("+"), 0), Some(0));
    assert_eq!(parse_nanoseconds(&chars_of("1234567890"), 0), None);
    assert_eq!(parse_nanoseconds(&chars_of("-5"), 0), None);
    assert_eq!(parse_nanoseconds(&chars_of("5+"), 0), None);
    assert_eq!(parse_nanoseconds(&chars_of("abc"), 3), Some(0));
}

#[test]
fn nanoseconds_agree_with_the_standard_parser() {
    let fractions = ["", "0", "1", "12", "123", "000", "999999999", "+1", "+", "-1", "1a", " 1", "1 "];
    for fraction in fractions {
        let padded = format!("{}{}", fraction, "0".repeat(9 - fraction.len()));
        let expected: Option<u32> = padded.parse().ok();
        assert_eq!(parse_nanoseconds(&chars_of(fraction), 0), expected);
    }
}

#[test]
fn temporal_values_have_the_fields_they_are_given() {
    let date = Date { year: 2020, month: 5, day: 17 };
    assert_eq!(date.midnight(), date_time(2020, 5, 17, 0, 0, 0, 0));
    let instant = date_time(2020, 5, 17, 8, 9, 10, 11);
    assert_eq!(instant.date(), date);
    assert_eq!(instant.with_nanosecond(0), Some(date_time(2020, 5, 17, 8, 9, 10, 0)));
    assert_eq!(
        instant.with_nanosecond(1_999_999_999),
        Some(date_time(2020, 5, 17, 8, 9, 10, 1_999_999_999))
    );
    assert_eq!(instant.with_nanosecond(2_000_000_000), None);
    assert_eq!(instant.with_nanosecond(u32::MAX), None);
}

#[test]
fn variable_with_a_name() {
    assert_eq!(get_var("$x"), UnboundVariable::Named(String::from("x")));
    assert_eq!(get_var("$person-1"), UnboundVariable::Named(String::from("person-1")));
    assert_eq!(get_var("$__"), UnboundVariable::Named(String::from("__")));
    assert_eq!(get_var("$_x"), UnboundVariable::Named(String::from("_x")));
    assert_eq!(get_var("$\u{e9}"), UnboundVariable::Named(String::from("\u{e9}")));
}

#[test]
fn variable_underscore_is_anonymous() {
    assert_eq!(get_var("$_"), UnboundVariable::Anonymous);
    assert_eq!(decode_var("$_"), Ok(UnboundVariable::Anonymous));
}

#[test]
fn variable_token_shape() {
    assert!(is_var("$x"));
    assert!(is_var("$_"));
    assert!(!is_var("$"));
    assert!(!is_var(""));
    assert!(!is_var("x"));
    assert!(!is_var("x$y"));
    assert_eq!(decode_var("$x"), Ok(UnboundVariable::Named(String::from("x"))));
    assert_eq!(decode_var("$"), Err(illegal("$")));
    assert_eq!(decode_var(""), Err(illegal("")));
    assert_eq!(decode_var("name"), Err(illegal("name")));
}

#[test]
fn comparator_of_each_operator() {
    assert_eq!(get_comparator("="), Ok(Comparator::Eq));
    assert_eq!(get_comparator("!="), Ok(Comparator::Neq));
    assert_eq!(get_comparator(">"), Ok(Comparator::Gt));
    assert_eq!(get_comparator(">="), Ok(Comparator::Gte));
    assert_eq!(get_comparator("<"), Ok(Comparator::Lt));
    assert_eq!(get_comparator("<="), Ok(Comparator::Lte));
    for text in ["", "==", "=>", "=<", "<>", "!", "contains", "= ", "<=="] {
        assert_eq!(get_comparator(text), Err(illegal(text)));
    }
}

#[test]
fn decoding_twice_gives_the_same_value() {
    for text in ["42", "-7", "x", "2023-01-01", "2023-01-01T10:00:05.123", "$x", "$_", "\"a\\/b\"", ">="]
    {
        assert_eq!(get_long(text), get_long(text));
        assert_eq!(get_count(text), get_count(text));
        assert_eq!(get_date(text), get_date(text));
        assert_eq!(get_date_time(text), get_date_time(text));
        assert_eq!(decode_var(text), decode_var(text));
        assert_eq!(get_string(text), get_string(text));
        assert_eq!(get_regex(text), get_regex(text));
        assert_eq!(get_comparator(text), get_comparator(text));
    }
}

#[test]
fn messages_name_the_text_or_the_construct() {
    assert_eq!(illegal("1x").message(), "Illegal grammar: '1x'");
    assert_eq!(illegal("").message(), "Illegal grammar: ''");
    assert_eq!(
        Error::Unsupported { construct: Construct::Negation }.message(),
        "Unsupported construct: pattern negation"
    );
    assert_eq!(Error::unsupported(Construct::Define).message(), "Unsupported construct: define query");
    assert_eq!(Error::TooDeeplyNested.message(), "Input too deeply nested");
    assert_eq!(Error::illegal_grammar("a:b:c"), illegal("a:b:c"));
    assert_eq!(Construct::LongValue.name(), "long value");
}

#[test]
fn date_time_shape_goes_by_colons_and_dots() {
    assert_eq!(shape_of_date_time(&chars_of("2023-01-01T10:00")), DateTimeShape::Minutes);
    assert_eq!(shape_of_date_time(&chars_of("2023-01-01T10:00:05")), DateTimeShape::Seconds);
    assert_eq!(shape_of_date_time(&chars_of("2023-01-01T10:00:05.123")), DateTimeShape::Fraction(19));
    assert_eq!(shape_of_date_time(&chars_of("")), DateTimeShape::Minutes);
    assert_eq!(shape_of_date_time(&chars_of("10.5")), DateTimeShape::Minutes);
    assert_eq!(shape_of_date_time(&chars_of("a:b:c:d.e")), DateTimeShape::Minutes);
    assert_eq!(shape_of_date_time(&chars_of("::")), DateTimeShape::Seconds);
    assert_eq!(shape_of_date_time(&chars_of("1.2:3:4.5")), DateTimeShape::Seconds);
    assert_eq!(shape_of_date_time(&chars_of(".::")), DateTimeShape::Fraction(0));
    assert_eq!(shape_of_date_time(&chars_of("::.")), DateTimeShape::Fraction(2));
}

#[test]
fn fraction_replaces_the_nanoseconds() {
    let to_the_second = date_time(2023, 1, 1, 10, 0, 5, 0);
    assert_eq!(
        attach_fraction(Some(to_the_second), &chars_of("x.123"), 2),
        Some(date_time(2023, 1, 1, 10, 0, 5, 123_000_000))
    );
    assert_eq!(
        attach_fraction(Some(date_time(2023, 6, 30, 23, 59, 59, 1_000_000_000)), &chars_of("5"), 0),
        Some(date_time(2023, 6, 30, 23, 59, 59, 500_000_000))
    );
    assert_eq!(attach_fraction(Some(to_the_second), &chars_of(""), 0), Some(to_the_second));
    assert_eq!(attach_fraction(Some(to_the_second), &chars_of("12a"), 0), None);
    assert_eq!(attach_fraction(Some(to_the_second), &chars_of("1234567890"), 0), None);
    assert_eq!(attach_fraction(None, &chars_of("123"), 0), None);
}

#[test]
fn nothing_found_is_reported_with_the_text() {
    assert_eq!(found_or_error(Some(7u8), "seven"), Ok(7));
    assert_eq!(found_or_error(None::<u8>, "seven"), Err(illegal("seven")));
    let date = Date { year: 2023, month: 1, day: 1 };
    assert_eq!(found_or_error(Some(date), "2023-01-01"), Ok(date));
}
