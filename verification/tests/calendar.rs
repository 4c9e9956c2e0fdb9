use fypm::calendar::{date_on_or_before, date_string, following_day, is_last_day, is_sunday, next_occurrence, parse_date, parse_rfc3339_date, CalDate};

fn d(year: i32, month: u32, day: u32) -> CalDate {
    CalDate { year, month, day }
}

#[test]
fn date_string_pads_and_signs() {
    assert_eq!(date_string(d(2024, 3, 5)), "2024-03-05");
    assert_eq!(date_string(d(5, 1, 1)), "0005-01-01");
    assert_eq!(date_string(d(12345, 6, 7)), "+12345-06-07");
    assert_eq!(date_string(d(-44, 3, 15)), "-0044-03-15");
}

#[test]
fn following_day_crosses_months_and_years() {
    assert_eq!(following_day(d(2024, 2, 28)), d(2024, 2, 29));
    assert_eq!(following_day(d(2023, 2, 28)), d(2023, 3, 1));
    assert_eq!(following_day(d(2024, 12, 31)), d(2025, 1, 1));
    assert_eq!(following_day(d(2024, 4, 30)), d(2024, 5, 1));
    assert_eq!(following_day(d(1900, 2, 28)), d(1900, 3, 1));
    assert_eq!(following_day(d(2000, 2, 28)), d(2000, 2, 29));
}

#[test]
fn is_sunday_reads_weekdays() {
    assert!(is_sunday(d(2024, 6, 2)));
    assert!(!is_sunday(d(2024, 6, 3)));
    assert!(is_sunday(d(1970, 1, 4)));
    assert!(!is_sunday(d(1970, 1, 1)));
    assert!(is_sunday(d(1, 1, 7)));
    assert!(is_sunday(d(-1, 12, 26)));
}

#[test]
fn last_day_is_recognised() {
    assert!(is_last_day(d(262142, 12, 31)));
    assert!(!is_last_day(d(262142, 12, 30)));
}

#[test]
fn order_of_dates() {
    assert!(date_on_or_before(d(2024, 1, 1), d(2024, 1, 1)));
    assert!(date_on_or_before(d(2023, 12, 31), d(2024, 1, 1)));
    assert!(!date_on_or_before(d(2024, 2, 1), d(2024, 1, 31)));
}

#[test]
fn next_occurrence_this_year_or_next() {
    assert_eq!(next_occurrence(d(2024, 3, 1), d(2024, 5, 10)), Some(d(2024, 5, 10)));
    assert_eq!(next_occurrence(d(2024, 5, 10), d(2024, 5, 10)), Some(d(2024, 5, 10)));
    assert_eq!(next_occurrence(d(2024, 6, 1), d(2024, 5, 10)), Some(d(2025, 5, 10)));
    assert_eq!(next_occurrence(d(2024, 3, 1), d(2024, 2, 29)), None);
    assert_eq!(next_occurrence(d(2027, 3, 1), d(2027, 2, 1)), Some(d(2028, 2, 1)));
}

#[test]
fn parse_date_reads_iso_dates() {
    assert_eq!(parse_date("2024-06-02"), Ok(d(2024, 6, 2)));
    assert!(parse_date("2024-02-30").is_err());
    assert!(parse_date("foo").is_err());
}

#[test]
fn parse_errors_are_named_as_chrono_prints_them() {
    assert_eq!(parse_date("foo"), Err(String::from("ParseError(Invalid)")));
    assert_eq!(parse_rfc3339_date("foo"), Err(String::from("ParseError(TooShort)")));
}

#[test]
fn parse_rfc3339_reads_the_date() {
    assert_eq!(parse_rfc3339_date("2024-05-10T23:59:59Z"), Ok(d(2024, 5, 10)));
    assert!(parse_rfc3339_date("2024-5-10").is_err());
    assert!(parse_rfc3339_date("2023-02-29T23:59:59Z").is_err());
}

#[test]
fn sundays_come_every_seventh_day() {
    let mut day = d(2023, 12, 24);
    assert!(is_sunday(day));
    let mut sundays = vec![];
    for i in 1..=21 {
        day = following_day(day);
        if is_sunday(day) {
            sundays.push(i);
        }
    }
    assert_eq!(sundays, vec![7, 14, 21]);
    assert_eq!(day, d(2024, 1, 14));
}
