use media_organizer::timestamp::Timestamp;
use media_organizer::validation::is_between;
use media_organizer::validation::validate_datetime;
use media_organizer::validation::validate_datetime_within;
use media_organizer::validation::validate_reading;
use media_organizer::validation::PlausibleYears;
use media_organizer::validation::EARLIEST_PLAUSIBLE_YEAR;
use std::collections::HashMap;

use chrono::Datelike;
use chrono::Timelike;

fn make_datetime(year: i32, month: u32, day: u32, hour: u32, minute: u32, second: u32) -> Timestamp {
    Timestamp::new(year, month, day, hour, minute, second).unwrap()
}

/// What the date guesser makes of a text, as a timestamp of the library.
fn guess(text: &str) -> Option<Timestamp> {
    let guessed = dtparse::Parser::default()
        .parse(text, None, None, true, false, None, true, &HashMap::new())
        .ok()?
        .0;
    Timestamp::new(
        guessed.year(),
        guessed.month(),
        guessed.day(),
        guessed.hour(),
        guessed.minute(),
        guessed.second(),
    )
}

/// A guess, kept if its year is plausible today.
fn parse_datetime(date_time: String) -> Option<Timestamp> {
    guess(&date_time).and_then(validate_datetime)
}

#[test]
fn test_is_between() {
    assert!(is_between(2, 1, 3));
    assert!(is_between(200, 100, 300));
    assert!(is_between(100, 100, 100));
    assert!(is_between(-10, -100, 100));
}

#[test]
fn test_parse_datetime() {
    assert!(parse_datetime("foobar".to_string()).is_none());
    assert_eq!(
        parse_datetime("2020-01-01".to_string()).unwrap(),
        make_datetime(2020, 1, 1, 0, 0, 0)
    );
    assert_eq!(
        parse_datetime("image 2020-01-01 03:04:05".to_string()).unwrap(),
        make_datetime(2020, 1, 1, 3, 4, 5)
    );
}

#[test]
fn test_validate_datetime() {
    assert!(validate_datetime(make_datetime(2020, 1, 1, 3, 4, 5)).is_some());
    assert!(validate_datetime(make_datetime(1820, 1, 1, 3, 4, 5)).is_none());
}

#[test]
fn is_between_rejects_what_lies_outside() {
    assert!(!is_between(0, 1, 3));
    assert!(!is_between(4, 1, 3));
    assert!(!is_between(2, 3, 1));
    assert!(is_between(1, 1, 3));
    assert!(is_between(3, 1, 3));
    assert!(is_between("b", "a", "c"));
    assert!(!is_between("d", "a", "c"));
}

#[test]
fn validate_datetime_returns_the_date_unchanged() {
    let date = make_datetime(2020, 2, 29, 23, 59, 58);
    assert_eq!(validate_datetime(date), Some(date));
}

#[test]
fn validate_datetime_starts_at_the_earliest_plausible_year() {
    assert_eq!(EARLIEST_PLAUSIBLE_YEAR, 1960);
    assert!(validate_datetime(make_datetime(1959, 12, 31, 23, 59, 59)).is_none());
    assert!(validate_datetime(make_datetime(1960, 1, 1, 0, 0, 0)).is_some());
}

#[test]
fn validate_datetime_ends_with_the_current_year() {
    let this_year = chrono::Local::now().year();
    assert!(validate_datetime(make_datetime(this_year, 1, 1, 0, 0, 0)).is_some());
    assert!(validate_datetime(make_datetime(this_year + 2, 1, 1, 0, 0, 0)).is_none());
    assert!(validate_datetime(make_datetime(4096, 1, 1, 0, 0, 0)).is_none());
}

#[test]
fn window_includes_both_of_its_ends() {
    let years = PlausibleYears::ending_in(2024);
    assert_eq!(years, PlausibleYears::new(1960, 2024));
    assert!(!years.contains(1959));
    assert!(years.contains(1960));
    assert!(years.contains(2024));
    assert!(!years.contains(2025));
    let first = make_datetime(1960, 1, 1, 0, 0, 0);
    let last = make_datetime(2024, 12, 31, 23, 59, 59);
    assert_eq!(validate_datetime_within(first, &years), Some(first));
    assert_eq!(validate_datetime_within(last, &years), Some(last));
    assert_eq!(validate_datetime_within(make_datetime(1959, 12, 31, 23, 59, 59), &years), None);
    assert_eq!(validate_datetime_within(make_datetime(2025, 1, 1, 0, 0, 0), &years), None);
}

#[test]
fn window_can_start_earlier() {
    let years = PlausibleYears::new(1900, 2024);
    let old = make_datetime(1901, 5, 6, 7, 8, 9);
    assert_eq!(validate_datetime_within(old, &years), Some(old));
    assert_eq!(validate_datetime_within(old, &PlausibleYears::ending_in(2024)), None);
    assert_eq!(validate_datetime_within(make_datetime(1820, 1, 1, 3, 4, 5), &years), None);
}

#[test]
fn empty_window_keeps_nothing() {
    let years = PlausibleYears::new(2000, 1999);
    assert_eq!(validate_datetime_within(make_datetime(2000, 1, 1, 0, 0, 0), &years), None);
    assert_eq!(validate_datetime_within(make_datetime(1999, 1, 1, 0, 0, 0), &years), None);
}

#[test]
fn window_until_now_starts_at_the_earliest_plausible_year() {
    let years = PlausibleYears::until_now();
    assert_eq!(years.earliest, 1960);
    assert_eq!(years.latest, chrono::Local::now().year());
}

#[test]
fn validating_a_failed_reading_gives_nothing() {
    let years = PlausibleYears::ending_in(2024);
    assert_eq!(validate_reading(None, &years), None);
    let date = make_datetime(2001, 2, 3, 4, 5, 6);
    assert_eq!(validate_reading(Some(date), &years), Some(date));
    assert_eq!(validate_reading(Some(make_datetime(2030, 1, 1, 0, 0, 0)), &years), None);
}

#[test]
fn validation_is_idempotent() {
    let years = PlausibleYears::ending_in(2024);
    let date = make_datetime(2001, 2, 3, 4, 5, 6);
    let once = validate_reading(Some(date), &years);
    assert_eq!(validate_reading(once, &years), once);
}

#[test]
fn guessed_date_in_a_noisy_file_name() {
    assert_eq!(
        parse_datetime("IMG_2020-01-01 03:04:05.jpg".to_string()),
        Some(make_datetime(2020, 1, 1, 3, 4, 5))
    );
}

#[test]
fn four_digits_that_are_no_year_give_no_date() {
    assert_eq!(parse_datetime("DSC4096.jpg".to_string()), None);
}
