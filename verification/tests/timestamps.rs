use media_organizer::timestamp::Timestamp;
use media_organizer::timestamp::MAX_YEAR;
use media_organizer::timestamp::MIN_YEAR;

#[test]
fn timestamp_shows_its_six_numbers() {
    let date = Timestamp::new(2020, 1, 2, 3, 4, 5).unwrap();
    assert_eq!(date.year(), 2020);
    assert_eq!(date.month(), 1);
    assert_eq!(date.day(), 2);
    assert_eq!(date.hour(), 3);
    assert_eq!(date.minute(), 4);
    assert_eq!(date.second(), 5);
}

#[test]
fn timestamps_with_the_same_numbers_are_equal() {
    assert_eq!(Timestamp::new(2020, 1, 2, 3, 4, 5), Timestamp::new(2020, 1, 2, 3, 4, 5));
    assert_ne!(Timestamp::new(2020, 1, 2, 3, 4, 5), Timestamp::new(2020, 1, 2, 3, 4, 6));
}

#[test]
fn february_has_a_29th_in_leap_years_only() {
    assert!(Timestamp::new(2020, 2, 29, 0, 0, 0).is_some());
    assert!(Timestamp::new(2000, 2, 29, 0, 0, 0).is_some());
    assert!(Timestamp::new(1900, 2, 29, 0, 0, 0).is_none());
    assert!(Timestamp::new(2021, 2, 29, 0, 0, 0).is_none());
    assert!(Timestamp::new(2021, 2, 28, 0, 0, 0).is_some());
    assert!(Timestamp::new(2020, 2, 30, 0, 0, 0).is_none());
}

#[test]
fn months_have_their_own_lengths() {
    let lengths = [31, 28, 31, 30, 31, 30, 31, 31, 30, 31, 30, 31];
    for (index, length) in lengths.iter().enumerate() {
        let month = index as u32 + 1;
        assert!(Timestamp::new(2021, month, *length, 0, 0, 0).is_some());
        assert!(Timestamp::new(2021, month, *length + 1, 0, 0, 0).is_none());
    }
}

#[test]
fn numbers_that_name_no_day_make_no_timestamp() {
    assert!(Timestamp::new(2020, 0, 1, 0, 0, 0).is_none());
    assert!(Timestamp::new(2020, 13, 1, 0, 0, 0).is_none());
    assert!(Timestamp::new(2020, 1, 0, 0, 0, 0).is_none());
    assert!(Timestamp::new(2020, 1, 32, 0, 0, 0).is_none());
    assert!(Timestamp::new(2020, 4, 31, 0, 0, 0).is_none());
}

#[test]
fn numbers_that_name_no_time_make_no_timestamp() {
    assert!(Timestamp::new(2020, 1, 1, 24, 0, 0).is_none());
    assert!(Timestamp::new(2020, 1, 1, 0, 60, 0).is_none());
    assert!(Timestamp::new(2020, 1, 1, 0, 0, 60).is_none());
    assert!(Timestamp::new(2020, 1, 1, 23, 59, 59).is_some());
}

#[test]
fn years_have_a_first_and_a_last() {
    assert_eq!(MIN_YEAR, -262143);
    assert_eq!(MAX_YEAR, 262142);
    assert!(Timestamp::new(MIN_YEAR, 1, 1, 0, 0, 0).is_some());
    assert!(Timestamp::new(MAX_YEAR, 12, 31, 23, 59, 59).is_some());
    assert!(Timestamp::new(MIN_YEAR - 1, 12, 31, 0, 0, 0).is_none());
    assert!(Timestamp::new(MAX_YEAR + 1, 1, 1, 0, 0, 0).is_none());
}

#[test]
fn timestamps_exist_exactly_where_chrono_has_a_date() {
    for year in [-262144, -262143, -1, 0, 1, 1900, 2000, 2023, 2024, 262142, 262143] {
        for month in 0..14 {
            for day in [0, 1, 28, 29, 30, 31, 32] {
                let ours = Timestamp::new(year, month, day, 12, 0, 0).is_some();
                let theirs = chrono::NaiveDate::from_ymd_opt(year, month, day).is_some();
                assert_eq!(ours, theirs, "{}-{}-{}", year, month, day);
            }
        }
    }
}
