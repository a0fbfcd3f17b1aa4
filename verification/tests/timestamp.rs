use chrono::{Datelike, Local, NaiveDate, Timelike};
use sql_builder::repr::ToSqlRepr;
use sql_builder::timestamp::Timestamp;

#[test]
fn test_datetime() {
    let now = Local::now();
    let moment = Timestamp::new(
        now.year(),
        now.month(),
        now.day(),
        now.hour(),
        now.minute(),
        now.second(),
        now.nanosecond(),
    )
    .unwrap();
    assert_eq!(
        moment.to_sql_repr(),
        format!("'{}'", now.format("%Y-%m-%d %H:%M:%S"))
    );
}

#[test]
fn test_timestamp_is_padded_with_zeros() {
    let moment = Timestamp::new(2024, 1, 2, 3, 4, 5, 0).unwrap();
    assert_eq!(moment.to_text(), "2024-01-02 03:04:05");
    assert_eq!(moment.to_sql_repr(), "'2024-01-02 03:04:05'");
    let moment = Timestamp::new(987, 12, 31, 23, 59, 59, 999_999_999).unwrap();
    assert_eq!(moment.to_sql_repr(), "'0987-12-31 23:59:59'");
    let moment = Timestamp::new(0, 1, 1, 0, 0, 0, 0).unwrap();
    assert_eq!(moment.to_sql_repr(), "'0000-01-01 00:00:00'");
    let moment = Timestamp::new(9999, 10, 10, 10, 10, 10, 10).unwrap();
    assert_eq!(moment.to_sql_repr(), "'9999-10-10 10:10:10'");
    assert_eq!(Some(moment).to_sql_repr(), "'9999-10-10 10:10:10'");
    assert_eq!(None::<Timestamp>.to_sql_repr(), "NULL");
}

#[test]
fn test_timestamp_leap_second_is_written_as_sixty() {
    let moment = Timestamp::new(2016, 12, 31, 23, 59, 59, 1_000_000_000).unwrap();
    assert_eq!(moment.to_sql_repr(), "'2016-12-31 23:59:60'");
    let moment = Timestamp::new(2016, 12, 31, 23, 59, 59, 1_999_999_999).unwrap();
    assert_eq!(moment.to_sql_repr(), "'2016-12-31 23:59:60'");
    let leap = NaiveDate::from_ymd_opt(2016, 12, 31)
        .unwrap()
        .and_hms_nano_opt(23, 59, 59, 1_500_000_000)
        .unwrap();
    let moment = Timestamp::new(
        leap.year(),
        leap.month(),
        leap.day(),
        leap.hour(),
        leap.minute(),
        leap.second(),
        leap.nanosecond(),
    )
    .unwrap();
    assert_eq!(
        moment.to_sql_repr(),
        format!("'{}'", leap.format("%Y-%m-%d %H:%M:%S"))
    );
    assert!(Timestamp::new(2016, 12, 31, 23, 59, 58, 1_000_000_000).is_none());
    assert!(Timestamp::new(2016, 12, 31, 23, 59, 59, 2_000_000_000).is_none());
}

#[test]
fn test_timestamp_needs_a_day_that_exists() {
    assert!(Timestamp::new(2023, 2, 29, 0, 0, 0, 0).is_none());
    assert!(Timestamp::new(2024, 2, 29, 0, 0, 0, 0).is_some());
    assert!(Timestamp::new(1900, 2, 29, 0, 0, 0, 0).is_none());
    assert!(Timestamp::new(2000, 2, 29, 0, 0, 0, 0).is_some());
    assert!(Timestamp::new(-4, 2, 29, 0, 0, 0, 0).is_some());
    assert!(Timestamp::new(-100, 2, 29, 0, 0, 0, 0).is_none());
    assert!(Timestamp::new(-400, 2, 29, 0, 0, 0, 0).is_some());
    assert!(Timestamp::new(2024, 0, 1, 0, 0, 0, 0).is_none());
    assert!(Timestamp::new(2024, 13, 1, 0, 0, 0, 0).is_none());
    assert!(Timestamp::new(2024, 1, 0, 0, 0, 0, 0).is_none());
    assert!(Timestamp::new(2024, 4, 31, 0, 0, 0, 0).is_none());
    assert!(Timestamp::new(2024, 4, 30, 24, 0, 0, 0).is_none());
    assert!(Timestamp::new(2024, 4, 30, 23, 60, 0, 0).is_none());
    assert!(Timestamp::new(2024, 4, 30, 23, 59, 60, 0).is_none());
    assert!(Timestamp::new(262142, 12, 31, 23, 59, 59, 0).is_some());
    assert!(Timestamp::new(262143, 1, 1, 0, 0, 0, 0).is_none());
    assert!(Timestamp::new(-262143, 1, 1, 0, 0, 0, 0).is_some());
    assert!(Timestamp::new(-262144, 12, 31, 0, 0, 0, 0).is_none());
}

#[test]
fn test_timestamp_days_of_each_month() {
    let days = [31u32, 28, 31, 30, 31, 30, 31, 31, 30, 31, 30, 31];
    for (index, last) in days.iter().enumerate() {
        let month = index as u32 + 1;
        assert!(Timestamp::new(2023, month, *last, 0, 0, 0, 0).is_some());
        assert!(Timestamp::new(2023, month, *last + 1, 0, 0, 0, 0).is_none());
    }
}
