use relay_tap::timestamp::{format_stamp, UtcTime, LAST_SECOND_OF_9999};

fn time(
    year: i32,
    month: u32,
    day: u32,
    hour: u32,
    minute: u32,
    second: u32,
    nanosecond: u32,
) -> UtcTime {
    UtcTime::new(year, month, day, hour, minute, second, nanosecond).unwrap()
}

#[test]
fn a_stamp_is_date_underscore_time_dot_millis() {
    assert_eq!(format_stamp(&time(2024, 1, 5, 3, 4, 5, 26_000_000)), "20240105_030405.026");
    assert_eq!(format_stamp(&time(2025, 12, 31, 23, 59, 59, 999_999_999)), "20251231_235959.999");
    assert_eq!(format_stamp(&time(1970, 1, 1, 0, 0, 0, 0)), "19700101_000000.000");
    assert_eq!(format_stamp(&time(2026, 10, 28, 10, 20, 30, 1_999_999)), "20261028_102030.001");
}

#[test]
fn years_below_a_thousand_are_padded() {
    assert_eq!(format_stamp(&time(0, 1, 1, 0, 0, 0, 0)), "00000101_000000.000");
    assert_eq!(format_stamp(&time(7, 2, 3, 4, 5, 6, 7_000_000)), "00070203_040506.007");
    assert_eq!(format_stamp(&time(987, 6, 5, 4, 3, 2, 100_000_000)), "09870605_040302.100");
    assert_eq!(format_stamp(&time(9999, 12, 31, 0, 0, 0, 0)), "99991231_000000.000");
}

#[test]
fn years_out_of_four_digits_carry_a_sign() {
    assert_eq!(format_stamp(&time(10000, 1, 1, 0, 0, 0, 0)), "+100000101_000000.000");
    assert_eq!(format_stamp(&time(262142, 12, 31, 1, 2, 3, 0)), "+2621421231_010203.000");
    assert_eq!(format_stamp(&time(-1, 1, 1, 0, 0, 0, 0)), "-00010101_000000.000");
    assert_eq!(format_stamp(&time(-9999, 1, 1, 0, 0, 0, 0)), "-99990101_000000.000");
    assert_eq!(format_stamp(&time(-12345, 1, 1, 0, 0, 0, 0)), "-123450101_000000.000");
    assert_eq!(format_stamp(&time(-262143, 1, 1, 0, 0, 0, 0)), "-2621430101_000000.000");
    assert_eq!(format_stamp(&time(-10000, 6, 7, 8, 9, 10, 0)), "-100000607_080910.000");
}

#[test]
fn a_date_is_one_of_the_calendar() {
    assert!(UtcTime::new(2024, 2, 29, 0, 0, 0, 0).is_some());
    assert!(UtcTime::new(2023, 2, 29, 0, 0, 0, 0).is_none());
    assert!(UtcTime::new(2000, 2, 29, 0, 0, 0, 0).is_some());
    assert!(UtcTime::new(1900, 2, 29, 0, 0, 0, 0).is_none());
    assert!(UtcTime::new(2100, 2, 28, 0, 0, 0, 0).is_some());
    assert!(UtcTime::new(0, 2, 29, 0, 0, 0, 0).is_some());
    assert!(UtcTime::new(-4, 2, 29, 0, 0, 0, 0).is_some());
    assert!(UtcTime::new(-100, 2, 29, 0, 0, 0, 0).is_none());
    assert!(UtcTime::new(-400, 2, 29, 0, 0, 0, 0).is_some());
    assert!(UtcTime::new(-1, 2, 29, 0, 0, 0, 0).is_none());
    assert!(UtcTime::new(2024, 2, 30, 0, 0, 0, 0).is_none());
    for month in vec![4, 6, 9, 11] {
        assert!(UtcTime::new(2023, month, 30, 0, 0, 0, 0).is_some());
        assert!(UtcTime::new(2023, month, 31, 0, 0, 0, 0).is_none());
    }
    for month in vec![1, 3, 5, 7, 8, 10, 12] {
        assert!(UtcTime::new(2023, month, 31, 0, 0, 0, 0).is_some());
        assert!(UtcTime::new(2023, month, 32, 0, 0, 0, 0).is_none());
    }
    assert!(UtcTime::new(262142, 12, 31, 23, 59, 59, 0).is_some());
    assert!(UtcTime::new(262143, 1, 1, 0, 0, 0, 0).is_none());
    assert!(UtcTime::new(-262143, 1, 1, 0, 0, 0, 0).is_some());
    assert!(UtcTime::new(-262144, 12, 31, 0, 0, 0, 0).is_none());
    assert!(UtcTime::new(i32::MAX, 1, 1, 0, 0, 0, 0).is_none());
    assert!(UtcTime::new(i32::MIN, 1, 1, 0, 0, 0, 0).is_none());
}

#[test]
fn the_calendar_is_the_one_that_dates_are_read_by() {
    // one reading in every stretch of a little under eleven days, over more
    // than eight hundred years: each must be a date of the calendar
    let mut secs: i64 = -13_000_000_000;
    while secs < 13_000_000_000 {
        let at = UtcTime::from_timestamp(secs, 0).unwrap();
        assert!(at.is_valid());
        assert_eq!(UtcTime::new(at.year, at.month, at.day, at.hour, at.minute, at.second, 0), Some(at));
        assert_eq!(format_stamp(&at).chars().count(), 19);
        secs += 947_303;
    }
}

#[test]
fn a_leap_second_is_shown_as_second_sixty() {
    assert_eq!(
        format_stamp(&time(2016, 12, 31, 23, 59, 59, 1_500_000_000)),
        "20161231_235960.500"
    );
    assert_eq!(
        format_stamp(&time(2016, 12, 31, 23, 59, 59, 1_999_999_999)),
        "20161231_235960.999"
    );
}

#[test]
fn fields_out_of_range_make_no_time() {
    assert!(UtcTime::new(2024, 0, 1, 0, 0, 0, 0).is_none());
    assert!(UtcTime::new(2024, 13, 1, 0, 0, 0, 0).is_none());
    assert!(UtcTime::new(2024, 1, 0, 0, 0, 0, 0).is_none());
    assert!(UtcTime::new(2024, 1, 32, 0, 0, 0, 0).is_none());
    assert!(UtcTime::new(2024, 1, 1, 24, 0, 0, 0).is_none());
    assert!(UtcTime::new(2024, 1, 1, 0, 60, 0, 0).is_none());
    assert!(UtcTime::new(2024, 1, 1, 0, 0, 60, 0).is_none());
    assert!(UtcTime::new(2024, 1, 1, 0, 0, 0, 2_000_000_000).is_none());
    // a leap second only follows second 59
    assert!(UtcTime::new(2024, 1, 1, 0, 0, 58, 1_000_000_000).is_none());
    assert!(UtcTime::new(2024, 1, 1, 0, 0, 59, 1_000_000_000).is_some());
    let t = UtcTime::new(2024, 12, 31, 23, 59, 59, 999_999_999).unwrap();
    assert!(t.is_valid());
    assert_eq!((t.year, t.month, t.day), (2024, 12, 31));
    assert_eq!((t.hour, t.minute, t.second, t.nanosecond), (23, 59, 59, 999_999_999));
    let bad = UtcTime { year: 1, month: 0, day: 1, hour: 0, minute: 0, second: 0, nanosecond: 0 };
    assert!(!bad.is_valid());
}

#[test]
fn a_unix_timestamp_is_read_as_a_utc_date() {
    assert_eq!(UtcTime::from_timestamp(0, 0), Some(time(1970, 1, 1, 0, 0, 0, 0)));
    assert_eq!(
        UtcTime::from_timestamp(1_431_648_000, 0),
        Some(time(2015, 5, 15, 0, 0, 0, 0))
    );
    assert_eq!(
        UtcTime::from_timestamp(1_700_000_000, 123_456_789),
        Some(time(2023, 11, 14, 22, 13, 20, 123_456_789))
    );
    assert_eq!(UtcTime::from_timestamp(-1, 0), Some(time(1969, 12, 31, 23, 59, 59, 0)));
    assert_eq!(
        UtcTime::from_timestamp(59, 1_000_000_000),
        Some(time(1970, 1, 1, 0, 0, 59, 1_000_000_000))
    );
    assert_eq!(UtcTime::from_timestamp(58, 1_000_000_000), None);
    assert_eq!(UtcTime::from_timestamp(0, 2_000_000_000), None);
    assert_eq!(UtcTime::from_timestamp(i64::MAX, 0), None);
    assert_eq!(UtcTime::from_timestamp(i64::MIN, 0), None);
}

#[test]
fn the_clock_gives_a_time_in_range() {
    let now = UtcTime::now().unwrap();
    assert!(now.is_valid());
    assert!(now.year >= 2024);
    assert!(now.nanosecond < 1_000_000_000);
    assert_eq!(format_stamp(&now).chars().count(), 19);
    let later = UtcTime::now().unwrap();
    assert!(format_stamp(&now) <= format_stamp(&later));
}

#[test]
fn stamps_sort_as_their_times() {
    let times = vec![
        time(0, 1, 1, 0, 0, 0, 0),
        time(999, 12, 31, 23, 59, 59, 999_000_000),
        time(1000, 1, 1, 0, 0, 0, 0),
        time(2024, 1, 31, 23, 59, 59, 999_000_000),
        time(2024, 2, 1, 0, 0, 0, 0),
        time(2024, 2, 1, 0, 0, 0, 1_000_000),
        time(2024, 2, 1, 0, 0, 9, 0),
        time(2024, 2, 1, 0, 0, 10, 0),
        time(2024, 2, 1, 0, 9, 59, 0),
        time(2024, 2, 1, 0, 10, 0, 0),
        time(2024, 2, 1, 9, 59, 59, 0),
        time(2024, 2, 1, 10, 0, 0, 0),
        time(2024, 2, 9, 23, 0, 0, 0),
        time(2024, 2, 10, 0, 0, 0, 0),
        time(2024, 9, 30, 0, 0, 0, 0),
        time(2024, 10, 1, 0, 0, 0, 0),
        time(2024, 12, 31, 23, 59, 59, 999_000_000),
        time(2024, 12, 31, 23, 59, 59, 1_000_000_000),
        time(2025, 1, 1, 0, 0, 0, 0),
        time(9999, 12, 31, 23, 59, 59, 999_000_000),
    ];
    for i in 0..times.len() {
        for j in 0..times.len() {
            let a = format_stamp(&times[i]);
            let b = format_stamp(&times[j]);
            assert_eq!(a < b, i < j);
        }
    }
}

#[test]
fn times_within_one_millisecond_share_a_stamp() {
    let a = time(2024, 2, 1, 0, 0, 0, 1_000_000);
    let b = time(2024, 2, 1, 0, 0, 0, 1_999_999);
    assert_eq!(format_stamp(&a), format_stamp(&b));
}

#[test]
fn a_five_digit_year_sorts_before_a_four_digit_one() {
    let late = format_stamp(&time(10000, 1, 1, 0, 0, 0, 0));
    let early = format_stamp(&time(9999, 12, 31, 23, 59, 59, 0));
    assert!(late < early);
}

#[test]
fn a_reading_of_the_clock_is_read_as_its_timestamp() {
    assert_eq!(UtcTime::from_unix_reading(None), None);
    assert_eq!(UtcTime::from_unix_reading(Some((0, 0))), Some(time(1970, 1, 1, 0, 0, 0, 0)));
    assert_eq!(
        UtcTime::from_unix_reading(Some((1_700_000_000, 123_456_789))),
        Some(time(2023, 11, 14, 22, 13, 20, 123_456_789))
    );
    assert_eq!(
        UtcTime::from_unix_reading(Some((1_700_000_000, 123_456_789))),
        UtcTime::from_timestamp(1_700_000_000, 123_456_789)
    );
    assert_eq!(UtcTime::from_unix_reading(Some((u64::MAX, 0))), None);
    assert_eq!(UtcTime::from_unix_reading(Some((i64::MAX as u64, 0))), None);
    assert_eq!(UtcTime::from_unix_reading(Some((i64::MAX as u64 + 1, 0))), None);
    assert_eq!(UtcTime::from_unix_reading(Some((0, 2_000_000_000))), None);
}

#[test]
fn every_reading_up_to_the_year_9999_has_a_date() {
    let last = LAST_SECOND_OF_9999 as u64;
    assert_eq!(
        UtcTime::from_unix_reading(Some((last, 999_999_999))),
        Some(time(9999, 12, 31, 23, 59, 59, 999_999_999))
    );
    assert_eq!(
        UtcTime::from_unix_reading(Some((last + 1, 0))),
        Some(time(10000, 1, 1, 0, 0, 0, 0))
    );
    let mut secs: u64 = 0;
    while secs <= last {
        let at = UtcTime::from_unix_reading(Some((secs, 999_999_999))).unwrap();
        assert!(at.is_valid());
        assert!(1970 <= at.year && at.year <= 9999);
        secs += 86_399 * 40_000 + 7;
    }
}
