use chrono::{DateTime, Datelike, FixedOffset, TimeZone, Timelike, Utc};
use pet_feeder::timestamp::{
    Timestamp, MAX_LOCAL_SECONDS, MIN_LOCAL_SECONDS, NANOS_PER_SECOND, SECONDS_PER_DAY,
};
use pet_feeder::weekday::Weekday;

fn weekday_of(day: chrono::Weekday) -> Weekday {
    match day {
        chrono::Weekday::Mon => Weekday::Mon,
        chrono::Weekday::Tue => Weekday::Tue,
        chrono::Weekday::Wed => Weekday::Wed,
        chrono::Weekday::Thu => Weekday::Thu,
        chrono::Weekday::Fri => Weekday::Fri,
        chrono::Weekday::Sat => Weekday::Sat,
        chrono::Weekday::Sun => Weekday::Sun,
    }
}

fn stamp(time: &DateTime<FixedOffset>) -> Timestamp {
    Timestamp::new(
        time.timestamp(),
        time.timestamp_subsec_nanos(),
        time.offset().local_minus_utc(),
    )
    .unwrap()
}

#[test]
fn epoch_is_a_thursday_at_midnight() {
    let epoch = Timestamp::new(0, 0, 0).unwrap();
    assert_eq!(epoch.weekday(), Weekday::Thu);
    assert_eq!((epoch.hour(), epoch.minute(), epoch.second()), (0, 0, 0));
    assert_eq!((epoch.seconds(), epoch.nanos(), epoch.offset()), (0, 0, 0));
}

#[test]
fn time_before_the_epoch_counts_backwards() {
    // One second before 1970: Wednesday 23:59:59.
    let before = Timestamp::new(-1, 0, 0).unwrap();
    assert_eq!(before.weekday(), Weekday::Wed);
    assert_eq!((before.hour(), before.minute(), before.second()), (23, 59, 59));
}

#[test]
fn fields_agree_with_chrono() {
    let offsets = [0, 3600, -3600, 19_800, -34_200, 50_400, -43_200, 86_399, -86_399, 37];
    let seconds = [
        0_i64,
        1,
        -1,
        86_399,
        86_400,
        -86_400,
        951_782_400,
        1_704_094_242,
        1_709_164_799,
        4_102_444_800,
        -2_208_988_800,
        -30_610_224_000,
        200_000_000_000,
    ];
    for offset in offsets {
        let zone = FixedOffset::east_opt(offset).unwrap();
        for second in seconds {
            let time = DateTime::from_timestamp(second, 0).unwrap().with_timezone(&zone);
            let made = stamp(&time);
            assert_eq!(made.hour(), time.hour());
            assert_eq!(made.minute(), time.minute());
            assert_eq!(made.second(), time.second());
            assert_eq!(made.weekday(), weekday_of(time.weekday()));
        }
    }
}

#[test]
fn range_ends_at_the_years_0_and_9999() {
    let first = Utc.with_ymd_and_hms(0, 1, 1, 0, 0, 0).unwrap();
    let last = Utc.with_ymd_and_hms(9999, 12, 31, 23, 59, 59).unwrap();
    assert_eq!(first.timestamp(), MIN_LOCAL_SECONDS);
    assert_eq!(last.timestamp(), MAX_LOCAL_SECONDS);

    assert!(Timestamp::new(MIN_LOCAL_SECONDS, 0, 0).is_some());
    assert!(Timestamp::new(MIN_LOCAL_SECONDS - 1, 0, 0).is_none());
    assert!(Timestamp::new(MAX_LOCAL_SECONDS, 999_999_999, 0).is_some());
    assert!(Timestamp::new(MAX_LOCAL_SECONDS + 1, 0, 0).is_none());
    // The wall clock counts: an offset moves the ends.
    assert!(Timestamp::new(MIN_LOCAL_SECONDS - 3600, 0, 3600).is_some());
    assert!(Timestamp::new(MIN_LOCAL_SECONDS, 0, -1).is_none());
    assert!(Timestamp::new(MAX_LOCAL_SECONDS, 0, 1).is_none());
    assert!(Timestamp::new(i64::MAX, 0, 86_399).is_none());
    assert!(Timestamp::new(i64::MIN, 0, -86_399).is_none());

    let saturday = Timestamp::new(MIN_LOCAL_SECONDS, 0, 0).unwrap();
    assert_eq!(saturday.weekday(), weekday_of(first.weekday()));
    let friday = Timestamp::new(MAX_LOCAL_SECONDS, 0, 0).unwrap();
    assert_eq!(friday.weekday(), weekday_of(last.weekday()));
    assert_eq!((friday.hour(), friday.minute(), friday.second()), (23, 59, 59));
}

#[test]
fn offset_and_nanoseconds_are_bounded() {
    assert!(Timestamp::new(0, NANOS_PER_SECOND - 1, 0).is_some());
    assert!(Timestamp::new(0, NANOS_PER_SECOND, 0).is_none());
    assert!(Timestamp::new(0, u32::MAX, 0).is_none());
    assert!(Timestamp::new(0, 0, (SECONDS_PER_DAY - 1) as i32).is_some());
    assert!(Timestamp::new(0, 0, SECONDS_PER_DAY as i32).is_none());
    assert!(Timestamp::new(0, 0, -(SECONDS_PER_DAY as i32) + 1).is_some());
    assert!(Timestamp::new(0, 0, -(SECONDS_PER_DAY as i32)).is_none());
    assert!(Timestamp::new(0, 0, i32::MIN).is_none());
}

#[test]
fn time_of_day_on_the_epoch_day() {
    let made = Timestamp::at_epoch_day(7, 30, 15, 3600).unwrap();
    assert_eq!(made.seconds(), 7 * 3600 + 30 * 60 + 15 - 3600);
    assert_eq!((made.nanos(), made.offset()), (0, 3600));
    assert_eq!((made.hour(), made.minute(), made.second()), (7, 30, 15));
    assert_eq!(made.weekday(), Weekday::Thu);

    let west = Timestamp::at_epoch_day(23, 59, 59, -86_399).unwrap();
    assert_eq!((west.hour(), west.minute(), west.second()), (23, 59, 59));
    assert_eq!(west.weekday(), Weekday::Thu);

    assert!(Timestamp::at_epoch_day(24, 0, 0, 0).is_none());
    assert!(Timestamp::at_epoch_day(0, 60, 0, 0).is_none());
    assert!(Timestamp::at_epoch_day(0, 0, 60, 0).is_none());
    assert!(Timestamp::at_epoch_day(0, 0, 0, 86_400).is_none());
    assert!(Timestamp::at_epoch_day(0, 0, 0, -86_400).is_none());
}

#[test]
fn text_is_written_by_chrono() {
    let plain = Timestamp::at_epoch_day(7, 30, 0, 0).unwrap();
    assert_eq!(plain.to_rfc3339(), "1970-01-01T07:30:00+00:00");

    let east = Timestamp::new(1_704_094_242, 0, 7200).unwrap();
    assert_eq!(east.to_rfc3339(), "2024-01-01T09:30:42+02:00");

    let west = Timestamp::new(851_042_397, 0, -8 * 3600).unwrap();
    assert_eq!(west.to_rfc3339(), "1996-12-19T16:39:57-08:00");

    let fraction = Timestamp::new(0, 120_000_000, 0).unwrap();
    assert_eq!(fraction.to_rfc3339(), "1970-01-01T00:00:00.120+00:00");
    let nanos = Timestamp::new(0, 1, 0).unwrap();
    assert_eq!(nanos.to_rfc3339(), "1970-01-01T00:00:00.000000001+00:00");

    let first = Timestamp::new(MIN_LOCAL_SECONDS, 0, 0).unwrap();
    assert_eq!(first.to_rfc3339(), "0000-01-01T00:00:00+00:00");
    let last = Timestamp::new(MAX_LOCAL_SECONDS - 86_340, 0, 86_340).unwrap();
    assert_eq!(last.to_rfc3339(), "9999-12-31T23:59:59+23:59");

    // The ends of the range, where the UTC year is -1 or 10000.
    let earliest = Timestamp::new(MIN_LOCAL_SECONDS - 82_800, 0, 82_800).unwrap();
    assert_eq!(earliest.to_rfc3339(), "0000-01-01T00:00:00+23:00");
    let latest = Timestamp::new(MAX_LOCAL_SECONDS + 82_800, 999_999_999, -82_800).unwrap();
    assert_eq!(latest.to_rfc3339(), "9999-12-31T23:59:59.999999999-23:00");
    let widest = Timestamp::new(MIN_LOCAL_SECONDS - 86_399, 0, 86_399).unwrap();
    assert_eq!(widest.to_rfc3339(), "0000-01-01T00:00:00+24:00");
    let other = Timestamp::new(MAX_LOCAL_SECONDS + 86_399, 0, -86_399).unwrap();
    assert_eq!(other.to_rfc3339(), "9999-12-31T23:59:59-24:00");
}

#[test]
fn text_is_read_by_chrono() {
    let read = Timestamp::parse_rfc3339("1996-12-19T16:39:57-08:00").unwrap();
    assert_eq!((read.seconds(), read.nanos(), read.offset()), (851_042_397, 0, -28_800));
    assert_eq!((read.hour(), read.minute(), read.second()), (16, 39, 57));
    assert_eq!(read.weekday(), Weekday::Thu);

    // Forms that the reader takes beside the strict one.
    for text in ["2012-12-12T12:12:12Z", "2012-12-12 12:12:12Z", "2012-12-12 12:12:12+0000"] {
        let read = Timestamp::parse_rfc3339(text).unwrap();
        assert_eq!((read.seconds(), read.nanos(), read.offset()), (1_355_314_332, 0, 0));
    }

    let fraction = Timestamp::parse_rfc3339("1970-01-01T00:00:01.5+01:00").unwrap();
    assert_eq!(
        (fraction.seconds(), fraction.nanos(), fraction.offset()),
        (-3599, 500_000_000, 3600)
    );
}

#[test]
fn text_that_is_no_time_is_not_read() {
    for text in [
        "",
        "schedule",
        "07:30",
        "1970-01-01",
        "1970-01-01T07:30:00",
        "1970-13-01T07:30:00+00:00",
        "1970-02-30T07:30:00+00:00",
        "1970-01-01T24:00:00+00:00",
        "1970-01-01T07:30:00+00:00 and more",
    ] {
        assert!(Timestamp::parse_rfc3339(text).is_none(), "{}", text);
    }
}

#[test]
fn text_of_a_year_out_of_range_is_not_read() {
    assert!(Timestamp::parse_rfc3339("+10000-01-01T00:00:00+00:00").is_none());
    assert!(Timestamp::parse_rfc3339("-0001-12-31T23:59:59+00:00").is_none());
    // 9999 on the wall clock is in range though the UTC year is 10000.
    let late = Timestamp::parse_rfc3339("9999-12-31T23:59:59-01:00").unwrap();
    assert_eq!((late.hour(), late.minute()), (23, 59));
}

#[test]
fn from_parts_checks_the_range() {
    assert!(Timestamp::from_parts(None).is_none());
    let made = Timestamp::from_parts(Some((60, 7, -60))).unwrap();
    assert_eq!((made.seconds(), made.nanos(), made.offset()), (60, 7, -60));
    assert!(Timestamp::from_parts(Some((0, 1_000_000_000, 0))).is_none());
    assert!(Timestamp::from_parts(Some((0, 0, 86_400))).is_none());
    assert!(Timestamp::from_parts(Some((MAX_LOCAL_SECONDS + 1, 0, 0))).is_none());
}

#[test]
fn written_text_is_read_back() {
    let offsets = [0, 3600, -3600, 19_800, -34_200, 50_400];
    let seconds = [0_i64, -1, 86_399, 951_782_400, 1_704_094_242, 4_102_444_800];
    let nanos = [0_u32, 1, 1_000, 120_000_000, 999_999_999];
    for offset in offsets {
        for second in seconds {
            for nano in nanos {
                let made = Timestamp::new(second, nano, offset).unwrap();
                let read = Timestamp::parse_rfc3339(made.to_rfc3339().as_str()).unwrap();
                assert_eq!(
                    (read.seconds(), read.nanos(), read.offset()),
                    (second, nano, offset)
                );
            }
        }
    }
}

#[test]
fn weekday_positions_wrap_around() {
    assert_eq!(Weekday::from_position(0), Weekday::Mon);
    assert_eq!(Weekday::from_position(6), Weekday::Sun);
    assert_eq!(Weekday::from_position(7), Weekday::Mon);
    assert_eq!(Weekday::from_position(10), Weekday::Thu);
    assert_eq!(Weekday::from_position(u64::MAX), Weekday::Tue);
    assert_eq!(Weekday::from_position(1), Weekday::Tue);
    assert_eq!(Weekday::from_position(2), Weekday::Wed);
    assert_eq!(Weekday::from_position(4), Weekday::Fri);
    assert_eq!(Weekday::from_position(5), Weekday::Sat);
}
