use chrono::{DateTime, Local, TimeZone};
use pet_feeder::schedule::{split_budget, Occasion, Schedule};
use pet_feeder::timestamp::Timestamp;
use pet_feeder::weekday::Weekday;

fn stamp(time: DateTime<Local>) -> Timestamp {
    Timestamp::new(
        time.timestamp(),
        time.timestamp_subsec_nanos(),
        time.offset().local_minus_utc(),
    )
    .unwrap()
}

fn occasion(hour: u32, minute: u32, days: Vec<Weekday>, first: u64, second: u64) -> Occasion {
    Occasion {
        time: Timestamp::at_epoch_day(hour, minute, 0, 0).unwrap(),
        enabled_weekdays: days,
        opened_time_servo1: first,
        opened_time_servo2: second,
    }
}

/// 1970-01-05 was a Monday, so day `5 + n` of January 1970 is `n` days after Monday.
fn january_1970(day: u32, hour: u32, minute: u32, second: u32) -> Timestamp {
    let seconds = ((day as i64) - 1) * 86_400 + (hour as i64) * 3600 + (minute as i64) * 60
        + second as i64;
    Timestamp::new(seconds, 0, 0).unwrap()
}

#[test]
#[allow(deprecated)]
fn contains_true() {
    let mut schedule = Schedule::new();
    schedule.push(Occasion {
        time: stamp(Local.ymd(1970, 1, 1).and_hms(7, 30, 0)),
        enabled_weekdays: vec![Weekday::Thu],
        opened_time_servo1: 300,
        opened_time_servo2: 300,
    });

    assert_eq!(
        schedule
            .contains(stamp(Local.ymd(1970, 1, 1).and_hms(7, 30, 10)))
            .is_some(),
        true
    );
}

#[test]
#[allow(deprecated)]
fn contains_false() {
    let mut schedule = Schedule::new();
    schedule.push(Occasion {
        time: stamp(Local.ymd(1970, 1, 1).and_hms(7, 30, 0)),
        enabled_weekdays: vec![Weekday::Mon, Weekday::Tue],
        opened_time_servo1: 300,
        opened_time_servo2: 300,
    });

    assert_eq!(
        schedule
            .contains(stamp(Local.ymd(1970, 1, 1).and_hms(7, 31, 0)))
            .is_some(),
        false
    );
}

#[test]
#[allow(deprecated)]
fn occasion_enabled_true() {
    let occasion = Occasion {
        time: stamp(Local.ymd(1970, 1, 1).and_hms(7, 30, 0)),
        enabled_weekdays: vec![Weekday::Mon],
        opened_time_servo1: 300,
        opened_time_servo2: 300,
    };

    assert_eq!(occasion.is_enabled(Weekday::Mon), true);
}

#[test]
#[allow(deprecated)]
fn occasion_enabled_false() {
    let occasion = Occasion {
        time: stamp(Local.ymd(1970, 1, 1).and_hms(7, 30, 0)),
        enabled_weekdays: vec![Weekday::Mon],
        opened_time_servo1: 300,
        opened_time_servo2: 300,
    };

    assert_eq!(occasion.is_enabled(Weekday::Tue), false);
}

#[test]
fn empty_schedule_never_matches() {
    let schedule = Schedule::new();
    assert_eq!(schedule.len(), 0);
    assert!(schedule.contains(january_1970(1, 7, 30, 0)).is_none());
    assert_eq!(schedule.position(january_1970(1, 7, 30, 0)), None);
    assert_eq!(schedule.count_active(Weekday::Thu), 0);
}

#[test]
fn occasion_without_weekdays_is_never_enabled() {
    let never = occasion(7, 30, vec![], 300, 300);
    assert!(!never.is_enabled(Weekday::Mon));
    assert!(!never.is_enabled(Weekday::Sun));
    assert!(!never.matches_at(january_1970(1, 7, 30, 0)));
}

#[test]
fn repeated_weekday_is_enabled_once() {
    let twice = occasion(7, 30, vec![Weekday::Fri, Weekday::Fri], 300, 300);
    assert!(twice.is_enabled(Weekday::Fri));
    assert!(!twice.is_enabled(Weekday::Sat));
}

#[test]
fn match_needs_weekday_hour_and_minute() {
    let mut schedule = Schedule::new();
    schedule.push(occasion(7, 30, vec![Weekday::Mon, Weekday::Wed], 320, 280));

    // Monday 1970-01-05 and Wednesday 1970-01-07 at 07:30.
    assert!(schedule.contains(january_1970(5, 7, 30, 0)).is_some());
    assert!(schedule.contains(january_1970(7, 7, 30, 0)).is_some());
    // The weekday is wrong.
    assert!(schedule.contains(january_1970(6, 7, 30, 0)).is_none());
    // The hour is wrong.
    assert!(schedule.contains(january_1970(5, 8, 30, 0)).is_none());
    // The minute is wrong.
    assert!(schedule.contains(january_1970(5, 7, 29, 59)).is_none());
    assert!(schedule.contains(january_1970(5, 7, 31, 0)).is_none());
}

#[test]
fn match_ignores_seconds_and_date() {
    let mut schedule = Schedule::new();
    schedule.push(occasion(7, 30, vec![Weekday::Mon], 320, 280));

    for second in [0, 5, 30, 59] {
        // Mondays: the 5th, 12th, 19th and 26th of January 1970.
        for day in [5, 12, 19, 26] {
            let found = schedule.contains(january_1970(day, 7, 30, second));
            assert_eq!(found.map(|o| o.opened_time_servo1), Some(320));
        }
    }
    // A Monday fifty-four years later: 2024-01-01T07:30:42Z.
    let later = Timestamp::new(1_704_094_242, 0, 0).unwrap();
    assert_eq!(later.weekday(), Weekday::Mon);
    assert_eq!(schedule.position(later), Some(0));
}

#[test]
fn match_reads_the_wall_clock_of_the_offset() {
    let mut schedule = Schedule::new();
    schedule.push(occasion(7, 30, vec![Weekday::Mon], 320, 280));

    // 05:30 UTC on Monday 1970-01-05 is 07:30 two hours east of Greenwich.
    let east = Timestamp::new(4 * 86_400 + 5 * 3600 + 30 * 60, 0, 7200).unwrap();
    assert_eq!((east.hour(), east.minute()), (7, 30));
    assert!(schedule.contains(east).is_some());
    // 23:30 UTC on Sunday is 00:30 on Monday one hour east: the weekday follows the offset.
    let night = Timestamp::new(3 * 86_400 + 23 * 3600 + 30 * 60, 0, 3600).unwrap();
    assert_eq!(night.weekday(), Weekday::Mon);
    assert_eq!((night.hour(), night.minute()), (0, 30));
}

#[test]
fn first_of_two_occasions_at_the_same_time_wins() {
    let mut schedule = Schedule::new();
    schedule.push(occasion(8, 30, vec![Weekday::Tue], 100, 10));
    schedule.push(occasion(11, 30, vec![Weekday::Mon], 200, 20));
    schedule.push(occasion(11, 30, vec![Weekday::Mon], 300, 30));
    schedule.push(occasion(11, 30, vec![Weekday::Mon, Weekday::Tue], 400, 40));

    let monday = january_1970(5, 11, 30, 0);
    assert_eq!(schedule.position(monday), Some(1));
    let found = schedule.contains(monday).unwrap();
    assert_eq!((found.opened_time_servo1, found.opened_time_servo2), (200, 20));

    // On Tuesday only the last one applies at 11:30.
    let tuesday = january_1970(6, 11, 30, 0);
    assert_eq!(schedule.position(tuesday), Some(3));
    assert_eq!(schedule.contains(tuesday).unwrap().opened_time_servo1, 400);
}

#[test]
fn push_keeps_the_order_and_checks_nothing() {
    let mut schedule = Schedule::new();
    schedule.push(occasion(23, 59, vec![], 0, 0));
    schedule.push(occasion(0, 0, vec![Weekday::Sun, Weekday::Sun], u64::MAX, 1));
    assert_eq!(schedule.len(), 2);
    let times = schedule.get_times();
    assert_eq!(times.len(), 2);
    assert_eq!((times[0].time.hour(), times[0].time.minute()), (23, 59));
    assert_eq!(times[0].enabled_weekdays, vec![]);
    assert_eq!(times[1].opened_time_servo1, u64::MAX);
    assert_eq!(times[1].enabled_weekdays, vec![Weekday::Sun, Weekday::Sun]);
}

#[test]
fn extend_appends_in_order() {
    let mut schedule = Schedule::new();
    schedule.push(occasion(1, 0, vec![Weekday::Mon], 1, 1));
    schedule.extend(vec![
        occasion(2, 0, vec![Weekday::Mon], 2, 2),
        occasion(3, 0, vec![Weekday::Mon], 3, 3),
    ]);
    let hours: Vec<u32> = schedule.get_times().iter().map(|o| o.time.hour()).collect();
    assert_eq!(hours, vec![1, 2, 3]);
}

#[test]
fn count_active_counts_the_occasions_of_a_weekday() {
    let mut schedule = Schedule::new();
    schedule.push(occasion(7, 30, vec![Weekday::Mon, Weekday::Tue], 300, 300));
    schedule.push(occasion(8, 30, vec![Weekday::Mon, Weekday::Tue], 300, 300));
    schedule.push(occasion(8, 30, vec![Weekday::Fri], 300, 300));

    assert_eq!(schedule.count_active(Weekday::Mon), 2);
    assert_eq!(schedule.count_active(Weekday::Tue), 2);
    assert_eq!(schedule.count_active(Weekday::Fri), 1);
    assert_eq!(schedule.count_active(Weekday::Wed), 0);
    assert_eq!(schedule.count_active(Weekday::Sun), 0);
}

#[test]
fn count_active_counts_an_occasion_once() {
    let mut schedule = Schedule::new();
    schedule.push(occasion(7, 30, vec![Weekday::Mon, Weekday::Mon, Weekday::Mon], 300, 300));
    assert_eq!(schedule.count_active(Weekday::Mon), 1);
}

#[test]
fn budget_is_split_evenly_and_rounded_down() {
    assert_eq!(split_budget(2400, 2), 1200);
    assert_eq!(split_budget(2400, 7), 342);
    assert_eq!(split_budget(2400, 1), 2400);
    assert_eq!(split_budget(5, 7), 0);
    assert_eq!(split_budget(0, 3), 0);
    assert_eq!(split_budget(u64::MAX, 2), 9_223_372_036_854_775_807);
}

#[test]
fn budget_split_by_the_active_count_of_the_day() {
    let mut schedule = Schedule::new();
    schedule.push(occasion(7, 30, vec![Weekday::Mon, Weekday::Tue], 2400, 0));
    schedule.push(occasion(8, 30, vec![Weekday::Mon, Weekday::Tue], 2400, 0));
    schedule.push(occasion(8, 30, vec![Weekday::Fri], 2400, 0));
    assert_eq!(split_budget(2400, schedule.count_active(Weekday::Mon)), 1200);
    assert_eq!(split_budget(2400, schedule.count_active(Weekday::Fri)), 2400);
}
