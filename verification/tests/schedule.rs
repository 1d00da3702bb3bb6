use std::time::{Duration, SystemTime};

use actiona::schedule::{check_schedule, next_occurrence as next_day_and_second, JsDayOfWeek, Schedule, ScheduleError};
use chrono::{Datelike, Local, NaiveTime, TimeZone, Timelike};

const WEEK: [JsDayOfWeek; 7] = [
    JsDayOfWeek::Monday,
    JsDayOfWeek::Tuesday,
    JsDayOfWeek::Wednesday,
    JsDayOfWeek::Thursday,
    JsDayOfWeek::Friday,
    JsDayOfWeek::Saturday,
    JsDayOfWeek::Sunday,
];

fn schedule(
    hour: Option<u32>,
    minute: Option<u32>,
    second: Option<u32>,
    day_of_week: Option<JsDayOfWeek>,
    day_of_month: Option<u32>,
) -> Schedule {
    Schedule { hour, minute, second, day_of_week, day_of_month }
}

fn next_occurrence(s: &Schedule) -> chrono::DateTime<Local> {
    let now = Local::now();
    let today = now.date_naive().num_days_from_ce();
    let (day, target) = next_day_and_second(s, today, now.num_seconds_from_midnight()).unwrap();
    let date = chrono::NaiveDate::from_num_days_from_ce_opt(day).unwrap();
    let time = NaiveTime::from_num_seconds_from_midnight_opt(target, 0).unwrap();
    Local.from_local_datetime(&date.and_time(time)).unwrap()
}

#[test]
fn test_wait_for_schedule_invalid_hour() {
    assert!(check_schedule(&schedule(Some(24), None, None, None, None)).is_err());
}

#[test]
fn test_wait_for_schedule_invalid_minute() {
    assert!(check_schedule(&schedule(None, Some(60), None, None, None)).is_err());
}

#[test]
fn test_wait_for_schedule_invalid_day_of_month() {
    assert!(check_schedule(&schedule(None, None, None, None, Some(0))).is_err());
}

#[test]
fn test_next_occurrence_is_always_future() {
    let now = SystemTime::now();
    for hour in [0u32, 9, 13, 23] {
        for minute in [0u32, 15, 30, 59] {
            let next = SystemTime::from(next_occurrence(&schedule(Some(hour), Some(minute), None, None, None)));
            assert!(next > now, "h={hour} m={minute}: next occurrence should be in the future");
        }
    }
    assert!(SystemTime::from(next_occurrence(&schedule(None, None, None, None, None))) > now);
}

#[test]
fn test_next_occurrence_respects_day_of_week() {
    for (i, dow) in WEEK.iter().enumerate() {
        let next = next_occurrence(&schedule(None, None, None, Some(*dow), None));
        assert_eq!(next.weekday().num_days_from_monday(), i as u32);
    }
}

#[test]
fn test_next_occurrence_respects_day_of_month() {
    for dom in [1u32, 15, 28] {
        let next = next_occurrence(&schedule(None, None, None, None, Some(dom)));
        assert_eq!(next.day(), dom, "day of month should match");
    }
}

#[test]
fn test_next_occurrence_respects_hour_minute_second() {
    let next = next_occurrence(&schedule(Some(13), Some(15), Some(30), None, None));
    assert_eq!(next.hour(), 13);
    assert_eq!(next.minute(), 15);
    assert_eq!(next.second(), 30);
}

#[test]
fn test_next_occurrence_day_of_week_within_one_week() {
    let now = SystemTime::now();
    for dow in WEEK {
        let next = SystemTime::from(next_occurrence(&schedule(None, None, None, Some(dow), None)));
        let diff = next.duration_since(now).unwrap();
        assert!(diff <= Duration::from_secs(7 * 24 * 3600), "next occurrence is unexpectedly far: {diff:?}");
    }
}

#[test]
fn test_next_occurrence_day_of_month_within_two_months() {
    let now = SystemTime::now();
    for dom in 1..=31u32 {
        let next = SystemTime::from(next_occurrence(&schedule(None, None, None, None, Some(dom))));
        let diff = next.duration_since(now).unwrap();
        assert!(diff <= Duration::from_secs(63 * 24 * 3600), "day {dom}: next occurrence is unexpectedly far: {diff:?}");
    }
}

#[test]
fn next_occurrence_by_day_and_second() {
    // Day 730000 is Friday 1999-09-03.
    let monday_ten = schedule(Some(10), None, None, Some(JsDayOfWeek::Monday), None);
    assert_eq!(next_day_and_second(&monday_ten, 730000, 0), Ok((730003, 36000)));
    let friday_ten = schedule(Some(10), None, None, Some(JsDayOfWeek::Friday), None);
    assert_eq!(next_day_and_second(&friday_ten, 730000, 35999), Ok((730000, 36000)));
    assert_eq!(next_day_and_second(&friday_ten, 730000, 36000), Ok((730007, 36000)));
    let fourth = schedule(None, None, None, None, Some(4));
    assert_eq!(next_day_and_second(&fourth, 730000, 0), Ok((730001, 0)));
    let bad = schedule(None, Some(60), None, None, None);
    assert_eq!(next_day_and_second(&bad, 730000, 0), Err(ScheduleError::Minute));
    let monday_31 = schedule(None, None, None, Some(JsDayOfWeek::Monday), Some(31));
    // The next Monday the 31st after Friday 1999-09-03 is 2000-01-31.
    assert_eq!(next_day_and_second(&monday_31, 730000, 0), Ok((730150, 0)));
}
