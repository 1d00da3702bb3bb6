use actiona::clipboard::{check_wait_options, mode_or_default, snapshot_changed, ClipboardMode, ClipboardSnapshot, ContentNotAvailable, WaitError, WaitForChangedOptions};
use actiona::durations::{JsDuration, TimeSpan};
use actiona::input::{Direction, EnigoError, MouseError, Pid, PidError, X11Error};
use actiona::named_colors::named_colors;
use actiona::registration::{arg_count_error, enum_registration_name, singleton_registration_name, validate_source_format, SizedBody, SourceFormatError};
use actiona::schedule::{check_schedule, first_candidate, next_allowed_day, target_second_of_day, JsDatetime, JsDayOfWeek, Schedule, ScheduleError};
use actiona::color::Color;
use chrono::Datelike;

#[test]
fn named_color_table() {
    let colors = named_colors();
    assert_eq!(colors.len(), 142);
    assert_eq!(colors[0], ("Red".to_string(), Color::new(255, 0, 0, 255)));
    assert_eq!(colors[1], ("Green".to_string(), Color::new(0, 128, 0, 255)));
    assert_eq!(colors[5], ("Transparent".to_string(), Color::new(0, 0, 0, 0)));
    let rebecca = colors.iter().find(|(n, _)| n == "RebeccaPurple").unwrap();
    assert_eq!(rebecca.1, Color::new(102, 51, 153, 255));
    assert!(colors.iter().filter(|(n, _)| n != "Transparent").all(|(_, c)| c.a == 255));
}

#[test]
fn registration_names() {
    assert_eq!(enum_registration_name("core::api::image::js::JsFlipDirection"), "FlipDirection");
    assert_eq!(enum_registration_name("ClipboardMode"), "ClipboardMode");
    assert_eq!(enum_registration_name("a::Js"), "");
    assert_eq!(singleton_registration_name("JsDatetime"), "datetime");
    assert_eq!(singleton_registration_name("JsConsole"), "console");
    assert_eq!(singleton_registration_name("Filesystem"), "filesystem");
}

#[test]
fn durations_from_text() {
    let d = JsDuration::parse("10m").unwrap();
    assert_eq!(d.0.secs(), 600);
    assert_eq!(d.0.subsec_nanos(), 0);
    let e = JsDuration::parse("10q").unwrap_err();
    assert!(e.starts_with("Failed to parse duration '10q': "));
    let span = TimeSpan::new(1, 2_500_000_000).unwrap();
    assert_eq!((span.secs(), span.subsec_nanos()), (3, 500_000_000));
    assert!(TimeSpan::new(u64::MAX, 1_000_000_000).is_none());
    assert!(TimeSpan::from_millis(0).is_zero());
}

#[test]
fn clipboard_decisions() {
    assert_eq!(mode_or_default(None), ClipboardMode::Clipboard);
    assert_eq!(mode_or_default(Some(ClipboardMode::Selection)), ClipboardMode::Selection);
    let options = WaitForChangedOptions::default();
    assert_eq!(options.interval.subsec_nanos(), 200_000_000);
    assert_eq!(check_wait_options(&options), Ok(()));
    let zero = WaitForChangedOptions { mode: None, interval: TimeSpan::from_millis(0) };
    assert_eq!(check_wait_options(&zero), Err(WaitError::ZeroInterval));
    assert!(!snapshot_changed(ClipboardSnapshot::Hash(3), ClipboardSnapshot::Hash(3)));
    assert!(snapshot_changed(ClipboardSnapshot::Hash(3), ClipboardSnapshot::Empty));
    assert!(!snapshot_changed(ClipboardSnapshot::Empty, ClipboardSnapshot::Empty));
    assert_eq!(ContentNotAvailable.message(), "content not available (incorrect format or empty clipboard)");
}

#[test]
fn schedule_checks() {
    let s = |h, m, x, d| Schedule { hour: h, minute: m, second: x, day_of_week: None, day_of_month: d };
    assert_eq!(check_schedule(&s(Some(24), None, None, None)), Err(ScheduleError::Hour));
    assert_eq!(check_schedule(&s(Some(1), Some(60), None, None)), Err(ScheduleError::Minute));
    assert_eq!(check_schedule(&s(None, None, Some(60), None)), Err(ScheduleError::Second));
    assert_eq!(check_schedule(&s(None, None, None, Some(0))), Err(ScheduleError::DayOfMonth));
    assert_eq!(check_schedule(&s(None, None, None, Some(32))), Err(ScheduleError::DayOfMonth));
    assert_eq!(check_schedule(&s(Some(23), Some(59), Some(59), Some(31))), Ok(()));
    assert_eq!(ScheduleError::Hour.message(), "hour must be between 0 and 23");
    assert_eq!(target_second_of_day(&s(Some(13), Some(15), Some(30), None)), 13 * 3600 + 15 * 60 + 30);
    assert_eq!(first_candidate(10, 500, 500), 11);
    assert_eq!(first_candidate(10, 499, 500), 10);
    assert_eq!(JsDatetime::new().to_string_js(), "Datetime");
}

#[test]
fn next_allowed_days() {
    let today = chrono::NaiveDate::from_ymd_opt(2024, 2, 14).unwrap();
    let start = today.num_days_from_ce();
    let monday = Schedule { hour: None, minute: None, second: None, day_of_week: Some(JsDayOfWeek::Monday), day_of_month: None };
    let d = next_allowed_day(&monday, start).unwrap();
    let date = chrono::NaiveDate::from_num_days_from_ce_opt(d).unwrap();
    assert_eq!(date, chrono::NaiveDate::from_ymd_opt(2024, 2, 19).unwrap());
    let thirty_first = Schedule { hour: None, minute: None, second: None, day_of_week: None, day_of_month: Some(31) };
    let d = next_allowed_day(&thirty_first, start).unwrap();
    assert_eq!(chrono::NaiveDate::from_num_days_from_ce_opt(d).unwrap(), chrono::NaiveDate::from_ymd_opt(2024, 3, 31).unwrap());
    let friday_13 = Schedule { hour: None, minute: None, second: None, day_of_week: Some(JsDayOfWeek::Friday), day_of_month: Some(13) };
    let d = next_allowed_day(&friday_13, start).unwrap();
    assert_eq!(chrono::NaiveDate::from_num_days_from_ce_opt(d).unwrap(), chrono::NaiveDate::from_ymd_opt(2024, 9, 13).unwrap());
    assert_eq!(JsDayOfWeek::Sunday.number(), 6);
}

#[test]
fn input_types() {
    assert!(Direction::Press.is_press());
    assert!(Direction::Release.is_release());
    assert_eq!(X11Error::ReplyError("x".to_string()).message(), "X11 reply error: x");
    assert_eq!(MouseError::from(X11Error::ConnectError("no".to_string())).message(), "Connecting to the X11 server failed: no");
    assert_eq!(MouseError::NoMasterPointerDevice.message(), "Could not find master pointer device");
    assert_eq!(EnigoError::InputError("bad".to_string()).message(), "bad\n");
}

#[test]
fn process_ids() {
    assert_eq!(Pid::try_from(0u32).err(), Some(PidError::Zero));
    assert_eq!(Pid::try_from(-3i32).err(), Some(PidError::Negative(-3)));
    let p = Pid::try_from(42i32).unwrap();
    assert_eq!(u32::from(p), 42);
    assert_eq!(i32::try_from(p), Ok(42));
    let big = Pid::try_from(u32::MAX).unwrap();
    assert_eq!(i32::try_from(big), Err(PidError::TooLarge(u32::MAX)));
    assert_eq!(PidError::Negative(-3).message(), "process ID cannot be negative: -3");
    assert_eq!(PidError::Zero.message(), "process ID has to be non-zero");
}

#[test]
fn sized_bodies_and_audio_format() {
    let body = SizedBody::new(vec![1u8, 2, 3], 3);
    assert_eq!(body.exact_size(), 3);
    assert_eq!(validate_source_format(0, 2), Err(SourceFormatError::SampleRate));
    assert_eq!(validate_source_format(44_100, 0), Err(SourceFormatError::Channels));
    assert_eq!(validate_source_format(44_100, 2), Ok(()));
    assert_eq!(SourceFormatError::SampleRate.message(), "audio stream reports invalid sample rate: 0");
}

#[test]
fn from_js_duration_humantime() {
    let duration = JsDuration::parse("10m").unwrap();
    assert_eq!((duration.0.secs(), duration.0.subsec_nanos()), (10 * 60, 0));
}

#[test]
fn from_js_duration_invalid_suffix() {
    let result = JsDuration::parse("10q");
    assert!(result.is_err());
}

#[test]
fn durations_with_huge_numbers_are_refused() {
    let e = JsDuration::parse("18446744073709551615s 1000000000ns").unwrap_err();
    assert_eq!(
        e,
        "Failed to parse duration '18446744073709551615s 1000000000ns': number is too large or cannot be represented without a lack of precision (values below 1ns are not supported)"
    );
    assert!(JsDuration::parse("600000000000ns").is_err());
    let spaced = JsDuration::parse("1 2s").unwrap();
    assert_eq!(spaced.0.secs(), 12);
    let long = JsDuration::parse("10000y").unwrap();
    assert_eq!(long.0.secs(), 10000 * 31_557_600);
    let half = JsDuration::parse("1.5s 250ms").unwrap();
    assert_eq!((half.0.secs(), half.0.subsec_nanos()), (1, 750_000_000));
}

#[test]
fn argument_counts() {
    assert_eq!(arg_count_error(2, 2), None);
    assert_eq!(arg_count_error(2, 5), None);
    assert_eq!(arg_count_error(3, 1), Some("Expected at least 3 arguments, but 1 were provided".to_string()));
}
