//! Waiting for a schedule: days of the week, checking a schedule's fields,
//! and finding the next day that a schedule allows.

use chrono::Datelike;
use vstd::prelude::*;

verus! {

/// A day of the week.
#[derive(Clone, Copy, Debug, PartialEq, Eq, Structural, Hash)]
pub enum JsDayOfWeek {
    /// `DayOfWeek.Monday`.
    Monday,
    /// `DayOfWeek.Tuesday`.
    Tuesday,
    /// `DayOfWeek.Wednesday`.
    Wednesday,
    /// `DayOfWeek.Thursday`.
    Thursday,
    /// `DayOfWeek.Friday`.
    Friday,
    /// `DayOfWeek.Saturday`.
    Saturday,
    /// `DayOfWeek.Sunday`.
    Sunday,
}

/// The number of a day of the week, from Monday as 0 to Sunday as 6.
pub open spec fn day_number(d: JsDayOfWeek) -> u32 {
    match d {
        JsDayOfWeek::Monday => 0,
        JsDayOfWeek::Tuesday => 1,
        JsDayOfWeek::Wednesday => 2,
        JsDayOfWeek::Thursday => 3,
        JsDayOfWeek::Friday => 4,
        JsDayOfWeek::Saturday => 5,
        JsDayOfWeek::Sunday => 6,
    }
}

impl JsDayOfWeek {
    /// The number of this day, from Monday as 0 to Sunday as 6.
    pub fn number(&self) -> (n: u32)
        ensures
            n == day_number(*self),
    {
        match self {
            JsDayOfWeek::Monday => 0,
            JsDayOfWeek::Tuesday => 1,
            JsDayOfWeek::Wednesday => 2,
            JsDayOfWeek::Thursday => 3,
            JsDayOfWeek::Friday => 4,
            JsDayOfWeek::Saturday => 5,
            JsDayOfWeek::Sunday => 6,
        }
    }
}

/// The `datetime` singleton.
#[derive(Clone, Copy, Debug, Default)]
pub struct JsDatetime {}

impl JsDatetime {
    /// The singleton.
    pub fn new() -> (r: Self)
        ensures
            r == (JsDatetime {}),
    {
        JsDatetime {}
    }

    /// The text of the singleton: `Datetime`.
    pub fn to_string_js(&self) -> (s: String)
        ensures
            s@ == "Datetime"@,
    {
        String::from_str("Datetime")
    }
}

/// When a schedule fires: a time of day, defaulting to midnight, and
/// optionally a day of the week and a day of the month.
#[derive(Clone, Copy, Debug, PartialEq, Eq, Structural)]
pub struct Schedule {
    /// Target hour, 0 to 23.
    pub hour: Option<u32>,
    /// Target minute, 0 to 59.
    pub minute: Option<u32>,
    /// Target second, 0 to 59.
    pub second: Option<u32>,
    /// Target day of the week, any when absent.
    pub day_of_week: Option<JsDayOfWeek>,
    /// Target day of the month, 1 to 31, any when absent.
    pub day_of_month: Option<u32>,
}

/// A schedule field out of its range.
#[derive(Clone, Copy, Debug, PartialEq, Eq, Structural)]
pub enum ScheduleError {
    /// The hour is above 23.
    Hour,
    /// The minute is above 59.
    Minute,
    /// The second is above 59.
    Second,
    /// The day of the month is not between 1 and 31.
    DayOfMonth,
}

/// The first field of a schedule that is out of range, checked in the order
/// hour, minute, second, day of the month.
pub open spec fn schedule_error(s: Schedule) -> Option<ScheduleError> {
    if s.hour matches Some(h) && h > 23 {
        Some(ScheduleError::Hour)
    } else if s.minute matches Some(m) && m > 59 {
        Some(ScheduleError::Minute)
    } else if s.second matches Some(x) && x > 59 {
        Some(ScheduleError::Second)
    } else if s.day_of_month matches Some(d) && !(1 <= d <= 31) {
        Some(ScheduleError::DayOfMonth)
    } else {
        None
    }
}

/// Checks the fields of a schedule.
pub fn check_schedule(s: &Schedule) -> (r: Result<(), ScheduleError>)
    ensures
        match schedule_error(*s) {
            Some(e) => r == Err::<(), ScheduleError>(e),
            None => r is Ok,
        },
{
    if let Some(h) = s.hour {
        if h > 23 {
            return Err(ScheduleError::Hour);
        }
    }
    if let Some(m) = s.minute {
        if m > 59 {
            return Err(ScheduleError::Minute);
        }
    }
    if let Some(x) = s.second {
        if x > 59 {
            return Err(ScheduleError::Second);
        }
    }
    if let Some(d) = s.day_of_month {
        if d < 1 || d > 31 {
            return Err(ScheduleError::DayOfMonth);
        }
    }
    Ok(())
}

impl ScheduleError {
    /// The message of this error.
    pub fn message(&self) -> (m: String)
        ensures
            m@ == match *self {
                ScheduleError::Hour => "hour must be between 0 and 23"@,
                ScheduleError::Minute => "minute must be between 0 and 59"@,
                ScheduleError::Second => "second must be between 0 and 59"@,
                ScheduleError::DayOfMonth => "dayOfMonth must be between 1 and 31"@,
            },
    {
        match self {
            ScheduleError::Hour => String::from_str("hour must be between 0 and 23"),
            ScheduleError::Minute => String::from_str("minute must be between 0 and 59"),
            ScheduleError::Second => String::from_str("second must be between 0 and 59"),
            ScheduleError::DayOfMonth => String::from_str("dayOfMonth must be between 1 and 31"),
        }
    }
}

/// The second of the day a schedule fires at.
pub open spec fn target_second(s: Schedule) -> int {
    let h = match s.hour {
        Some(h) => h as int,
        None => 0,
    };
    let m = match s.minute {
        Some(m) => m as int,
        None => 0,
    };
    let x = match s.second {
        Some(x) => x as int,
        None => 0,
    };
    h * 3600 + m * 60 + x
}

/// The second of the day a checked schedule fires at.
pub fn target_second_of_day(s: &Schedule) -> (t: u32)
    requires
        schedule_error(*s) is None,
    ensures
        t == target_second(*s),
        t < 86400,
{
    let h = match s.hour {
        Some(h) => h,
        None => 0,
    };
    let m = match s.minute {
        Some(m) => m,
        None => 0,
    };
    let x = match s.second {
        Some(x) => x,
        None => 0,
    };
    h * 3600 + m * 60 + x
}

/// The first day the search looks at: today when the target time of day is
/// still ahead of the current one, else tomorrow.
pub fn first_candidate(today: i32, now_second_of_day: u32, target: u32) -> (d: i32)
    requires
        today < i32::MAX,
    ensures
        d == if target <= now_second_of_day {
            today + 1
        } else {
            today as int
        },
{
    if target <= now_second_of_day {
        today + 1
    } else {
        today
    }
}

/// The largest distance in days, before or after the common era, that the
/// calendar functions are asked about.
pub const DAY_LIMIT: i32 = 95_000_000;

/// The day of the week of a day counted from the first day of the common
/// era, from Monday as 0: that first day, January 1 of year 1 in the
/// proleptic Gregorian calendar, is a Monday, and weekdays repeat every
/// seven days.
pub open spec fn weekday_of(day: i32) -> u32 {
    ((day - 1) % 7) as u32
}

/// The day of the month of a day counted from the first day of the common
/// era, in the proleptic Gregorian calendar: the day is counted from March
/// 1 of year 0 (so that the leap day comes last) and placed within its
/// four-hundred-year cycle, its year of the cycle, its day of that year and
/// its month, whose months from March have 31, 30, 31, 30, 31 days in turn.
pub open spec fn month_day_of(day: i32) -> u32 {
    let z = day + 305;
    let doe = z % 146097;
    let yoe = (doe - doe / 1460 + doe / 36524 - doe / 146096) / 365;
    let doy = doe - (365 * yoe + yoe / 4 - yoe / 100);
    let mp = (5 * doy + 2) / 153;
    (doy - (153 * mp + 2) / 5 + 1) as u32
}


/// `NaiveDate::from_num_days_from_ce_opt(day)` and its weekday, counted
/// from Monday. Claims: the result is `weekday_of(day)` (day 1 is January 1
/// of year 1, a Monday, by the crate's documentation of the calendar it
/// uses), below 7 as the documentation of `num_days_from_monday` gives.
#[verifier::external_body]
fn weekday_number(day: i32) -> (w: u32)
    requires
        -DAY_LIMIT <= day <= DAY_LIMIT,
    ensures
        w == weekday_of(day),
        w < 7,
{
    chrono::NaiveDate::from_num_days_from_ce_opt(day).unwrap().weekday().num_days_from_monday()
}

/// `NaiveDate::from_num_days_from_ce_opt(day)` and its day of the month.
/// Claims: the result is `month_day_of(day)`, the day of the month in the
/// proleptic Gregorian calendar that the crate documents, with day 1 being
/// January 1 of year 1; from 1 to 31 as the documentation of `day` gives.
#[verifier::external_body]
fn month_day(day: i32) -> (d: u32)
    requires
        -DAY_LIMIT <= day <= DAY_LIMIT,
    ensures
        d == month_day_of(day),
        1 <= d <= 31,
{
    chrono::NaiveDate::from_num_days_from_ce_opt(day).unwrap().day()
}

/// Whether a schedule allows a day.
pub open spec fn day_allowed(s: Schedule, day: i32) -> bool {
    (s.day_of_week matches Some(w) ==> weekday_of(day) == day_number(w)) && (
    s.day_of_month matches Some(d) ==> month_day_of(day) == d)
}

/// The number of days in four hundred years of the Gregorian calendar,
/// after which weekdays and days of the month repeat.
pub const CALENDAR_CYCLE: i32 = 146_097;

/// The first day from `start` on that the schedule allows, looking at most
/// one calendar cycle ahead.
pub fn next_allowed_day(s: &Schedule, start: i32) -> (r: Option<i32>)
    requires
        -DAY_LIMIT <= start,
        start + CALENDAR_CYCLE <= DAY_LIMIT,
    ensures
        match r {
            Some(d) => start <= d < start + CALENDAR_CYCLE && day_allowed(*s, d) && forall|e: i32|
                start <= e < d ==> !day_allowed(*s, e),
            None => forall|e: i32| start <= e < start + CALENDAR_CYCLE ==> !day_allowed(*s, e),
        },
        (s.day_of_month matches Some(d) ==> 1 <= d <= 31) ==> r is Some,
{
    let mut day = start;
    while day < start + CALENDAR_CYCLE
        invariant
            -DAY_LIMIT <= start <= day <= start + CALENDAR_CYCLE,
            start + CALENDAR_CYCLE <= DAY_LIMIT,
            forall|e: i32| start <= e < day ==> !day_allowed(*s, e),
        decreases start + CALENDAR_CYCLE - day,
    {
        let week_ok = match s.day_of_week {
            Some(w) => weekday_number(day) == w.number(),
            None => true,
        };
        let month_ok = match s.day_of_month {
            Some(d) => month_day(day) == d,
            None => true,
        };
        if week_ok && month_ok {
            return Some(day);
        }
        day = day + 1;
    }
    proof {
        if s.day_of_month matches Some(d) ==> 1 <= d <= 31 {
            lemma_allowed_within_cycle(*s, start);
        }
    }
    None
}

/// Whether the second `t` of day `d` comes strictly after the second `now`
/// of day `today`.
pub open spec fn after_now(today: int, now: int, d: int, t: int) -> bool {
    d > today || (d == today && t > now)
}

/// The next time a schedule fires after the second `now_second_of_day` of
/// the day `today` (days counted from the first day of the common era), as
/// a day and a second of that day: the first allowed day at the schedule's
/// time of day that comes strictly later. Fails with the first field out of
/// range.
pub fn next_occurrence(s: &Schedule, today: i32, now_second_of_day: u32) -> (r: Result<
    (i32, u32),
    ScheduleError,
>)
    requires
        -DAY_LIMIT <= today,
        today + 1 + CALENDAR_CYCLE <= DAY_LIMIT,
    ensures
        match schedule_error(*s) {
            Some(e) => r == Err::<(i32, u32), ScheduleError>(e),
            None => r is Ok,
        },
        r matches Ok(o) ==> {
            &&& o.1 == target_second(*s)
            &&& after_now(today as int, now_second_of_day as int, o.0 as int, o.1 as int)
            &&& day_allowed(*s, o.0)
            &&& forall|e: i32|
                after_now(today as int, now_second_of_day as int, e as int, o.1 as int) && e < o.0
                    ==> !day_allowed(*s, e)
        },
{
    match check_schedule(s) {
        Err(e) => return Err(e),
        Ok(()) => {},
    }
    let target = target_second_of_day(s);
    let start = first_candidate(today, now_second_of_day, target);
    match next_allowed_day(s, start) {
        Some(day) => {
            assert forall|e: i32|
                after_now(today as int, now_second_of_day as int, e as int, target as int) && e
                    < day implies !day_allowed(*s, e) by {
                assert(start <= e);
            }
            Ok((day, target))
        },
        None => {
            proof {
                assert(false);
            }
            Err(ScheduleError::DayOfMonth)
        },
    }
}

/// A whole calendar cycle later, a day has the same day of the month and
/// the same weekday: the cycle is 146_097 days, a multiple of seven.
proof fn lemma_calendar_period(c: i32, e: i32, k: int)
    requires
        e == c + 146097 * k,
    ensures
        month_day_of(e) == month_day_of(c),
        weekday_of(e) == weekday_of(c),
{
    vstd::arithmetic::div_mod::lemma_mod_multiples_vanish(k, c + 305, 146097);
    assert(e + 305 == 146097 * k + (c + 305));
    assert(146097 * k == 7 * (20871 * k)) by (nonlinear_arith);
    vstd::arithmetic::div_mod::lemma_mod_multiples_vanish(20871 * k, c - 1, 7);
    assert(e - 1 == 7 * (20871 * k) + (c - 1));
}

/// A day of the first cycle that is a Monday and the `d`-th of its
/// month.
proof fn lemma_monday_of_month(d: u32) -> (c: i32)
    requires
        1 <= d <= 31,
    ensures
        1 <= c <= 455,
        weekday_of(c) == 0,
        month_day_of(c) == d,
{
    if d == 1 {
        1
    } else if d == 2 {
        92
    } else if d == 3 {
        246
    } else if d == 4 {
        155
    } else if d == 5 {
        36
    } else if d == 6 {
        218
    } else if d == 7 {
        127
    } else if d == 8 {
        8
    } else if d == 9 {
        99
    } else if d == 10 {
        253
    } else if d == 11 {
        162
    } else if d == 12 {
        43
    } else if d == 13 {
        225
    } else if d == 14 {
        134
    } else if d == 15 {
        15
    } else if d == 16 {
        106
    } else if d == 17 {
        260
    } else if d == 18 {
        169
    } else if d == 19 {
        50
    } else if d == 20 {
        232
    } else if d == 21 {
        141
    } else if d == 22 {
        22
    } else if d == 23 {
        113
    } else if d == 24 {
        267
    } else if d == 25 {
        176
    } else if d == 26 {
        57
    } else if d == 27 {
        239
    } else if d == 28 {
        148
    } else if d == 29 {
        29
    } else if d == 30 {
        120
    } else {
        365
    }
}

/// A day of the first cycle that is a Tuesday and the `d`-th of its
/// month.
proof fn lemma_tuesday_of_month(d: u32) -> (c: i32)
    requires
        1 <= d <= 31,
    ensures
        1 <= c <= 455,
        weekday_of(c) == 1,
        month_day_of(c) == d,
{
    if d == 1 {
        121
    } else if d == 2 {
        2
    } else if d == 3 {
        93
    } else if d == 4 {
        247
    } else if d == 5 {
        156
    } else if d == 6 {
        37
    } else if d == 7 {
        219
    } else if d == 8 {
        128
    } else if d == 9 {
        9
    } else if d == 10 {
        100
    } else if d == 11 {
        254
    } else if d == 12 {
        163
    } else if d == 13 {
        44
    } else if d == 14 {
        226
    } else if d == 15 {
        135
    } else if d == 16 {
        16
    } else if d == 17 {
        107
    } else if d == 18 {
        261
    } else if d == 19 {
        170
    } else if d == 20 {
        51
    } else if d == 21 {
        233
    } else if d == 22 {
        142
    } else if d == 23 {
        23
    } else if d == 24 {
        114
    } else if d == 25 {
        268
    } else if d == 26 {
        177
    } else if d == 27 {
        58
    } else if d == 28 {
        240
    } else if d == 29 {
        149
    } else if d == 30 {
        30
    } else {
        212
    }
}

/// A day of the first cycle that is a Wednesday and the `d`-th of its
/// month.
proof fn lemma_wednesday_of_month(d: u32) -> (c: i32)
    requires
        1 <= d <= 31,
    ensures
        1 <= c <= 455,
        weekday_of(c) == 2,
        month_day_of(c) == d,
{
    if d == 1 {
        213
    } else if d == 2 {
        122
    } else if d == 3 {
        3
    } else if d == 4 {
        94
    } else if d == 5 {
        248
    } else if d == 6 {
        157
    } else if d == 7 {
        38
    } else if d == 8 {
        220
    } else if d == 9 {
        129
    } else if d == 10 {
        10
    } else if d == 11 {
        101
    } else if d == 12 {
        255
    } else if d == 13 {
        164
    } else if d == 14 {
        45
    } else if d == 15 {
        227
    } else if d == 16 {
        136
    } else if d == 17 {
        17
    } else if d == 18 {
        108
    } else if d == 19 {
        262
    } else if d == 20 {
        171
    } else if d == 21 {
        52
    } else if d == 22 {
        234
    } else if d == 23 {
        143
    } else if d == 24 {
        24
    } else if d == 25 {
        115
    } else if d == 26 {
        269
    } else if d == 27 {
        178
    } else if d == 28 {
        59
    } else if d == 29 {
        241
    } else if d == 30 {
        150
    } else {
        31
    }
}

/// A day of the first cycle that is a Thursday and the `d`-th of its
/// month.
proof fn lemma_thursday_of_month(d: u32) -> (c: i32)
    requires
        1 <= d <= 31,
    ensures
        1 <= c <= 455,
        weekday_of(c) == 3,
        month_day_of(c) == d,
{
    if d == 1 {
        32
    } else if d == 2 {
        214
    } else if d == 3 {
        123
    } else if d == 4 {
        4
    } else if d == 5 {
        95
    } else if d == 6 {
        249
    } else if d == 7 {
        158
    } else if d == 8 {
        39
    } else if d == 9 {
        221
    } else if d == 10 {
        130
    } else if d == 11 {
        11
    } else if d == 12 {
        102
    } else if d == 13 {
        256
    } else if d == 14 {
        165
    } else if d == 15 {
        46
    } else if d == 16 {
        228
    } else if d == 17 {
        137
    } else if d == 18 {
        18
    } else if d == 19 {
        109
    } else if d == 20 {
        263
    } else if d == 21 {
        172
    } else if d == 22 {
        53
    } else if d == 23 {
        235
    } else if d == 24 {
        144
    } else if d == 25 {
        25
    } else if d == 26 {
        116
    } else if d == 27 {
        270
    } else if d == 28 {
        179
    } else if d == 29 {
        88
    } else if d == 30 {
        242
    } else {
        151
    }
}

/// A day of the first cycle that is a Friday and the `d`-th of its
/// month.
proof fn lemma_friday_of_month(d: u32) -> (c: i32)
    requires
        1 <= d <= 31,
    ensures
        1 <= c <= 455,
        weekday_of(c) == 4,
        month_day_of(c) == d,
{
    if d == 1 {
        152
    } else if d == 2 {
        33
    } else if d == 3 {
        215
    } else if d == 4 {
        124
    } else if d == 5 {
        5
    } else if d == 6 {
        96
    } else if d == 7 {
        250
    } else if d == 8 {
        159
    } else if d == 9 {
        40
    } else if d == 10 {
        222
    } else if d == 11 {
        131
    } else if d == 12 {
        12
    } else if d == 13 {
        103
    } else if d == 14 {
        257
    } else if d == 15 {
        166
    } else if d == 16 {
        47
    } else if d == 17 {
        229
    } else if d == 18 {
        138
    } else if d == 19 {
        19
    } else if d == 20 {
        110
    } else if d == 21 {
        264
    } else if d == 22 {
        173
    } else if d == 23 {
        54
    } else if d == 24 {
        236
    } else if d == 25 {
        145
    } else if d == 26 {
        26
    } else if d == 27 {
        117
    } else if d == 28 {
        271
    } else if d == 29 {
        180
    } else if d == 30 {
        89
    } else {
        243
    }
}

/// A day of the first cycle that is a Saturday and the `d`-th of its
/// month.
proof fn lemma_saturday_of_month(d: u32) -> (c: i32)
    requires
        1 <= d <= 31,
    ensures
        1 <= c <= 455,
        weekday_of(c) == 5,
        month_day_of(c) == d,
{
    if d == 1 {
        244
    } else if d == 2 {
        153
    } else if d == 3 {
        34
    } else if d == 4 {
        216
    } else if d == 5 {
        125
    } else if d == 6 {
        6
    } else if d == 7 {
        97
    } else if d == 8 {
        251
    } else if d == 9 {
        160
    } else if d == 10 {
        41
    } else if d == 11 {
        223
    } else if d == 12 {
        132
    } else if d == 13 {
        13
    } else if d == 14 {
        104
    } else if d == 15 {
        258
    } else if d == 16 {
        167
    } else if d == 17 {
        48
    } else if d == 18 {
        230
    } else if d == 19 {
        139
    } else if d == 20 {
        20
    } else if d == 21 {
        111
    } else if d == 22 {
        265
    } else if d == 23 {
        174
    } else if d == 24 {
        55
    } else if d == 25 {
        237
    } else if d == 26 {
        146
    } else if d == 27 {
        27
    } else if d == 28 {
        118
    } else if d == 29 {
        272
    } else if d == 30 {
        181
    } else {
        90
    }
}

/// A day of the first cycle that is a Sunday and the `d`-th of its
/// month.
proof fn lemma_sunday_of_month(d: u32) -> (c: i32)
    requires
        1 <= d <= 31,
    ensures
        1 <= c <= 455,
        weekday_of(c) == 6,
        month_day_of(c) == d,
{
    if d == 1 {
        91
    } else if d == 2 {
        245
    } else if d == 3 {
        154
    } else if d == 4 {
        35
    } else if d == 5 {
        217
    } else if d == 6 {
        126
    } else if d == 7 {
        7
    } else if d == 8 {
        98
    } else if d == 9 {
        252
    } else if d == 10 {
        161
    } else if d == 11 {
        42
    } else if d == 12 {
        224
    } else if d == 13 {
        133
    } else if d == 14 {
        14
    } else if d == 15 {
        105
    } else if d == 16 {
        259
    } else if d == 17 {
        168
    } else if d == 18 {
        49
    } else if d == 19 {
        231
    } else if d == 20 {
        140
    } else if d == 21 {
        21
    } else if d == 22 {
        112
    } else if d == 23 {
        266
    } else if d == 24 {
        175
    } else if d == 25 {
        56
    } else if d == 26 {
        238
    } else if d == 27 {
        147
    } else if d == 28 {
        28
    } else if d == 29 {
        119
    } else if d == 30 {
        273
    } else {
        455
    }
}

/// Within one calendar cycle from any day, a schedule whose day of the
/// month, if any, lies between 1 and 31 allows some day.
proof fn lemma_allowed_within_cycle(s: Schedule, start: i32)
    requires
        s.day_of_month matches Some(d) ==> 1 <= d <= 31,
        -DAY_LIMIT <= start,
        start + CALENDAR_CYCLE <= DAY_LIMIT,
    ensures
        exists|e: i32| start <= e < start + CALENDAR_CYCLE && day_allowed(s, e),
{
    match s.day_of_month {
        None => {
            lemma_weekday_within_a_week(s, start);
        },
        Some(d) => {
            let c = match s.day_of_week {
                Some(JsDayOfWeek::Tuesday) => lemma_tuesday_of_month(d),
                Some(JsDayOfWeek::Wednesday) => lemma_wednesday_of_month(d),
                Some(JsDayOfWeek::Thursday) => lemma_thursday_of_month(d),
                Some(JsDayOfWeek::Friday) => lemma_friday_of_month(d),
                Some(JsDayOfWeek::Saturday) => lemma_saturday_of_month(d),
                Some(JsDayOfWeek::Sunday) => lemma_sunday_of_month(d),
                _ => lemma_monday_of_month(d),
            };
            let diff = c - start;
            vstd::arithmetic::div_mod::lemma_fundamental_div_mod(diff, 146097);
            let q = diff / 146097;
            let r = diff % 146097;
            let e = (start + r) as i32;
            assert(e == c + 146097 * (-q));
            lemma_calendar_period(c, e, -q);
            assert(day_allowed(s, e));
        },
    }
}

/// Within seven days from any day, a schedule that names no day of the
/// month allows one.
proof fn lemma_weekday_within_a_week(s: Schedule, start: i32)
    requires
        s.day_of_month is None,
        start + 7 <= i32::MAX,
    ensures
        exists|e: i32| start <= e < start + 7 && day_allowed(s, e),
{
    match s.day_of_week {
        None => {
            assert(day_allowed(s, start));
        },
        Some(w) => {
            let n = day_number(w) as int;
            let k = (n - (start - 1)) % 7;
            let e = (start + k) as i32;
            assert(((e - 1) % 7) == n) by (nonlinear_arith)
                requires
                    0 <= n < 7,
                    k == (n - (start - 1)) % 7,
                    e == start + k,
            ;
            assert(day_allowed(s, e));
        },
    }
}

} // verus!
