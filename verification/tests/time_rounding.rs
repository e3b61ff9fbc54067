use adhaan::time::{floor_div_mod, span_div, NANOS_PER_MINUTE, NANOS_PER_SECOND};
use adhaan::{CivilDate, UtcTime};
use chrono::{Datelike, TimeZone, Utc};

fn utc(year: i32, month: u32, day: u32, hour: u32, minute: u32, second: u32) -> UtcTime {
    let t = Utc.with_ymd_and_hms(year, month, day, hour, minute, second).unwrap();
    UtcTime::from_parts(t.timestamp(), t.timestamp_subsec_nanos())
}

#[test]
fn calculate_nearest_minute() {
    let time_1 = utc(2015, 7, 13, 4, 37, 30);
    let time_2 = utc(2015, 7, 13, 5, 59, 20);

    assert_eq!(time_1.round_to_minute(), utc(2015, 7, 13, 4, 38, 0));
    assert_eq!(time_2.round_to_minute(), utc(2015, 7, 13, 5, 59, 0));
}

#[test]
fn truncating_to_the_minute_rounds_down() {
    let time = utc(2015, 7, 13, 5, 59, 50);
    assert_eq!(time.truncate_to_minute(), utc(2015, 7, 13, 5, 59, 0));
    let before_epoch = UtcTime { nanos: -1 };
    assert_eq!(before_epoch.truncate_to_minute().nanos, -NANOS_PER_MINUTE);
    assert_eq!(before_epoch.round_to_minute().nanos, 0);
}

#[test]
fn rounding_a_negative_timestamp_halfway_goes_up() {
    let halfway = UtcTime { nanos: -30 * NANOS_PER_SECOND };
    assert_eq!(halfway.round_to_minute().nanos, 0);
    let just_past = UtcTime { nanos: -30 * NANOS_PER_SECOND - 1 };
    assert_eq!(just_past.round_to_minute().nanos, -NANOS_PER_MINUTE);
}

#[test]
fn parts_round_trip() {
    let t = UtcTime { nanos: -1_500_000_000 };
    assert_eq!(t.to_parts(), (-2, 500_000_000));
    assert_eq!(UtcTime::from_parts(-2, 500_000_000), t);
    assert_eq!(floor_div_mod(-7, 3), (-3, 2));
}

#[test]
fn span_division_follows_chrono() {
    let seven_hours = 7 * 60 * NANOS_PER_MINUTE;
    assert_eq!(span_div(seven_hours, 7), 60 * NANOS_PER_MINUTE);
    // chrono divides seconds and nanoseconds apart, which here loses one
    // nanosecond against the exact quotient 333_333_334.
    assert_eq!(span_div(1_000_000_002, 3), 333_333_333);
    assert_eq!(span_div(-1, 2), -1);
}

#[test]
fn day_numbers_and_midnights() {
    let epoch = CivilDate { year: 1970, month: 1, day: 1 };
    assert_eq!(epoch.day_number(), 719_163);
    assert_eq!(epoch.midnight().nanos, 0);
    let next = CivilDate { year: 1970, month: 1, day: 2 };
    assert_eq!(next.midnight().nanos, 86_400 * NANOS_PER_SECOND);
    let leap_day = CivilDate { year: 2016, month: 2, day: 29 };
    let march = CivilDate { year: 2016, month: 3, day: 1 };
    assert_eq!(march.day_number() - leap_day.day_number(), 1);
}

#[test]
fn setting_a_time_on_a_date_rounds_to_the_minute() {
    let date = CivilDate { year: 2015, month: 7, day: 12 };
    // 10:07:54 rounds to 10:08
    assert_eq!(date.time_at(36_474), utc(2015, 7, 12, 10, 8, 0));
    // 24:32:10 is 00:32 the next day
    assert_eq!(date.time_at(88_330), utc(2015, 7, 13, 0, 32, 0));
    assert_eq!(date.checked_time_at(36_474), Some(utc(2015, 7, 12, 10, 8, 0)));
    let far = CivilDate { year: 2300, month: 1, day: 1 };
    assert_eq!(far.checked_time_at(0), None);
}

#[test]
fn zero_out_time_for_a_date() {
    // Local date below is 2019-01-11T04:41:19Z in UTC
    let utc_date = Utc.with_ymd_and_hms(2019, 1, 11, 23, 41, 19).unwrap();
    let date = CivilDate { year: utc_date.year(), month: utc_date.month(), day: utc_date.day() };
    assert_eq!(date.midnight(), utc(2019, 1, 11, 0, 0, 0));
}
