use adhaan::method::standard_adjustments;
use adhaan::time::NANOS_PER_MINUTE;
use adhaan::{CivilDate, DayEvents, Prayer, PrayerTimes, TimeAdjustment, UtcTime};
use chrono::{TimeZone, Utc};

fn utc(year: i32, month: u32, day: u32, hour: u32, minute: u32, second: u32) -> UtcTime {
    let t = Utc.with_ymd_and_hms(year, month, day, hour, minute, second).unwrap();
    UtcTime::from_parts(t.timestamp(), t.timestamp_subsec_nanos())
}

/// The sun's events at Raleigh (35.7750, -78.6336) around 2015-07-12, and the
/// times of the North American method, before adjustments.
fn raleigh_events() -> DayEvents {
    DayEvents {
        sunset_yesterday: utc(2015, 7, 12, 0, 32, 0),
        fajr: utc(2015, 7, 12, 8, 42, 0),
        sunrise: utc(2015, 7, 12, 10, 7, 0),
        transit: utc(2015, 7, 12, 17, 20, 0),
        asr_awwal: Some(utc(2015, 7, 12, 21, 5, 0)),
        asr_thaani: Some(utc(2015, 7, 12, 22, 22, 0)),
        sunset: utc(2015, 7, 13, 0, 32, 0),
        isha: utc(2015, 7, 13, 1, 57, 0),
        fajr_tomorrow: utc(2015, 7, 13, 8, 43, 0),
    }
}

fn raleigh_date() -> CivilDate {
    CivilDate { year: 2015, month: 7, day: 12 }
}

fn raleigh_times() -> PrayerTimes {
    let user = TimeAdjustment::default();
    PrayerTimes::from_events(raleigh_date(), raleigh_events(), &user, &standard_adjustments()).unwrap()
}

fn at(hours: i128, minutes: i128) -> UtcTime {
    let midnight = utc(2015, 7, 12, 0, 0, 0);
    UtcTime { nanos: midnight.nanos + (hours * 60 + minutes) * NANOS_PER_MINUTE }
}

#[test]
fn current_prayer_should_be_yesterday() {
    assert_eq!(raleigh_times().prayer_at(at(1, 55)), Prayer::Yesterday);
}

#[test]
fn current_prayer_should_be_qiyam_yesterday() {
    assert_eq!(raleigh_times().prayer_at(at(6, 0)), Prayer::QiyamYesterday);
}

#[test]
fn current_prayer_should_be_fajr() {
    assert_eq!(raleigh_times().prayer_at(at(9, 0)), Prayer::Fajr);
}

#[test]
fn current_prayer_should_be_sunrise() {
    assert_eq!(raleigh_times().prayer_at(at(11, 0)), Prayer::Sunrise);
}

#[test]
fn current_prayer_should_be_dhuhr() {
    assert_eq!(raleigh_times().prayer_at(at(19, 0)), Prayer::Dhuhr);
}

#[test]
fn current_prayer_should_be_asr_awwal() {
    assert_eq!(raleigh_times().prayer_at(at(21, 10)), Prayer::AsrAwwal);
}

#[test]
fn current_prayer_should_be_asr_thaani() {
    assert_eq!(raleigh_times().prayer_at(at(22, 25)), Prayer::AsrThaani);
}

#[test]
fn current_prayer_should_be_maghrib() {
    assert_eq!(raleigh_times().prayer_at(at(24, 35)), Prayer::Maghrib);
}

#[test]
fn current_prayer_should_be_isha() {
    assert_eq!(raleigh_times().prayer_at(at(26, 0)), Prayer::Isha);
}

#[test]
fn current_prayer_should_be_qiyam() {
    assert_eq!(raleigh_times().prayer_at(at(30, 0)), Prayer::Qiyam);
}

#[test]
fn current_prayer_should_be_tomorrow() {
    assert_eq!(raleigh_times().prayer_at(at(32, 45)), Prayer::Tomorrow);
}

#[test]
fn schedule_applies_adjustments() {
    let times = raleigh_times();
    assert_eq!(times.time_of(Prayer::Fajr), Some(utc(2015, 7, 12, 8, 42, 0)));
    assert_eq!(times.time_of(Prayer::Sunrise), Some(utc(2015, 7, 12, 10, 7, 0)));
    assert_eq!(times.time_of(Prayer::Dhuhr), Some(utc(2015, 7, 12, 17, 21, 0)));
    assert_eq!(times.time_of(Prayer::AsrThaani), Some(utc(2015, 7, 12, 22, 22, 0)));
    assert_eq!(times.time_of(Prayer::Maghrib), Some(utc(2015, 7, 13, 0, 32, 0)));
    assert_eq!(times.time_of(Prayer::Isha), Some(utc(2015, 7, 13, 1, 57, 0)));
    assert_eq!(times.date, raleigh_date());
}

#[test]
fn user_adjustments_add_to_the_methods() {
    let user = TimeAdjustment { fajr: -2, sunrise: 0, dhuhr: 4, asr: 1, maghrib: 0, isha: 10 };
    let times =
        PrayerTimes::from_events(raleigh_date(), raleigh_events(), &user, &standard_adjustments()).unwrap();
    assert_eq!(times.time_of(Prayer::Fajr), Some(utc(2015, 7, 12, 8, 40, 0)));
    assert_eq!(times.time_of(Prayer::Dhuhr), Some(utc(2015, 7, 12, 17, 25, 0)));
    assert_eq!(times.time_of(Prayer::AsrAwwal), Some(utc(2015, 7, 12, 21, 6, 0)));
    assert_eq!(times.time_of(Prayer::AsrThaani), Some(utc(2015, 7, 12, 22, 23, 0)));
    assert_eq!(times.time_of(Prayer::Isha), Some(utc(2015, 7, 13, 2, 7, 0)));
    assert_eq!(times.fajr_tomorrow, utc(2015, 7, 13, 8, 41, 0));
}

#[test]
fn qiyam_is_last_third_of_night() {
    // Maghrib 00:32, tomorrow's Fajr 08:43: the night lasts 8h11m, its middle
    // is 04:37:30 and its last third starts at 05:59:20.
    let times = raleigh_times();
    assert_eq!(times.middle_of_night, utc(2015, 7, 13, 4, 37, 30));
    assert_eq!(times.qiyam, utc(2015, 7, 13, 5, 59, 20));
    assert_eq!(times.time_of(Prayer::Qiyam), Some(utc(2015, 7, 13, 5, 59, 0)));
    // Yesterday's Maghrib 00:32, today's Fajr 08:42: 5h26m40s after Maghrib.
    assert_eq!(times.qiyam_yesterday, utc(2015, 7, 12, 5, 58, 40));
    assert_eq!(times.time_of(Prayer::QiyamYesterday), Some(utc(2015, 7, 12, 5, 58, 0)));
}

#[test]
fn no_time_for_yesterday_or_tomorrow() {
    let times = raleigh_times();
    assert_eq!(times.time_of(Prayer::Yesterday), None);
    assert_eq!(times.time_of(Prayer::Tomorrow), None);
}

#[test]
fn fajr_rounds_down_and_dhuhr_to_nearest() {
    let mut events = raleigh_events();
    events.fajr = utc(2015, 7, 12, 8, 42, 50);
    events.transit = utc(2015, 7, 12, 17, 19, 30);
    let times =
        PrayerTimes::from_events(raleigh_date(), events, &TimeAdjustment::default(), &standard_adjustments())
            .unwrap();
    assert_eq!(times.time_of(Prayer::Fajr), Some(utc(2015, 7, 12, 8, 42, 0)));
    assert_eq!(times.time_of(Prayer::Dhuhr), Some(utc(2015, 7, 12, 17, 21, 0)));
}

#[test]
fn no_schedule_without_asr() {
    let mut events = raleigh_events();
    events.asr_thaani = None;
    let times =
        PrayerTimes::from_events(raleigh_date(), events, &TimeAdjustment::default(), &standard_adjustments());
    assert_eq!(times, None);
}

#[test]
fn each_prayer_is_current_at_its_start() {
    let times = raleigh_times();
    assert_eq!(times.prayer_at(times.fajr), Prayer::Fajr);
    assert_eq!(times.prayer_at(times.maghrib), Prayer::Maghrib);
    assert_eq!(times.prayer_at(times.fajr_tomorrow), Prayer::Tomorrow);
    assert_eq!(times.prayer_at(UtcTime { nanos: times.fajr.nanos - 1 }), Prayer::QiyamYesterday);
}
