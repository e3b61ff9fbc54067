use adhaan::method::{isha_after_interval, standard_adjustments, standard_fajr, standard_isha};
use adhaan::moonsighting_com::{days_since_solstice, season_phase, SeasonAnchor, SeasonPhase};
use adhaan::polar::nearest_valid_day;
use adhaan::prominent_methods::{
    Common, Dubai, Egyptian, IshaOption, Karachi, Kuwait, MoonsightingCom, MuslimWorldLeague,
    NorthAmerica, Qatar, Singapore, UmmAlQura,
};
use adhaan::time::NANOS_PER_MINUTE;
use adhaan::{CivilDate, Prayer, TimeAdjustment, UtcTime};

fn minutes(m: i128) -> UtcTime {
    UtcTime { nanos: m * NANOS_PER_MINUTE }
}

#[test]
fn default_adjustment_is_zero() {
    let zero = TimeAdjustment::default();
    assert_eq!(zero, TimeAdjustment { fajr: 0, sunrise: 0, dhuhr: 0, asr: 0, maghrib: 0, isha: 0 });
}

#[test]
fn totals_add_user_and_method_adjustments() {
    let user = TimeAdjustment { fajr: 1, sunrise: 2, dhuhr: 3, asr: 4, maghrib: 5, isha: 6 };
    let method = Dubai.adjustments();
    assert_eq!(user.total_for(&method, Prayer::Fajr), 1);
    assert_eq!(user.total_for(&method, Prayer::Sunrise), -1);
    assert_eq!(user.total_for(&method, Prayer::Dhuhr), 6);
    assert_eq!(user.total_for(&method, Prayer::AsrAwwal), 7);
    assert_eq!(user.total_for(&method, Prayer::AsrThaani), 7);
    assert_eq!(user.total_for(&method, Prayer::Maghrib), 8);
    assert_eq!(user.total_for(&method, Prayer::Isha), 6);
    assert_eq!(user.total_for(&method, Prayer::Qiyam), 0);
    assert_eq!(user.total_for(&method, Prayer::QiyamYesterday), 0);
    assert_eq!(user.total_for(&method, Prayer::Yesterday), 0);
    assert_eq!(user.total_for(&method, Prayer::Tomorrow), 0);
}

#[test]
fn method_adjustments() {
    let standard = TimeAdjustment { fajr: 0, sunrise: 0, dhuhr: 1, asr: 0, maghrib: 0, isha: 0 };
    let none = TimeAdjustment::default();
    assert_eq!(standard_adjustments(), standard);
    assert_eq!(Common.adjustments(), standard);
    assert_eq!(MuslimWorldLeague.adjustments(), standard);
    assert_eq!(Egyptian.adjustments(), standard);
    assert_eq!(Karachi.adjustments(), standard);
    assert_eq!(NorthAmerica.adjustments(), standard);
    assert_eq!(Singapore.adjustments(), standard);
    assert_eq!(UmmAlQura.adjustments(), none);
    assert_eq!(Kuwait.adjustments(), none);
    assert_eq!(Qatar.adjustments(), none);
    assert_eq!(
        Dubai.adjustments(),
        TimeAdjustment { fajr: 0, sunrise: -3, dhuhr: 3, asr: 3, maghrib: 3, isha: 0 }
    );
    assert_eq!(
        MoonsightingCom(IshaOption::Mixed).adjustments(),
        TimeAdjustment { fajr: 0, sunrise: 0, dhuhr: 5, asr: 0, maghrib: 3, isha: 0 }
    );
}

#[test]
fn method_isha_intervals() {
    assert_eq!(MuslimWorldLeague.isha_interval(), None);
    assert_eq!(Egyptian.isha_interval(), None);
    assert_eq!(Karachi.isha_interval(), None);
    assert_eq!(UmmAlQura.isha_interval(), Some(90));
    assert_eq!(Dubai.isha_interval(), None);
    assert_eq!(MoonsightingCom(IshaOption::Mixed).isha_interval(), None);
    assert_eq!(NorthAmerica.isha_interval(), None);
    assert_eq!(Kuwait.isha_interval(), None);
    assert_eq!(Qatar.isha_interval(), Some(90));
    assert_eq!(Singapore.isha_interval(), None);
    assert_eq!(Common.isha_interval(), None);
}

#[test]
fn standard_fajr_keeps_to_the_night_portion() {
    let sunrise = minutes(600);
    // half of an 8 hour night is 240 minutes: the bound is minute 360
    let portion = 240 * 60 * 1000;
    assert_eq!(standard_fajr(Some(minutes(500)), sunrise, portion), minutes(500));
    assert_eq!(standard_fajr(Some(minutes(300)), sunrise, portion), minutes(360));
    assert_eq!(standard_fajr(None, sunrise, portion), minutes(360));
}

#[test]
fn standard_isha_keeps_to_the_night_portion() {
    let sunset = minutes(1200);
    let portion = 60 * 60 * 1000;
    assert_eq!(standard_isha(Some(minutes(1250)), sunset, portion), minutes(1250));
    assert_eq!(standard_isha(Some(minutes(1300)), sunset, portion), minutes(1260));
    assert_eq!(standard_isha(None, sunset, portion), minutes(1260));
}

#[test]
fn interval_isha() {
    let sunset = minutes(1200);
    assert_eq!(isha_after_interval(sunset, None), minutes(1290));
    assert_eq!(isha_after_interval(sunset, Some(120)), minutes(1320));
}

#[test]
fn moonsighting_beyond_latitude_55_uses_a_seventh_of_the_night() {
    let method = MoonsightingCom(IshaOption::Mixed);
    let night = 14 * 60 * NANOS_PER_MINUTE;
    let sunrise = minutes(500);
    // a seventh of 14 hours is 2 hours; the seasonal bound is 100 minutes
    assert_eq!(method.fajr_time(sunrise, night, None, true, 100), minutes(400));
    // a seasonal bound of 150 minutes keeps the seventh
    assert_eq!(method.fajr_time(sunrise, night, None, true, 150), minutes(380));
    let sunset = minutes(1000);
    assert_eq!(method.isha_time(sunset, night, None, true, 100), minutes(1100));
    assert_eq!(method.isha_time(sunset, night, None, true, 150), minutes(1120));
}

#[test]
fn moonsighting_below_latitude_55_uses_the_angle() {
    let method = MoonsightingCom(IshaOption::Redness);
    let night = 10 * 60 * NANOS_PER_MINUTE;
    assert_eq!(method.fajr_time(minutes(500), night, Some(minutes(420)), false, 90), minutes(420));
    assert_eq!(method.fajr_time(minutes(500), night, Some(minutes(380)), false, 90), minutes(410));
    assert_eq!(method.isha_time(minutes(1000), night, Some(minutes(1070)), false, 90), minutes(1070));
    assert_eq!(method.isha_time(minutes(1000), night, Some(minutes(1100)), false, 90), minutes(1090));
}

#[test]
fn days_from_the_solstice() {
    let date = CivilDate { year: 2016, month: 1, day: 31 };
    assert_eq!(days_since_solstice(date, true), 325);
    assert_eq!(days_since_solstice(date, false), 142);
    let solstice = CivilDate { year: 2016, month: 12, day: 21 };
    assert_eq!(days_since_solstice(solstice, true), 0);
    let after = CivilDate { year: 2016, month: 12, day: 31 };
    assert_eq!(days_since_solstice(after, true), 10);
}

#[test]
fn seasonal_phases() {
    let phase = |from, to, length, elapsed| SeasonPhase { from, to, length, elapsed };
    assert_eq!(season_phase(0), phase(SeasonAnchor::A, SeasonAnchor::B, 91, 0));
    assert_eq!(season_phase(90), phase(SeasonAnchor::A, SeasonAnchor::B, 91, 90));
    assert_eq!(season_phase(91), phase(SeasonAnchor::B, SeasonAnchor::C, 46, 0));
    assert_eq!(season_phase(137), phase(SeasonAnchor::C, SeasonAnchor::D, 46, 0));
    assert_eq!(season_phase(183), phase(SeasonAnchor::D, SeasonAnchor::C, 46, 0));
    assert_eq!(season_phase(229), phase(SeasonAnchor::C, SeasonAnchor::B, 46, 0));
    assert_eq!(season_phase(274), phase(SeasonAnchor::C, SeasonAnchor::B, 46, 45));
    assert_eq!(season_phase(325), phase(SeasonAnchor::B, SeasonAnchor::A, 91, 50));
}

#[test]
fn nearest_day_search_order() {
    let found = nearest_valid_day(|offset| if offset == -2 || offset == 5 { Some(offset * 10) } else { None });
    assert_eq!(found, Some((-2, -20)));
    let later_first = nearest_valid_day(|offset| if offset.abs() == 3 { Some(()) } else { None });
    assert_eq!(later_first, Some((3, ())));
    let edge = nearest_valid_day(|offset| if offset == -183 { Some(()) } else { None });
    assert_eq!(edge, Some((-183, ())));
    let none: Option<(i64, ())> = nearest_valid_day(|offset| if offset == 184 { Some(()) } else { None });
    assert_eq!(none, None);
}

#[test]
fn moonsighting_below_latitude_55_ignores_the_night() {
    let method = MoonsightingCom(IshaOption::Whiteness);
    let night = i128::MAX;
    assert_eq!(method.fajr_time(minutes(500), night, Some(minutes(420)), false, 90), minutes(420));
    assert_eq!(method.isha_time(minutes(1000), night, Some(minutes(1100)), false, 90), minutes(1090));
}
