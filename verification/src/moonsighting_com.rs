//! The calculation method of the Moonsighting Committee: seasonally adjusted
//! twilight bounds, and a seventh of the night beyond latitude 55.
use crate::models::TimeAdjustment;
use crate::schedule::span_divided;
use crate::time::{
    days_from_ce, in_time_range, minutes_in_range, span_div, CivilDate, UtcTime, NANOS_PER_MINUTE,
};
use vstd::prelude::*;

verus! {

/// Which evening twilight ends Isha.
#[derive(Debug, PartialEq, Eq, Clone, Copy, Structural)]
pub enum IshaOption {
    /// The committee's general table
    Mixed,
    /// Redness recedes (Shafaq Ahmar)
    Redness,
    /// Whiteness recedes (Shafaq Abyad)
    Whiteness,
}

/// Calculation method of [Moonsighting Committee](https://www.moonsighting.com/)
#[derive(Debug, PartialEq, Eq, Clone, Copy, Structural)]
pub struct MoonsightingCom(pub IshaOption);

/// One of the four values between which the seasonal twilight model moves
/// through the year: at the solstice (`A`), then `B`, `C` and at the other
/// solstice `D`.
#[derive(Debug, PartialEq, Eq, Clone, Copy, Structural)]
pub enum SeasonAnchor {
    /// Value at the solstice nearest the pole's winter
    A,
    /// Value 91 days on
    B,
    /// Value 137 days on
    C,
    /// Value at the opposite solstice, 183 days on
    D,
}

/// Where a day falls in the seasonal twilight model: the model moves linearly
/// from `from` to `to` over `length` days, and `elapsed` of them have passed.
#[derive(Debug, PartialEq, Eq, Clone, Copy, Structural)]
pub struct SeasonPhase {
    /// Value at the start of the phase
    pub from: SeasonAnchor,
    /// Value at the end of the phase
    pub to: SeasonAnchor,
    /// Length of the phase in days
    pub length: u32,
    /// Days of the phase that have passed
    pub elapsed: u32,
}

/// The phase of the seasonal model on the day that lies `days` days from the
/// solstice: 91 days from `A` to `B`, 46 days each from `B` to `C`, `C` to
/// `D`, `D` back to `C` and `C` back to `B`, and from day 275 on from `B`
/// back to `A` over 91 days.
pub open spec fn season_phase_of(days: int) -> SeasonPhase {
    if days <= 90 {
        SeasonPhase { from: SeasonAnchor::A, to: SeasonAnchor::B, length: 91, elapsed: days as u32 }
    } else if days <= 136 {
        SeasonPhase {
            from: SeasonAnchor::B,
            to: SeasonAnchor::C,
            length: 46,
            elapsed: (days - 91) as u32,
        }
    } else if days <= 182 {
        SeasonPhase {
            from: SeasonAnchor::C,
            to: SeasonAnchor::D,
            length: 46,
            elapsed: (days - 137) as u32,
        }
    } else if days <= 228 {
        SeasonPhase {
            from: SeasonAnchor::D,
            to: SeasonAnchor::C,
            length: 46,
            elapsed: (days - 183) as u32,
        }
    } else if days <= 274 {
        SeasonPhase {
            from: SeasonAnchor::C,
            to: SeasonAnchor::B,
            length: 46,
            elapsed: (days - 229) as u32,
        }
    } else {
        SeasonPhase {
            from: SeasonAnchor::B,
            to: SeasonAnchor::A,
            length: 91,
            elapsed: (days - 275) as u32,
        }
    }
}

/// The phase of the seasonal twilight model on the day `days` days from the
/// solstice.
pub fn season_phase(days: u32) -> (phase: SeasonPhase)
    ensures
        phase == season_phase_of(days as int),
{
    if days <= 90 {
        SeasonPhase { from: SeasonAnchor::A, to: SeasonAnchor::B, length: 91, elapsed: days }
    } else if days <= 136 {
        SeasonPhase { from: SeasonAnchor::B, to: SeasonAnchor::C, length: 46, elapsed: days - 91 }
    } else if days <= 182 {
        SeasonPhase { from: SeasonAnchor::C, to: SeasonAnchor::D, length: 46, elapsed: days - 137 }
    } else if days <= 228 {
        SeasonPhase { from: SeasonAnchor::D, to: SeasonAnchor::C, length: 46, elapsed: days - 183 }
    } else if days <= 274 {
        SeasonPhase { from: SeasonAnchor::C, to: SeasonAnchor::B, length: 46, elapsed: days - 229 }
    } else {
        SeasonPhase { from: SeasonAnchor::B, to: SeasonAnchor::A, length: 91, elapsed: days - 275 }
    }
}

/// The month of the solstice the seasonal model counts from: December north
/// of the equator (and on it), June south of it.
pub open spec fn solstice_month(northern: bool) -> int {
    if northern {
        12
    } else {
        6
    }
}

/// The number of days between `date` and the 21st of the solstice month of the
/// same year (December for the northern hemisphere, June for the southern),
/// whichever comes first.
pub fn days_since_solstice(date: CivilDate, northern: bool) -> (days: u32)
    requires
        date.is_valid(),
    ensures
        days == {
            let span = days_from_ce(date.year as int, date.month as int, date.day as int)
                - days_from_ce(date.year as int, solstice_month(northern), 21);
            if span >= 0 {
                span
            } else {
                -span
            }
        },
{
    let solstice = CivilDate { year: date.year, month: if northern { 12 } else { 6 }, day: 21 };
    let span = date.day_number() as i64 - solstice.day_number() as i64;
    if span >= 0 {
        span as u32
    } else {
        (-span) as u32
    }
}

impl MoonsightingCom {
    /// The committee's own adjustments: five minutes added to Dhuhr and three
    /// to Maghrib.
    pub fn adjustments(&self) -> (adjustment: TimeAdjustment)
        ensures
            adjustment == (TimeAdjustment {
                fajr: 0,
                sunrise: 0,
                dhuhr: 5,
                asr: 0,
                maghrib: 3,
                isha: 0,
            }),
    {
        TimeAdjustment { fajr: 0, sunrise: 0, dhuhr: 5, asr: 0, maghrib: 3, isha: 0 }
    }

    /// The committee counts no interval between Maghrib and Isha.
    pub fn isha_interval(&self) -> (interval: Option<u8>)
        ensures
            interval is None,
    {
        None
    }

    /// Fajr by the committee: beyond latitude 55 a seventh of the night
    /// before sunrise, else the time the sun reaches the Fajr angle; never
    /// earlier than sunrise less the seasonal morning twilight (in minutes).
    pub fn fajr_time(
        &self,
        sunrise: UtcTime,
        night: i128,
        angle_based: Option<UtcTime>,
        beyond_latitude_55: bool,
        twilight_minutes: i64,
    ) -> (fajr: UtcTime)
        requires
            in_time_range(sunrise.nanos as int),
            beyond_latitude_55 ==> in_time_range(night as int),
            !beyond_latitude_55 ==> angle_based is Some,
            minutes_in_range(twilight_minutes as int),
            in_time_range(sunrise.nanos - twilight_minutes * NANOS_PER_MINUTE),
        ensures
            ({
                let candidate = if beyond_latitude_55 {
                    sunrise.nanos - span_divided(night as int, 7)
                } else {
                    angle_based.unwrap().nanos as int
                };
                let safe = sunrise.nanos - twilight_minutes * NANOS_PER_MINUTE;
                fajr.nanos == if candidate >= safe {
                    candidate
                } else {
                    safe
                }
            }),
    {
        let fajr = if beyond_latitude_55 {
            let seventh = span_div(night, 7);
            UtcTime { nanos: sunrise.nanos - seventh }
        } else {
            angle_based.unwrap()
        };
        let safe_fajr = sunrise.add_minutes(-twilight_minutes);
        fajr.later(safe_fajr)
    }

    /// Isha by the committee: beyond latitude 55 a seventh of the night after
    /// sunset, else the time the sun reaches the Isha angle; never later than
    /// sunset plus the seasonal evening twilight (in minutes) of the chosen
    /// option.
    pub fn isha_time(
        &self,
        sunset: UtcTime,
        night: i128,
        angle_based: Option<UtcTime>,
        beyond_latitude_55: bool,
        twilight_minutes: i64,
    ) -> (isha: UtcTime)
        requires
            in_time_range(sunset.nanos as int),
            beyond_latitude_55 ==> in_time_range(night as int),
            !beyond_latitude_55 ==> angle_based is Some,
            minutes_in_range(twilight_minutes as int),
            in_time_range(sunset.nanos + twilight_minutes * NANOS_PER_MINUTE),
        ensures
            ({
                let candidate = if beyond_latitude_55 {
                    sunset.nanos + span_divided(night as int, 7)
                } else {
                    angle_based.unwrap().nanos as int
                };
                let safe = sunset.nanos + twilight_minutes * NANOS_PER_MINUTE;
                isha.nanos == if candidate <= safe {
                    candidate
                } else {
                    safe
                }
            }),
    {
        let isha = if beyond_latitude_55 {
            let seventh = span_div(night, 7);
            UtcTime { nanos: sunset.nanos + seventh }
        } else {
            angle_based.unwrap()
        };
        let safe_isha = sunset.add_minutes(twilight_minutes);
        isha.earlier(safe_isha)
    }
}

} // verus!
