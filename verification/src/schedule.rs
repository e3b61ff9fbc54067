//! # Prayer Schedule
//!
//! The times of all prayers of a day, how they are put together from the
//! sun's events and the method's times, and which prayer is current at an
//! instant.
use crate::models::{Prayer, TimeAdjustment};
use crate::time::{
    fits_i64, in_time_range, lemma_round_is_truncate_of_half_later, lemma_truncate_monotone,
    minutes_in_range, round_to_multiple, span_div, span_quotient, truncate_to_multiple,
    CivilDate, UtcTime, MINUTES_LIMIT, NANOS_PER_MINUTE, NANOS_PER_SECOND, TIME_LIMIT,
};
use vstd::prelude::*;

verus! {

/// `chrono`'s quotient of a span of nanoseconds by `divisor`, with the span
/// taken apart into seconds and nanoseconds as `chrono` stores it.
pub open spec fn span_divided(span: int, divisor: int) -> int {
    span_quotient(span / NANOS_PER_SECOND as int, span % NANOS_PER_SECOND as int, divisor)
}

/// The times a day's schedule is built from, before any adjustment: the sun's
/// events of the day and of its neighbours, and the calculation method's
/// Fajr, Asr and Isha times.
#[derive(Clone, Copy, Debug, PartialEq, Eq, Structural)]
pub struct DayEvents {
    /// Sunset of the day before
    pub sunset_yesterday: UtcTime,
    /// Fajr by the calculation method
    pub fajr: UtcTime,
    /// Sunrise
    pub sunrise: UtcTime,
    /// Solar transit (noon)
    pub transit: UtcTime,
    /// Start of the first Asr (shadow as long as the object), if the sun gets there
    pub asr_awwal: Option<UtcTime>,
    /// Start of the second Asr (shadow twice as long), if the sun gets there
    pub asr_thaani: Option<UtcTime>,
    /// Sunset
    pub sunset: UtcTime,
    /// Isha by the calculation method
    pub isha: UtcTime,
    /// Fajr of the next day by the calculation method
    pub fajr_tomorrow: UtcTime,
}

/// A data struct to hold the timing for all prayers.
#[derive(Clone, Copy, Debug, PartialEq, Eq, Structural)]
pub struct PrayerTimes {
    /// Start of the last third of the previous night
    pub qiyam_yesterday: UtcTime,
    /// Fajr
    pub fajr: UtcTime,
    /// Sunrise
    pub sunrise: UtcTime,
    /// Dhuhr
    pub dhuhr: UtcTime,
    /// First Asr
    pub asr_awwal: UtcTime,
    /// Second Asr
    pub asr_thaani: UtcTime,
    /// Maghrib
    pub maghrib: UtcTime,
    /// Isha
    pub isha: UtcTime,
    /// Middle of the coming night
    pub middle_of_night: UtcTime,
    /// Start of the last third of the coming night
    pub qiyam: UtcTime,
    /// Fajr of the next day
    pub fajr_tomorrow: UtcTime,
    /// The date the times are for
    pub date: CivilDate,
}

impl DayEvents {
    /// All the times lie in the library's time range.
    pub open spec fn in_range(self) -> bool {
        &&& in_time_range(self.sunset_yesterday.nanos as int)
        &&& in_time_range(self.fajr.nanos as int)
        &&& in_time_range(self.sunrise.nanos as int)
        &&& in_time_range(self.transit.nanos as int)
        &&& (self.asr_awwal matches Some(t) ==> in_time_range(t.nanos as int))
        &&& (self.asr_thaani matches Some(t) ==> in_time_range(t.nanos as int))
        &&& in_time_range(self.sunset.nanos as int)
        &&& in_time_range(self.isha.nanos as int)
        &&& in_time_range(self.fajr_tomorrow.nanos as int)
    }
}

/// `base` moved by the total adjustment of `prayer`, in nanoseconds.
pub open spec fn adjusted(
    base: UtcTime,
    user: TimeAdjustment,
    method: TimeAdjustment,
    prayer: Prayer,
) -> int {
    base.nanos + (user.minutes_for(prayer) + method.minutes_for(prayer)) * NANOS_PER_MINUTE
}

/// The total adjustment of `prayer` can be added to `base` the way the
/// schedule adds it: the sum of minutes fits an `i64`, `chrono` accepts it as
/// a span of minutes, and the adjusted time stays in range.
pub open spec fn adjustable(
    base: UtcTime,
    user: TimeAdjustment,
    method: TimeAdjustment,
    prayer: Prayer,
) -> bool {
    let total = user.minutes_for(prayer) + method.minutes_for(prayer);
    &&& fits_i64(total)
    &&& minutes_in_range(total)
    &&& in_time_range(adjusted(base, user, method, prayer))
}

/// Whether the total adjustment of `prayer` can be added to `base` (see
/// `adjustable`).
pub fn can_adjust(base: UtcTime, user: &TimeAdjustment, method: &TimeAdjustment, prayer: Prayer) -> (ok:
    bool)
    requires
        in_time_range(base.nanos as int),
    ensures
        ok == adjustable(base, *user, *method, prayer),
{
    match user.checked_total_for(method, prayer) {
        None => false,
        Some(minutes) => {
            if minutes < -MINUTES_LIMIT || minutes > MINUTES_LIMIT {
                false
            } else {
                let moved = base.nanos + minutes as i128 * NANOS_PER_MINUTE;
                -TIME_LIMIT <= moved && moved <= TIME_LIMIT
            }
        },
    }
}

/// `base` moved by the total adjustment of `prayer`.
fn adjust_time(base: UtcTime, user: &TimeAdjustment, method: &TimeAdjustment, prayer: Prayer) -> (t:
    UtcTime)
    requires
        in_time_range(base.nanos as int),
        adjustable(base, *user, *method, prayer),
    ensures
        t.nanos == adjusted(base, *user, *method, prayer),
{
    let minutes = user.total_for(method, prayer);
    base.add_minutes(minutes)
}

impl DayEvents {
    /// Whether all the times lie in the library's time range.
    pub fn is_in_range(&self) -> (ok: bool)
        ensures
            ok == self.in_range(),
    {
        let within = |t: UtcTime| -> (ok: bool)
            ensures
                ok == in_time_range(t.nanos as int),
            { -TIME_LIMIT <= t.nanos && t.nanos <= TIME_LIMIT };
        let asr_awwal = match self.asr_awwal {
            Some(t) => within(t),
            None => true,
        };
        let asr_thaani = match self.asr_thaani {
            Some(t) => within(t),
            None => true,
        };
        within(self.sunset_yesterday) && within(self.fajr) && within(self.sunrise) && within(
            self.transit,
        ) && asr_awwal && asr_thaani && within(self.sunset) && within(self.isha) && within(
            self.fajr_tomorrow,
        )
    }
}

impl PrayerTimes {
    /// The time kept for `prayer`, before rounding (`Yesterday` has none and
    /// is given 0; `Tomorrow` is given the next day's Fajr).
    pub open spec fn recorded(self, prayer: Prayer) -> int {
        match prayer {
            Prayer::Yesterday => 0,
            Prayer::QiyamYesterday => self.qiyam_yesterday.nanos as int,
            Prayer::Fajr => self.fajr.nanos as int,
            Prayer::Sunrise => self.sunrise.nanos as int,
            Prayer::Dhuhr => self.dhuhr.nanos as int,
            Prayer::AsrAwwal => self.asr_awwal.nanos as int,
            Prayer::AsrThaani => self.asr_thaani.nanos as int,
            Prayer::Maghrib => self.maghrib.nanos as int,
            Prayer::Isha => self.isha.nanos as int,
            Prayer::Qiyam => self.qiyam.nanos as int,
            Prayer::Tomorrow => self.fajr_tomorrow.nanos as int,
        }
    }

    /// The prayer is one whose reported time is rounded down to the minute
    /// (the Qiyam times, Fajr and sunrise); the others round to the nearest
    /// minute.
    pub open spec fn rounds_down(prayer: Prayer) -> bool {
        prayer == Prayer::QiyamYesterday || prayer == Prayer::Fajr || prayer == Prayer::Sunrise
            || prayer == Prayer::Qiyam
    }

    /// The reported time of `prayer`, in nanoseconds: none for `Yesterday` and
    /// `Tomorrow`, else the recorded time on a whole minute.
    pub open spec fn reported(self, prayer: Prayer) -> Option<int> {
        if prayer == Prayer::Yesterday || prayer == Prayer::Tomorrow {
            None
        } else if Self::rounds_down(prayer) {
            Some(truncate_to_multiple(self.recorded(prayer), NANOS_PER_MINUTE as int))
        } else {
            Some(round_to_multiple(self.recorded(prayer), NANOS_PER_MINUTE as int))
        }
    }

    /// The prayer current at `time`: the last of the day's times, in the
    /// order of the day, that `time` has reached; `Yesterday` before all.
    pub open spec fn current_prayer(self, time: int) -> Prayer {
        if time >= self.fajr_tomorrow.nanos {
            Prayer::Tomorrow
        } else if time >= self.qiyam.nanos {
            Prayer::Qiyam
        } else if time >= self.isha.nanos {
            Prayer::Isha
        } else if time >= self.maghrib.nanos {
            Prayer::Maghrib
        } else if time >= self.asr_thaani.nanos {
            Prayer::AsrThaani
        } else if time >= self.asr_awwal.nanos {
            Prayer::AsrAwwal
        } else if time >= self.dhuhr.nanos {
            Prayer::Dhuhr
        } else if time >= self.sunrise.nanos {
            Prayer::Sunrise
        } else if time >= self.fajr.nanos {
            Prayer::Fajr
        } else if time >= self.qiyam_yesterday.nanos {
            Prayer::QiyamYesterday
        } else {
            Prayer::Yesterday
        }
    }

    /// The times follow the order of the day, from yesterday's Qiyam to
    /// tomorrow's Fajr.
    pub open spec fn is_chronological(self) -> bool {
        &&& self.qiyam_yesterday.nanos <= self.fajr.nanos
        &&& self.fajr.nanos <= self.sunrise.nanos
        &&& self.sunrise.nanos <= self.dhuhr.nanos
        &&& self.dhuhr.nanos <= self.asr_awwal.nanos
        &&& self.asr_awwal.nanos <= self.asr_thaani.nanos
        &&& self.asr_thaani.nanos <= self.maghrib.nanos
        &&& self.maghrib.nanos <= self.isha.nanos
        &&& self.isha.nanos <= self.qiyam.nanos
        &&& self.qiyam.nanos <= self.fajr_tomorrow.nanos
    }

    /// The schedule that `from_events` builds out of `events` and the two
    /// adjustments, when both Asr times exist.
    pub open spec fn built_from(
        self,
        events: DayEvents,
        user: TimeAdjustment,
        method: TimeAdjustment,
    ) -> bool {
        let maghrib_yesterday = adjusted(events.sunset_yesterday, user, method, Prayer::Maghrib);
        let coming_night = self.fajr_tomorrow.nanos - self.maghrib.nanos;
        let last_night = self.fajr.nanos - maghrib_yesterday;
        &&& self.fajr.nanos == adjusted(events.fajr, user, method, Prayer::Fajr)
        &&& self.sunrise.nanos == adjusted(events.sunrise, user, method, Prayer::Sunrise)
        &&& self.dhuhr.nanos == adjusted(events.transit, user, method, Prayer::Dhuhr)
        &&& self.asr_awwal.nanos == adjusted(
            events.asr_awwal.unwrap(),
            user,
            method,
            Prayer::AsrAwwal,
        )
        &&& self.asr_thaani.nanos == adjusted(
            events.asr_thaani.unwrap(),
            user,
            method,
            Prayer::AsrThaani,
        )
        &&& self.maghrib.nanos == adjusted(events.sunset, user, method, Prayer::Maghrib)
        &&& self.isha.nanos == adjusted(events.isha, user, method, Prayer::Isha)
        &&& self.fajr_tomorrow.nanos == adjusted(events.fajr_tomorrow, user, method, Prayer::Fajr)
        &&& self.middle_of_night.nanos == self.maghrib.nanos + span_divided(coming_night, 2)
        &&& self.qiyam.nanos == self.maghrib.nanos + span_divided(2 * coming_night, 3)
        &&& self.qiyam_yesterday.nanos == maghrib_yesterday + span_divided(2 * last_night, 3)
    }

    /// Puts together the schedule of `date` from the sun's events and the
    /// method's times: every time gets its prayer's adjustment (the user's
    /// plus the method's, in minutes); the middle of the coming night is half
    /// the span from Maghrib to tomorrow's Fajr after Maghrib, and Qiyam starts
    /// after two thirds of it; yesterday's Qiyam likewise from yesterday's
    /// Maghrib to today's Fajr. There is no schedule when an Asr time is
    /// missing.
    pub fn from_events(
        date: CivilDate,
        events: DayEvents,
        user: &TimeAdjustment,
        method: &TimeAdjustment,
    ) -> (r: Option<PrayerTimes>)
        requires
            events.in_range(),
            adjustable(events.sunset_yesterday, *user, *method, Prayer::Maghrib),
            adjustable(events.fajr, *user, *method, Prayer::Fajr),
            adjustable(events.sunrise, *user, *method, Prayer::Sunrise),
            adjustable(events.transit, *user, *method, Prayer::Dhuhr),
            events.asr_awwal matches Some(t) ==> adjustable(t, *user, *method, Prayer::AsrAwwal),
            events.asr_thaani matches Some(t) ==> adjustable(t, *user, *method, Prayer::AsrThaani),
            adjustable(events.sunset, *user, *method, Prayer::Maghrib),
            adjustable(events.isha, *user, *method, Prayer::Isha),
            adjustable(events.fajr_tomorrow, *user, *method, Prayer::Fajr),
        ensures
            r is Some <==> events.asr_awwal is Some && events.asr_thaani is Some,
            r matches Some(times) ==> times.built_from(events, *user, *method),
            r matches Some(times) ==> times.date == date,
            r matches Some(times) ==> times.fajr.nanos - events.fajr.nanos == (user.fajr
                + method.fajr) * 60_000_000_000,
            r matches Some(times) ==> times.sunrise.nanos - events.sunrise.nanos == (user.sunrise
                + method.sunrise) * 60_000_000_000,
            r matches Some(times) ==> times.dhuhr.nanos - events.transit.nanos == (user.dhuhr
                + method.dhuhr) * 60_000_000_000,
            r matches Some(times) ==> times.asr_awwal.nanos - events.asr_awwal.unwrap().nanos == (
            user.asr + method.asr) * 60_000_000_000,
            r matches Some(times) ==> times.asr_thaani.nanos - events.asr_thaani.unwrap().nanos == (
            user.asr + method.asr) * 60_000_000_000,
            r matches Some(times) ==> times.maghrib.nanos - events.sunset.nanos == (user.maghrib
                + method.maghrib) * 60_000_000_000,
            r matches Some(times) ==> times.isha.nanos - events.isha.nanos == (user.isha
                + method.isha) * 60_000_000_000,
            r matches Some(times) ==> times.fajr_tomorrow.nanos - events.fajr_tomorrow.nanos == (
            user.fajr + method.fajr) * 60_000_000_000,
            r matches Some(times) ==> (times.maghrib.nanos <= times.fajr_tomorrow.nanos ==> {
                &&& times.maghrib.nanos <= times.middle_of_night.nanos
                &&& times.middle_of_night.nanos <= times.fajr_tomorrow.nanos
                &&& times.maghrib.nanos <= times.qiyam.nanos
                &&& times.qiyam.nanos <= times.fajr_tomorrow.nanos
            }),
            r matches Some(times) ==> (times.fajr_tomorrow.nanos - times.maghrib.nanos
                >= NANOS_PER_SECOND ==> times.middle_of_night.nanos <= times.qiyam.nanos),
            r matches Some(times) ==> (adjusted(events.sunset_yesterday, *user, *method, Prayer::Maghrib)
                <= times.fajr.nanos ==> {
                &&& adjusted(events.sunset_yesterday, *user, *method, Prayer::Maghrib)
                    <= times.qiyam_yesterday.nanos
                &&& times.qiyam_yesterday.nanos <= times.fajr.nanos
            }),
    {
        let fajr = adjust_time(events.fajr, user, method, Prayer::Fajr);
        let sunrise = adjust_time(events.sunrise, user, method, Prayer::Sunrise);
        let dhuhr = adjust_time(events.transit, user, method, Prayer::Dhuhr);
        let asr_awwal = match events.asr_awwal {
            Some(t) => adjust_time(t, user, method, Prayer::AsrAwwal),
            None => {
                return None;
            },
        };
        let asr_thaani = match events.asr_thaani {
            Some(t) => adjust_time(t, user, method, Prayer::AsrThaani),
            None => {
                return None;
            },
        };
        let maghrib = adjust_time(events.sunset, user, method, Prayer::Maghrib);
        let isha = adjust_time(events.isha, user, method, Prayer::Isha);
        let fajr_tomorrow = adjust_time(events.fajr_tomorrow, user, method, Prayer::Fajr);

        let coming_night = fajr_tomorrow.since(maghrib);
        let half = span_div(coming_night, 2);
        let two_thirds = span_div(coming_night * 2, 3);
        let middle_of_night = UtcTime { nanos: maghrib.nanos + half };
        let qiyam = UtcTime { nanos: maghrib.nanos + two_thirds };

        let maghrib_yesterday = adjust_time(events.sunset_yesterday, user, method, Prayer::Maghrib);
        let last_night = fajr.since(maghrib_yesterday);
        let last_two_thirds = span_div(last_night * 2, 3);
        let qiyam_yesterday = UtcTime { nanos: maghrib_yesterday.nanos + last_two_thirds };

        Some(
            PrayerTimes {
                qiyam_yesterday,
                fajr,
                sunrise,
                dhuhr,
                asr_awwal,
                asr_thaani,
                maghrib,
                isha,
                middle_of_night,
                qiyam,
                fajr_tomorrow,
                date,
            },
        )
    }

    /// Get time of the prayer: none for `Yesterday` and `Tomorrow`; Fajr,
    /// sunrise and both Qiyam rounded down to the minute; the others rounded to
    /// the nearest minute.
    pub fn time_of(&self, prayer: Prayer) -> (r: Option<UtcTime>)
        requires
            prayer != Prayer::Yesterday && prayer != Prayer::Tomorrow ==> fits_i64(
                self.recorded(prayer),
            ),
        ensures
            r is Some <==> self.reported(prayer) is Some,
            r matches Some(t) ==> Some(t.nanos as int) == self.reported(prayer),
    {
        match prayer {
            Prayer::QiyamYesterday => Some(self.qiyam_yesterday.truncate_to_minute()),
            Prayer::Fajr => Some(self.fajr.truncate_to_minute()),
            Prayer::Sunrise => Some(self.sunrise.truncate_to_minute()),
            Prayer::Dhuhr => Some(self.dhuhr.round_to_minute()),
            Prayer::AsrAwwal => Some(self.asr_awwal.round_to_minute()),
            Prayer::AsrThaani => Some(self.asr_thaani.round_to_minute()),
            Prayer::Maghrib => Some(self.maghrib.round_to_minute()),
            Prayer::Isha => Some(self.isha.round_to_minute()),
            Prayer::Qiyam => Some(self.qiyam.truncate_to_minute()),
            _ => None,
        }
    }

    /// Current prayer at given time in the date
    pub fn prayer_at(&self, time: UtcTime) -> (prayer: Prayer)
        ensures
            prayer == self.current_prayer(time.nanos as int),
    {
        if time.nanos >= self.fajr_tomorrow.nanos {
            Prayer::Tomorrow
        } else if time.nanos >= self.qiyam.nanos {
            Prayer::Qiyam
        } else if time.nanos >= self.isha.nanos {
            Prayer::Isha
        } else if time.nanos >= self.maghrib.nanos {
            Prayer::Maghrib
        } else if time.nanos >= self.asr_thaani.nanos {
            Prayer::AsrThaani
        } else if time.nanos >= self.asr_awwal.nanos {
            Prayer::AsrAwwal
        } else if time.nanos >= self.dhuhr.nanos {
            Prayer::Dhuhr
        } else if time.nanos >= self.sunrise.nanos {
            Prayer::Sunrise
        } else if time.nanos >= self.fajr.nanos {
            Prayer::Fajr
        } else if time.nanos >= self.qiyam_yesterday.nanos {
            Prayer::QiyamYesterday
        } else {
            Prayer::Yesterday
        }
    }
}

/// The current prayer at an instant is the latest of the day's times that the
/// instant has reached: its own time has been reached (unless it is
/// `Yesterday`) and no later time has.
pub proof fn lemma_current_prayer_is_latest_reached(times: PrayerTimes, time: int)
    ensures
        times.current_prayer(time) != Prayer::Yesterday ==> times.recorded(
            times.current_prayer(time),
        ) <= time,
        forall|later: Prayer|
            #![trigger later.rank()]
            later.rank() > times.current_prayer(time).rank() ==> time < times.recorded(later),
{
}

/// In a schedule whose times follow the order of the day, the current prayer
/// never goes back as time goes on.
pub proof fn lemma_current_prayer_monotone(times: PrayerTimes, earlier: int, later: int)
    requires
        times.is_chronological(),
        earlier <= later,
    ensures
        times.current_prayer(earlier).rank() <= times.current_prayer(later).rank(),
{
}

/// In a schedule whose times strictly follow the order of the day, each
/// prayer is current at the very time it starts.
pub proof fn lemma_current_prayer_at_its_start(times: PrayerTimes, prayer: Prayer)
    requires
        times.is_chronological(),
        times.qiyam_yesterday.nanos < times.fajr.nanos,
        times.fajr.nanos < times.sunrise.nanos,
        times.sunrise.nanos < times.dhuhr.nanos,
        times.dhuhr.nanos < times.asr_awwal.nanos,
        times.asr_awwal.nanos < times.asr_thaani.nanos,
        times.asr_thaani.nanos < times.maghrib.nanos,
        times.maghrib.nanos < times.isha.nanos,
        times.isha.nanos < times.qiyam.nanos,
        times.qiyam.nanos < times.fajr_tomorrow.nanos,
        prayer != Prayer::Yesterday,
    ensures
        times.current_prayer(times.recorded(prayer)) == prayer,
{
}

/// Every reported time lies on a whole minute: for Fajr, sunrise and both
/// Qiyam it is less than a minute before or at the recorded time, for the
/// others at most half a minute away from it.
pub proof fn lemma_reported_near_recorded(times: PrayerTimes, prayer: Prayer)
    requires
        prayer != Prayer::Yesterday,
        prayer != Prayer::Tomorrow,
    ensures
        times.reported(prayer).unwrap() % (NANOS_PER_MINUTE as int) == 0,
        PrayerTimes::rounds_down(prayer) ==> times.recorded(prayer) - NANOS_PER_MINUTE
            < times.reported(prayer).unwrap() <= times.recorded(prayer),
        !PrayerTimes::rounds_down(prayer) ==> times.recorded(prayer) - NANOS_PER_MINUTE / 2
            < times.reported(prayer).unwrap() <= times.recorded(prayer) + NANOS_PER_MINUTE / 2,
{
    crate::time::lemma_minute_rounding(times.recorded(prayer));
}

/// In a schedule whose times follow the order of the day, the reported times
/// keep that order from yesterday's Qiyam to Isha, and Qiyam is reported at
/// most a minute before Isha (Isha rounds to the nearest minute, Qiyam down).
pub proof fn lemma_reported_in_order(times: PrayerTimes)
    requires
        times.is_chronological(),
    ensures
        times.reported(Prayer::QiyamYesterday).unwrap() <= times.reported(Prayer::Fajr).unwrap(),
        times.reported(Prayer::Fajr).unwrap() <= times.reported(Prayer::Sunrise).unwrap(),
        times.reported(Prayer::Sunrise).unwrap() <= times.reported(Prayer::Dhuhr).unwrap(),
        times.reported(Prayer::Dhuhr).unwrap() <= times.reported(Prayer::AsrAwwal).unwrap(),
        times.reported(Prayer::AsrAwwal).unwrap() <= times.reported(Prayer::AsrThaani).unwrap(),
        times.reported(Prayer::AsrThaani).unwrap() <= times.reported(Prayer::Maghrib).unwrap(),
        times.reported(Prayer::Maghrib).unwrap() <= times.reported(Prayer::Isha).unwrap(),
        times.reported(Prayer::Isha).unwrap() <= times.reported(Prayer::Qiyam).unwrap()
            + NANOS_PER_MINUTE,
{
    let m = NANOS_PER_MINUTE as int;
    let half = m / 2;
    let qy = times.qiyam_yesterday.nanos as int;
    let fajr = times.fajr.nanos as int;
    let sunrise = times.sunrise.nanos as int;
    let dhuhr = times.dhuhr.nanos as int;
    let asr_awwal = times.asr_awwal.nanos as int;
    let asr_thaani = times.asr_thaani.nanos as int;
    let maghrib = times.maghrib.nanos as int;
    let isha = times.isha.nanos as int;
    let qiyam = times.qiyam.nanos as int;
    lemma_truncate_monotone(qy, fajr, m);
    lemma_truncate_monotone(fajr, sunrise, m);
    lemma_truncate_monotone(sunrise, dhuhr, m);
    lemma_truncate_monotone(dhuhr, dhuhr + half, m);
    lemma_round_is_truncate_of_half_later(dhuhr, m);
    lemma_round_is_truncate_of_half_later(asr_awwal, m);
    lemma_round_is_truncate_of_half_later(asr_thaani, m);
    lemma_round_is_truncate_of_half_later(maghrib, m);
    lemma_round_is_truncate_of_half_later(isha, m);
    lemma_truncate_monotone(dhuhr + half, asr_awwal + half, m);
    lemma_truncate_monotone(asr_awwal + half, asr_thaani + half, m);
    lemma_truncate_monotone(asr_thaani + half, maghrib + half, m);
    lemma_truncate_monotone(maghrib + half, isha + half, m);
    lemma_truncate_monotone(isha + half, qiyam + m, m);
    assert(truncate_to_multiple(qiyam + m, m) == truncate_to_multiple(qiyam, m) + m) by {
        vstd::arithmetic::div_mod::lemma_mod_add_multiples_vanish(qiyam, m);
    }
}

/// In a schedule built from a day's events, every time is its event moved by
/// exactly its prayer's total adjustment, the user's minutes plus the
/// method's: Fajr (today's and tomorrow's) by the Fajr minutes, sunrise by the
/// sunrise minutes, Dhuhr from the transit by the Dhuhr minutes, both Asr
/// times by the Asr minutes, Maghrib from sunset by the Maghrib minutes and
/// Isha by the Isha minutes.
pub proof fn lemma_built_from_moves_each_time(
    times: PrayerTimes,
    events: DayEvents,
    user: TimeAdjustment,
    method: TimeAdjustment,
)
    requires
        times.built_from(events, user, method),
    ensures
        times.fajr.nanos - events.fajr.nanos == (user.fajr + method.fajr) * 60_000_000_000,
        times.sunrise.nanos - events.sunrise.nanos == (user.sunrise + method.sunrise)
            * 60_000_000_000,
        times.dhuhr.nanos - events.transit.nanos == (user.dhuhr + method.dhuhr) * 60_000_000_000,
        times.asr_awwal.nanos - events.asr_awwal.unwrap().nanos == (user.asr + method.asr)
            * 60_000_000_000,
        times.asr_thaani.nanos - events.asr_thaani.unwrap().nanos == (user.asr + method.asr)
            * 60_000_000_000,
        times.maghrib.nanos - events.sunset.nanos == (user.maghrib + method.maghrib)
            * 60_000_000_000,
        times.isha.nanos - events.isha.nanos == (user.isha + method.isha) * 60_000_000_000,
        times.fajr_tomorrow.nanos - events.fajr_tomorrow.nanos == (user.fajr + method.fajr)
            * 60_000_000_000,
{
}

/// Adding minutes to the Maghrib adjustment, the user's or the method's, moves
/// Maghrib by exactly that much, and leaves every other adjusted time alone.
pub proof fn lemma_maghrib_follows_its_adjustment(
    events: DayEvents,
    user: TimeAdjustment,
    method: TimeAdjustment,
    extra: i64,
)
    ensures
        adjusted(events.sunset, TimeAdjustment { maghrib: (user.maghrib + extra) as i64, ..user },
            method, Prayer::Maghrib) == adjusted(events.sunset, user, method, Prayer::Maghrib)
            + (((user.maghrib + extra) as i64) - user.maghrib) * 60_000_000_000,
        adjusted(events.fajr, TimeAdjustment { maghrib: (user.maghrib + extra) as i64, ..user },
            method, Prayer::Fajr) == adjusted(events.fajr, user, method, Prayer::Fajr),
        adjusted(events.sunset, user, method, Prayer::Maghrib) - events.sunset.nanos == (
        user.maghrib + method.maghrib) * 60_000_000_000,
{
}

} // verus!
