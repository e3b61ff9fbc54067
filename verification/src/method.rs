//! The rules that every calculation method shares unless it sets its own:
//! the standard adjustments, and how Fajr and Isha are kept within a part of
//! the night.
use crate::models::TimeAdjustment;
use crate::time::{in_time_range, UtcTime, NANOS_PER_MINUTE};
use vstd::prelude::*;

verus! {

/// Nanoseconds in one millisecond.
pub const NANOS_PER_MILLI: i128 = 1_000_000;

/// Minutes between Maghrib and Isha for an interval method that sets none.
pub const DEFAULT_ISHA_INTERVAL: u8 = 90;

/// The adjustments a method applies unless it sets its own: one minute added
/// to Dhuhr.
pub fn standard_adjustments() -> (adjustment: TimeAdjustment)
    ensures
        adjustment == (TimeAdjustment { fajr: 0, sunrise: 0, dhuhr: 1, asr: 0, maghrib: 0, isha: 0 }),
{
    TimeAdjustment { fajr: 0, sunrise: 0, dhuhr: 1, asr: 0, maghrib: 0, isha: 0 }
}

/// A count of milliseconds that `chrono::TimeDelta::milliseconds` accepts
/// (all of `i64` but its least value).
pub open spec fn millis_in_range(millis: int) -> bool {
    -i64::MAX <= millis <= i64::MAX
}

/// Fajr by the standard rule: the time the sun reaches the Fajr angle, but
/// never earlier than sunrise less the given portion of the night (in
/// milliseconds); that bound alone when the sun does not reach the angle.
pub fn standard_fajr(angle_based: Option<UtcTime>, sunrise: UtcTime, portion_millis: i64) -> (fajr:
    UtcTime)
    requires
        in_time_range(sunrise.nanos as int),
        millis_in_range(portion_millis as int),
        in_time_range(sunrise.nanos - portion_millis * NANOS_PER_MILLI),
    ensures
        fajr.nanos == match angle_based {
            Some(t) => if t.nanos >= sunrise.nanos - portion_millis * NANOS_PER_MILLI {
                t.nanos as int
            } else {
                sunrise.nanos - portion_millis * NANOS_PER_MILLI
            },
            None => sunrise.nanos - portion_millis * NANOS_PER_MILLI,
        },
        fajr.nanos >= sunrise.nanos - portion_millis * NANOS_PER_MILLI,
{
    let safe_fajr = sunrise.sub_span(portion_millis as i128 * NANOS_PER_MILLI);
    match angle_based {
        Some(t) => t.later(safe_fajr),
        None => safe_fajr,
    }
}

/// Isha by the standard rule: the time the sun reaches the Isha angle, but
/// never later than sunset plus the given portion of the night (in
/// milliseconds); that bound alone when the sun does not reach the angle.
pub fn standard_isha(angle_based: Option<UtcTime>, sunset: UtcTime, portion_millis: i64) -> (isha:
    UtcTime)
    requires
        in_time_range(sunset.nanos as int),
        millis_in_range(portion_millis as int),
        in_time_range(sunset.nanos + portion_millis * NANOS_PER_MILLI),
    ensures
        isha.nanos == match angle_based {
            Some(t) => if t.nanos <= sunset.nanos + portion_millis * NANOS_PER_MILLI {
                t.nanos as int
            } else {
                sunset.nanos + portion_millis * NANOS_PER_MILLI
            },
            None => sunset.nanos + portion_millis * NANOS_PER_MILLI,
        },
        isha.nanos <= sunset.nanos + portion_millis * NANOS_PER_MILLI,
{
    let safe_isha = sunset.add_span(portion_millis as i128 * NANOS_PER_MILLI);
    match angle_based {
        Some(t) => t.earlier(safe_isha),
        None => safe_isha,
    }
}

/// The minutes from sunset to Isha for a method that counts an interval: the
/// interval set, or 90 when none is.
pub open spec fn interval_minutes(interval: Option<u8>) -> int {
    match interval {
        Some(minutes) => minutes as int,
        None => DEFAULT_ISHA_INTERVAL as int,
    }
}

/// Isha by a fixed interval after sunset: the given number of minutes, or 90
/// when none is set.
pub fn isha_after_interval(sunset: UtcTime, interval: Option<u8>) -> (isha: UtcTime)
    requires
        in_time_range(sunset.nanos as int),
        in_time_range(sunset.nanos + interval_minutes(interval) * NANOS_PER_MINUTE),
    ensures
        isha.nanos == sunset.nanos + interval_minutes(interval) * NANOS_PER_MINUTE,
        interval matches Some(m) ==> isha.nanos - sunset.nanos == m * 60_000_000_000,
        interval is None ==> isha.nanos - sunset.nanos == 90 * 60_000_000_000int,
{
    let minutes = match interval {
        Some(m) => m,
        None => DEFAULT_ISHA_INTERVAL,
    };
    sunset.add_minutes(minutes as i64)
}

/// An interval method counts exactly the minutes it sets, and 90 when it
/// sets none.
pub proof fn lemma_interval_minutes_exact(minutes: u8)
    ensures
        interval_minutes(Some(minutes)) == minutes as int,
        interval_minutes(None) == 90,
{
}

/// Isha by interval lies exactly the set number of minutes after sunset, 90
/// when none is set, and a longer interval never gives an earlier Isha.
pub proof fn lemma_interval_isha_offset(sunset: UtcTime, shorter: u8, longer: u8)
    requires
        shorter <= longer,
    ensures
        sunset.nanos + interval_minutes(Some(shorter)) * NANOS_PER_MINUTE == sunset.nanos
            + shorter * 60_000_000_000,
        sunset.nanos + interval_minutes(None) * NANOS_PER_MINUTE == sunset.nanos + 5_400_000_000_000,
        interval_minutes(Some(shorter)) * NANOS_PER_MINUTE <= interval_minutes(Some(longer))
            * NANOS_PER_MINUTE,
{
}

} // verus!
