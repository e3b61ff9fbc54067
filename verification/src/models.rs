//! The names of the prayers, the per-prayer time adjustments and the rules
//! that parameters choose between.
use crate::time::fits_i64;
use vstd::prelude::*;

verus! {

/// Time adjustment for all prayer times.
/// The value is specified in *minutes* and
/// can be either positive or negative.
#[derive(PartialEq, Eq, Debug, Copy, Clone, Structural)]
pub struct TimeAdjustment {
    /// Fajr
    pub fajr: i64,
    /// Sunrise
    pub sunrise: i64,
    /// Dhuhr
    pub dhuhr: i64,
    /// Asr
    pub asr: i64,
    /// Maghrib
    pub maghrib: i64,
    /// Isha
    pub isha: i64,
}

/// Rule for approximating Fajr and Isha at high latitudes
#[derive(PartialEq, Eq, Debug, Copy, Clone, Hash, Structural)]
pub enum HighLatitudeRule {
    /// Middle of the night
    MiddleOfTheNight,
    /// Seventh of the night
    SeventhOfTheNight,
    /// Twilight angle
    TwilightAngle,
}

/// Names of all obligatory prayers, sunrise, and Qiyam.
#[derive(PartialEq, Eq, Debug, Copy, Clone, Hash, Structural)]
pub enum Prayer {
    /// Anywhere yesterday
    Yesterday,
    /// Qiyam, yesterday
    QiyamYesterday,
    /// Fajr
    Fajr,
    /// Sunrise
    Sunrise,
    /// Dhuhr
    Dhuhr,
    /// Asr awwal
    AsrAwwal,
    /// Asr thaani
    AsrThaani,
    /// Maghrib
    Maghrib,
    /// Isha
    Isha,
    /// Qiyam
    Qiyam,
    /// Anywhere tomorrow
    Tomorrow,
}

/// Resolution rule for much higher latitudes.
#[derive(PartialEq, Eq, Debug, Copy, Clone, Structural)]
pub enum PolarCircleResolver {
    /// Resolve to nearest city with valid times
    NearestCity,
    /// Resolve to nearest day with valid times
    NearestDay,
}

impl Prayer {
    /// Position of the prayer in the course of the day, from `Yesterday` (0)
    /// to `Tomorrow` (10).
    pub open spec fn rank(self) -> int {
        match self {
            Prayer::Yesterday => 0,
            Prayer::QiyamYesterday => 1,
            Prayer::Fajr => 2,
            Prayer::Sunrise => 3,
            Prayer::Dhuhr => 4,
            Prayer::AsrAwwal => 5,
            Prayer::AsrThaani => 6,
            Prayer::Maghrib => 7,
            Prayer::Isha => 8,
            Prayer::Qiyam => 9,
            Prayer::Tomorrow => 10,
        }
    }
}

impl TimeAdjustment {
    /// The adjustment, in minutes, that applies to `prayer`: both Asr times
    /// share the Asr adjustment, and the times that are not prayers of the
    /// day (yesterday, tomorrow, both Qiyam) have none.
    pub open spec fn minutes_for(self, prayer: Prayer) -> int {
        match prayer {
            Prayer::Fajr => self.fajr as int,
            Prayer::Sunrise => self.sunrise as int,
            Prayer::Dhuhr => self.dhuhr as int,
            Prayer::AsrAwwal | Prayer::AsrThaani => self.asr as int,
            Prayer::Maghrib => self.maghrib as int,
            Prayer::Isha => self.isha as int,
            _ => 0,
        }
    }

    /// The adjustments of all prayers are zero.
    pub open spec fn is_zero(self) -> bool {
        &&& self.fajr == 0
        &&& self.sunrise == 0
        &&& self.dhuhr == 0
        &&& self.asr == 0
        &&& self.maghrib == 0
        &&& self.isha == 0
    }

    /// The total adjustment of `prayer`: this (user) adjustment plus the one
    /// that the calculation method itself prescribes.
    pub fn total_for(&self, method: &TimeAdjustment, prayer: Prayer) -> (minutes: i64)
        requires
            fits_i64(self.minutes_for(prayer) + method.minutes_for(prayer)),
        ensures
            minutes == self.minutes_for(prayer) + method.minutes_for(prayer),
    {
        match prayer {
            Prayer::Fajr => self.fajr + method.fajr,
            Prayer::Sunrise => self.sunrise + method.sunrise,
            Prayer::Dhuhr => self.dhuhr + method.dhuhr,
            Prayer::AsrAwwal | Prayer::AsrThaani => self.asr + method.asr,
            Prayer::Maghrib => self.maghrib + method.maghrib,
            Prayer::Isha => self.isha + method.isha,
            _ => 0,
        }
    }
}

impl TimeAdjustment {
    /// The total adjustment of `prayer` (this one plus the method's), or
    /// nothing when the sum overflows an `i64`.
    pub fn checked_total_for(&self, method: &TimeAdjustment, prayer: Prayer) -> (minutes: Option<
        i64,
    >)
        ensures
            minutes is Some <==> fits_i64(self.minutes_for(prayer) + method.minutes_for(prayer)),
            minutes matches Some(m) ==> m == self.minutes_for(prayer) + method.minutes_for(prayer),
    {
        let (own, methods) = match prayer {
            Prayer::Fajr => (self.fajr, method.fajr),
            Prayer::Sunrise => (self.sunrise, method.sunrise),
            Prayer::Dhuhr => (self.dhuhr, method.dhuhr),
            Prayer::AsrAwwal | Prayer::AsrThaani => (self.asr, method.asr),
            Prayer::Maghrib => (self.maghrib, method.maghrib),
            Prayer::Isha => (self.isha, method.isha),
            _ => (0, 0),
        };
        if (own as i128 + methods as i128) < i64::MIN as i128 || (own as i128 + methods as i128)
            > i64::MAX as i128 {
            None
        } else {
            Some(self.total_for(method, prayer))
        }
    }
}

impl Default for TimeAdjustment {
    /// No adjustment for any prayer.
    fn default() -> (adjustment: TimeAdjustment)
        ensures
            adjustment.is_zero(),
    {
        TimeAdjustment { fajr: 0, sunrise: 0, dhuhr: 0, asr: 0, maghrib: 0, isha: 0 }
    }
}

} // verus!
