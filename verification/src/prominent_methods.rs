//! Prominent calculation methods, and what each of them prescribes besides
//! its twilight angles: its own time adjustments and the interval between
//! Maghrib and Isha, where it counts one.
use crate::models::TimeAdjustment;
use vstd::prelude::*;

pub use crate::moonsighting_com::{IshaOption, MoonsightingCom};

verus! {

/// Common calculation method
#[derive(Debug, PartialEq, Eq, Clone, Copy, Structural)]
pub struct Common;

impl Common {
    /// The method's own adjustments: the standard adjustments: one minute added to Dhuhr.
    pub fn adjustments(&self) -> (adjustment: TimeAdjustment)
        ensures
            adjustment == (TimeAdjustment { fajr: 0, sunrise: 0, dhuhr: 1, asr: 0, maghrib: 0, isha: 0 }),
    {
        TimeAdjustment { fajr: 0, sunrise: 0, dhuhr: 1, asr: 0, maghrib: 0, isha: 0 }
    }

    /// The method counts no interval between Maghrib and Isha.
    pub fn isha_interval(&self) -> (interval: Option<u8>)
        ensures
            interval is None,
    {
        None
    }
}

/// [Muslim World League](https://www.themwl.org/en)
#[derive(Debug, PartialEq, Eq, Clone, Copy, Structural)]
pub struct MuslimWorldLeague;

impl MuslimWorldLeague {
    /// The method's own adjustments: the standard adjustments: one minute added to Dhuhr.
    pub fn adjustments(&self) -> (adjustment: TimeAdjustment)
        ensures
            adjustment == (TimeAdjustment { fajr: 0, sunrise: 0, dhuhr: 1, asr: 0, maghrib: 0, isha: 0 }),
    {
        TimeAdjustment { fajr: 0, sunrise: 0, dhuhr: 1, asr: 0, maghrib: 0, isha: 0 }
    }

    /// The method counts no interval between Maghrib and Isha.
    pub fn isha_interval(&self) -> (interval: Option<u8>)
        ensures
            interval is None,
    {
        None
    }
}

/// Egyptian General Authority of Survey
#[derive(Debug, PartialEq, Eq, Clone, Copy, Structural)]
pub struct Egyptian;

impl Egyptian {
    /// The method's own adjustments: the standard adjustments: one minute added to Dhuhr.
    pub fn adjustments(&self) -> (adjustment: TimeAdjustment)
        ensures
            adjustment == (TimeAdjustment { fajr: 0, sunrise: 0, dhuhr: 1, asr: 0, maghrib: 0, isha: 0 }),
    {
        TimeAdjustment { fajr: 0, sunrise: 0, dhuhr: 1, asr: 0, maghrib: 0, isha: 0 }
    }

    /// The method counts no interval between Maghrib and Isha.
    pub fn isha_interval(&self) -> (interval: Option<u8>)
        ensures
            interval is None,
    {
        None
    }
}

/// University of Islamic Sciences, Karachi
#[derive(Debug, PartialEq, Eq, Clone, Copy, Structural)]
pub struct Karachi;

impl Karachi {
    /// The method's own adjustments: the standard adjustments: one minute added to Dhuhr.
    pub fn adjustments(&self) -> (adjustment: TimeAdjustment)
        ensures
            adjustment == (TimeAdjustment { fajr: 0, sunrise: 0, dhuhr: 1, asr: 0, maghrib: 0, isha: 0 }),
    {
        TimeAdjustment { fajr: 0, sunrise: 0, dhuhr: 1, asr: 0, maghrib: 0, isha: 0 }
    }

    /// The method counts no interval between Maghrib and Isha.
    pub fn isha_interval(&self) -> (interval: Option<u8>)
        ensures
            interval is None,
    {
        None
    }
}

/// Umm al-Qura University, Makkah
#[derive(Debug, PartialEq, Eq, Clone, Copy, Structural)]
pub struct UmmAlQura;

impl UmmAlQura {
    /// The method's own adjustments: no adjustment for any prayer.
    pub fn adjustments(&self) -> (adjustment: TimeAdjustment)
        ensures
            adjustment == (TimeAdjustment { fajr: 0, sunrise: 0, dhuhr: 0, asr: 0, maghrib: 0, isha: 0 }),
    {
        TimeAdjustment { fajr: 0, sunrise: 0, dhuhr: 0, asr: 0, maghrib: 0, isha: 0 }
    }

    /// Isha comes 90 minutes after Maghrib.
    pub fn isha_interval(&self) -> (interval: Option<u8>)
        ensures
            interval == Some(90u8),
    {
        Some(90)
    }
}

/// The Gulf Region
#[derive(Debug, PartialEq, Eq, Clone, Copy, Structural)]
pub struct Dubai;

impl Dubai {
    /// The method's own adjustments: three minutes taken from sunrise and added to Dhuhr, Asr and Maghrib.
    pub fn adjustments(&self) -> (adjustment: TimeAdjustment)
        ensures
            adjustment == (TimeAdjustment { fajr: 0, sunrise: -3i64, dhuhr: 3, asr: 3, maghrib: 3, isha: 0 }),
    {
        TimeAdjustment { fajr: 0, sunrise: -3, dhuhr: 3, asr: 3, maghrib: 3, isha: 0 }
    }

    /// The method counts no interval between Maghrib and Isha.
    pub fn isha_interval(&self) -> (interval: Option<u8>)
        ensures
            interval is None,
    {
        None
    }
}

/// ISNA
#[derive(Debug, PartialEq, Eq, Clone, Copy, Structural)]
pub struct NorthAmerica;

impl NorthAmerica {
    /// The method's own adjustments: the standard adjustments: one minute added to Dhuhr.
    pub fn adjustments(&self) -> (adjustment: TimeAdjustment)
        ensures
            adjustment == (TimeAdjustment { fajr: 0, sunrise: 0, dhuhr: 1, asr: 0, maghrib: 0, isha: 0 }),
    {
        TimeAdjustment { fajr: 0, sunrise: 0, dhuhr: 1, asr: 0, maghrib: 0, isha: 0 }
    }

    /// The method counts no interval between Maghrib and Isha.
    pub fn isha_interval(&self) -> (interval: Option<u8>)
        ensures
            interval is None,
    {
        None
    }
}

/// Kuwait
#[derive(Debug, PartialEq, Eq, Clone, Copy, Structural)]
pub struct Kuwait;

impl Kuwait {
    /// The method's own adjustments: no adjustment for any prayer.
    pub fn adjustments(&self) -> (adjustment: TimeAdjustment)
        ensures
            adjustment == (TimeAdjustment { fajr: 0, sunrise: 0, dhuhr: 0, asr: 0, maghrib: 0, isha: 0 }),
    {
        TimeAdjustment { fajr: 0, sunrise: 0, dhuhr: 0, asr: 0, maghrib: 0, isha: 0 }
    }

    /// The method counts no interval between Maghrib and Isha.
    pub fn isha_interval(&self) -> (interval: Option<u8>)
        ensures
            interval is None,
    {
        None
    }
}

/// Qatar
#[derive(Debug, PartialEq, Eq, Clone, Copy, Structural)]
pub struct Qatar;

impl Qatar {
    /// The method's own adjustments: no adjustment for any prayer.
    pub fn adjustments(&self) -> (adjustment: TimeAdjustment)
        ensures
            adjustment == (TimeAdjustment { fajr: 0, sunrise: 0, dhuhr: 0, asr: 0, maghrib: 0, isha: 0 }),
    {
        TimeAdjustment { fajr: 0, sunrise: 0, dhuhr: 0, asr: 0, maghrib: 0, isha: 0 }
    }

    /// Isha comes 90 minutes after Maghrib.
    pub fn isha_interval(&self) -> (interval: Option<u8>)
        ensures
            interval == Some(90u8),
    {
        Some(90)
    }
}

/// Singapore
#[derive(Debug, PartialEq, Eq, Clone, Copy, Structural)]
pub struct Singapore;

impl Singapore {
    /// The method's own adjustments: the standard adjustments: one minute added to Dhuhr.
    pub fn adjustments(&self) -> (adjustment: TimeAdjustment)
        ensures
            adjustment == (TimeAdjustment { fajr: 0, sunrise: 0, dhuhr: 1, asr: 0, maghrib: 0, isha: 0 }),
    {
        TimeAdjustment { fajr: 0, sunrise: 0, dhuhr: 1, asr: 0, maghrib: 0, isha: 0 }
    }

    /// The method counts no interval between Maghrib and Isha.
    pub fn isha_interval(&self) -> (interval: Option<u8>)
        ensures
            interval is None,
    {
        None
    }
}

} // verus!
