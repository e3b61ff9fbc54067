//! Islamic prayer times: the schedule of a day, built from the sun's events,
//! with the rules of the prominent calculation methods.

pub mod method;
pub mod models;
pub mod polar;
pub mod moonsighting_com;
pub mod prominent_methods;
pub mod schedule;
pub mod time;

pub use models::{HighLatitudeRule, PolarCircleResolver, Prayer, TimeAdjustment};
pub use schedule::{DayEvents, PrayerTimes};
pub use time::{CivilDate, UtcTime};
