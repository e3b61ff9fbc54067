# adhaan

Islamic prayer times.

`src/` is the verified library. It holds the integer side of the
calculation, with contracts proved by Verus:

- `time`: instants and spans as nanosecond counts, civil dates, and the
  calls into `chrono` (rounding to the minute, span division, day numbers).
- `models`: prayers, time adjustments, high-latitude and polar rules.
- `schedule`: `PrayerTimes`, built from a day's solar events by
  `PrayerTimes::from_events`; `time_of` and `prayer_at`, with the laws of the
  schedule (current prayer, order of reported times).
- `method`, `prominent_methods`, `moonsighting_com`: what each calculation
  method prescribes besides its angles, and how Fajr and Isha are bounded.
- `polar`: the nearest-day search for days without sunrise or sunset.

`app/` holds the floating-point side: angles, coordinates, the Qiblah, the
astronomical equations for the sun, the methods' twilight angles, and the
calculation of a whole day, which hands its integer work to the library.
