//! Instants, spans and civil dates as plain integers, and the calls into
//! `chrono` that the prayer-time logic needs.
use chrono::{DateTime, Datelike, DurationRound, NaiveDate, TimeDelta};
use vstd::prelude::*;

verus! {

/// Nanoseconds in one second.
pub const NANOS_PER_SECOND: i128 = 1_000_000_000;

/// Nanoseconds in one minute.
pub const NANOS_PER_MINUTE: i128 = 60_000_000_000;

/// Largest magnitude, in nanoseconds, of the instants the library works with
/// (2^75 ns, about 1.2 million years): every instant that `chrono` can
/// represent lies well inside it.
pub const TIME_LIMIT: i128 = 37778931862957161709568;

/// Largest number of minutes that `chrono::TimeDelta::minutes` accepts
/// (its magnitude in seconds may not exceed `i64::MAX / 1000`).
pub const MINUTES_LIMIT: i64 = 153722867280912;

/// A count of nanoseconds lies within the library's time range.
pub open spec fn in_time_range(n: int) -> bool {
    -TIME_LIMIT <= n <= TIME_LIMIT
}

/// Largest magnitude, in nanoseconds, of a span by which an instant is moved
/// (2^96 ns): more than any span `chrono` can represent.
pub const SPAN_LIMIT: i128 = 79228162514264337593543950336;

/// A span of nanoseconds by which an instant may be moved.
pub open spec fn in_span_range(n: int) -> bool {
    -SPAN_LIMIT <= n <= SPAN_LIMIT
}

/// A count of minutes that `chrono::TimeDelta::minutes` accepts without panicking.
pub open spec fn minutes_in_range(m: int) -> bool {
    -MINUTES_LIMIT <= m <= MINUTES_LIMIT
}

/// A count of nanoseconds that fits in an `i64`, the range of
/// `chrono`'s nanosecond timestamps.
pub open spec fn fits_i64(n: int) -> bool {
    i64::MIN <= n <= i64::MAX
}

/// `stamp` rounded to the nearest multiple of `span`; a value exactly halfway
/// between two multiples goes up.
pub open spec fn round_to_multiple(stamp: int, span: int) -> int {
    let below = stamp % span;
    if below == 0 {
        stamp
    } else if span - below <= below {
        stamp + (span - below)
    } else {
        stamp - below
    }
}

/// `stamp` rounded down to a multiple of `span`.
pub open spec fn truncate_to_multiple(stamp: int, span: int) -> int {
    stamp - stamp % span
}

/// An instant in UTC, as nanoseconds since 1970-01-01T00:00:00Z.
#[derive(Clone, Copy, Debug, PartialEq, Eq, Structural)]
pub struct UtcTime {
    /// Nanoseconds since the Unix epoch (negative before it).
    pub nanos: i128,
}

/// Splits `x` into a quotient and a remainder with `0 <= remainder < m`.
pub fn floor_div_mod(x: i128, m: i128) -> (r: (i128, i128))
    requires
        m > 0,
    ensures
        r.0 == x / m,
        r.1 == x % m,
        x == r.0 * m + r.1,
        0 <= r.1 < m,
{
    proof {
        lemma_floor_div_between(x as int, m as int);
        vstd::arithmetic::div_mod::lemma_fundamental_div_mod(x as int, m as int);
        vstd::arithmetic::mul::lemma_mul_is_commutative(m as int, x as int / m as int);
    }
    let q = x.checked_div_euclid(m).unwrap();
    let rem = x.checked_rem_euclid(m).unwrap();
    (q, rem)
}

/// The Euclidean quotient of `x` by a positive `m` lies between 0 and `x`.
pub proof fn lemma_floor_div_between(x: int, m: int)
    requires
        m > 0,
    ensures
        x >= 0 ==> 0 <= x / m <= x,
        x < 0 ==> x <= x / m < 0,
{
    vstd::arithmetic::div_mod::lemma_fundamental_div_mod(x, m);
    let q = x / m;
    let r = x % m;
    assert(x >= 0 ==> 0 <= q <= x) by (nonlinear_arith)
        requires
            x == m * q + r,
            0 <= r < m,
            m > 0,
    ;
    assert(x < 0 ==> x <= q < 0) by (nonlinear_arith)
        requires
            x == m * q + r,
            0 <= r < m,
            m > 0,
    ;
}

impl UtcTime {
    /// The instant `seconds` plus `subsec_nanos` nanoseconds after the epoch,
    /// as `chrono` gives them by `timestamp()` and `timestamp_subsec_nanos()`.
    pub fn from_parts(seconds: i64, subsec_nanos: u32) -> (t: UtcTime)
        requires
            subsec_nanos < 1_000_000_000,
        ensures
            t.nanos == seconds * NANOS_PER_SECOND + subsec_nanos,
    {
        UtcTime { nanos: seconds as i128 * NANOS_PER_SECOND + subsec_nanos as i128 }
    }

    /// Whole seconds since the epoch and the nanoseconds past them, the form in
    /// which `chrono` builds a `DateTime` from a timestamp.
    pub fn to_parts(&self) -> (r: (i64, u32))
        requires
            in_time_range(self.nanos as int),
        ensures
            self.nanos == r.0 * NANOS_PER_SECOND + r.1,
            r.1 < 1_000_000_000,
    {
        let (secs, subsec) = floor_div_mod(self.nanos, NANOS_PER_SECOND);
        (secs as i64, subsec as u32)
    }

    /// This instant moved by `span` nanoseconds (`DateTime + TimeDelta`).
    pub fn add_span(self, span: i128) -> (t: UtcTime)
        requires
            in_time_range(self.nanos as int),
            in_span_range(span as int),
            in_time_range(self.nanos + span),
        ensures
            t.nanos == self.nanos + span,
    {
        UtcTime { nanos: self.nanos + span }
    }

    /// This instant moved by `span` nanoseconds back (`DateTime - TimeDelta`).
    pub fn sub_span(self, span: i128) -> (t: UtcTime)
        requires
            in_time_range(self.nanos as int),
            in_span_range(span as int),
            in_time_range(self.nanos - span),
        ensures
            t.nanos == self.nanos - span,
    {
        UtcTime { nanos: self.nanos - span }
    }

    /// This instant moved by a whole number of minutes
    /// (`DateTime + TimeDelta::minutes(minutes)`).
    pub fn add_minutes(self, minutes: i64) -> (t: UtcTime)
        requires
            in_time_range(self.nanos as int),
            minutes_in_range(minutes as int),
            in_time_range(self.nanos + minutes * NANOS_PER_MINUTE),
        ensures
            t.nanos == self.nanos + minutes * NANOS_PER_MINUTE,
    {
        UtcTime { nanos: self.nanos + minutes as i128 * NANOS_PER_MINUTE }
    }

    /// The span from `earlier` to this instant, in nanoseconds
    /// (`DateTime - DateTime`).
    pub fn since(self, earlier: UtcTime) -> (span: i128)
        requires
            in_time_range(self.nanos as int),
            in_time_range(earlier.nanos as int),
        ensures
            span == self.nanos - earlier.nanos,
    {
        self.nanos - earlier.nanos
    }

    /// The later of two instants (`std::cmp::max`).
    pub fn later(self, other: UtcTime) -> (t: UtcTime)
        ensures
            t.nanos == if self.nanos >= other.nanos { self.nanos } else { other.nanos },
    {
        if other.nanos <= self.nanos {
            self
        } else {
            other
        }
    }

    /// The earlier of two instants (`std::cmp::min`).
    pub fn earlier(self, other: UtcTime) -> (t: UtcTime)
        ensures
            t.nanos == if self.nanos <= other.nanos { self.nanos } else { other.nanos },
    {
        if self.nanos <= other.nanos {
            self
        } else {
            other
        }
    }

    /// This instant rounded to the nearest whole minute, halfway going up
    /// (`duration_round(TimeDelta::minutes(1))`).
    pub fn round_to_minute(&self) -> (t: UtcTime)
        requires
            fits_i64(self.nanos as int),
        ensures
            t.nanos == round_to_multiple(self.nanos as int, NANOS_PER_MINUTE as int),
    {
        let (secs, subsec) = chrono_round_to_minute(self.nanos as i64);
        UtcTime::from_parts(secs, subsec)
    }

    /// This instant rounded down to a whole minute
    /// (`duration_trunc(TimeDelta::minutes(1))`).
    pub fn truncate_to_minute(&self) -> (t: UtcTime)
        requires
            fits_i64(self.nanos as int),
        ensures
            t.nanos == truncate_to_multiple(self.nanos as int, NANOS_PER_MINUTE as int),
    {
        let (secs, subsec) = chrono_truncate_to_minute(self.nanos as i64);
        UtcTime::from_parts(secs, subsec)
    }
}

/// Rounding to the minute lands on a whole minute at most half a minute away,
/// and rounding down lands on a whole minute less than a minute earlier.
pub proof fn lemma_minute_rounding(stamp: int)
    ensures
        round_to_multiple(stamp, NANOS_PER_MINUTE as int) % (NANOS_PER_MINUTE as int) == 0,
        stamp - NANOS_PER_MINUTE / 2 < round_to_multiple(stamp, NANOS_PER_MINUTE as int) <= stamp
            + NANOS_PER_MINUTE / 2,
        truncate_to_multiple(stamp, NANOS_PER_MINUTE as int) % (NANOS_PER_MINUTE as int) == 0,
        stamp - NANOS_PER_MINUTE < truncate_to_multiple(stamp, NANOS_PER_MINUTE as int) <= stamp,
{
    let m = NANOS_PER_MINUTE as int;
    let below = stamp % m;
    vstd::arithmetic::div_mod::lemma_fundamental_div_mod(stamp, m);
    let q = stamp / m;
    assert(stamp == m * q + below);
    assert((m * q) % m == 0) by {
        vstd::arithmetic::div_mod::lemma_mod_multiples_basic(q, m);
        vstd::arithmetic::mul::lemma_mul_is_commutative(q, m);
    }
    assert((m * (q + 1)) % m == 0) by {
        vstd::arithmetic::div_mod::lemma_mod_multiples_basic(q + 1, m);
        vstd::arithmetic::mul::lemma_mul_is_commutative(q + 1, m);
    }
    assert(m * (q + 1) == m * q + m) by {
        vstd::arithmetic::mul::lemma_mul_is_distributive_add(m, q, 1);
    }
}

/// Rounding down keeps the order of instants.
pub proof fn lemma_truncate_monotone(earlier: int, later: int, span: int)
    requires
        span > 0,
        earlier <= later,
    ensures
        truncate_to_multiple(earlier, span) <= truncate_to_multiple(later, span),
{
    vstd::arithmetic::div_mod::lemma_fundamental_div_mod(earlier, span);
    vstd::arithmetic::div_mod::lemma_fundamental_div_mod(later, span);
    vstd::arithmetic::div_mod::lemma_div_is_ordered(earlier, later, span);
    vstd::arithmetic::mul::lemma_mul_inequality(earlier / span, later / span, span);
    vstd::arithmetic::mul::lemma_mul_is_commutative(span, earlier / span);
    vstd::arithmetic::mul::lemma_mul_is_commutative(span, later / span);
}

/// Rounding to the nearest multiple of an even span, halfway going up, is
/// rounding down half a span later.
pub proof fn lemma_round_is_truncate_of_half_later(stamp: int, span: int)
    requires
        span > 0,
        span % 2 == 0,
    ensures
        round_to_multiple(stamp, span) == truncate_to_multiple(stamp + span / 2, span),
{
    let q = stamp / span;
    let below = stamp % span;
    vstd::arithmetic::div_mod::lemma_fundamental_div_mod(stamp, span);
    vstd::arithmetic::mul::lemma_mul_is_commutative(span, q);
    if below + span / 2 < span {
        vstd::arithmetic::div_mod::lemma_fundamental_div_mod_converse(
            stamp + span / 2,
            span,
            q,
            below + span / 2,
        );
    } else {
        assert(q * span + below + span / 2 == (q + 1) * span + (below + span / 2 - span)) by {
            vstd::arithmetic::mul::lemma_mul_is_distributive_add_other_way(span, q, 1);
        }
        vstd::arithmetic::div_mod::lemma_fundamental_div_mod_converse(
            stamp + span / 2,
            span,
            q + 1,
            below + span / 2 - span,
        );
    }
}

/// What `chrono`'s `TimeDelta / i32` gives, in nanoseconds, for the span of
/// `seconds` seconds and `subsec_nanos` nanoseconds divided by `divisor`.
pub uninterp spec fn span_quotient(seconds: int, subsec_nanos: int, divisor: int) -> int;

/// The day number `chrono` gives a proleptic Gregorian date by
/// `Datelike::num_days_from_ce` (January 1 of year 1 is day 1).
pub uninterp spec fn days_from_ce(year: int, month: int, day: int) -> int;

/// `chrono`'s `DurationRound::duration_round` on a `DateTime<Utc>` built from a
/// nanosecond timestamp, with a span of one minute, read back as whole seconds
/// and nanoseconds. By its source in `round.rs`, the result is the timestamp
/// rounded to the nearest multiple of the span, a tie going up; the call
/// cannot fail for a timestamp that came from an `i64`.
#[verifier::external_body]
fn chrono_round_to_minute(nanos: i64) -> (r: (i64, u32))
    ensures
        r.1 < 1_000_000_000,
        r.0 * NANOS_PER_SECOND + r.1 == round_to_multiple(nanos as int, NANOS_PER_MINUTE as int),
{
    let t = DateTime::from_timestamp_nanos(nanos).duration_round(TimeDelta::minutes(1)).unwrap();
    (t.timestamp(), t.timestamp_subsec_nanos())
}

/// `chrono`'s `DurationRound::duration_trunc` with a span of one minute, on a
/// `DateTime<Utc>` built from a nanosecond timestamp, read back as whole
/// seconds and nanoseconds. By its source in `round.rs`, the result is the
/// timestamp rounded down to a multiple of the span.
#[verifier::external_body]
fn chrono_truncate_to_minute(nanos: i64) -> (r: (i64, u32))
    ensures
        r.1 < 1_000_000_000,
        r.0 * NANOS_PER_SECOND + r.1 == truncate_to_multiple(nanos as int, NANOS_PER_MINUTE as int),
{
    let t = DateTime::from_timestamp_nanos(nanos).duration_trunc(TimeDelta::minutes(1)).unwrap();
    (t.timestamp(), t.timestamp_subsec_nanos())
}

/// `chrono`'s `TimeDelta / i32` (`TimeDelta::checked_div`) on the span of
/// `seconds` seconds and `subsec_nanos` nanoseconds, read back as
/// `num_seconds()` and `subsec_nanos()`, whose documented sum
/// `num_seconds() * 1e9 + subsec_nanos()` is the total. The value is named,
/// not written out. From its source, for a span that is not negative and a
/// positive divisor, every partial quotient there rounds down, so the result
/// times the divisor is at most the span and less than two divisors below it.
/// Nothing is stated of a negative span beyond the name.
#[verifier::external_body]
fn chrono_span_quotient(seconds: i64, subsec_nanos: u32, divisor: i32) -> (r: (i64, i32))
    requires
        subsec_nanos < 1_000_000_000,
        -0x10_0000_0000_0000 <= seconds <= 0x10_0000_0000_0000,
        divisor > 0,
    ensures
        r.0 * NANOS_PER_SECOND + r.1 == span_quotient(
            seconds as int,
            subsec_nanos as int,
            divisor as int,
        ),
        seconds >= 0 ==> 0 <= r.0 * NANOS_PER_SECOND + r.1,
        seconds >= 0 ==> (r.0 * NANOS_PER_SECOND + r.1) * divisor <= seconds * NANOS_PER_SECOND
            + subsec_nanos,
        seconds >= 0 ==> seconds * NANOS_PER_SECOND + subsec_nanos < (r.0 * NANOS_PER_SECOND
            + r.1) * divisor + 2 * divisor,
{
    let q = TimeDelta::new(seconds, subsec_nanos).unwrap() / divisor;
    (q.num_seconds(), q.subsec_nanos())
}

/// A span of nanoseconds divided by a positive `divisor` the way `chrono`'s
/// `TimeDelta / i32` does it.
pub fn span_div(span: i128, divisor: i32) -> (r: i128)
    requires
        -0x1_0000_0000_0000_0000_0000 <= span <= 0x1_0000_0000_0000_0000_0000,
        divisor > 0,
    ensures
        r == span_quotient(
            span / NANOS_PER_SECOND,
            (span % NANOS_PER_SECOND) as int,
            divisor as int,
        ),
        span >= 0 ==> 0 <= r && r * divisor <= span && span < r * divisor + 2 * divisor,
        -0x1_0000_0000_0000_0000_0000_0000 <= r <= 0x1_0000_0000_0000_0000_0000_0000,
{
    let (secs, subsec) = floor_div_mod(span, NANOS_PER_SECOND);
    let (q_secs, q_nanos) = chrono_span_quotient(secs as i64, subsec as u32, divisor);
    q_secs as i128 * NANOS_PER_SECOND + q_nanos as i128
}

/// A date of the proleptic Gregorian calendar, as year, month and day.
#[derive(Clone, Copy, Debug, PartialEq, Eq, Structural)]
pub struct CivilDate {
    /// Year (negative before year 1, as in `chrono`)
    pub year: i32,
    /// Month, 1 to 12
    pub month: u32,
    /// Day of the month, from 1
    pub day: u32,
}

/// Whether `year` is a leap year of the Gregorian calendar.
pub open spec fn is_leap_year(year: int) -> bool {
    year % 4 == 0 && (year % 100 != 0 || year % 400 == 0)
}

/// Number of days in `month` of `year`.
pub open spec fn days_in_month(year: int, month: int) -> int {
    if month == 2 {
        if is_leap_year(year) {
            29
        } else {
            28
        }
    } else if month == 4 || month == 6 || month == 9 || month == 11 {
        30
    } else {
        31
    }
}

/// The dates that `chrono::NaiveDate::from_ymd_opt` accepts: a real calendar
/// date whose year lies within `chrono`'s range.
pub open spec fn is_calendar_date(year: int, month: int, day: int) -> bool {
    &&& -262143 <= year <= 262142
    &&& 1 <= month <= 12
    &&& 1 <= day <= days_in_month(year, month)
}

impl CivilDate {
    /// The date is one that `chrono` can represent.
    pub open spec fn is_valid(self) -> bool {
        is_calendar_date(self.year as int, self.month as int, self.day as int)
    }

    /// The day number of the date, counted by `chrono` from January 1 of year 1.
    pub fn day_number(&self) -> (n: i32)
        requires
            self.is_valid(),
        ensures
            n == days_from_ce(self.year as int, self.month as int, self.day as int),
    {
        chrono_days_from_ce(self.year, self.month, self.day)
    }
}

/// The day number of 1970-01-01, the Unix epoch, in `chrono`'s count from
/// January 1 of year 1.
pub const UNIX_EPOCH_DAY: i64 = 719_163;

/// Seconds in one day.
pub const SECONDS_PER_DAY: i64 = 86_400;

/// Largest number of seconds that `chrono::TimeDelta::seconds` accepts.
pub const SECONDS_LIMIT: i64 = 9_223_372_036_854_775;

/// The Unix timestamp, in nanoseconds, of the midnight that starts the day
/// with the given number: `chrono` counts it as
/// `(day number - 719163) * 86400` seconds.
pub open spec fn midnight_nanos(day_number: int) -> int {
    (day_number - UNIX_EPOCH_DAY) * SECONDS_PER_DAY * NANOS_PER_SECOND
}

/// The Unix epoch, day 719163, begins at timestamp 0, and each day begins
/// exactly 86400 seconds after the day before it.
pub proof fn lemma_midnight_days_apart(day_number: int, later: int)
    ensures
        midnight_nanos(719_163) == 0,
        midnight_nanos(day_number + 1) == midnight_nanos(day_number) + 86_400_000_000_000,
        midnight_nanos(later) - midnight_nanos(day_number) == (later - day_number)
            * 86_400_000_000_000,
        midnight_nanos(day_number) == (day_number - 719_163) * 86_400_000_000_000,
{
    assert(midnight_nanos(later) - midnight_nanos(day_number) == (later - day_number)
        * 86_400_000_000_000) by (nonlinear_arith);
}

impl CivilDate {
    /// The instant the date begins, 00:00:00 UTC.
    pub fn midnight(&self) -> (t: UtcTime)
        requires
            self.is_valid(),
        ensures
            t.nanos == midnight_nanos(
                days_from_ce(self.year as int, self.month as int, self.day as int),
            ),
            t.nanos == (days_from_ce(self.year as int, self.month as int, self.day as int)
                - 719_163) * 86_400_000_000_000,
            -0x1_0000_0000_0000_0000_0000 <= t.nanos <= 0x1_0000_0000_0000_0000_0000,
    {
        let day = self.day_number() as i128;
        let days_since_epoch: i128 = day - 719_163;
        assert(-0x1_0000_0000 <= days_since_epoch <= 0x1_0000_0000);
        UtcTime { nanos: days_since_epoch * 86_400_000_000_000 }
    }

    /// The instant `seconds` seconds after the date begins, rounded to the
    /// nearest minute.
    pub fn time_at(&self, seconds: i64) -> (t: UtcTime)
        requires
            self.is_valid(),
            -SECONDS_LIMIT <= seconds <= SECONDS_LIMIT,
            fits_i64(
                midnight_nanos(days_from_ce(self.year as int, self.month as int, self.day as int))
                    + seconds * NANOS_PER_SECOND,
            ),
        ensures
            t.nanos == round_to_multiple(
                midnight_nanos(days_from_ce(self.year as int, self.month as int, self.day as int))
                    + seconds * NANOS_PER_SECOND,
                NANOS_PER_MINUTE as int,
            ),
    {
        let start = self.midnight();
        let moment = UtcTime { nanos: start.nanos + seconds as i128 * NANOS_PER_SECOND };
        moment.round_to_minute()
    }

    /// `time_at`, or nothing when the instant lies outside the range of
    /// `chrono`'s nanosecond timestamps, where it cannot be rounded.
    pub fn checked_time_at(&self, seconds: i64) -> (t: Option<UtcTime>)
        requires
            self.is_valid(),
            -SECONDS_LIMIT <= seconds <= SECONDS_LIMIT,
        ensures
            t is Some <==> fits_i64(
                midnight_nanos(days_from_ce(self.year as int, self.month as int, self.day as int))
                    + seconds * NANOS_PER_SECOND,
            ),
            t matches Some(t) ==> t.nanos == round_to_multiple(
                midnight_nanos(days_from_ce(self.year as int, self.month as int, self.day as int))
                    + seconds * NANOS_PER_SECOND,
                NANOS_PER_MINUTE as int,
            ),
    {
        let start = self.midnight();
        let moment = start.nanos + seconds as i128 * NANOS_PER_SECOND;
        if moment < i64::MIN as i128 || moment > i64::MAX as i128 {
            None
        } else {
            Some(self.time_at(seconds))
        }
    }
}

/// `chrono`'s `Datelike::num_days_from_ce` on the `NaiveDate` built by
/// `NaiveDate::from_ymd_opt(year, month, day)`, which is `Some` for every date
/// that `requires` admits. The day number is named, not written out.
#[verifier::external_body]
fn chrono_days_from_ce(year: i32, month: u32, day: u32) -> (n: i32)
    requires
        is_calendar_date(year as int, month as int, day as int),
    ensures
        n == days_from_ce(year as int, month as int, day as int),
{
    NaiveDate::from_ymd_opt(year, month, day).unwrap().num_days_from_ce()
}

} // verus!
