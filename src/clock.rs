//! A wall-clock sample held as plain calendar fields.
use vstd::prelude::*;
use chrono::{Datelike, Timelike};

verus! {

/// A proleptic Gregorian date and a time of day, to the second.
#[derive(Clone, Copy, Debug, PartialEq, Eq, Structural)]
pub struct DateTimeSample {
    pub year: i32,
    pub month: u8,
    pub day: u8,
    pub hour: u8,
    pub minute: u8,
    pub second: u8,
}

/// Gregorian leap year rule.
pub open spec fn is_leap_year(year: int) -> bool {
    year % 4 == 0 && (year % 100 != 0 || year % 400 == 0)
}

/// Number of days of a month (1 to 12) in a year.
pub open spec fn days_in_month(year: int, month: int) -> int {
    if month == 2 {
        if is_leap_year(year) {
            29
        } else {
            28
        }
    } else if month == 4 || month == 6 || month == 9 || month == 11 {
        30
    } else {
        31
    }
}

impl DateTimeSample {
    /// The fields name a real calendar date and time of day.
    pub open spec fn wf(&self) -> bool {
        &&& 1 <= self.month <= 12
        &&& 1 <= self.day <= days_in_month(self.year as int, self.month as int)
        &&& self.hour < 24
        &&& self.minute < 60
        &&& self.second < 60
    }

    /// Whether the fields name a real date and time, for a year within
    /// `YEAR_BOUND` of year 0.
    pub fn is_valid_near(&self) -> (r: bool)
        ensures
            r == (self.wf() && -YEAR_BOUND <= self.year <= YEAR_BOUND),
    {
        if self.year < -YEAR_BOUND || self.year > YEAR_BOUND || self.month < 1 || self.month > 12 {
            return false;
        }
        // A shift by a multiple of 400 years keeps the leap year rule.
        let shifted: u32 = (self.year + 40000) as u32;
        proof {
            let y = self.year as int;
            assert(y % 4 == (y + 40000) % 4);
            assert(y % 100 == (y + 40000) % 100);
            assert(y % 400 == (y + 40000) % 400);
        }
        let leap = shifted % 4 == 0 && (shifted % 100 != 0 || shifted % 400 == 0);
        let days: u8 = if self.month == 2 {
            if leap {
                29
            } else {
                28
            }
        } else if self.month == 4 || self.month == 6 || self.month == 9 || self.month == 11 {
            30
        } else {
            31
        };
        1 <= self.day && self.day <= days && self.hour < 24 && self.minute < 60 && self.second < 60
    }
}

/// Years from `-YEAR_BOUND` to `YEAR_BOUND` are those that the date text is
/// rendered for.
pub const YEAR_BOUND: i32 = 9999;

/// Nanoseconds in a second.
pub const NANOS_PER_SEC: u32 = 1_000_000_000;

/// Largest distance from the Unix epoch, in seconds, of a timestamp handed
/// to chrono here: about 253,000 years, inside chrono's range of dates.
pub const MAX_TIMESTAMP: i64 = 8_000_000_000_000;

/// A reading of the system clock: how far it stands from the Unix epoch,
/// and on which side of it.
#[derive(Clone, Copy, Debug, PartialEq, Eq, Structural)]
pub struct ClockReading {
    pub after_epoch: bool,
    pub secs: u64,
    pub nanos: u32,
}

impl ClockReading {
    /// The nanoseconds part is below a second.
    pub open spec fn wf(&self) -> bool {
        self.nanos < NANOS_PER_SEC
    }

    /// Signed nanoseconds since the Unix epoch.
    pub open spec fn total_nanos(&self) -> int {
        let m = self.secs as int * NANOS_PER_SEC as int + self.nanos as int;
        if self.after_epoch {
            m
        } else {
            -m
        }
    }
}

/// The readings whose timestamp, in whole seconds rounded down, lies within
/// `MAX_TIMESTAMP` of the epoch.
pub open spec fn timestamp_in_range(c: ClockReading) -> bool {
    -MAX_TIMESTAMP * NANOS_PER_SEC <= c.total_nanos() < (MAX_TIMESTAMP + 1) * NANOS_PER_SEC
}

#[verifier::external_type_specification]
#[verifier::external_body]
pub struct ExSystemTime(std::time::SystemTime);

/// Relies on std's `SystemTime::now`. What the clock reads is not stated.
#[verifier::external_body]
fn system_now() -> (r: std::time::SystemTime) {
    std::time::SystemTime::now()
}

/// Relies on std's `SystemTime::duration_since` against `UNIX_EPOCH`, which
/// gives the distance after the epoch, or in its error the distance before
/// it; a `Duration`'s `subsec_nanos` is below a second.
#[verifier::external_body]
fn since_epoch(t: &std::time::SystemTime) -> (r: ClockReading)
    ensures
        r.wf(),
{
    match t.duration_since(std::time::UNIX_EPOCH) {
        Ok(d) => ClockReading { after_epoch: true, secs: d.as_secs(), nanos: d.subsec_nanos() },
        Err(e) => {
            let d = e.duration();
            ClockReading { after_epoch: false, secs: d.as_secs(), nanos: d.subsec_nanos() }
        },
    }
}

/// The Unix timestamp of a clock reading: whole seconds rounded down and the
/// nanoseconds past them; `None` where the seconds lie further than
/// `MAX_TIMESTAMP` from the epoch.
pub fn unix_timestamp(c: ClockReading) -> (r: Option<(i64, u32)>)
    requires
        c.wf(),
    ensures
        r is Some == timestamp_in_range(c),
        r is Some ==> {
            let (s, n) = r->0;
            &&& n < NANOS_PER_SEC
            &&& -MAX_TIMESTAMP <= s <= MAX_TIMESTAMP
            &&& s * NANOS_PER_SEC + n == c.total_nanos()
        },
{
    let ghost n: int = NANOS_PER_SEC as int;
    let ghost max: int = MAX_TIMESTAMP as int;
    let ghost secs: int = c.secs as int;
    if c.after_epoch {
        if c.secs <= MAX_TIMESTAMP as u64 {
            assert(secs * n <= max * n) by (nonlinear_arith)
                requires secs <= max, n > 0;
            Some((c.secs as i64, c.nanos))
        } else {
            assert(secs * n >= (max + 1) * n) by (nonlinear_arith)
                requires secs >= max + 1, n > 0;
            None
        }
    } else if c.nanos == 0 {
        if c.secs <= MAX_TIMESTAMP as u64 {
            assert(secs * n <= max * n) by (nonlinear_arith)
                requires secs <= max, n > 0;
            Some((-(c.secs as i64), 0))
        } else {
            assert(secs * n >= (max + 1) * n) by (nonlinear_arith)
                requires secs >= max + 1, n > 0;
            None
        }
    } else {
        if c.secs < MAX_TIMESTAMP as u64 {
            assert(secs * n <= (max - 1) * n) by (nonlinear_arith)
                requires secs <= max - 1, n > 0;
            Some((-(c.secs as i64) - 1, NANOS_PER_SEC - c.nanos))
        } else {
            assert(secs * n >= max * n) by (nonlinear_arith)
                requires secs >= max, n > 0;
            None
        }
    }
}

/// Relies on chrono's `DateTime::from_timestamp` (`None` outside chrono's
/// range), `DateTime::with_timezone(&Local)` and the `Datelike` /
/// `Timelike` accessors: a local date is a valid Gregorian date (month 1 to
/// 12, day within the month), the hour is 0 to 23, the minute and the second
/// 0 to 59 (a leap second shows in the nanoseconds). `from_timestamp` gives
/// a date for every timestamp within `MAX_TIMESTAMP` of the epoch and a
/// nanosecond part below a second; chrono's zone lookup fails only at the
/// ends of the `i64` range. `requires` keeps both out.
#[verifier::external_body]
fn local_fields(secs: i64, nanos: u32) -> (r: Option<DateTimeSample>)
    requires
        -MAX_TIMESTAMP <= secs <= MAX_TIMESTAMP,
        nanos < NANOS_PER_SEC,
    ensures
        r is Some,
        r->0.wf(),
{
    let now = chrono::DateTime::from_timestamp(secs, nanos)?.with_timezone(&chrono::Local);
    Some(DateTimeSample {
        year: now.year(),
        month: now.month() as u8,
        day: now.day() as u8,
        hour: now.hour() as u8,
        minute: now.minute() as u8,
        second: now.second() as u8,
    })
}

/// The local date and time now; `None` exactly where the clock reads further
/// than `MAX_TIMESTAMP` seconds from the epoch.
pub fn local_now() -> (r: Option<DateTimeSample>)
    ensures
        r is Some ==> r->0.wf(),
{
    let now = system_now();
    let c = since_epoch(&now);
    match unix_timestamp(c) {
        Some((s, n)) => local_fields(s, n),
        None => None,
    }
}

} // verus!
