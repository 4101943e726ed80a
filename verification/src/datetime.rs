//! The calendar model: weekdays, times of day, and absolute instants.
//!
//! An instant is a day number paired with a time of day.  Day 0 of the count
//! is January 1 of year 1 in the proleptic Gregorian calendar, a Monday, so
//! the weekday of a day number is the day number modulo seven.

use vstd::prelude::*;

verus! {

/// Seconds in a day; every valid time of day is strictly below it.
pub const SECONDS_PER_DAY: u32 = 86400;

/// A day of the week.
#[derive(Clone, Copy, PartialEq, Eq, Structural, Debug)]
pub enum Weekday {
    Mon,
    Tue,
    Wed,
    Thu,
    Fri,
    Sat,
    Sun,
}

impl Weekday {
    /// Days from Monday: 0 for Monday through 6 for Sunday.
    pub open spec fn days_from_monday_spec(self) -> int {
        match self {
            Weekday::Mon => 0,
            Weekday::Tue => 1,
            Weekday::Wed => 2,
            Weekday::Thu => 3,
            Weekday::Fri => 4,
            Weekday::Sat => 5,
            Weekday::Sun => 6,
        }
    }

    pub fn num_days_from_monday(self) -> (d: u64)
        ensures
            d == self.days_from_monday_spec(),
    {
        match self {
            Weekday::Mon => 0,
            Weekday::Tue => 1,
            Weekday::Wed => 2,
            Weekday::Thu => 3,
            Weekday::Fri => 4,
            Weekday::Sat => 5,
            Weekday::Sun => 6,
        }
    }

    /// Rebuilds a weekday from a persisted days-from-Monday count,
    /// rejecting anything out of range.
    pub fn from_days_from_monday(d: i64) -> (r: Option<Weekday>)
        ensures
            r is Some <==> 0 <= d < 7,
            r matches Some(w) ==> w.days_from_monday_spec() == d,
    {
        if d == 0 {
            Some(Weekday::Mon)
        } else if d == 1 {
            Some(Weekday::Tue)
        } else if d == 2 {
            Some(Weekday::Wed)
        } else if d == 3 {
            Some(Weekday::Thu)
        } else if d == 4 {
            Some(Weekday::Fri)
        } else if d == 5 {
            Some(Weekday::Sat)
        } else if d == 6 {
            Some(Weekday::Sun)
        } else {
            None
        }
    }
}

/// A time of day with second precision, counted from midnight.
#[derive(Clone, Copy, PartialEq, Eq, Structural, Debug)]
pub struct TimeOfDay {
    pub seconds: u32,
}

impl TimeOfDay {
    /// A valid time of day lies strictly within one day.
    pub open spec fn wf(self) -> bool {
        self.seconds < 86400
    }

    pub fn from_hms(hour: u32, min: u32, sec: u32) -> (t: TimeOfDay)
        requires
            hour < 24,
            min < 60,
            sec < 60,
        ensures
            t.seconds == hour * 3600 + min * 60 + sec,
            t.wf(),
    {
        TimeOfDay { seconds: hour * 3600 + min * 60 + sec }
    }

    /// Rebuilds a time of day from a persisted seconds-from-midnight count,
    /// rejecting anything out of range.
    pub fn from_seconds(seconds: u32) -> (r: Option<TimeOfDay>)
        ensures
            r is Some <==> seconds < 86400,
            r matches Some(t) ==> t.seconds == seconds && t.wf(),
    {
        if seconds < SECONDS_PER_DAY {
            Some(TimeOfDay { seconds })
        } else {
            None
        }
    }
}

/// An absolute instant with second precision: a day number and a time of day.
/// Day 0 is January 1 of year 1 (proleptic Gregorian), a Monday.
#[derive(Clone, Copy, PartialEq, Eq, Structural, Debug)]
pub struct Instant {
    pub day: u64,
    pub time: TimeOfDay,
}

impl Instant {
    pub open spec fn wf(self) -> bool {
        self.time.wf()
    }

    /// Days from Monday of the day this instant falls on.
    pub open spec fn weekday_index(self) -> int {
        self.day as int % 7
    }

    /// Strict order on instants: by day, then by time of day.
    pub open spec fn lt_spec(self, other: Instant) -> bool {
        self.day < other.day || (self.day == other.day && self.time.seconds < other.time.seconds)
    }

    pub fn weekday(self) -> (w: Weekday)
        ensures
            w.days_from_monday_spec() == self.weekday_index(),
    {
        let r = Weekday::from_days_from_monday((self.day % 7) as i64);
        r.unwrap()
    }
}

/// Whether a year is a leap year in the proleptic Gregorian calendar.
pub open spec fn is_leap_year(y: int) -> bool {
    y % 4 == 0 && (y % 100 != 0 || y % 400 == 0)
}

pub open spec fn days_in_year(y: int) -> int {
    if is_leap_year(y) {
        366
    } else {
        365
    }
}

pub open spec fn days_in_month(y: int, m: int) -> int {
    if m == 2 {
        if is_leap_year(y) {
            29
        } else {
            28
        }
    } else if m == 4 || m == 6 || m == 9 || m == 11 {
        30
    } else {
        31
    }
}

/// Days from January 1 of year 1 to January 1 of year `y`.
pub open spec fn days_before_year(y: int) -> int
    decreases y,
{
    if y <= 1 {
        0
    } else {
        days_before_year(y - 1) + days_in_year(y - 1)
    }
}

/// Days from the first of January to the first of month `m` in year `y`.
pub open spec fn days_before_month(y: int, m: int) -> int
    decreases m,
{
    if m <= 1 {
        0
    } else {
        days_before_month(y, m - 1) + days_in_month(y, m - 1)
    }
}

/// The day number of a calendar date: days since January 1 of year 1.
pub open spec fn day_number_spec(y: int, m: int, d: int) -> int {
    days_before_year(y) + days_before_month(y, m) + d - 1
}

pub fn leap_year(y: u32) -> (b: bool)
    ensures
        b == is_leap_year(y as int),
{
    y % 4 == 0 && (y % 100 != 0 || y % 400 == 0)
}

pub fn month_length(y: u32, m: u32) -> (d: u32)
    ensures
        d == days_in_month(y as int, m as int),
{
    if m == 2 {
        if leap_year(y) {
            29
        } else {
            28
        }
    } else if m == 4 || m == 6 || m == 9 || m == 11 {
        30
    } else {
        31
    }
}

proof fn lemma_days_before_year_bound(y: int)
    requires
        y >= 1,
    ensures
        0 <= days_before_year(y) <= 366 * (y - 1),
    decreases y,
{
    if y > 1 {
        lemma_days_before_year_bound(y - 1);
    }
}

proof fn lemma_days_before_month_bound(y: int, m: int)
    requires
        m >= 1,
    ensures
        0 <= days_before_month(y, m) <= 31 * (m - 1),
    decreases m,
{
    if m > 1 {
        lemma_days_before_month_bound(y, m - 1);
    }
}

/// The day number of a calendar date, counted from January 1 of year 1
/// as day 0.
pub fn day_number_from_ymd(year: u32, month: u32, day: u32) -> (n: u64)
    requires
        1 <= year <= 9999,
        1 <= month <= 12,
        1 <= day <= days_in_month(year as int, month as int),
    ensures
        n == day_number_spec(year as int, month as int, day as int),
{
    proof {
        lemma_days_before_year_bound(year as int);
        lemma_days_before_month_bound(year as int, month as int);
    }
    let mut n: u64 = 0;
    let mut y: u32 = 1;
    while y < year
        invariant
            1 <= y <= year <= 9999,
            n == days_before_year(y as int),
        decreases year - y,
    {
        proof {
            lemma_days_before_year_bound(y as int);
        }
        if leap_year(y) {
            n = n + 366;
        } else {
            n = n + 365;
        }
        y = y + 1;
    }
    let mut m: u32 = 1;
    while m < month
        invariant
            1 <= m <= month <= 12,
            y == year,
            1 <= year <= 9999,
            n == days_before_year(year as int) + days_before_month(year as int, m as int),
        decreases month - m,
    {
        proof {
            lemma_days_before_year_bound(year as int);
            lemma_days_before_month_bound(year as int, m as int);
        }
        n = n + month_length(year, m) as u64;
        m = m + 1;
    }
    n + day as u64 - 1
}

impl Instant {
    /// The instant of a calendar date and clock reading.
    pub fn from_ymd_hms(year: u32, month: u32, day: u32, hour: u32, min: u32, sec: u32) -> (r:
        Instant)
        requires
            1 <= year <= 9999,
            1 <= month <= 12,
            1 <= day <= days_in_month(year as int, month as int),
            hour < 24,
            min < 60,
            sec < 60,
        ensures
            r.day == day_number_spec(year as int, month as int, day as int),
            r.time.seconds == hour * 3600 + min * 60 + sec,
            r.wf(),
    {
        Instant { day: day_number_from_ymd(year, month, day), time: TimeOfDay::from_hms(hour, min, sec) }
    }
}

/// Relies on chrono's `Local::now`, read through `Datelike::num_days_from_ce`
/// (days counted with January 1 of year 1 as day 1) and
/// `Timelike::num_seconds_from_midnight` (documented to lie in 0..=86399):
/// the current local day and second.  The values depend on the clock, so
/// nothing is promised of them beyond their ranges.
#[verifier::external_body]
fn local_now_parts() -> (r: (i64, u32))
    ensures
        r.1 < 86400,
{
    let now = chrono::Local::now();
    (chrono::Datelike::num_days_from_ce(&now) as i64, chrono::Timelike::num_seconds_from_midnight(&now))
}

/// The current local time as a model instant.  A clock reading before year 1
/// collapses to the first representable day.
pub fn now_local() -> (r: Instant)
    ensures
        r.wf(),
        r.day <= 0x7fff_ffff_ffff_ffff,
{
    let (days_ce, secs) = local_now_parts();
    let day: u64 = if days_ce >= 1 {
        (days_ce - 1) as u64
    } else {
        0
    };
    Instant { day, time: TimeOfDay { seconds: secs } }
}

} // verus!
