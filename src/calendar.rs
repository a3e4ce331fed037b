//! Wall-clock points and calendar durations, with normalizing addition.
use chrono::{Datelike, Offset, TimeZone as ChronoTimeZone, Timelike};
use vstd::prelude::*;

verus! {

/// The earliest year that chrono's dates can hold.
pub const MIN_YEAR: i32 = -262143;

/// The latest year that chrono's dates can hold.
pub const MAX_YEAR: i32 = 262142;

pub open spec fn is_leap_year(y: int) -> bool {
    y % 4 == 0 && (y % 100 != 0 || y % 400 == 0)
}

/// Days in month `m` (1 to 12) of year `y`, in the proleptic Gregorian calendar.
pub open spec fn days_in_month(y: int, m: int) -> int {
    if m == 2 {
        if is_leap_year(y) {
            29
        } else {
            28
        }
    } else if m == 4 || m == 6 || m == 9 || m == 11 {
        30
    } else {
        31
    }
}

/// The fields name a real calendar date and time of day.
pub open spec fn valid_date_time(y: int, mo: int, d: int, h: int, mi: int, s: int) -> bool {
    &&& 1 <= mo <= 12
    &&& 1 <= d <= days_in_month(y, mo)
    &&& 0 <= h < 24
    &&& 0 <= mi < 60
    &&& 0 <= s < 60
}

pub open spec fn year_in_range(y: int) -> bool {
    MIN_YEAR <= y <= MAX_YEAR
}

/// Days from 1970-01-01 to the given date of the proleptic Gregorian calendar.
pub open spec fn days_from_civil(y: int, m: int, d: int) -> int {
    let yy = if m <= 2 { y - 1 } else { y };
    let era = yy / 400;
    let yoe = yy - era * 400;
    let mp = if m > 2 { m - 3 } else { m + 9 };
    let doy = (153 * mp + 2) / 5 + d - 1;
    let doe = yoe * 365 + yoe / 4 - yoe / 100 + doy;
    era * 146097 + doe - 719468
}

/// The Unix timestamp of a UTC date and time.
pub open spec fn utc_seconds(y: int, mo: int, d: int, h: int, mi: int, s: int) -> int {
    days_from_civil(y, mo, d) * 86400 + h * 3600 + mi * 60 + s
}

/// Relies on chrono's `Utc.with_ymd_and_hms` and `DateTime::timestamp`: an instant exists
/// exactly when the fields name a valid date and time within chrono's years, and its
/// timestamp counts the seconds since 1970-01-01 00:00:00 UTC.
#[verifier::external_body]
fn utc_timestamp(year: i32, month: u32, day: u32, hour: u32, min: u32, sec: u32) -> (r: Option<i64>)
    ensures
        r is Some <==> (valid_date_time(year as int, month as int, day as int, hour as int, min as int, sec as int)
            && year_in_range(year as int)),
        r matches Some(t) ==> t == utc_seconds(year as int, month as int, day as int, hour as int, min as int, sec as int),
{
    chrono::Utc.with_ymd_and_hms(year, month, day, hour, min, sec).single().map(|d| d.timestamp())
}

/// Relies on chrono's `Local.with_ymd_and_hms(..).single()` and `FixedOffset::local_minus_utc`:
/// the offset of this machine's time zone at that local date and time, when exactly one
/// instant has those fields there. chrono's offsets lie strictly within one day.
#[verifier::external_body]
fn local_offset(year: i32, month: u32, day: u32, hour: u32, min: u32, sec: u32) -> (r: Option<i32>)
    requires
        valid_date_time(year as int, month as int, day as int, hour as int, min as int, sec as int),
        year_in_range(year as int),
    ensures
        r matches Some(o) ==> -86400 < o < 86400,
{
    chrono::Local.with_ymd_and_hms(year, month, day, hour, min, sec).single().map(|d| d.offset().local_minus_utc())
}

/// Relies on `SystemTime::now` and `SystemTime::duration_since(UNIX_EPOCH)`: the whole
/// seconds since the Unix epoch, none when the clock reads earlier than it.
#[verifier::external_body]
fn epoch_seconds() -> (r: Option<u64>) {
    std::time::SystemTime::now().duration_since(std::time::UNIX_EPOCH).ok().map(|d| d.as_secs())
}

/// Relies on chrono's `DateTime::from_timestamp`, which round-trips with `timestamp`: the
/// UTC calendar fields of a Unix timestamp, none outside chrono's range.
#[verifier::external_body]
fn utc_fields_of(t: i64) -> (r: Option<(i32, u32, u32, u32, u32, u32)>)
    ensures
        r matches Some(f) ==> valid_date_time(f.0 as int, f.1 as int, f.2 as int, f.3 as int, f.4 as int, f.5 as int)
            && year_in_range(f.0 as int) && utc_seconds(f.0 as int, f.1 as int, f.2 as int, f.3 as int, f.4 as int, f.5 as int) == t,
{
    chrono::DateTime::from_timestamp(t, 0).map(|d| (d.year(), d.month(), d.day(), d.hour(), d.minute(), d.second()))
}

} // verus!

verus! {

pub open spec fn next_month(y: int, m: int) -> (int, int) {
    if m >= 12 {
        (y + 1, 1)
    } else {
        (y, m + 1)
    }
}

pub open spec fn prev_month(y: int, m: int) -> (int, int) {
    if m <= 1 {
        (y - 1, 12)
    } else {
        (y, m - 1)
    }
}

/// Carries surplus days of month `m` of year `y` into the following months.
pub open spec fn roll_days(y: int, m: int, d: int) -> (int, int, int)
    decreases d,
{
    if d > days_in_month(y, m) && days_in_month(y, m) > 0 {
        let (ny, nm) = next_month(y, m);
        roll_days(ny, nm, d - days_in_month(y, m))
    } else {
        (y, m, d)
    }
}

/// The calendar point named by possibly overflowing fields: seconds carry into
/// minutes, minutes into hours, hours into days, months into years, and days
/// beyond the end of a month into the next month; day 0 is the last day of the
/// month before.
pub open spec fn normalize(y: int, mo: int, d: int, h: int, mi: int, s: int) -> (int, int, int, int, int, int) {
    let mi1 = mi + s / 60;
    let h1 = h + mi1 / 60;
    let d1 = d + h1 / 24;
    let y1 = y + (mo - 1) / 12;
    let m1 = (mo - 1) % 12 + 1;
    let (y2, m2, d2) = if d1 == 0 {
        let (py, pm) = prev_month(y1, m1);
        (py, pm, days_in_month(py, pm))
    } else {
        (y1, m1, d1)
    };
    let (y3, m3, d3) = roll_days(y2, m2, d2);
    (y3, m3, d3, h1 % 24, mi1 % 60, s % 60)
}

proof fn lemma_roll_days(y: int, m: int, d: int)
    requires
        1 <= m <= 12,
        d >= 1,
    ensures
        roll_days(y, m, d).0 >= y,
        1 <= roll_days(y, m, d).1 <= 12,
        1 <= roll_days(y, m, d).2 <= days_in_month(roll_days(y, m, d).0, roll_days(y, m, d).1),
    decreases d,
{
    if d > days_in_month(y, m) && days_in_month(y, m) > 0 {
        let (ny, nm) = next_month(y, m);
        lemma_roll_days(ny, nm, d - days_in_month(y, m));
    }
}

/// A time-zone tag; it is shown to users and never changes a comparison.
#[derive(Clone, Copy, Debug, PartialEq, Eq, Structural)]
pub enum TimeZone {
    Utc,
    Local,
    Offset(i8),
}

/// A point in time: calendar fields and the Unix timestamp they stand for.
#[derive(Clone, Copy, Debug, PartialEq, Eq, Structural)]
pub struct DateTime {
    pub year: i32,
    pub month: u32,
    pub day: u32,
    pub hour: u32,
    pub min: u32,
    pub sec: u32,
    pub timestamp: i64,
    pub time_zone: TimeZone,
}

/// A calendar duration, and the seconds of its fixed part (days and smaller).
#[derive(Clone, Copy, Debug, PartialEq, Eq, Structural)]
pub struct Duration {
    pub year: i32,
    pub month: u32,
    pub day: u32,
    pub hour: u32,
    pub min: u32,
    pub sec: u32,
    pub total_sec: u64,
}

/// The UTC point with fields `f`.
pub open spec fn point_of(f: (int, int, int, int, int, int)) -> DateTime {
    DateTime {
        year: f.0 as i32,
        month: f.1 as u32,
        day: f.2 as u32,
        hour: f.3 as u32,
        min: f.4 as u32,
        sec: f.5 as u32,
        timestamp: utc_seconds(f.0, f.1, f.2, f.3, f.4, f.5) as i64,
        time_zone: TimeZone::Utc,
    }
}

pub open spec fn fixed_seconds(day: int, hour: int, min: int, sec: int) -> int {
    day * 86400 + hour * 3600 + min * 60 + sec
}

/// What a reading of the clock gives: a valid point, or none.
pub open spec fn clock_reading(now: Option<DateTime>) -> bool {
    now is Some ==> now->Some_0.wf()
}

pub open spec fn in_i64(x: int) -> bool {
    i64::MIN <= x <= i64::MAX
}

impl Default for DateTime {
    /// All fields zero, in local time.
    fn default() -> (r: DateTime)
        ensures
            r == (DateTime { year: 0, month: 0, day: 0, hour: 0, min: 0, sec: 0, timestamp: 0, time_zone: TimeZone::Local }),
    {
        DateTime { year: 0, month: 0, day: 0, hour: 0, min: 0, sec: 0, timestamp: 0, time_zone: TimeZone::Local }
    }
}

impl DateTime {
    /// The calendar fields.
    pub open spec fn fields(self) -> (int, int, int, int, int, int) {
        (self.year as int, self.month as int, self.day as int, self.hour as int, self.min as int, self.sec as int)
    }

    /// The fields name a valid date and time of a year that chrono can hold.
    pub open spec fn valid_fields(self) -> bool {
        let f = self.fields();
        valid_date_time(f.0, f.1, f.2, f.3, f.4, f.5) && year_in_range(f.0)
    }

    /// The fields read as a UTC date and time, in seconds since the Unix epoch.
    pub open spec fn utc(self) -> int {
        let f = self.fields();
        utc_seconds(f.0, f.1, f.2, f.3, f.4, f.5)
    }

    /// The fields form a valid date and time, and the timestamp is theirs in the
    /// point's zone: exactly for UTC and fixed offsets (in hours), within a day of
    /// the UTC reading for the machine's local zone.
    pub open spec fn wf(&self) -> bool {
        &&& self.valid_fields()
        &&& match self.time_zone {
            TimeZone::Utc => self.timestamp == self.utc(),
            TimeZone::Offset(h) => self.timestamp == self.utc() - h * 3600,
            TimeZone::Local => self.utc() - 86400 < self.timestamp < self.utc() + 86400,
        }
    }

    /// The fields of `self + d`, normalized, before they are checked against chrono's years.
    pub open spec fn sum_fields(self, d: Duration) -> (int, int, int, int, int, int) {
        normalize(
            self.year + d.year,
            self.month + d.month,
            self.day + d.day,
            self.hour + d.hour,
            self.min + d.min,
            self.sec + d.sec,
        )
    }

    /// `self + d` can be formed: the point is valid, the sum lies in chrono's years,
    /// and its timestamp fits.
    pub open spec fn add_ok(self, d: Duration) -> bool {
        let f = self.sum_fields(d);
        &&& self.valid_fields()
        &&& year_in_range(f.0)
        &&& in_i64(self.timestamp + utc_seconds(f.0, f.1, f.2, f.3, f.4, f.5) - self.utc())
    }

    /// The point `self + d`: the normalized sum of the fields, in the same zone,
    /// keeping the point's offset from UTC.
    pub open spec fn spec_add(self, d: Duration) -> DateTime {
        let f = self.sum_fields(d);
        DateTime {
            year: f.0 as i32,
            month: f.1 as u32,
            day: f.2 as u32,
            hour: f.3 as u32,
            min: f.4 as u32,
            sec: f.5 as u32,
            timestamp: (self.timestamp + utc_seconds(f.0, f.1, f.2, f.3, f.4, f.5) - self.utc()) as i64,
            time_zone: self.time_zone,
        }
    }

    /// `p` has the fields `f`.
    pub open spec fn has_fields(p: DateTime, f: (int, int, int, int, int, int)) -> bool {
        p.fields() == f
    }

    /// `r` is the point whose fields are `f`, with their UTC timestamp.
    pub open spec fn names(r: DateTime, f: (int, int, int, int, int, int)) -> bool {
        &&& DateTime::has_fields(r, f)
        &&& r.timestamp == utc_seconds(f.0, f.1, f.2, f.3, f.4, f.5)
    }

    /// The point at the given UTC date and time, if chrono can hold it.
    pub fn from_ymd_hms_utc(year: i32, month: u32, day: u32, hour: u32, min: u32, sec: u32) -> (r: Option<DateTime>)
        ensures
            r is Some <==> (valid_date_time(year as int, month as int, day as int, hour as int, min as int, sec as int)
                && year_in_range(year as int)),
            r matches Some(p) ==> p.wf() && p.time_zone == TimeZone::Utc
                && DateTime::names(p, (year as int, month as int, day as int, hour as int, min as int, sec as int))
                && p == point_of((year as int, month as int, day as int, hour as int, min as int, sec as int)),
    {
        match utc_timestamp(year, month, day, hour, min, sec) {
            Some(t) => Some(DateTime { year, month, day, hour, min, sec, timestamp: t, time_zone: TimeZone::Utc }),
            None => None,
        }
    }

    /// The point at the given date and time of this machine's time zone; `None`
    /// when the fields name no valid date and time, or no single local instant.
    pub fn from_ymd_hms(year: i32, month: u32, day: u32, hour: u32, min: u32, sec: u32) -> (r: Option<DateTime>)
        ensures
            !(valid_date_time(year as int, month as int, day as int, hour as int, min as int, sec as int)
                && year_in_range(year as int)) ==> r is None,
            r matches Some(p) ==> p.wf() && p.time_zone == TimeZone::Local
                && DateTime::has_fields(p, (year as int, month as int, day as int, hour as int, min as int, sec as int)),
    {
        let u = match utc_timestamp(year, month, day, hour, min, sec) {
            Some(u) => u,
            None => return None,
        };
        match local_offset(year, month, day, hour, min, sec) {
            Some(o) => {
                let t: i128 = u as i128 - o as i128;
                if t < i64::MIN as i128 || t > i64::MAX as i128 {
                    return None;
                }
                Some(DateTime { year, month, day, hour, min, sec, timestamp: t as i64, time_zone: TimeZone::Local })
            },
            None => None,
        }
    }

    /// The current instant, in UTC; `None` when the clock reads before the Unix epoch
    /// or beyond chrono's years.
    pub fn now() -> (r: Option<DateTime>)
        ensures
            r matches Some(p) ==> p.wf() && p.time_zone == TimeZone::Utc,
    {
        let secs = match epoch_seconds() {
            Some(s) => s,
            None => return None,
        };
        if secs > i64::MAX as u64 {
            return None;
        }
        let t = secs as i64;
        match utc_fields_of(t) {
            Some(f) => Some(DateTime { year: f.0, month: f.1, day: f.2, hour: f.3, min: f.4, sec: f.5, timestamp: t, time_zone: TimeZone::Utc }),
            None => None,
        }
    }

    /// Recomputes the timestamp of the fields in the point's zone.
    pub fn timestamp(&self) -> (r: Option<i64>)
        ensures
            !self.valid_fields() ==> r is None,
            r matches Some(t) ==> self.valid_fields() && match self.time_zone {
                TimeZone::Utc => t == self.utc(),
                TimeZone::Offset(h) => t == self.utc() - h * 3600,
                TimeZone::Local => self.utc() - 86400 < t < self.utc() + 86400,
            },
            self.valid_fields() && self.time_zone == TimeZone::Utc ==> r == Some(self.utc() as i64),
    {
        let u = match utc_timestamp(self.year, self.month, self.day, self.hour, self.min, self.sec) {
            Some(u) => u,
            None => return None,
        };
        let off: i128 = match self.time_zone {
            TimeZone::Utc => 0,
            TimeZone::Offset(h) => h as i128 * 3600,
            TimeZone::Local => match local_offset(self.year, self.month, self.day, self.hour, self.min, self.sec) {
                Some(o) => o as i128,
                None => return None,
            },
        };
        let t: i128 = u as i128 - off;
        if t < i64::MIN as i128 || t > i64::MAX as i128 {
            return None;
        }
        Some(t as i64)
    }

    /// The current instant plus `duration`.
    pub fn from_duration(duration: &Duration) -> (r: Option<DateTime>)
        ensures
            r matches Some(p) ==> p.wf() && exists|now: DateTime| now.wf() && now.add_ok(*duration) && p == now.spec_add(*duration),
    {
        match DateTime::now() {
            Some(now) => now.add(*duration),
            None => None,
        }
    }

    /// One day after the current instant.
    pub fn one_day() -> (r: Option<DateTime>)
        ensures
            r matches Some(p) ==> p.wf() && exists|now: DateTime|
                now.wf() && now.add_ok(Duration::spec_one_day()) && p == now.spec_add(Duration::spec_one_day()),
    {
        DateTime::from_duration(&Duration::one_day())
    }

    /// Whether this point has been reached by the instant `now` (a Unix timestamp).
    pub fn is_up_at(&self, now: i64) -> (r: bool)
        ensures
            r == (self.timestamp <= now),
    {
        self.timestamp <= now
    }

    /// Whether this point has been reached by the current instant; false when the
    /// clock cannot be read.
    pub fn is_up(&self) -> (r: bool)
        ensures
            exists|now: Option<DateTime>|
                #[trigger] clock_reading(now) && r == (now is Some && self.timestamp <= now->Some_0.timestamp),
    {
        let now = DateTime::now();
        let r = match now {
            Some(n) => self.is_up_at(n.timestamp),
            None => false,
        };
        assert(clock_reading(now) && r == (now is Some && self.timestamp <= now->Some_0.timestamp));
        r
    }

    fn normalized_sum(self, duration: Duration) -> (r: Option<(i32, u32, u32, u32, u32, u32)>)
        ensures
            r is Some <==> year_in_range(self.sum_fields(duration).0),
            r matches Some(f) ==> (f.0 as int, f.1 as int, f.2 as int, f.3 as int, f.4 as int, f.5 as int)
                == self.sum_fields(duration) && valid_date_time(f.0 as int, f.1 as int, f.2 as int, f.3 as int, f.4 as int, f.5 as int),
    {
        let s: u64 = self.sec as u64 + duration.sec as u64;
        let mi: u64 = self.min as u64 + duration.min as u64 + s / 60;
        let h: u64 = self.hour as u64 + duration.hour as u64 + mi / 60;
        let d1: u64 = self.day as u64 + duration.day as u64 + h / 24;
        let mo: u64 = self.month as u64 + duration.month as u64;
        let base: i64 = self.year as i64 + duration.year as i64;
        let mut y: i64;
        let mut m: u32;
        if mo == 0 {
            y = base - 1;
            m = 12;
        } else {
            y = base + ((mo - 1) / 12) as i64;
            m = ((mo - 1) % 12 + 1) as u32;
        }
        assert(y == base + (mo - 1) / 12 && m == (mo - 1) % 12 + 1);
        let mut d: u64 = d1;
        if d == 0 {
            if m <= 1 {
                y = y - 1;
                m = 12;
            } else {
                m = m - 1;
            }
            d = month_days(y, m);
        }
        let ghost y2 = y;
        let ghost m2 = m;
        let ghost d2 = d;
        proof {
            lemma_roll_days(y2 as int, m2 as int, d2 as int);
        }
        assert(roll_days(y2 as int, m2 as int, d2 as int) == (
            self.sum_fields(duration).0, self.sum_fields(duration).1, self.sum_fields(duration).2));
        if y > MAX_YEAR as i64 {
            return None;
        }
        while d > month_days(y, m)
            invariant
                1 <= m <= 12,
                d >= 1,
                y <= MAX_YEAR + 1,
                y >= y2,
                y2 >= i32::MIN as int * 2 - 800_000_000,
                roll_days(y as int, m as int, d as int) == roll_days(y2 as int, m2 as int, d2 as int),
                roll_days(y2 as int, m2 as int, d2 as int) == (
                    self.sum_fields(duration).0, self.sum_fields(duration).1, self.sum_fields(duration).2),
            decreases d,
        {
            let ghost (py, pm, pd) = (y, m, d);
            d = d - month_days(y, m);
            if m == 12 {
                y = y + 1;
                m = 1;
            } else {
                m = m + 1;
            }
            assert(roll_days(y as int, m as int, d as int) == roll_days(py as int, pm as int, pd as int));
            if y > MAX_YEAR as i64 {
                proof {
                    lemma_roll_days(y as int, m as int, d as int);
                }
                return None;
            }
        }
        if y < MIN_YEAR as i64 || y > MAX_YEAR as i64 {
            return None;
        }
        proof {
            lemma_roll_days(y as int, m as int, d as int);
        }
        Some((y as i32, m, d as u32, (h % 24) as u32, (mi % 60) as u32, (s % 60) as u32))
    }

    /// Adds a duration field by field, normalizes the sum into a calendar point
    /// of the same zone, and keeps the point's offset from UTC; `None` when the
    /// point's own fields are invalid, the sum falls outside chrono's years, or
    /// its timestamp does not fit.
    pub fn add(self, duration: Duration) -> (r: Option<DateTime>)
        ensures
            r is Some <==> self.add_ok(duration),
            r matches Some(p) ==> p == self.spec_add(duration) && p.valid_fields(),
            self.wf() && r is Some ==> r->Some_0.wf(),
    {
        let old_utc = match utc_timestamp(self.year, self.month, self.day, self.hour, self.min, self.sec) {
            Some(u) => u,
            None => return None,
        };
        let f = match self.normalized_sum(duration) {
            Some(f) => f,
            None => return None,
        };
        let new_utc = match utc_timestamp(f.0, f.1, f.2, f.3, f.4, f.5) {
            Some(u) => u,
            None => return None,
        };
        let t: i128 = self.timestamp as i128 + new_utc as i128 - old_utc as i128;
        if t < i64::MIN as i128 || t > i64::MAX as i128 {
            return None;
        }
        Some(DateTime { year: f.0, month: f.1, day: f.2, hour: f.3, min: f.4, sec: f.5, timestamp: t as i64, time_zone: self.time_zone })
    }
}

impl Duration {
    /// A duration from calendar fields, with the seconds of its fixed part.
    pub fn new(year: i32, month: u32, day: u32, hour: u32, min: u32, sec: u32) -> (r: Duration)
        ensures
            r.year == year && r.month == month && r.day == day,
            r.hour == hour && r.min == min && r.sec == sec,
            r.total_sec == fixed_seconds(day as int, hour as int, min as int, sec as int),
    {
        let total: u64 = day as u64 * 86400 + hour as u64 * 3600 + min as u64 * 60 + sec as u64;
        Duration { year, month, day, hour, min, sec, total_sec: total }
    }

    pub open spec fn spec_one_day() -> Duration {
        Duration { year: 0, month: 0, day: 1, hour: 0, min: 0, sec: 0, total_sec: 86400 }
    }

    /// One day.
    pub fn one_day() -> (r: Duration)
        ensures
            r == Duration::spec_one_day(),
    {
        Duration::new(0, 0, 1, 0, 0, 0)
    }
}

fn month_days(y: i64, m: u32) -> (r: u64)
    requires
        1 <= m <= 12,
    ensures
        r == days_in_month(y as int, m as int),
        28 <= r <= 31,
{
    if m == 2 {
        if y % 4 == 0 && (y % 100 != 0 || y % 400 == 0) {
            29
        } else {
            28
        }
    } else if m == 4 || m == 6 || m == 9 || m == 11 {
        30
    } else {
        31
    }
}

} // verus!
