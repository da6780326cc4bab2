//! Geo-mode transition times, held as instants together with the dates they
//! fall on in the time zone of the coordinates.
//!
//! Instants are milliseconds since the Unix epoch; dates are days since
//! 1 January of year 1 (day 1), as `NaiveDate::num_days_from_ce` counts
//! them; the zone is an IANA time-zone name.

use vstd::prelude::*;
use chrono::{Datelike, Offset, TimeZone};
use crate::period::Period;
use crate::solar::{DAY_NANOS, SolarWindows};

verus! {

/// The instant, in milliseconds, at which the wall clock of `zone` shows
/// `secs` seconds after midnight on `date`; None when the zone is unknown,
/// the date is out of range, or that wall-clock time has no single instant
/// (it falls in a gap or an overlap).
pub uninterp spec fn zoned_instant(zone: Seq<char>, date: int, secs: int) -> Option<int>;

/// The date in `zone` at the instant `instant_ms`; None when the zone is
/// unknown, the instant is out of range, or the local date at it lies
/// beyond chrono's range of dates.
pub uninterp spec fn zoned_date(zone: Seq<char>, instant_ms: int) -> Option<int>;

/// A bound on instants: chrono's dates end in the years -262143 and 262142,
/// about 8.3e15 milliseconds from the epoch.
pub const MAX_INSTANT_MS: i64 = 10_000_000_000_000_000;

/// Calls `chrono_tz::Tz::from_local_datetime(..).single()` for the zone
/// named `zone`. The result is named, not stated: it is what the zone's rules
/// in the bundled time-zone database give. Stated is only that it lies in
/// chrono's range of dates.
#[verifier::external_body]
pub(crate) fn zone_instant(zone: &str, date: i32, secs: u32) -> (r: Option<i64>)
    ensures
        r matches Some(ms) ==> -MAX_INSTANT_MS < ms < MAX_INSTANT_MS,
        match r {
            Some(ms) => zoned_instant(zone@, date as int, secs as int) == Some(ms as int),
            None => zoned_instant(zone@, date as int, secs as int) is None,
        },
{
    let tz: chrono_tz::Tz = zone.parse().ok()?;
    let day = chrono::NaiveDate::from_num_days_from_ce_opt(date)?;
    let time = chrono::NaiveTime::from_num_seconds_from_midnight_opt(secs, 0)?;
    Some(tz.from_local_datetime(&day.and_time(time)).single()?.timestamp_millis())
}

/// Reads the offset of the zone named `zone` at the instant with
/// `TimeZone::offset_from_utc_datetime` and adds it to the UTC time with
/// `NaiveDateTime::checked_add_offset`, which gives None where the local
/// time leaves chrono's range; the local date is then read. The result is
/// named, not stated.
#[verifier::external_body]
pub(crate) fn zone_date(zone: &str, instant_ms: i64) -> (r: Option<i32>)
    ensures
        match r {
            Some(d) => zoned_date(zone@, instant_ms as int) == Some(d as int),
            None => zoned_date(zone@, instant_ms as int) is None,
        },
{
    let tz: chrono_tz::Tz = zone.parse().ok()?;
    let utc = chrono::DateTime::from_timestamp_millis(instant_ms)?.naive_utc();
    let offset = tz.offset_from_utc_datetime(&utc).fix();
    Some(utc.checked_add_offset(offset)?.date().num_days_from_ce())
}

/// Why the geo times of a day could not be built.
#[derive(Debug, Clone, Copy, PartialEq, Eq, Structural)]
pub enum GeoTimesError {
    /// A transition start has no single instant in the zone.
    AmbiguousStart,
    /// A transition end has no single instant in the zone.
    AmbiguousEnd,
    /// Today's sunrise end has no single instant in the zone.
    AmbiguousSunriseEnd,
    /// Today's sunrise is over: tomorrow's solar times are needed.
    TomorrowNeeded,
}

impl GeoTimesError {
    pub fn message(&self) -> (s: &'static str)
        ensures
            s@ == match *self {
                GeoTimesError::AmbiguousStart => "Ambiguous transition start time"@,
                GeoTimesError::AmbiguousEnd => "Ambiguous transition end time"@,
                GeoTimesError::AmbiguousSunriseEnd => "Ambiguous sunrise end time"@,
                GeoTimesError::TomorrowNeeded => "Tomorrow's solar times are needed"@,
            },
    {
        match self {
            GeoTimesError::AmbiguousStart => "Ambiguous transition start time",
            GeoTimesError::AmbiguousEnd => "Ambiguous transition end time",
            GeoTimesError::AmbiguousSunriseEnd => "Ambiguous sunrise end time",
            GeoTimesError::TomorrowNeeded => "Tomorrow's solar times are needed",
        }
    }
}

/// The transition windows of geo mode.
#[derive(Debug, Clone, PartialEq, Eq)]
pub struct GeoTimes {
    /// The IANA name of the coordinates' time zone.
    pub coordinate_tz: String,
    /// The date the times were calculated for.
    pub calculated_date: i32,
    pub sunset_start: i64,
    pub sunset_end: i64,
    pub sunrise_start: i64,
    pub sunrise_end: i64,
    /// The date (in the zone) on which the sunset window starts.
    pub sunset_start_date: i32,
    /// The date on which the sunrise window starts.
    pub sunrise_start_date: i32,
    /// The date on which the sunrise window ends.
    pub sunrise_end_date: i32,
}

/// Whole seconds of a wall-clock time given in nanoseconds since midnight.
pub open spec fn whole_secs(ns: u64) -> int {
    (ns / 1_000_000_000) as int
}

/// The date on which a window that starts at `start` and ends at `end`
/// ends, when it starts on `start_date`: the next day when it wraps past
/// midnight.
pub open spec fn spec_window_end_date(start_date: int, start: u64, end: u64) -> int {
    if start > end { start_date + 1 } else { start_date }
}

/// The date on which a sunrise window that ends on `end_date` starts: the
/// day before when it wraps past midnight.
pub open spec fn spec_sunrise_start_date(end_date: int, start: u64, end: u64) -> int {
    if start > end { end_date - 1 } else { end_date }
}

/// A window anchored at `start_date`, its edges truncated to whole seconds.
pub open spec fn spec_anchor_window(zone: Seq<char>, start_date: int, start: u64, end: u64) -> Result<(int, int), GeoTimesError> {
    match zoned_instant(zone, start_date, whole_secs(start)) {
        None => Err(GeoTimesError::AmbiguousStart),
        Some(s) => match zoned_instant(zone, spec_window_end_date(start_date, start, end), whole_secs(end)) {
            None => Err(GeoTimesError::AmbiguousEnd),
            Some(e) => Ok((s, e)),
        },
    }
}

/// Anchor a window to `start_date`, rolling its end to the next day when it
/// wraps past midnight so that the window runs forward. Edges are
/// nanoseconds since midnight and are truncated to whole seconds; the zones'
/// offsets are whole seconds, so truncating the wall-clock time and
/// truncating the instant agree.
pub fn anchor_window(zone: &str, start_date: i32, start: u64, end: u64) -> (r: Result<(i64, i64), GeoTimesError>)
    requires
        start < DAY_NANOS,
        end < DAY_NANOS,
        start_date < i32::MAX,
    ensures
        r matches Ok((s, e)) ==> -MAX_INSTANT_MS < s < MAX_INSTANT_MS && -MAX_INSTANT_MS < e < MAX_INSTANT_MS,
        match r {
            Ok((s, e)) => spec_anchor_window(zone@, start_date as int, start, end) == Ok::<(int, int), GeoTimesError>((s as int, e as int)),
            Err(x) => spec_anchor_window(zone@, start_date as int, start, end) == Err::<(int, int), GeoTimesError>(x),
        },
{
    let end_date = if start > end { start_date + 1 } else { start_date };
    let s = match zone_instant(zone, start_date, (start / 1_000_000_000) as u32) {
        Some(s) => s,
        None => {
            return Err(GeoTimesError::AmbiguousStart);
        },
    };
    let e = match zone_instant(zone, end_date, (end / 1_000_000_000) as u32) {
        Some(e) => e,
        None => {
            return Err(GeoTimesError::AmbiguousEnd);
        },
    };
    Ok((s, e))
}

/// The date on which a sunrise window ending on `end_date` starts.
pub fn sunrise_start_date(end_date: i32, start: u64, end: u64) -> (d: i32)
    requires
        end_date > i32::MIN,
    ensures
        d == spec_sunrise_start_date(end_date as int, start, end),
{
    if start > end { end_date - 1 } else { end_date }
}

/// The geo times built from the solar windows of `base_date` at the
/// instant `now`, as (sunset start, sunset end, sunrise start, sunrise end,
/// sunset start date, sunrise start date, sunrise end date). The sunset
/// window is today's; the sunrise window is today's while today's sunrise
/// has not ended, else tomorrow's, which must then be supplied.
pub open spec fn spec_from_solar_result(zone: Seq<char>, base_date: int, today: SolarWindows, tomorrow: Option<SolarWindows>, now: int) -> Result<(int, int, int, int, int, int, int), GeoTimesError> {
    match spec_anchor_window(zone, base_date, today.sunset_plus_10_start, today.sunset_minus_2_end) {
        Err(x) => Err(x),
        Ok((ss, se)) => match zoned_instant(zone, base_date, whole_secs(today.sunrise_plus_10_end)) {
            None => Err(GeoTimesError::AmbiguousSunriseEnd),
            Some(today_sunrise_end) => {
                let source = if now >= today_sunrise_end { tomorrow } else { Some(today) };
                let end_date = if now >= today_sunrise_end { base_date + 1 } else { base_date };
                match source {
                    None => Err(GeoTimesError::TomorrowNeeded),
                    Some(w) => {
                        let start_date = spec_sunrise_start_date(end_date, w.sunrise_minus_2_start, w.sunrise_plus_10_end);
                        match spec_anchor_window(zone, start_date, w.sunrise_minus_2_start, w.sunrise_plus_10_end) {
                            Err(x) => Err(x),
                            Ok((rs, re)) => Ok((ss, se, rs, re, base_date, start_date, end_date)),
                        }
                    },
                }
            },
        },
    }
}

impl GeoTimes {
    /// The instants and dates of these times, in the order of
    /// `spec_from_solar_result`.
    pub open spec fn spec_parts(self) -> (int, int, int, int, int, int, int) {
        (self.sunset_start as int, self.sunset_end as int, self.sunrise_start as int,
            self.sunrise_end as int, self.sunset_start_date as int, self.sunrise_start_date as int,
            self.sunrise_end_date as int)
    }

    pub open spec fn wf(self) -> bool {
        &&& -MAX_INSTANT_MS < self.sunset_start < MAX_INSTANT_MS
        &&& -MAX_INSTANT_MS < self.sunset_end < MAX_INSTANT_MS
        &&& -MAX_INSTANT_MS < self.sunrise_start < MAX_INSTANT_MS
        &&& -MAX_INSTANT_MS < self.sunrise_end < MAX_INSTANT_MS
    }

    /// Build the geo times of `base_date` from its solar windows, at the
    /// instant `now_ms`. When today's sunrise is over, tomorrow's windows are
    /// used for the sunrise; without them the answer is `TomorrowNeeded`, and
    /// the caller computes them and asks again.
    pub fn from_solar_result(zone: &str, base_date: i32, today: &SolarWindows, tomorrow: Option<&SolarWindows>, now_ms: i64) -> (r: Result<GeoTimes, GeoTimesError>)
        requires
            today.wf(),
            tomorrow matches Some(w) ==> w.wf(),
            i32::MIN + 1 < base_date < i32::MAX - 1,
        ensures
            match r {
                Ok(g) => {
                    &&& spec_from_solar_result(zone@, base_date as int, *today, match tomorrow { Some(w) => Some(*w), None => None }, now_ms as int)
                        == Ok::<(int, int, int, int, int, int, int), GeoTimesError>(g.spec_parts())
                    &&& g.coordinate_tz@ == zone@
                    &&& g.calculated_date == base_date
                    &&& g.wf()
                },
                Err(x) => spec_from_solar_result(zone@, base_date as int, *today, match tomorrow { Some(w) => Some(*w), None => None }, now_ms as int)
                    == Err::<(int, int, int, int, int, int, int), GeoTimesError>(x),
            },
    {
        let (ss, se) = anchor_window(zone, base_date, today.sunset_plus_10_start, today.sunset_minus_2_end)?;
        let today_sunrise_end = match zone_instant(zone, base_date, (today.sunrise_plus_10_end / 1_000_000_000) as u32) {
            Some(t) => t,
            None => {
                return Err(GeoTimesError::AmbiguousSunriseEnd);
            },
        };
        let (w, end_date) = if now_ms >= today_sunrise_end {
            match tomorrow {
                Some(w) => (w, base_date + 1),
                None => {
                    return Err(GeoTimesError::TomorrowNeeded);
                },
            }
        } else {
            (today, base_date)
        };
        let start_date = sunrise_start_date(end_date, w.sunrise_minus_2_start, w.sunrise_plus_10_end);
        let (rs, re) = anchor_window(zone, start_date, w.sunrise_minus_2_start, w.sunrise_plus_10_end)?;
        Ok(GeoTimes {
            coordinate_tz: String::from_str(zone),
            calculated_date: base_date,
            sunset_start: ss,
            sunset_end: se,
            sunrise_start: rs,
            sunrise_end: re,
            sunset_start_date: base_date,
            sunrise_start_date: start_date,
            sunrise_end_date: end_date,
        })
    }
}

pub const DAY_MS: i64 = 86_400_000;

/// Whether an instant lies in the window `[start, end)`.
pub open spec fn in_window(now: int, start: int, end: int) -> bool {
    start <= now && now < end
}

/// The milliseconds from `now` to `target`, zero when it is not later.
pub open spec fn spec_ms_until(now: int, target: int) -> int {
    if target > now { target - now } else { 0 }
}

impl GeoTimes {
    pub open spec fn spec_current_period(self, now: int) -> Period {
        if in_window(now, self.sunset_start as int, self.sunset_end as int) {
            Period::Sunset
        } else if in_window(now, self.sunrise_start as int, self.sunrise_end as int) {
            Period::Sunrise
        } else if (if self.sunrise_end_date > self.sunset_start_date {
            now < self.sunset_start
        } else {
            self.sunrise_end <= now && now < self.sunset_start
        }) {
            Period::Day
        } else {
            Period::Night
        }
    }

    /// The period at the instant `now_ms`: inside a window its transition;
    /// otherwise day before the sunset window (after the sunrise window when
    /// both end on the same date), else night.
    pub fn current_period(&self, now_ms: i64) -> (p: Period)
        ensures
            p == self.spec_current_period(now_ms as int),
    {
        if now_ms >= self.sunset_start && now_ms < self.sunset_end {
            return Period::Sunset;
        }
        if now_ms >= self.sunrise_start && now_ms < self.sunrise_end {
            return Period::Sunrise;
        }
        let in_day_period = if self.sunrise_end_date > self.sunset_start_date {
            now_ms < self.sunset_start
        } else {
            now_ms >= self.sunrise_end && now_ms < self.sunset_start
        };
        if in_day_period {
            Period::Day
        } else {
            Period::Night
        }
    }

    /// Whether the times must be recalculated at `now`, whose date in the
    /// zone is `current_date`: after a jump of more than a day from the date
    /// they were calculated for, once both windows have ended, or when the
    /// clock went back before the sunset window while the sunrise is still
    /// anchored to a later date. Without a date only the second counts.
    pub open spec fn spec_needs_recalculation(self, now: int, current_date: Option<int>) -> bool {
        let passed = now >= self.sunset_end && now >= self.sunrise_end;
        match current_date {
            Some(d) => {
                let jump = d - self.calculated_date;
                let date_jump = jump > 1 || jump < -1;
                let stale = now < self.sunset_start && self.sunrise_start_date > d;
                date_jump || passed || stale
            },
            None => passed,
        }
    }

    /// Whether the times must be recalculated at the instant `now_ms`.
    pub fn needs_recalculation(&self, now_ms: i64) -> (b: bool)
        ensures
            b == self.spec_needs_recalculation(now_ms as int, zoned_date(self.coordinate_tz@, now_ms as int)),
    {
        let passed = now_ms >= self.sunset_end && now_ms >= self.sunrise_end;
        match zone_date(self.coordinate_tz.as_str(), now_ms) {
            Some(d) => {
                let jump: i64 = d as i64 - self.calculated_date as i64;
                let date_jump = jump > 1 || jump < -1;
                let stale = now_ms < self.sunset_start && self.sunrise_start_date > d;
                date_jump || passed || stale
            },
            None => passed,
        }
    }

    /// The start of the next transition: the sooner of the window starts
    /// still ahead, else the sooner of both a day later.
    pub open spec fn spec_next_transition_start(self, now: int) -> int {
        let ss = self.sunset_start as int;
        let rs = self.sunrise_start as int;
        if now < ss && now < rs {
            if ss <= rs { ss } else { rs }
        } else if now < ss {
            ss
        } else if now < rs {
            rs
        } else if ss <= rs {
            ss + DAY_MS
        } else {
            rs + DAY_MS
        }
    }

    /// Milliseconds until the next transition begins, possibly tomorrow.
    pub fn time_until_next_transition(&self, now_ms: i64) -> (ms: u64)
        requires
            self.wf(),
            -MAX_INSTANT_MS < now_ms < MAX_INSTANT_MS,
        ensures
            ms == spec_ms_until(now_ms as int, self.spec_next_transition_start(now_ms as int)),
    {
        let ss = self.sunset_start;
        let rs = self.sunrise_start;
        let next = if now_ms < ss && now_ms < rs {
            if ss <= rs { ss } else { rs }
        } else if now_ms < ss {
            ss
        } else if now_ms < rs {
            rs
        } else if ss <= rs {
            ss + DAY_MS
        } else {
            rs + DAY_MS
        };
        if next > now_ms { (next - now_ms) as u64 } else { 0 }
    }

    /// The end of the window in progress at `now`, if any.
    pub open spec fn spec_transition_end(self, now: int) -> Option<int> {
        if in_window(now, self.sunset_start as int, self.sunset_end as int) {
            Some(self.sunset_end as int)
        } else if in_window(now, self.sunrise_start as int, self.sunrise_end as int) {
            Some(self.sunrise_end as int)
        } else {
            None
        }
    }

    /// Milliseconds until the window in progress ends; None outside both
    /// windows.
    pub fn time_until_transition_end(&self, now_ms: i64) -> (r: Option<u64>)
        requires
            self.wf(),
            -MAX_INSTANT_MS < now_ms < MAX_INSTANT_MS,
        ensures
            match self.spec_transition_end(now_ms as int) {
                Some(e) => r == Some((e - now_ms) as u64),
                None => r is None,
            },
    {
        if now_ms >= self.sunset_start && now_ms < self.sunset_end {
            return Some((self.sunset_end - now_ms) as u64);
        }
        if now_ms >= self.sunrise_start && now_ms < self.sunrise_end {
            return Some((self.sunrise_end - now_ms) as u64);
        }
        None
    }

    /// The position in the window of `period` at `now`: elapsed and total
    /// milliseconds, None outside that window or for a stable period. The
    /// program turns it into the eased progress.
    pub open spec fn spec_window_position(self, period: Period, now: int) -> Option<(int, int)> {
        match period {
            Period::Sunset => if in_window(now, self.sunset_start as int, self.sunset_end as int) {
                Some((now - self.sunset_start, self.sunset_end - self.sunset_start))
            } else {
                None
            },
            Period::Sunrise => if in_window(now, self.sunrise_start as int, self.sunrise_end as int) {
                Some((now - self.sunrise_start, self.sunrise_end - self.sunrise_start))
            } else {
                None
            },
            _ => None,
        }
    }

    pub fn window_position(&self, period: Period, now_ms: i64) -> (r: Option<(i64, i64)>)
        requires
            self.wf(),
            -MAX_INSTANT_MS < now_ms < MAX_INSTANT_MS,
        ensures
            match self.spec_window_position(period, now_ms as int) {
                Some((e, t)) => r == Some((e as i64, t as i64)),
                None => r is None,
            },
    {
        match period {
            Period::Sunset => if now_ms >= self.sunset_start && now_ms < self.sunset_end {
                Some((now_ms - self.sunset_start, self.sunset_end - self.sunset_start))
            } else {
                None
            },
            Period::Sunrise => if now_ms >= self.sunrise_start && now_ms < self.sunrise_end {
                Some((now_ms - self.sunrise_start, self.sunrise_end - self.sunrise_start))
            } else {
                None
            },
            _ => None,
        }
    }
}

/// Inside a window, the period is its transition, the time until its end is
/// the distance to the window's end, and the position counts from its start.
pub proof fn lemma_window_agreement(g: GeoTimes, now: int)
    requires
        in_window(now, g.sunset_start as int, g.sunset_end as int),
    ensures
        g.spec_current_period(now) == Period::Sunset,
        g.spec_transition_end(now) == Some(g.sunset_end as int),
        g.spec_window_position(Period::Sunset, now) == Some((now - g.sunset_start, g.sunset_end - g.sunset_start)),
{
}

/// The next transition start is one of the two window starts, today or a
/// day later, and lies ahead of `now` whenever one of them does.
pub proof fn lemma_next_transition_ahead(g: GeoTimes, now: int)
    ensures
        ({
            let n = g.spec_next_transition_start(now);
            ||| n == g.sunset_start
            ||| n == g.sunrise_start
            ||| n == g.sunset_start + DAY_MS
            ||| n == g.sunrise_start + DAY_MS
        }),
        (now < g.sunset_start || now < g.sunrise_start) ==> g.spec_next_transition_start(now) > now,
{
}


/// The next transition is the nearest window start still ahead: whenever a
/// start lies after `now`, the next transition lies after `now`, is one of
/// the two starts, and is no later than either start that is still ahead.
pub proof fn lemma_next_transition_is_nearest(g: GeoTimes, now: int)
    ensures
        ({
            let n = g.spec_next_transition_start(now);
            &&& (now < g.sunset_start ==> n <= g.sunset_start)
            &&& (now < g.sunrise_start ==> n <= g.sunrise_start)
            &&& ((now < g.sunset_start || now < g.sunrise_start) ==> now < n && (n == g.sunset_start || n == g.sunrise_start))
            &&& ((now >= g.sunset_start && now >= g.sunrise_start) ==> n == if g.sunset_start <= g.sunrise_start {
                g.sunset_start + DAY_MS
            } else {
                g.sunrise_start + DAY_MS
            })
        }),
{
}

/// The period outside the windows: inside the sunset window it is Sunset,
/// inside the sunrise window (and not the sunset one) Sunrise. Outside both,
/// when the sunrise window ends on a later date than the sunset window
/// starts, it is Day exactly before the sunset window; otherwise Day exactly
/// from the end of the sunrise window to the start of the sunset window, so
/// a time before the sunrise window is Night.
pub proof fn lemma_period_between_windows(g: GeoTimes, now: int)
    ensures
        (g.sunset_start <= now && now < g.sunset_end) ==> g.spec_current_period(now) == Period::Sunset,
        (!(g.sunset_start <= now && now < g.sunset_end) && g.sunrise_start <= now && now < g.sunrise_end)
            ==> g.spec_current_period(now) == Period::Sunrise,
        (!(g.sunset_start <= now && now < g.sunset_end) && !(g.sunrise_start <= now && now < g.sunrise_end)) ==> {
            let day = if g.sunrise_end_date > g.sunset_start_date {
                now < g.sunset_start
            } else {
                g.sunrise_end <= now && now < g.sunset_start
            };
            &&& (g.spec_current_period(now) == Period::Day <==> day)
            &&& (g.spec_current_period(now) == Period::Night <==> !day)
        },
        (g.sunrise_end_date <= g.sunset_start_date && g.sunrise_start <= g.sunrise_end && now < g.sunrise_start
            && now < g.sunset_start) ==> g.spec_current_period(now) == Period::Night,
{
}

/// Inside a window the position counts from its start: the elapsed time is
/// the distance from the window's start, zero at the start and growing with
/// `now`, and the total is the window's length; elapsed and remaining time
/// add up to the length.
pub proof fn lemma_window_position_counts_up(g: GeoTimes, period: Period, now: int, later: int)
    requires
        period == Period::Sunset || period == Period::Sunrise,
        ({
            let (start, end) = if period == Period::Sunset {
                (g.sunset_start as int, g.sunset_end as int)
            } else {
                (g.sunrise_start as int, g.sunrise_end as int)
            };
            start <= now && now < later && later < end
        }),
    ensures
        ({
            let (start, end) = if period == Period::Sunset {
                (g.sunset_start as int, g.sunset_end as int)
            } else {
                (g.sunrise_start as int, g.sunrise_end as int)
            };
            &&& g.spec_window_position(period, now) == Some((now - start, end - start))
            &&& g.spec_window_position(period, now) matches Some((e, t)) && e + (end - now) == t
            &&& g.spec_window_position(period, start) == Some((0int, end - start))
            &&& g.spec_window_position(period, now) matches Some((e1, _))
                && g.spec_window_position(period, later) matches Some((e2, _)) && e1 < e2
        }),
{
}

/// Today's sunrise window is kept while it has not ended: when `now` is
/// before the instant at which today's sunrise transition ends (its +10
/// degree edge on the base date), the sunrise window is today's, ending at
/// that instant on the base date and starting at today's -2 degree edge, so
/// `now` lies in or before it. From that instant on the sunrise window is
/// tomorrow's, ending on the next date.
pub proof fn lemma_sunrise_kept_until_it_ends(zone: Seq<char>, base_date: int, today: SolarWindows, tomorrow: Option<SolarWindows>, now: int, e: int, parts: (int, int, int, int, int, int, int))
    requires
        zoned_instant(zone, base_date, whole_secs(today.sunrise_plus_10_end)) == Some(e),
        spec_from_solar_result(zone, base_date, today, tomorrow, now) == Ok::<(int, int, int, int, int, int, int), GeoTimesError>(parts),
    ensures
        now < e ==> {
            let start_date = if today.sunrise_minus_2_start > today.sunrise_plus_10_end { base_date - 1 } else { base_date };
            &&& parts.3 == e
            &&& parts.6 == base_date
            &&& parts.5 == start_date
            &&& zoned_instant(zone, start_date, whole_secs(today.sunrise_minus_2_start)) == Some(parts.2)
            &&& now < parts.3
        },
        now >= e ==> parts.6 == base_date + 1 && tomorrow is Some,
{
}

} // verus!
