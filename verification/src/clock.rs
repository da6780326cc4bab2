//! Wall-clock time of day, the clock-mode transition windows, and the local
//! calendar.
//!
//! A time of day is held in nanoseconds since midnight; configured times and
//! window edges are whole seconds. An instant is held in nanoseconds since the
//! Unix epoch, and a local date as days since 1 January of year 1 (day 1).

use vstd::prelude::*;
use crate::period::{Period, spec_next_period};
use chrono::{TimeZone, Timelike};

verus! {

pub const SECS_PER_DAY: u32 = 86400;
pub const NANOS_PER_SEC: u64 = 1_000_000_000;
pub const NANOS_PER_DAY: u64 = 86_400_000_000_000;
pub const NANOS_PER_MILLI: i64 = 1_000_000;

/// A time of day moved by `delta` seconds, wrapping around midnight as
/// adding a duration to a wall-clock time does.
pub open spec fn wrap_secs(x: int) -> int {
    x % 86400
}

/// Whether `time` lies in `[start, end)`, where a window with `start > end`
/// crosses midnight and an empty window (`start == end`) holds nothing.
pub open spec fn spec_in_range(time: int, start: int, end: int) -> bool {
    if start < end {
        start <= time && time < end
    } else if start > end {
        time >= start || time < end
    } else {
        false
    }
}

/// Whether `time` falls within `[start, end)`, handling windows that cross
/// midnight (e.g. 23:00 to 01:00).
pub fn is_time_in_range(time: u64, start: u64, end: u64) -> (b: bool)
    ensures
        b == spec_in_range(time as int, start as int, end as int),
{
    if start < end {
        time >= start && time < end
    } else if start > end {
        time >= start || time < end
    } else {
        false
    }
}

/// Day or Night for a time outside any transition window, in whole seconds.
pub open spec fn spec_stable_period(now: int, sunset_end: int, sunrise_start: int) -> Period {
    if sunset_end < sunrise_start {
        if now >= sunset_end && now < sunrise_start {
            Period::Night
        } else {
            Period::Day
        }
    } else if now >= sunset_end || now < sunrise_start {
        Period::Night
    } else {
        Period::Day
    }
}

/// Day or Night for a time outside any transition window, handling windows
/// that cross midnight and extreme day or night lengths. All arguments are
/// whole seconds since midnight.
pub fn get_stable_period(now: u32, sunset_end: u32, sunrise_start: u32) -> (p: Period)
    ensures
        p == spec_stable_period(now as int, sunset_end as int, sunrise_start as int),
{
    if sunset_end < sunrise_start {
        if now >= sunset_end && now < sunrise_start {
            Period::Night
        } else {
            Period::Day
        }
    } else if now >= sunset_end || now < sunrise_start {
        Period::Night
    } else {
        Period::Day
    }
}

/// How the transition windows are placed.
#[derive(Debug, Clone, Copy, PartialEq, Eq, Structural)]
pub enum TransitionMode {
    /// Transitions complete at the configured times.
    FinishBy,
    /// Transitions begin at the configured times.
    StartAt,
    /// Transitions are centered on the configured times.
    Center,
    /// Transitions follow the sun at the configured coordinates.
    Geo,
    /// No transitions; constant values.
    Static,
}

/// The mode a configuration name selects.
pub open spec fn spec_mode_from_name(name: Seq<char>) -> Option<TransitionMode> {
    if name == "finish_by"@ {
        Some(TransitionMode::FinishBy)
    } else if name == "start_at"@ {
        Some(TransitionMode::StartAt)
    } else if name == "center"@ {
        Some(TransitionMode::Center)
    } else if name == "geo"@ {
        Some(TransitionMode::Geo)
    } else if name == "static"@ {
        Some(TransitionMode::Static)
    } else {
        None
    }
}

/// Whether two strings hold the same characters.
pub fn same_text(a: &str, b: &str) -> (r: bool)
    ensures
        r == (a@ == b@),
{
    let x = crate::text::chars_of(a);
    let y = crate::text::chars_of(b);
    if x.len() != y.len() {
        return false;
    }
    let mut i: usize = 0;
    while i < x.len()
        invariant
            x@ == a@,
            y@ == b@,
            x@.len() == y@.len(),
            i <= x@.len(),
            forall|k: int| 0 <= k < i ==> x@[k] == y@[k],
        decreases x@.len() - i,
    {
        if x[i] != y[i] {
            return false;
        }
        i = i + 1;
    }
    proof {
        assert(x@ =~= y@);
    }
    true
}

impl TransitionMode {
    /// The mode named by a configuration value: `"finish_by"`, `"start_at"`,
    /// `"center"`, `"geo"` or `"static"`.
    pub fn from_name(name: &str) -> (m: Option<TransitionMode>)
        ensures
            m == spec_mode_from_name(name@),
    {
        if same_text(name, "finish_by") {
            Some(TransitionMode::FinishBy)
        } else if same_text(name, "start_at") {
            Some(TransitionMode::StartAt)
        } else if same_text(name, "center") {
            Some(TransitionMode::Center)
        } else if same_text(name, "geo") {
            Some(TransitionMode::Geo)
        } else if same_text(name, "static") {
            Some(TransitionMode::Static)
        } else {
            None
        }
    }

    pub open spec fn is_clock(self) -> bool {
        self == TransitionMode::FinishBy || self == TransitionMode::StartAt || self
            == TransitionMode::Center
    }
}

/// The four clock-mode transition edges, in whole seconds since midnight.
/// Edges may cross midnight.
#[derive(Debug, Clone, Copy, PartialEq, Eq, Structural)]
pub struct ClockWindows {
    pub sunset_start: u32,
    pub sunset_end: u32,
    pub sunrise_start: u32,
    pub sunrise_end: u32,
}

/// The longest duration, in whole seconds, that a wall-clock interval
/// accepts.
pub const MAX_DURATION_SECS: u64 = 9_223_372_036_854_775;

/// The edges of the windows for `mode`, configured times `sunset` and
/// `sunrise` and a transition of `minutes`.
pub open spec fn spec_clock_windows(mode: TransitionMode, sunset: int, sunrise: int, minutes: int) -> ClockWindows {
    let d = minutes * 60;
    let h = d / 2;
    match mode {
        TransitionMode::Center => ClockWindows {
            sunset_start: wrap_secs(sunset - h) as u32,
            sunset_end: wrap_secs(sunset + h) as u32,
            sunrise_start: wrap_secs(sunrise - h) as u32,
            sunrise_end: wrap_secs(sunrise + h) as u32,
        },
        TransitionMode::StartAt => ClockWindows {
            sunset_start: sunset as u32,
            sunset_end: wrap_secs(sunset + d) as u32,
            sunrise_start: sunrise as u32,
            sunrise_end: wrap_secs(sunrise + d) as u32,
        },
        _ => ClockWindows {
            sunset_start: wrap_secs(sunset - d) as u32,
            sunset_end: sunset as u32,
            sunrise_start: wrap_secs(sunrise - d) as u32,
            sunrise_end: sunrise as u32,
        },
    }
}

/// `t + delta` seconds on the wall clock.
fn add_secs(t: u32, delta: u64, forward: bool) -> (r: u32)
    requires
        t < 86400,
    ensures
        r == wrap_secs(if forward { t + delta } else { t - delta }),
        r < 86400,
{
    let m = (delta % 86400) as u32;
    if forward {
        (t + m) % 86400
    } else {
        (t + 86400 - m) % 86400
    }
}

/// What a configured `HH:MM:SS` time reads as.
pub uninterp spec fn hms_seconds(text: Seq<char>) -> Option<u32>;

/// `chrono::NaiveTime::parse_from_str(text, "%H:%M:%S")`, read as whole
/// seconds since midnight. The contract names the result and claims only
/// that a parsed time lies within one day.
#[verifier::external_body]
fn parse_hms(text: &str) -> (r: Option<u32>)
    ensures
        r == hms_seconds(text@),
        r matches Some(s) ==> s < 86400,
{
    chrono::NaiveTime::parse_from_str(text, "%H:%M:%S").ok().map(|t| t.num_seconds_from_midnight())
}

/// Seconds since local midnight of an `HH:MM:SS` time, or None when it does
/// not parse.
pub fn parse_time_of_day(text: &str) -> (r: Option<u32>)
    ensures
        r == hms_seconds(text@),
        r matches Some(s) ==> s < 86400,
{
    parse_hms(text)
}

impl ClockWindows {
    /// Place the windows for a clock mode around the configured times.
    pub fn from_times(mode: TransitionMode, sunset: u32, sunrise: u32, duration_minutes: u64) -> (w: ClockWindows)
        requires
            mode.is_clock(),
            sunset < 86400,
            sunrise < 86400,
            duration_minutes * 60 <= MAX_DURATION_SECS,
        ensures
            w == spec_clock_windows(mode, sunset as int, sunrise as int, duration_minutes as int),
            w.wf(),
    {
        let d = duration_minutes * 60;
        match mode {
            TransitionMode::Center => {
                let h = d / 2;
                ClockWindows {
                    sunset_start: add_secs(sunset, h, false),
                    sunset_end: add_secs(sunset, h, true),
                    sunrise_start: add_secs(sunrise, h, false),
                    sunrise_end: add_secs(sunrise, h, true),
                }
            },
            TransitionMode::StartAt => ClockWindows {
                sunset_start: sunset,
                sunset_end: add_secs(sunset, d, true),
                sunrise_start: sunrise,
                sunrise_end: add_secs(sunrise, d, true),
            },
            _ => ClockWindows {
                sunset_start: add_secs(sunset, d, false),
                sunset_end: sunset,
                sunrise_start: add_secs(sunrise, d, false),
                sunrise_end: sunrise,
            },
        }
    }

    /// Place the windows from the configured `HH:MM:SS` texts; None when
    /// either text does not parse.
    pub fn from_config(mode: TransitionMode, sunset: &str, sunrise: &str, duration_minutes: u64) -> (w: Option<ClockWindows>)
        requires
            mode.is_clock(),
            duration_minutes * 60 <= MAX_DURATION_SECS,
        ensures
            match (hms_seconds(sunset@), hms_seconds(sunrise@)) {
                (Some(s), Some(r)) => w == Some(spec_clock_windows(mode, s as int, r as int, duration_minutes as int)),
                _ => w is None,
            },
            w matches Some(x) ==> x.wf(),
    {
        let s = parse_time_of_day(sunset);
        let r = parse_time_of_day(sunrise);
        match (s, r) {
            (Some(s), Some(r)) => Some(ClockWindows::from_times(mode, s, r, duration_minutes)),
            _ => None,
        }
    }

    /// All edges lie within one day.
    pub open spec fn wf(self) -> bool {
        self.sunset_start < 86400 && self.sunset_end < 86400 && self.sunrise_start < 86400
            && self.sunrise_end < 86400
    }

    /// The period at `now` nanoseconds after midnight.
    pub open spec fn spec_current_period(self, now: int) -> Period {
        if spec_in_range(now, self.sunset_start * 1_000_000_000, self.sunset_end * 1_000_000_000) {
            Period::Sunset
        } else if spec_in_range(now, self.sunrise_start * 1_000_000_000, self.sunrise_end * 1_000_000_000) {
            Period::Sunrise
        } else {
            spec_stable_period(now / 1_000_000_000, self.sunset_end as int, self.sunrise_start as int)
        }
    }

    /// The period active `now` nanoseconds after midnight.
    pub fn current_period(&self, now: u64) -> (p: Period)
        requires
            self.wf(),
            now < NANOS_PER_DAY,
        ensures
            p == self.spec_current_period(now as int),
    {
        if is_time_in_range(now, self.sunset_start as u64 * NANOS_PER_SEC, self.sunset_end as u64 * NANOS_PER_SEC) {
            Period::Sunset
        } else if is_time_in_range(now, self.sunrise_start as u64 * NANOS_PER_SEC, self.sunrise_end as u64 * NANOS_PER_SEC) {
            Period::Sunrise
        } else {
            get_stable_period((now / NANOS_PER_SEC) as u32, self.sunset_end, self.sunrise_start)
        }
    }

    /// Whether `now` lies within the sunset window.
    pub fn in_sunset(&self, now: u64) -> (b: bool)
        requires
            self.wf(),
        ensures
            b == spec_in_range(now as int, self.sunset_start * 1_000_000_000, self.sunset_end * 1_000_000_000),
    {
        is_time_in_range(now, self.sunset_start as u64 * NANOS_PER_SEC, self.sunset_end as u64 * NANOS_PER_SEC)
    }

    /// Whether `now` lies within the sunrise window.
    pub fn in_sunrise(&self, now: u64) -> (b: bool)
        requires
            self.wf(),
        ensures
            b == spec_in_range(now as int, self.sunrise_start * 1_000_000_000, self.sunrise_end * 1_000_000_000),
    {
        is_time_in_range(now, self.sunrise_start as u64 * NANOS_PER_SEC, self.sunrise_end as u64 * NANOS_PER_SEC)
    }

    /// The position in the window of `period` at `now` nanoseconds after
    /// midnight, measured on the wall clock: the nanoseconds since the
    /// window's start and the window's length, both around midnight; None
    /// outside that window or for a stable period.
    pub open spec fn spec_window_position(self, period: Period, now: int) -> Option<(int, int)> {
        let (start, end) = if period == Period::Sunset {
            (self.sunset_start as int, self.sunset_end as int)
        } else {
            (self.sunrise_start as int, self.sunrise_end as int)
        };
        if (period == Period::Sunset || period == Period::Sunrise) && spec_in_range(now, start * 1_000_000_000, end * 1_000_000_000) {
            Some(((now - start * 1_000_000_000) % 86_400_000_000_000, wrap_secs(end - start) * 1_000_000_000))
        } else {
            None
        }
    }

    /// How far the window of `period` has run at `now` (nanoseconds after
    /// midnight), and how long it is; None outside that window. The program
    /// turns it into the eased progress.
    pub fn window_position(&self, period: Period, now: u64) -> (r: Option<(u64, u64)>)
        requires
            self.wf(),
            now < NANOS_PER_DAY,
        ensures
            match self.spec_window_position(period, now as int) {
                Some((e, t)) => r == Some((e as u64, t as u64)) && 0 <= e < t,
                None => r is None,
            },
    {
        let (start, end) = match period {
            Period::Sunset => (self.sunset_start, self.sunset_end),
            Period::Sunrise => (self.sunrise_start, self.sunrise_end),
            _ => {
                return None;
            },
        };
        let start_ns = start as u64 * NANOS_PER_SEC;
        if !is_time_in_range(now, start_ns, end as u64 * NANOS_PER_SEC) {
            return None;
        }
        let elapsed = if now >= start_ns { now - start_ns } else { now + NANOS_PER_DAY - start_ns };
        let span = if end > start { end - start } else { end + SECS_PER_DAY - start };
        proof {
            let d: int = 86_400_000_000_000;
            if now >= start_ns {
                vstd::arithmetic::div_mod::lemma_small_mod((now - start_ns) as nat, d as nat);
            } else {
                vstd::arithmetic::div_mod::lemma_mod_add_multiples_vanish(now - start_ns, d);
                vstd::arithmetic::div_mod::lemma_small_mod((now + d - start_ns) as nat, d as nat);
            }
            if end > start {
                vstd::arithmetic::div_mod::lemma_small_mod((end - start) as nat, 86400);
            } else {
                vstd::arithmetic::div_mod::lemma_mod_add_multiples_vanish(end - start, 86400);
                vstd::arithmetic::div_mod::lemma_small_mod((end + 86400 - start) as nat, 86400);
            }
        }
        Some((elapsed, span as u64 * NANOS_PER_SEC))
    }

    /// The edge at which the period after `period` begins: the sunset start
    /// after Day, the sunset end after Sunset, the sunrise start after Night,
    /// the sunrise end after Sunrise; None in static mode.
    pub open spec fn spec_next_edge(self, period: Period) -> Option<u32> {
        match spec_next_period(period) {
            Period::Sunset => Some(self.sunset_start),
            Period::Night => Some(self.sunset_end),
            Period::Sunrise => Some(self.sunrise_start),
            Period::Day => Some(self.sunrise_end),
            Period::Static => None,
        }
    }

    /// The edge at which the period after `period` begins.
    pub fn next_edge(&self, period: Period) -> (e: Option<u32>)
        ensures
            e == self.spec_next_edge(period),
    {
        match period.next_period() {
            Period::Sunset => Some(self.sunset_start),
            Period::Night => Some(self.sunset_end),
            Period::Sunrise => Some(self.sunrise_start),
            Period::Day => Some(self.sunrise_end),
            Period::Static => None,
        }
    }
}

/// The present moment, as the local clock and as an instant.
#[derive(Debug, Clone, Copy, PartialEq, Eq, Structural)]
pub struct LocalNow {
    /// The local date, as days since 1 January of year 1 (day 1).
    pub date: i32,
    /// Nanoseconds since local midnight.
    pub time: u64,
    /// Nanoseconds since the Unix epoch.
    pub instant: i64,
}

impl LocalNow {
    pub open spec fn wf(self) -> bool {
        self.time < NANOS_PER_DAY && self.date < i32::MAX
    }
}

/// The date of the next strictly later occurrence of the wall-clock time
/// `target` seconds: today if it is still ahead, else tomorrow.
pub open spec fn spec_next_occurrence_date(target: int, now: LocalNow) -> int {
    if target * 1_000_000_000 > now.time {
        now.date as int
    } else {
        now.date + 1
    }
}

/// The date of the next strictly later occurrence of `target`.
pub fn next_occurrence_date(target: u32, now: &LocalNow) -> (d: i32)
    requires
        now.wf(),
        target < 86400,
    ensures
        d == spec_next_occurrence_date(target as int, *now),
{
    if target as u64 * NANOS_PER_SEC > now.time {
        now.date
    } else {
        now.date + 1
    }
}

/// The whole milliseconds from `now` until `target`, zero when `target` is
/// not later, as a time difference truncated to milliseconds and floored at
/// zero.
pub open spec fn spec_millis_until(now: int, target: int) -> int {
    if target <= now {
        0
    } else {
        (target - now) / 1_000_000
    }
}

/// The whole milliseconds from `now` until `target` (nanosecond instants),
/// zero when `target` is not later.
pub fn millis_until(now: i64, target: i64) -> (ms: u64)
    ensures
        ms == spec_millis_until(now as int, target as int),
{
    if target <= now {
        0
    } else {
        let diff: i128 = target as i128 - now as i128;
        (diff / 1_000_000) as u64
    }
}

/// The wall-clock time `secs` on the date `date` read as if it were UTC, in
/// nanoseconds since the Unix epoch (day 719163 is 1 January 1970).
pub open spec fn wall_ns(date: int, secs: int) -> int {
    ((date - 719_163) * 86400 + secs) * 1_000_000_000
}

/// `t` is an instant at which a clock set to some UTC offset of whole
/// seconds, less than a day either way, reads `secs` on `date`: the wall
/// time less the offset.
pub open spec fn local_reading(date: int, secs: int, t: int) -> bool {
    &&& (wall_ns(date, secs) - t) % 1_000_000_000 == 0
    &&& -86_400_000_000_000 < wall_ns(date, secs) - t < 86_400_000_000_000
}

/// Either no instant, or one at which the local clock reads `secs` on
/// `date`.
pub open spec fn local_reading_opt(date: int, secs: int, t: Option<i64>) -> bool {
    t matches Some(x) ==> local_reading(date, secs, x as int)
}

/// The local instant, in nanoseconds since the Unix epoch, of the wall-clock
/// time `secs` on the local date `date`, or None when the local time zone
/// gives that wall-clock time no single instant (a gap or an overlap).
///
/// Calls `chrono::Local::from_local_datetime(..).single()`, which subtracts
/// the zone's offset at that wall time from it; chrono keeps every offset
/// (a `FixedOffset`) in whole seconds, strictly within a day either way.
/// That is all that is claimed: which offset applies, and whether the wall
/// time has a single instant, depend on the machine's time zone.
#[verifier::external_body]
pub(crate) fn local_instant(date: i32, secs: u32) -> (r: Option<i64>)
    ensures
        local_reading_opt(date as int, secs as int, r),
{
    let day = chrono::NaiveDate::from_num_days_from_ce_opt(date)?;
    let time = chrono::NaiveTime::from_num_seconds_from_midnight_opt(secs, 0)?;
    chrono::Local.from_local_datetime(&day.and_time(time)).single()?.timestamp_nanos_opt()
}

/// The next instant at which the wall clock shows `target`, strictly after
/// `now`; None when the local time zone gives that time no single instant.
pub fn next_occurrence(target: u32, now: &LocalNow) -> (r: Option<i64>)
    requires
        now.wf(),
        target < 86400,
    ensures
        local_reading_opt(spec_next_occurrence_date(target as int, *now), target as int, r),
{
    let date = next_occurrence_date(target, now);
    local_instant(date, target)
}

/// The earliest of the available instants as milliseconds from `now`, or
/// zero when none is available.
pub open spec fn spec_earliest_millis(now: int, a: Option<i64>, b: Option<i64>) -> int {
    match (a, b) {
        (Some(x), Some(y)) => spec_millis_until(now, if x <= y { x as int } else { y as int }),
        (Some(x), None) => spec_millis_until(now, x as int),
        (None, Some(y)) => spec_millis_until(now, y as int),
        (None, None) => 0,
    }
}

/// The milliseconds from `now` until the earlier of two candidate instants.
pub fn earliest_millis(now: i64, a: Option<i64>, b: Option<i64>) -> (ms: u64)
    ensures
        ms == spec_earliest_millis(now as int, a, b),
{
    match (a, b) {
        (Some(x), Some(y)) => millis_until(now, if x <= y { x } else { y }),
        (Some(x), None) => millis_until(now, x),
        (None, Some(y)) => millis_until(now, y),
        (None, None) => 0,
    }
}

/// The local date on which a window edge `end` that is reached from `now`
/// falls: tomorrow when the edge is already behind on today's clock.
pub open spec fn spec_end_date(end: int, now: LocalNow) -> int {
    if end * 1_000_000_000 < now.time {
        now.date + 1
    } else {
        now.date as int
    }
}

impl ClockWindows {
    /// The end edge of the transition in progress at `now`, with its date.
    pub open spec fn spec_transition_end(self, now: LocalNow) -> Option<(int, u32)> {
        match self.spec_current_period(now.time as int) {
            Period::Sunset => Some((spec_end_date(self.sunset_end as int, now), self.sunset_end)),
            Period::Sunrise => Some((spec_end_date(self.sunrise_end as int, now), self.sunrise_end)),
            _ => None,
        }
    }

    /// The end edge (date and seconds) of the transition in progress at
    /// `now`, or None outside a transition.
    pub fn transition_end(&self, now: &LocalNow) -> (r: Option<(i32, u32)>)
        requires
            self.wf(),
            now.wf(),
        ensures
            match (r, self.spec_transition_end(*now)) {
                (Some((d, e)), Some((sd, se))) => d == sd && e == se,
                (None, None) => true,
                _ => false,
            },
    {
        let end = match self.current_period(now.time) {
            Period::Sunset => self.sunset_end,
            Period::Sunrise => self.sunrise_end,
            _ => {
                return None;
            },
        };
        let date = if (end as u64) * NANOS_PER_SEC < now.time {
            now.date + 1
        } else {
            now.date
        };
        Some((date, end))
    }

    /// What holds of the time until the transition in progress ends,
    /// whatever the local time zone gives: nothing outside a transition;
    /// within one, either nothing (the end has no single instant) or the
    /// milliseconds until an instant at which the local clock reads the
    /// end edge on its date.
    pub open spec fn spec_transition_end_reading(self, now: LocalNow, r: Option<u64>) -> bool {
        match self.spec_transition_end(now) {
            None => r is None,
            Some((d, e)) => r matches Some(ms) ==> exists|t: int|
                #[trigger] local_reading(d, e as int, t) && ms == spec_millis_until(now.instant as int, t),
        }
    }

    /// What holds of the time until the next transition begins, whatever
    /// the local time zone gives: the milliseconds until the earlier of the
    /// next occurrences of the two start edges, each an instant at which
    /// the local clock reads that edge on its date, or missing.
    pub open spec fn spec_next_transition_reading(self, now: LocalNow, ms: int) -> bool {
        exists|a: Option<i64>, b: Option<i64>|
            #[trigger] local_reading_opt(spec_next_occurrence_date(self.sunset_start as int, now), self.sunset_start as int, a)
            && #[trigger] local_reading_opt(spec_next_occurrence_date(self.sunrise_start as int, now), self.sunrise_start as int, b)
            && ms == spec_earliest_millis(now.instant as int, a, b)
    }

    /// What holds of the start of the next period, whatever the local time
    /// zone gives: nothing in static mode; otherwise nothing or an instant
    /// at which the local clock reads the next edge on its next date.
    pub open spec fn spec_next_period_reading(self, period: Period, now: LocalNow, r: Option<i64>) -> bool {
        match self.spec_next_edge(period) {
            None => r is None,
            Some(e) => local_reading_opt(spec_next_occurrence_date(e as int, now), e as int, r),
        }
    }

    /// Milliseconds until the transition in progress ends, or None outside
    /// a transition (or when the local time zone gives the end no single
    /// instant).
    pub fn time_until_transition_end(&self, now: &LocalNow) -> (r: Option<u64>)
        requires
            self.wf(),
            now.wf(),
        ensures
            self.spec_transition_end_reading(*now, r),
    {
        let (date, end) = self.transition_end(now)?;
        let end_instant = local_instant(date, end)?;
        let ms = millis_until(now.instant, end_instant);
        proof {
            assert(local_reading(date as int, end as int, end_instant as int));
        }
        Some(ms)
    }

    /// Milliseconds until the next transition (sunset or sunrise) begins:
    /// the nearer of the next occurrences of the two start edges, zero when
    /// neither has a single local instant.
    pub fn time_until_next_transition(&self, now: &LocalNow) -> (ms: u64)
        requires
            self.wf(),
            now.wf(),
        ensures
            self.spec_next_transition_reading(*now, ms as int),
    {
        let a = next_occurrence(self.sunset_start, now);
        let b = next_occurrence(self.sunrise_start, now);
        let ms = earliest_millis(now.instant, a, b);
        proof {
            assert(local_reading_opt(spec_next_occurrence_date(self.sunset_start as int, *now), self.sunset_start as int, a));
            assert(local_reading_opt(spec_next_occurrence_date(self.sunrise_start as int, *now), self.sunrise_start as int, b));
        }
        ms
    }

    /// The instant at which the period after `period` begins; None in static
    /// mode (or when the local time zone gives the edge no single instant).
    pub fn next_period_start(&self, period: Period, now: &LocalNow) -> (r: Option<i64>)
        requires
            self.wf(),
            now.wf(),
        ensures
            self.spec_next_period_reading(period, *now, r),
    {
        let edge = self.next_edge(period)?;
        next_occurrence(edge, now)
    }
}

} // verus!

verus! {

proof fn lemma_wrap_facts(a: int, b: int)
    ensures
        wrap_secs(wrap_secs(a) - wrap_secs(b)) == wrap_secs(a - b),
        0 <= wrap_secs(a) < 86400,
        0 <= a < 86400 ==> wrap_secs(a) == a,
{
    vstd::arithmetic::div_mod::lemma_sub_mod_noop(a, b, 86400);
    vstd::arithmetic::div_mod::lemma_mod_bound(a, 86400);
    if 0 <= a < 86400 {
        vstd::arithmetic::div_mod::lemma_small_mod(a as nat, 86400);
    }
}

/// A window `[start, end]` of the wall clock, given as wrapped values, spans
/// `len` seconds around the clock.
proof fn lemma_window_span(start: int, end: int, len: int)
    requires
        end == start + len,
    ensures
        wrap_secs((wrap_secs(end) as u32) - (wrap_secs(start) as u32)) == wrap_secs(len),
{
    lemma_wrap_facts(end, start);
    lemma_wrap_facts(start, end);
}

/// On the wall clock each window spans the transition: `finish_by` ends
/// it at the configured time, `start_at` starts it there, `center` puts the
/// configured time halfway; in every mode the end lies the transition
/// length (whole seconds, halved and doubled for `center`) after the start,
/// around the clock.
pub proof fn lemma_windows_span_transition(mode: TransitionMode, sunset: int, sunrise: int, minutes: int)
    requires
        mode.is_clock(),
        0 <= sunset < 86400,
        0 <= sunrise < 86400,
        minutes >= 0,
    ensures
        ({
            let w = spec_clock_windows(mode, sunset, sunrise, minutes);
            let d = if mode == TransitionMode::Center { (minutes * 60 / 2) * 2 } else { minutes * 60 };
            &&& wrap_secs(w.sunset_end - w.sunset_start) == wrap_secs(d)
            &&& wrap_secs(w.sunrise_end - w.sunrise_start) == wrap_secs(d)
            &&& (mode == TransitionMode::FinishBy ==> w.sunset_end == sunset && w.sunrise_end == sunrise)
            &&& (mode == TransitionMode::StartAt ==> w.sunset_start == sunset && w.sunrise_start == sunrise)
        }),
{
    let d = minutes * 60;
    let h = d / 2;
    lemma_wrap_facts(sunset, 0);
    lemma_wrap_facts(sunrise, 0);
    match mode {
        TransitionMode::Center => {
            lemma_window_span(sunset - h, sunset + h, h * 2);
            lemma_window_span(sunrise - h, sunrise + h, h * 2);
        },
        TransitionMode::StartAt => {
            lemma_window_span(sunset, sunset + d, d);
            lemma_window_span(sunrise, sunrise + d, d);
        },
        _ => {
            lemma_window_span(sunset - d, sunset, d);
            lemma_window_span(sunrise - d, sunrise, d);
        },
    }
}

} // verus!
