//! The transition schedule: geo times, or clock windows around configured
//! wall-clock times; static mode has none.
//!
//! Instants handed back are milliseconds since the Unix epoch; durations are
//! milliseconds.

use vstd::prelude::*;
use crate::clock::{
    ClockWindows, LocalNow, MAX_DURATION_SECS, TransitionMode, hms_seconds, local_reading, same_text,
    spec_clock_windows, spec_mode_from_name, spec_next_occurrence_date,
};
use crate::geo::{GeoTimes, MAX_INSTANT_MS};
use crate::period::{Period, spec_is_transitioning, spec_next_period};

verus! {

/// A generator of transitions: geo by coordinates, or clock by wall time.
#[derive(Debug, Clone)]
pub enum Schedule {
    Geo(GeoTimes),
    Clock(ClockWindows),
}

/// Why no schedule could be built from a configuration.
#[derive(Debug, Clone, Copy, PartialEq, Eq, Structural)]
pub enum ScheduleError {
    /// The transition mode names no known mode.
    UnknownMode,
    /// A configured time is not `HH:MM:SS`.
    InvalidTime,
}

/// Milliseconds of a nanosecond instant, rounded down.
pub open spec fn floor_ms(ns: int) -> int {
    if ns >= 0 {
        ns / 1_000_000
    } else {
        -((-ns + 999_999) / 1_000_000)
    }
}

pub fn instant_ms(ns: i64) -> (ms: i64)
    ensures
        ms == floor_ms(ns as int),
        -MAX_INSTANT_MS < ms < MAX_INSTANT_MS,
{
    if ns >= 0 {
        ns / 1_000_000
    } else {
        let n: i128 = ns as i128;
        (-((-n + 999_999) / 1_000_000)) as i64
    }
}

impl Schedule {
    pub open spec fn wf(self) -> bool {
        match self {
            Schedule::Geo(g) => g.wf(),
            Schedule::Clock(w) => w.wf(),
        }
    }

    /// The schedule of a configuration: none in static mode or for geo mode
    /// without geo times; the geo times in geo mode; else clock windows for
    /// the mode (`finish_by` when none is set) around the configured times.
    pub open spec fn spec_from_config(mode: Option<Seq<char>>, geo: Option<GeoTimes>, sunset: Seq<char>, sunrise: Seq<char>, duration_minutes: u64) -> Result<Option<Schedule>, ScheduleError> {
        let m = match mode {
            None => Some(TransitionMode::FinishBy),
            Some(name) => spec_mode_from_name(name),
        };
        match m {
            None => Err(ScheduleError::UnknownMode),
            Some(TransitionMode::Static) => Ok(None),
            Some(TransitionMode::Geo) => match geo {
                Some(g) => Ok(Some(Schedule::Geo(g))),
                None => Ok(None),
            },
            Some(cm) => match (hms_seconds(sunset), hms_seconds(sunrise)) {
                (Some(s), Some(r)) => Ok(Some(Schedule::Clock(spec_clock_windows(cm, s as int, r as int, duration_minutes as int)))),
                _ => Err(ScheduleError::InvalidTime),
            },
        }
    }

    /// Build the schedule from the configured mode, the geo times computed
    /// for geo mode, and the clock settings.
    pub fn from_config(mode: Option<&str>, geo: Option<GeoTimes>, sunset: &str, sunrise: &str, duration_minutes: u64) -> (r: Result<Option<Schedule>, ScheduleError>)
        requires
            duration_minutes * 60 <= MAX_DURATION_SECS,
            geo matches Some(g) ==> g.wf(),
        ensures
            r == Schedule::spec_from_config(match mode { Some(m) => Some(m@), None => None }, geo, sunset@, sunrise@, duration_minutes),
            r matches Ok(Some(s)) ==> s.wf(),
    {
        let m = match mode {
            None => TransitionMode::FinishBy,
            Some(name) => match TransitionMode::from_name(name) {
                Some(m) => m,
                None => {
                    return Err(ScheduleError::UnknownMode);
                },
            },
        };
        match m {
            TransitionMode::Static => Ok(None),
            TransitionMode::Geo => match geo {
                Some(g) => Ok(Some(Schedule::Geo(g))),
                None => Ok(None),
            },
            _ => match ClockWindows::from_config(m, sunset, sunrise, duration_minutes) {
                Some(w) => Ok(Some(Schedule::Clock(w))),
                None => Err(ScheduleError::InvalidTime),
            },
        }
    }

    pub open spec fn spec_current_period(self, now: LocalNow) -> Period {
        match self {
            Schedule::Geo(g) => g.spec_current_period(floor_ms(now.instant as int)),
            Schedule::Clock(w) => w.spec_current_period(now.time as int),
        }
    }

    /// The period active at `now`.
    pub fn current_period(&self, now: &LocalNow) -> (p: Period)
        requires
            self.wf(),
            now.wf(),
        ensures
            p == self.spec_current_period(*now),
    {
        match self {
            Schedule::Geo(g) => g.current_period(instant_ms(now.instant)),
            Schedule::Clock(w) => w.current_period(now.time),
        }
    }

    /// The time until the next transition begins: for geo times, the
    /// milliseconds until the next window start; for clock windows, what
    /// holds whatever the local time zone gives.
    pub open spec fn spec_next_transition_result(self, now: LocalNow, ms: int) -> bool {
        match self {
            Schedule::Geo(g) => ms == crate::geo::spec_ms_until(
                floor_ms(now.instant as int),
                g.spec_next_transition_start(floor_ms(now.instant as int)),
            ),
            Schedule::Clock(w) => w.spec_next_transition_reading(now, ms),
        }
    }

    /// The time until the transition in progress ends: for geo times, the
    /// milliseconds until the end of the window `now` lies in, None outside
    /// both; for clock windows, what holds whatever the local time zone
    /// gives.
    pub open spec fn spec_transition_end_result(self, now: LocalNow, r: Option<u64>) -> bool {
        match self {
            Schedule::Geo(g) => match g.spec_transition_end(floor_ms(now.instant as int)) {
                Some(e) => r == Some((e - floor_ms(now.instant as int)) as u64),
                None => r is None,
            },
            Schedule::Clock(w) => w.spec_transition_end_reading(now, r),
        }
    }

    /// How long the loop sleeps in `period`: the update interval while
    /// transitioning, else the time until the next transition begins.
    pub open spec fn spec_next_event_result(self, fixed_interval_secs: Option<u64>, period: Period, now: LocalNow, ms: int) -> bool {
        if spec_is_transitioning(period) {
            ms == spec_interval_ms(fixed_interval_secs)
        } else {
            self.spec_next_transition_result(now, ms)
        }
    }

    /// Milliseconds until the next transition begins.
    pub fn time_until_next_transition(&self, now: &LocalNow) -> (ms: u64)
        requires
            self.wf(),
            now.wf(),
        ensures
            self.spec_next_transition_result(*now, ms as int),
    {
        match self {
            Schedule::Geo(g) => g.time_until_next_transition(instant_ms(now.instant)),
            Schedule::Clock(w) => w.time_until_next_transition(now),
        }
    }

    /// Milliseconds until the transition in progress ends; None outside a
    /// transition.
    pub fn time_until_transition_end(&self, now: &LocalNow) -> (r: Option<u64>)
        requires
            self.wf(),
            now.wf(),
        ensures
            self.spec_transition_end_result(*now, r),
    {
        match self {
            Schedule::Geo(g) => g.time_until_transition_end(instant_ms(now.instant)),
            Schedule::Clock(w) => w.time_until_transition_end(now),
        }
    }

    /// Where `now` stands in the window of `period`: the milliseconds since
    /// the window began and its length in milliseconds; None outside that
    /// window or for a stable period.
    pub open spec fn spec_window_position(self, period: Period, now: LocalNow) -> Option<(int, int)> {
        match self {
            Schedule::Geo(g) => g.spec_window_position(period, floor_ms(now.instant as int)),
            Schedule::Clock(w) => match w.spec_window_position(period, now.time as int) {
                Some((e, t)) => Some((e / 1_000_000, t / 1_000_000)),
                None => None,
            },
        }
    }

    /// How far the window of `period` has run at `now`, and how long it is,
    /// in milliseconds; None when `now` is outside that window. The program
    /// eases the ratio into the transition's progress.
    pub fn window_position(&self, period: Period, now: &LocalNow) -> (r: Option<(i64, i64)>)
        requires
            self.wf(),
            now.wf(),
        ensures
            match self.spec_window_position(period, *now) {
                Some((e, t)) => r == Some((e as i64, t as i64)),
                None => r is None,
            },
    {
        match self {
            Schedule::Geo(g) => g.window_position(period, instant_ms(now.instant)),
            Schedule::Clock(w) => match w.window_position(period, now.time) {
                Some((e, t)) => Some(((e / 1_000_000) as i64, (t / 1_000_000) as i64)),
                None => None,
            },
        }
    }

    /// The instant at which the period after `period` begins: for geo
    /// times, the next window start when a transition follows, the end of
    /// the window in progress when a stable period follows; None in static
    /// mode.
    pub fn next_period_start(&self, period: Period, now: &LocalNow) -> (r: Option<i64>)
        requires
            self.wf(),
            now.wf(),
        ensures
            spec_next_period(period) == Period::Static ==> r is None,
            self matches Schedule::Geo(g) ==> ({
                let n = floor_ms(now.instant as int);
                match spec_next_period(period) {
                    Period::Sunset | Period::Sunrise => r == Some((n + crate::geo::spec_ms_until(n, g.spec_next_transition_start(n))) as i64),
                    Period::Day | Period::Night => match g.spec_transition_end(n) {
                        Some(e) => r == Some(e as i64),
                        None => r is None,
                    },
                    Period::Static => r is None,
                }
            }),
            self matches Schedule::Clock(w) ==> match w.spec_next_edge(period) {
                None => r is None,
                Some(e) => r matches Some(m) ==> exists|t: int|
                    #[trigger] local_reading(spec_next_occurrence_date(e as int, *now), e as int, t) && m == floor_ms(t),
            },
    {
        match self {
            Schedule::Geo(g) => {
                let n = instant_ms(now.instant);
                match period.next_period() {
                    Period::Sunset | Period::Sunrise => {
                        let d = g.time_until_next_transition(n);
                        Some(n + d as i64)
                    },
                    Period::Day | Period::Night => match g.time_until_transition_end(n) {
                        Some(d) => Some(n + d as i64),
                        None => None,
                    },
                    Period::Static => None,
                }
            },
            Schedule::Clock(w) => match w.next_period_start(period, now) {
                Some(ns) => {
                    let m = instant_ms(ns);
                    proof {
                        let e = w.spec_next_edge(period)->Some_0;
                        assert(local_reading(spec_next_occurrence_date(e as int, *now), e as int, ns as int));
                    }
                    Some(m)
                },
                None => None,
            },
        }
    }

    /// How long the main loop sleeps before its next wake: the update
    /// interval while transitioning (the fixed one, else the default),
    /// otherwise the time until the next transition begins.
    pub fn time_until_next_event(&self, fixed_interval_secs: Option<u64>, period: Period, now: &LocalNow) -> (ms: u64)
        requires
            self.wf(),
            now.wf(),
        ensures
            self.spec_next_event_result(fixed_interval_secs, period, *now, ms as int),
    {
        if period.is_transitioning() {
            interval_ms(fixed_interval_secs)
        } else {
            self.time_until_next_transition(now)
        }
    }
}

/// How long the main loop sleeps, for a schedule (None in static mode):
/// the schedule's next event at `now`, or None (no wake needed) without a
/// schedule.
pub fn time_until_next_event(schedule: Option<&Schedule>, fixed_interval_secs: Option<u64>, now: &LocalNow) -> (r: Option<u64>)
    requires
        schedule matches Some(s) ==> s.wf(),
        now.wf(),
    ensures
        match schedule {
            None => r is None,
            Some(s) => r matches Some(ms) && s.spec_next_event_result(
                fixed_interval_secs,
                s.spec_current_period(*now),
                *now,
                ms as int,
            ),
        },
{
    match schedule {
        None => None,
        Some(s) => {
            let period = s.current_period(now);
            Some(s.time_until_next_event(fixed_interval_secs, period, now))
        },
    }
}

/// The update interval, in seconds, when none is configured.
pub const DEFAULT_UPDATE_INTERVAL_SECS: u64 = 60;

/// The update interval in milliseconds: the fixed one, else the default;
/// one too long to count in milliseconds is held at the largest count.
pub open spec fn spec_interval_ms(fixed_interval_secs: Option<u64>) -> int {
    match fixed_interval_secs {
        Some(s) => if s * 1000 > u64::MAX { u64::MAX as int } else { s * 1000 },
        None => DEFAULT_UPDATE_INTERVAL_SECS * 1000,
    }
}

/// The update interval in milliseconds, saturating.
pub fn interval_ms(fixed_interval_secs: Option<u64>) -> (ms: u64)
    ensures
        ms == spec_interval_ms(fixed_interval_secs),
{
    match fixed_interval_secs {
        Some(s) => if s > u64::MAX / 1000 { u64::MAX } else { s * 1000 },
        None => DEFAULT_UPDATE_INTERVAL_SECS * 1000,
    }
}

/// Static mode has no schedule, and geo mode takes its windows from the
/// geo times: in both the configured sunset, sunrise and transition length
/// are ignored.
pub proof fn lemma_manual_settings_ignored(geo: Option<GeoTimes>, sunset: Seq<char>, sunrise: Seq<char>, minutes: u64, other_sunset: Seq<char>, other_sunrise: Seq<char>, other_minutes: u64)
    ensures
        Schedule::spec_from_config(Some("static"@), geo, sunset, sunrise, minutes) == Ok::<Option<Schedule>, ScheduleError>(None),
        Schedule::spec_from_config(Some("geo"@), geo, sunset, sunrise, minutes)
            == Schedule::spec_from_config(Some("geo"@), geo, other_sunset, other_sunrise, other_minutes),
{
    reveal_strlit("static");
    reveal_strlit("geo");
    reveal_strlit("finish_by");
    reveal_strlit("start_at");
    reveal_strlit("center");
    assert("static"@.len() != "finish_by"@.len());
    assert("static"@.len() != "start_at"@.len());
    assert("static"@[0] != "center"@[0]);
    assert("static"@ != "geo"@);
    assert("geo"@ != "finish_by"@);
    assert("geo"@ != "start_at"@);
    assert("geo"@ != "center"@);
}

} // verus!
