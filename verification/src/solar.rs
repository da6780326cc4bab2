//! Sunset and sunrise transition windows derived from the solar events of a
//! day, with the seasonal fallback used where the calculation breaks down at
//! extreme latitudes.
//!
//! Transitions run between solar elevations of +10 and -2 degrees. They are
//! derived from the span between sunset and civil dusk (0 to -6 degrees), and
//! between civil dawn and sunrise: the +10 degree edge lies 10/6 of that span
//! before sunset (after sunrise), the -2 degree edge 2/6 of it after sunset
//! (before sunrise).
//!
//! Event times are whole seconds since local midnight; derived times are
//! nanoseconds since local midnight, wrapping around midnight.

use vstd::prelude::*;

verus! {

pub const DAY_NANOS: u64 = 86_400_000_000_000;

/// A wall-clock time moved by a duration, wrapping around midnight.
pub open spec fn wrap_ns(x: int) -> int {
    x % (DAY_NANOS as int)
}

/// The windows and reference times of one day.
#[derive(Debug, Clone, Copy, PartialEq, Eq, Structural)]
pub struct SolarWindows {
    /// Sunset, nanoseconds since midnight.
    pub sunset_time: u64,
    /// Sunrise, nanoseconds since midnight.
    pub sunrise_time: u64,
    /// Length of the sunset transition, milliseconds.
    pub sunset_duration_ms: u64,
    /// Length of the sunrise transition, milliseconds.
    pub sunrise_duration_ms: u64,
    /// Start of the sunset transition (+10 degrees).
    pub sunset_plus_10_start: u64,
    /// End of the sunset transition (-2 degrees).
    pub sunset_minus_2_end: u64,
    /// Start of the sunrise transition (-2 degrees).
    pub sunrise_minus_2_start: u64,
    /// End of the sunrise transition (+10 degrees).
    pub sunrise_plus_10_end: u64,
    pub civil_dawn: u64,
    pub civil_dusk: u64,
    pub golden_hour_start: u64,
    pub golden_hour_end: u64,
    /// Whether the seasonal fallback replaced the calculation.
    pub used_extreme_latitude_fallback: bool,
    /// The fallback transition length in minutes (30 when not used).
    pub fallback_duration_minutes: u32,
}

impl SolarWindows {
    /// Every wall-clock time lies within the day.
    pub open spec fn wf(self) -> bool {
        &&& self.sunset_time < DAY_NANOS
        &&& self.sunrise_time < DAY_NANOS
        &&& self.sunset_plus_10_start < DAY_NANOS
        &&& self.sunset_minus_2_end < DAY_NANOS
        &&& self.sunrise_minus_2_start < DAY_NANOS
        &&& self.sunrise_plus_10_end < DAY_NANOS
        &&& self.civil_dawn < DAY_NANOS
        &&& self.civil_dusk < DAY_NANOS
        &&& self.golden_hour_start < DAY_NANOS
        &&& self.golden_hour_end < DAY_NANOS
    }

    /// Whether every wall-clock time lies within the day.
    pub fn within_day(&self) -> (b: bool)
        ensures
            b == self.wf(),
    {
        self.sunset_time < DAY_NANOS && self.sunrise_time < DAY_NANOS && self.sunset_plus_10_start
            < DAY_NANOS && self.sunset_minus_2_end < DAY_NANOS && self.sunrise_minus_2_start < DAY_NANOS
            && self.sunrise_plus_10_end < DAY_NANOS && self.civil_dawn < DAY_NANOS && self.civil_dusk
            < DAY_NANOS && self.golden_hour_start < DAY_NANOS && self.golden_hour_end < DAY_NANOS
    }
}

/// The solar events of one day as computed for a location, in whole seconds
/// since local midnight; None for an event that does not occur that day.
#[derive(Debug, Clone, Copy, PartialEq, Eq, Structural)]
pub struct SolarEvents {
    pub sunset: Option<u32>,
    pub sunrise: Option<u32>,
    pub civil_dusk: Option<u32>,
    pub civil_dawn: Option<u32>,
}

impl SolarEvents {
    pub open spec fn wf(self) -> bool {
        &&& (self.sunset matches Some(t) ==> t < 86400)
        &&& (self.sunrise matches Some(t) ==> t < 86400)
        &&& (self.civil_dusk matches Some(t) ==> t < 86400)
        &&& (self.civil_dawn matches Some(t) ==> t < 86400)
    }
}

/// An event in nanoseconds, or its default when it is missing.
pub open spec fn event_or(e: Option<u32>, default_secs: nat) -> int {
    match e {
        Some(t) => t * 1_000_000_000,
        None => (default_secs * 1_000_000_000) as int,
    }
}

pub open spec fn spec_sunset(e: SolarEvents) -> int {
    event_or(e.sunset, 19 * 3600)
}

pub open spec fn spec_sunrise(e: SolarEvents) -> int {
    event_or(e.sunrise, 6 * 3600)
}

pub open spec fn spec_civil_dusk(e: SolarEvents) -> int {
    event_or(e.civil_dusk, 19 * 3600 + 30 * 60)
}

pub open spec fn spec_civil_dawn(e: SolarEvents) -> int {
    event_or(e.civil_dawn, 5 * 3600 + 30 * 60)
}

/// Span from sunset to civil dusk, zero when dusk does not follow sunset.
pub open spec fn spec_dusk_span(e: SolarEvents) -> int {
    if spec_civil_dusk(e) > spec_sunset(e) {
        spec_civil_dusk(e) - spec_sunset(e)
    } else {
        0
    }
}

/// Span from civil dawn to sunrise, zero when sunrise does not follow dawn.
pub open spec fn spec_dawn_span(e: SolarEvents) -> int {
    if spec_sunrise(e) > spec_civil_dawn(e) {
        spec_sunrise(e) - spec_civil_dawn(e)
    } else {
        0
    }
}

/// Whether the solar calculation of the day is unusable: an event missing,
/// a twilight span under 5 or over 300 minutes, events out of order or
/// coinciding, or civil dusk less than 12 hours before civil dawn.
pub open spec fn spec_calculation_failed(e: SolarEvents) -> bool {
    let s = spec_sunset(e);
    let r = spec_sunrise(e);
    let cd = spec_civil_dusk(e);
    let cw = spec_civil_dawn(e);
    let dusk = spec_dusk_span(e);
    let dawn = spec_dawn_span(e);
    let gh_start = wrap_ns(s - dusk);
    let gh_end = wrap_ns(r + dawn);
    let minute = 60_000_000_000int;
    let duration_invalid = dusk / minute < 5 || dusk / minute > 300 || dawn / minute < 5 || dawn
        / minute > 300;
    let sunset_sequence_invalid = gh_start >= s || cd <= s;
    let sunrise_sequence_invalid = gh_end <= r || cw >= r;
    let identical_times = s == gh_start || r == gh_end || s == cd || r == cw || gh_start == cd
        || gh_end == cw;
    let impossible_cycle = cd < cw && cw - cd < 43_200_000_000_000;
    let missing = e.sunset is None || e.sunrise is None || e.civil_dusk is None || e.civil_dawn is None;
    duration_invalid || sunset_sequence_invalid || sunrise_sequence_invalid || identical_times
        || impossible_cycle || missing
}

/// Summer for the hemisphere: days 120 to 240 in the north, outside days
/// 60 to 300 in the south.
pub open spec fn spec_is_summer(northern: bool, day_of_year: int) -> bool {
    if northern {
        120 <= day_of_year && day_of_year <= 240
    } else {
        !(60 <= day_of_year && day_of_year <= 300)
    }
}

/// The seasonal fallback and its length in minutes: 25 in summer (midnight
/// sun), 45 in winter (polar night), used at an extreme latitude when the
/// calculation failed; otherwise not used, with 30.
pub open spec fn spec_fallback(e: SolarEvents, extreme: bool, northern: bool, day_of_year: int) -> (bool, int) {
    if extreme && spec_calculation_failed(e) {
        (true, if spec_is_summer(northern, day_of_year) { 25 } else { 45 })
    } else {
        (false, 30)
    }
}

/// A transition length in milliseconds: the span between the edges when
/// the end follows the start on the clock, else 30 minutes.
pub open spec fn spec_window_millis(start: int, end: int) -> int {
    if end > start {
        (end - start) / 1_000_000
    } else {
        1_800_000
    }
}

/// The windows and reference times derived from the events of a day.
pub open spec fn spec_solar_windows(e: SolarEvents, extreme: bool, northern: bool, day_of_year: int) -> SolarWindows {
    let s = spec_sunset(e);
    let r = spec_sunrise(e);
    let dusk = spec_dusk_span(e);
    let dawn = spec_dawn_span(e);
    let (used, m) = spec_fallback(e, extreme, northern, day_of_year);
    let fd = m * 60_000_000_000;
    let ss = if used { wrap_ns(s - fd * 10 / 12) } else { wrap_ns(s - dusk * 10 / 6) };
    let se = if used { wrap_ns(s + fd * 2 / 12) } else { wrap_ns(s + dusk * 2 / 6) };
    let rs = if used { wrap_ns(r - fd * 2 / 12) } else { wrap_ns(r - dawn * 2 / 6) };
    let re = if used { wrap_ns(r + fd * 10 / 12) } else { wrap_ns(r + dawn * 10 / 6) };
    SolarWindows {
        sunset_time: s as u64,
        sunrise_time: r as u64,
        sunset_duration_ms: (if used { m * 60_000 } else { spec_window_millis(ss, se) }) as u64,
        sunrise_duration_ms: (if used { m * 60_000 } else { spec_window_millis(rs, re) }) as u64,
        sunset_plus_10_start: ss as u64,
        sunset_minus_2_end: se as u64,
        sunrise_minus_2_start: rs as u64,
        sunrise_plus_10_end: re as u64,
        civil_dawn: (if used { wrap_ns(r - (m * 3 / 5) * 60_000_000_000) } else { spec_civil_dawn(e) }) as u64,
        civil_dusk: (if used { wrap_ns(s + (m * 3 / 5) * 60_000_000_000) } else { spec_civil_dusk(e) }) as u64,
        golden_hour_start: (if used { wrap_ns(s - (m / 2) * 60_000_000_000) } else { wrap_ns(s - dusk) }) as u64,
        golden_hour_end: (if used { wrap_ns(r + (m / 2) * 60_000_000_000) } else { wrap_ns(r + dawn) }) as u64,
        used_extreme_latitude_fallback: used,
        fallback_duration_minutes: m as u32,
    }
}

/// `t + delta` on the wall clock, in nanoseconds.
fn shift(t: u64, delta: u64, forward: bool) -> (r: u64)
    requires
        t < DAY_NANOS,
        delta <= DAY_NANOS * 2,
    ensures
        r == wrap_ns(if forward { t + delta } else { t - delta }),
        r < DAY_NANOS,
{
    let m = delta % DAY_NANOS;
    if forward {
        (t + m) % DAY_NANOS
    } else {
        (t + DAY_NANOS - m) % DAY_NANOS
    }
}

fn event_nanos(e: Option<u32>, default_secs: u64) -> (r: u64)
    requires
        e matches Some(t) ==> t < 86400,
        default_secs < 86400,
    ensures
        r == event_or(e, default_secs as nat),
        r < DAY_NANOS,
{
    match e {
        Some(t) => t as u64 * 1_000_000_000,
        None => default_secs * 1_000_000_000,
    }
}

fn window_millis(start: u64, end: u64) -> (r: u64)
    ensures
        r == spec_window_millis(start as int, end as int),
{
    if end > start {
        (end - start) / 1_000_000
    } else {
        1_800_000
    }
}

/// Derive the transition windows of a day from its solar events. `extreme`
/// tells whether the location lies beyond 55 degrees of latitude, `northern`
/// whether its latitude is positive; `day_of_year` counts from 1.
pub fn solar_windows(events: SolarEvents, extreme: bool, northern: bool, day_of_year: u32) -> (w: SolarWindows)
    requires
        events.wf(),
    ensures
        w == spec_solar_windows(events, extreme, northern, day_of_year as int),
        w.wf(),
{
    let w = derive_windows(events, extreme, northern, day_of_year);
    proof {
        lemma_solar_windows_wf(events, extreme, northern, day_of_year as int);
    }
    w
}

fn derive_windows(events: SolarEvents, extreme: bool, northern: bool, day_of_year: u32) -> (w: SolarWindows)
    requires
        events.wf(),
    ensures
        w == spec_solar_windows(events, extreme, northern, day_of_year as int),
{
    let s = event_nanos(events.sunset, 19 * 3600);
    let r = event_nanos(events.sunrise, 6 * 3600);
    let cd = event_nanos(events.civil_dusk, 19 * 3600 + 30 * 60);
    let cw = event_nanos(events.civil_dawn, 5 * 3600 + 30 * 60);
    let dusk = if cd > s { cd - s } else { 0 };
    let dawn = if r > cw { r - cw } else { 0 };
    let gh_start = shift(s, dusk, false);
    let gh_end = shift(r, dawn, true);
    let minute: u64 = 60_000_000_000;
    let duration_invalid = dusk / minute < 5 || dusk / minute > 300 || dawn / minute < 5 || dawn
        / minute > 300;
    let sunset_sequence_invalid = gh_start >= s || cd <= s;
    let sunrise_sequence_invalid = gh_end <= r || cw >= r;
    let identical_times = s == gh_start || r == gh_end || s == cd || r == cw || gh_start == cd
        || gh_end == cw;
    let impossible_cycle = cd < cw && cw - cd < 43_200_000_000_000;
    let missing = events.sunset.is_none() || events.sunrise.is_none() || events.civil_dusk.is_none()
        || events.civil_dawn.is_none();
    let failed = duration_invalid || sunset_sequence_invalid || sunrise_sequence_invalid
        || identical_times || impossible_cycle || missing;
    let (used, m): (bool, u64) = if extreme && failed {
        let summer = if northern {
            120 <= day_of_year && day_of_year <= 240
        } else {
            !(60 <= day_of_year && day_of_year <= 300)
        };
        (true, if summer { 25 } else { 45 })
    } else {
        (false, 30)
    };
    let fd = m * minute;
    let (ss, se, sunset_ms) = if used {
        (shift(s, fd * 10 / 12, false), shift(s, fd * 2 / 12, true), m * 60_000)
    } else {
        let a = shift(s, dusk * 10 / 6, false);
        let b = shift(s, dusk * 2 / 6, true);
        (a, b, window_millis(a, b))
    };
    let (rs, re, sunrise_ms) = if used {
        (shift(r, fd * 2 / 12, false), shift(r, fd * 10 / 12, true), m * 60_000)
    } else {
        let a = shift(r, dawn * 2 / 6, false);
        let b = shift(r, dawn * 10 / 6, true);
        (a, b, window_millis(a, b))
    };
    let civil_minutes = m * 3 / 5;
    let civil_dusk = if used { shift(s, civil_minutes * minute, true) } else { cd };
    let civil_dawn = if used { shift(r, civil_minutes * minute, false) } else { cw };
    let golden_hour_start = if used { shift(s, (m / 2) * minute, false) } else { gh_start };
    let golden_hour_end = if used { shift(r, (m / 2) * minute, true) } else { gh_end };
    let w = SolarWindows {
        sunset_time: s,
        sunrise_time: r,
        sunset_duration_ms: sunset_ms,
        sunrise_duration_ms: sunrise_ms,
        sunset_plus_10_start: ss,
        sunset_minus_2_end: se,
        sunrise_minus_2_start: rs,
        sunrise_plus_10_end: re,
        civil_dawn,
        civil_dusk,
        golden_hour_start,
        golden_hour_end,
        used_extreme_latitude_fallback: used,
        fallback_duration_minutes: m as u32,
    };
    w
}

/// The derived windows keep every wall-clock time within the day.
pub proof fn lemma_solar_windows_wf(e: SolarEvents, extreme: bool, northern: bool, day_of_year: int)
    requires
        e.wf(),
    ensures
        spec_solar_windows(e, extreme, northern, day_of_year).wf(),
{
    let w = spec_solar_windows(e, extreme, northern, day_of_year);
    let d = DAY_NANOS as int;
    assert forall|x: int| 0 <= #[trigger] wrap_ns(x) < d by {}
    assert(0 <= spec_sunset(e) < d);
    assert(0 <= spec_sunrise(e) < d);
    assert(0 <= spec_civil_dusk(e) < d);
    assert(0 <= spec_civil_dawn(e) < d);
}

/// The fallback is used only at extreme latitudes, and then sets both
/// transitions to 25 minutes in summer and 45 in winter; without it the
/// recorded length is 30.
pub proof fn lemma_fallback_lengths(e: SolarEvents, extreme: bool, northern: bool, day_of_year: int)
    ensures
        ({
            let w = spec_solar_windows(e, extreme, northern, day_of_year);
            &&& w.used_extreme_latitude_fallback ==> extreme
            &&& w.used_extreme_latitude_fallback ==> w.sunset_duration_ms == w.sunrise_duration_ms
                && w.sunset_duration_ms == w.fallback_duration_minutes as int * 60_000
                && (w.fallback_duration_minutes == 25 <==> spec_is_summer(northern, day_of_year))
                && (w.fallback_duration_minutes == 25 || w.fallback_duration_minutes == 45)
            &&& !w.used_extreme_latitude_fallback ==> w.fallback_duration_minutes == 30
        }),
{
}


/// On an ordinary day the calculation stands, at any latitude: with all
/// four events present, twilight spans (sunset to civil dusk, civil dawn to
/// sunrise) of 5 to 300 minutes, the golden hour edges within the day, and
/// civil dusk later on the clock than civil dawn, no fallback is used and
/// the windows are the twilight-derived ones: the sunset window from 10/6
/// of the dusk span before sunset to 2/6 of it after, the sunrise window
/// from 2/6 of the dawn span before sunrise to 10/6 of it after.
pub proof fn lemma_ordinary_day_keeps_calculation(sunset: u32, sunrise: u32, civil_dusk: u32, civil_dawn: u32, extreme: bool, northern: bool, day_of_year: int)
    requires
        civil_dusk < 86400,
        civil_dawn < 86400,
        300 <= civil_dusk - sunset <= 18000,
        300 <= sunrise - civil_dawn <= 18000,
        civil_dusk - sunset <= sunset,
        sunrise + (sunrise - civil_dawn) < 86400,
        civil_dusk > civil_dawn,
    ensures
        ({
            let e = SolarEvents { sunset: Some(sunset), sunrise: Some(sunrise), civil_dusk: Some(civil_dusk), civil_dawn: Some(civil_dawn) };
            let w = spec_solar_windows(e, extreme, northern, day_of_year);
            let s = sunset * 1_000_000_000;
            let r = sunrise * 1_000_000_000;
            let dusk = (civil_dusk - sunset) * 1_000_000_000;
            let dawn = (sunrise - civil_dawn) * 1_000_000_000;
            &&& !w.used_extreme_latitude_fallback
            &&& w.fallback_duration_minutes == 30
            &&& w.sunset_plus_10_start == wrap_ns(s - dusk * 10 / 6)
            &&& w.sunset_minus_2_end == wrap_ns(s + dusk * 2 / 6)
            &&& w.sunrise_minus_2_start == wrap_ns(r - dawn * 2 / 6)
            &&& w.sunrise_plus_10_end == wrap_ns(r + dawn * 10 / 6)
            &&& w.civil_dusk == civil_dusk * 1_000_000_000
            &&& w.civil_dawn == civil_dawn * 1_000_000_000
        }),
{
    let e = SolarEvents { sunset: Some(sunset), sunrise: Some(sunrise), civil_dusk: Some(civil_dusk), civil_dawn: Some(civil_dawn) };
    let s: int = sunset * 1_000_000_000;
    let r: int = sunrise * 1_000_000_000;
    let cd: int = civil_dusk * 1_000_000_000;
    let cw: int = civil_dawn * 1_000_000_000;
    let dusk: int = (civil_dusk - sunset) * 1_000_000_000;
    let dawn: int = (sunrise - civil_dawn) * 1_000_000_000;
    let minute = 60_000_000_000int;
    assert(spec_sunset(e) == s);
    assert(spec_sunrise(e) == r);
    assert(spec_civil_dusk(e) == cd);
    assert(spec_civil_dawn(e) == cw);
    assert(cd - s == dusk) by (nonlinear_arith)
        requires cd == civil_dusk * 1_000_000_000, s == sunset * 1_000_000_000, dusk == (civil_dusk - sunset) * 1_000_000_000;
    assert(r - cw == dawn) by (nonlinear_arith)
        requires cw == civil_dawn * 1_000_000_000, r == sunrise * 1_000_000_000, dawn == (sunrise - civil_dawn) * 1_000_000_000;
    assert(spec_dusk_span(e) == dusk);
    assert(spec_dawn_span(e) == dawn);
    assert(5 <= dusk / minute <= 300) by (nonlinear_arith)
        requires dusk == (civil_dusk - sunset) * 1_000_000_000, 300 <= civil_dusk - sunset <= 18000, minute == 60_000_000_000int;
    assert(5 <= dawn / minute <= 300) by (nonlinear_arith)
        requires dawn == (sunrise - civil_dawn) * 1_000_000_000, 300 <= sunrise - civil_dawn <= 18000, minute == 60_000_000_000int;
    assert(0 <= s - dusk < DAY_NANOS) by (nonlinear_arith)
        requires s == sunset * 1_000_000_000, dusk == (civil_dusk - sunset) * 1_000_000_000, civil_dusk - sunset <= sunset, civil_dusk < 86400, 300 <= civil_dusk - sunset;
    assert(0 <= r + dawn < DAY_NANOS) by (nonlinear_arith)
        requires r == sunrise * 1_000_000_000, dawn == (sunrise - civil_dawn) * 1_000_000_000, sunrise + (sunrise - civil_dawn) < 86400, 300 <= sunrise - civil_dawn;
    assert(cd > cw) by (nonlinear_arith)
        requires cd == civil_dusk * 1_000_000_000, cw == civil_dawn * 1_000_000_000, civil_dusk > civil_dawn;
    vstd::arithmetic::div_mod::lemma_small_mod((s - dusk) as nat, DAY_NANOS as nat);
    vstd::arithmetic::div_mod::lemma_small_mod((r + dawn) as nat, DAY_NANOS as nat);
    assert(!spec_calculation_failed(e));
}

} // verus!
