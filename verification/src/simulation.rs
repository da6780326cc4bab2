//! Simulated time: when a simulation may run, how its start and end times
//! are read, and the fast-forward clock that jumps through each sleep.
//! Instants are milliseconds since the Unix epoch.

use vstd::prelude::*;
use chrono::{Datelike, Timelike};
use crate::geo::{zoned_instant, zone_instant};
use crate::text::{decimal, push_decimal};

verus! {

/// The wall clock's own time source: never simulated, never at an end.
#[derive(Debug, Clone, Copy, PartialEq, Eq, Structural)]
pub struct RealTimeSource;

impl RealTimeSource {
    pub fn is_simulated(&self) -> (b: bool)
        ensures
            !b,
    {
        false
    }

    pub fn is_ended(&self) -> (b: bool)
        ensures
            !b,
    {
        false
    }
}

/// A simulated clock that jumps through every sleep at once, stopping at
/// the end of the simulation.
#[derive(Debug, Clone, Copy, PartialEq, Eq, Structural)]
pub struct FastForwardClock {
    pub current: i64,
    pub end: i64,
}

impl FastForwardClock {
    pub open spec fn wf(self) -> bool {
        self.current <= self.end
    }

    /// A clock standing at `start`.
    pub fn new(start: i64, end: i64) -> (c: Self)
        requires
            start <= end,
        ensures
            c == (FastForwardClock { current: start, end }),
            c.wf(),
    {
        FastForwardClock { current: start, end }
    }

    pub fn now(&self) -> (t: i64)
        ensures
            t == self.current,
    {
        self.current
    }

    /// The clock after sleeping `duration_ms`: moved forward by the
    /// duration, up to the end.
    pub open spec fn spec_sleep(self, duration_ms: u64) -> FastForwardClock {
        FastForwardClock {
            current: if self.current + duration_ms > self.end { self.end } else { (self.current + duration_ms) as i64 },
            end: self.end,
        }
    }

    /// Sleeping moves the clock forward by the duration, up to the end.
    pub fn sleep(&mut self, duration_ms: u64)
        requires
            old(self).wf(),
        ensures
            *final(self) == old(self).spec_sleep(duration_ms),
            final(self).wf(),
    {
        let target: i128 = self.current as i128 + duration_ms as i128;
        if target > self.end as i128 {
            self.current = self.end;
        } else {
            self.current = target as i64;
        }
    }

    /// The simulation is over once the clock reaches its end.
    pub fn is_ended(&self) -> (b: bool)
        ensures
            b == (self.current >= self.end),
    {
        self.current >= self.end
    }
}

/// A simulated clock that runs at a multiple of real time: it counts the
/// simulated milliseconds of the sleeps that have completed, and, while a
/// sleep is in progress, how long that sleep will add. It never passes its
/// end. The multiplier itself, and the real time a sleep takes, belong to
/// the program.
#[derive(Debug, Clone, Copy, PartialEq, Eq, Structural)]
pub struct ScaledClock {
    pub start: i64,
    pub end: i64,
    /// Simulated milliseconds of the completed sleeps.
    pub accumulated: u64,
    /// The simulated length of the sleep in progress.
    pub in_progress: Option<u64>,
}

impl ScaledClock {
    /// The completed sleeps never take the clock past its end, nor does the
    /// sleep in progress.
    pub open spec fn wf(self) -> bool {
        &&& self.start <= self.end
        &&& self.start + self.accumulated <= self.end
        &&& (self.in_progress matches Some(d) ==> self.start + self.accumulated + d <= self.end)
    }

    /// A clock at `start` with no sleep behind it.
    pub fn new(start: i64, end: i64) -> (c: Self)
        requires
            start <= end,
        ensures
            c == (ScaledClock { start, end, accumulated: 0, in_progress: None }),
            c.wf(),
    {
        ScaledClock { start, end, accumulated: 0, in_progress: None }
    }

    /// The simulated time, given how much simulated time the sleep in
    /// progress has run so far (its real elapsed time times the
    /// multiplier): the start plus the completed sleeps plus that part, no
    /// more than the sleep's own length, and never past the end.
    pub open spec fn spec_now(self, partial: u64) -> int {
        let part: int = match self.in_progress {
            Some(d) => if partial < d { partial as int } else { d as int },
            None => 0,
        };
        if self.start + self.accumulated + part > self.end {
            self.end as int
        } else {
            self.start + self.accumulated + part
        }
    }

    pub fn now(&self, partial: u64) -> (t: i64)
        requires
            self.wf(),
        ensures
            t == self.spec_now(partial),
    {
        let part: u64 = match self.in_progress {
            Some(d) => if partial < d { partial } else { d },
            None => 0,
        };
        let t: i128 = self.start as i128 + self.accumulated as i128 + part as i128;
        if t > self.end as i128 {
            self.end
        } else {
            t as i64
        }
    }

    /// The simulation is over once the clock reads its end.
    pub fn is_ended(&self, partial: u64) -> (b: bool)
        requires
            self.wf(),
        ensures
            b == (self.spec_now(partial) >= self.end),
    {
        self.now(partial) >= self.end
    }

    /// The simulated length that a requested sleep adds: the request, cut
    /// to the time left after the completed sleeps; nothing once those
    /// reach the end.
    pub open spec fn spec_sleep_length(self, requested: u64) -> u64 {
        let left = self.end - (self.start + self.accumulated);
        if left <= 0 {
            0
        } else if requested > left {
            left as u64
        } else {
            requested
        }
    }

    /// Start a sleep of `requested` simulated milliseconds; the length it
    /// will add is returned and, when not zero, recorded as in progress.
    /// The program sleeps that length divided by the multiplier.
    pub fn begin_sleep(&mut self, requested: u64) -> (d: u64)
        requires
            old(self).wf(),
        ensures
            d == old(self).spec_sleep_length(requested),
            final(self).start == old(self).start,
            final(self).end == old(self).end,
            final(self).accumulated == old(self).accumulated,
            final(self).in_progress == if d > 0 { Some(d) } else { old(self).in_progress },
            final(self).wf(),
    {
        let reached: i128 = self.start as i128 + self.accumulated as i128;
        let d: u64 = if reached >= self.end as i128 {
            0
        } else {
            let left: i128 = self.end as i128 - reached;
            if requested as i128 > left {
                left as u64
            } else {
                requested
            }
        };
        if d > 0 {
            self.in_progress = Some(d);
        }
        d
    }

    /// The sleep in progress has completed: its length joins the completed
    /// sleeps.
    pub fn finish_sleep(&mut self)
        requires
            old(self).wf(),
        ensures
            final(self).start == old(self).start,
            final(self).end == old(self).end,
            final(self).in_progress is None,
            final(self).accumulated == match old(self).in_progress {
                Some(d) => old(self).accumulated + d,
                None => old(self).accumulated as int,
            },
            final(self).wf(),
    {
        if let Some(d) = self.in_progress {
            self.accumulated = self.accumulated + d;
        }
        self.in_progress = None;
    }
}

/// The date and the seconds after midnight that `text` gives in the format
/// `%Y-%m-%d %H:%M:%S`, or chrono's message on why it does not match.
pub uninterp spec fn naive_datetime_parse(text: Seq<char>) -> Result<(int, int), Seq<char>>;

/// Calls `chrono::NaiveDateTime::parse_from_str(text, "%Y-%m-%d %H:%M:%S")`
/// and reads the date (days from the common era) and the whole seconds
/// after midnight; an error comes back as chrono's message. The result is
/// named, not stated.
#[verifier::external_body]
fn parse_naive_datetime(text: &str) -> (r: Result<(i32, u32), String>)
    ensures
        match r {
            Ok((d, s)) => naive_datetime_parse(text@) == Ok::<(int, int), Seq<char>>((d as int, s as int)) && s < 86400,
            Err(m) => naive_datetime_parse(text@) == Err::<(int, int), Seq<char>>(m@),
        },
{
    match chrono::NaiveDateTime::parse_from_str(text, "%Y-%m-%d %H:%M:%S") {
        Ok(n) => Ok((n.date().num_days_from_ce(), n.time().num_seconds_from_midnight())),
        Err(e) => Err(e.to_string()),
    }
}

/// Why a simulation time could not be read.
#[derive(Debug, Clone, PartialEq, Eq)]
pub enum DateParseError {
    /// The text is not `YYYY-MM-DD HH:MM:SS`; chrono's explanation.
    InvalidFormat(String),
    /// The wall-clock time has no single instant in the zone.
    Ambiguous,
}

/// The instant `text` names in `zone`.
pub open spec fn spec_parse_datetime_in_tz(text: Seq<char>, zone: Seq<char>) -> Result<int, Option<Seq<char>>> {
    match naive_datetime_parse(text) {
        Err(m) => Err(Some(m)),
        Ok((d, s)) => match zoned_instant(zone, d, s) {
            Some(t) => Ok(t),
            None => Err(None),
        },
    }
}

/// Read a simulation time given in the coordinates' zone.
pub fn parse_datetime_in_tz(text: &str, zone: &str) -> (r: Result<i64, DateParseError>)
    ensures
        match r {
            Ok(t) => spec_parse_datetime_in_tz(text@, zone@) == Ok::<int, Option<Seq<char>>>(t as int),
            Err(DateParseError::InvalidFormat(m)) => spec_parse_datetime_in_tz(text@, zone@) == Err::<int, Option<Seq<char>>>(Some(m@)),
            Err(DateParseError::Ambiguous) => spec_parse_datetime_in_tz(text@, zone@) == Err::<int, Option<Seq<char>>>(None),
        },
{
    match parse_naive_datetime(text) {
        Err(m) => Err(DateParseError::InvalidFormat(m)),
        Ok((d, s)) => match zone_instant(zone, d, s) {
            Some(t) => Ok(t),
            None => Err(DateParseError::Ambiguous),
        },
    }
}

/// Why a simulation may not start.
#[derive(Debug, Clone, Copy, PartialEq, Eq, Structural)]
pub enum SimulationRefusal {
    /// An instance is running, with this pid.
    AlreadyRunning(u32),
    /// A test is running.
    TestModeActive,
    /// Static mode has no transitions to simulate.
    StaticMode,
    /// The end does not come after the start.
    EmptyWindow,
}

/// The first reason, in the order they are checked, why a simulation from
/// `start` to `end` may not run; None when it may.
pub open spec fn spec_simulation_refusal(running_pid: Option<u32>, test_mode_active: bool, static_mode: bool, start: int, end: int) -> Option<SimulationRefusal> {
    match running_pid {
        Some(pid) => Some(SimulationRefusal::AlreadyRunning(pid)),
        None => if test_mode_active {
            Some(SimulationRefusal::TestModeActive)
        } else if static_mode {
            Some(SimulationRefusal::StaticMode)
        } else if end <= start {
            Some(SimulationRefusal::EmptyWindow)
        } else {
            None
        },
    }
}

pub fn simulation_refusal(running_pid: Option<u32>, test_mode_active: bool, static_mode: bool, start: i64, end: i64) -> (r: Option<SimulationRefusal>)
    ensures
        r == spec_simulation_refusal(running_pid, test_mode_active, static_mode, start as int, end as int),
{
    match running_pid {
        Some(pid) => Some(SimulationRefusal::AlreadyRunning(pid)),
        None => if test_mode_active {
            Some(SimulationRefusal::TestModeActive)
        } else if static_mode {
            Some(SimulationRefusal::StaticMode)
        } else if end <= start {
            Some(SimulationRefusal::EmptyWindow)
        } else {
            None
        },
    }
}

/// The message a refusal is reported with.
pub open spec fn spec_refusal_message(r: SimulationRefusal) -> Seq<char> {
    match r {
        SimulationRefusal::AlreadyRunning(pid) => "Cannot run simulation: sunsetr is already running (PID: "@
            + decimal(pid as nat) + ")\n   Stop the existing sunsetr instance first with: kill "@ + decimal(pid as nat),
        SimulationRefusal::TestModeActive => "Cannot run simulation: test mode is currently active\n   Exit the test mode first (press Escape in test terminal)"@,
        SimulationRefusal::StaticMode => "Cannot run simulation in static transition mode\n   Static mode maintains constant temperature and gamma values\n   There are no transitions to simulate"@,
        SimulationRefusal::EmptyWindow => "End time must be after start time"@,
    }
}

pub fn refusal_message(r: SimulationRefusal) -> (s: String)
    ensures
        s@ == spec_refusal_message(r),
{
    proof {
        reveal_strlit("Cannot run simulation: sunsetr is already running (PID: ");
        reveal_strlit(")\n   Stop the existing sunsetr instance first with: kill ");
    }
    match r {
        SimulationRefusal::AlreadyRunning(pid) => {
            let mut s = String::from_str("Cannot run simulation: sunsetr is already running (PID: ");
            push_decimal(&mut s, pid as u64);
            s.append(")\n   Stop the existing sunsetr instance first with: kill ");
            push_decimal(&mut s, pid as u64);
            s
        },
        SimulationRefusal::TestModeActive => String::from_str(
            "Cannot run simulation: test mode is currently active\n   Exit the test mode first (press Escape in test terminal)",
        ),
        SimulationRefusal::StaticMode => String::from_str(
            "Cannot run simulation in static transition mode\n   Static mode maintains constant temperature and gamma values\n   There are no transitions to simulate",
        ),
        SimulationRefusal::EmptyWindow => String::from_str("End time must be after start time"),
    }
}

/// A fast-forward clock never goes back and never passes its end; two
/// sleeps take it as far as one sleep of their total length; and a sleep at
/// least as long as the time left ends the simulation.
pub proof fn lemma_fast_forward_sleeps(c: FastForwardClock, a: u64, b: u64)
    requires
        c.wf(),
        a + b <= u64::MAX,
    ensures
        c.current <= c.spec_sleep(a).current <= c.end,
        c.spec_sleep(a).spec_sleep(b) == c.spec_sleep((a + b) as u64),
        c.current + a >= c.end ==> c.spec_sleep(a).current == c.end,
{
}


/// A completed sleep moves a scaled clock exactly as far as it moves a
/// fast-forward clock standing at the same time: by the requested length,
/// up to the end.
pub proof fn lemma_scaled_matches_fast_forward(c: ScaledClock, requested: u64)
    requires
        c.wf(),
        c.in_progress is None,
    ensures
        ({
            let d = c.spec_sleep_length(requested);
            let after = ScaledClock {
                accumulated: (c.accumulated + d) as u64,
                in_progress: None,
                ..c
            };
            let ff = FastForwardClock { current: c.spec_now(0) as i64, end: c.end };
            &&& after.wf()
            &&& after.spec_now(0) == ff.spec_sleep(requested).current
        }),
{
}

} // verus!
