//! The settings a daemon run starts with, and the choices made from them
//! before the main loop begins.

use vstd::prelude::*;
use crate::period::Period;

verus! {

/// How a run of the daemon is set up.
#[derive(Debug, Clone, Copy, PartialEq, Eq, Structural)]
pub struct Sunsetr {
    pub debug_enabled: bool,
    /// Whether the single-instance lock is taken.
    pub create_lock: bool,
    /// The period shown before a restart, faded from.
    pub previous_state: Option<Period>,
    /// Whether the version header is printed.
    pub show_headers: bool,
    /// Whether every fade is skipped.
    pub bypass_smoothing: bool,
    /// Whether the run only spawns an instance in the background.
    pub background: bool,
}

/// A normal run's settings.
pub open spec fn spec_new_runner(debug_enabled: bool) -> Sunsetr {
    Sunsetr {
        debug_enabled,
        create_lock: true,
        previous_state: None,
        show_headers: true,
        bypass_smoothing: false,
        background: false,
    }
}

pub open spec fn spec_without_lock(s: Sunsetr) -> Sunsetr {
    Sunsetr { create_lock: false, show_headers: false, ..s }
}

pub open spec fn spec_with_previous_state(s: Sunsetr, state: Option<Period>) -> Sunsetr {
    Sunsetr { previous_state: state, ..s }
}

impl Sunsetr {
    /// A normal run: with lock and headers, no previous state, smoothing as
    /// configured, in the foreground.
    pub fn new(debug_enabled: bool) -> (s: Self)
        ensures
            s == spec_new_runner(debug_enabled),
    {
        Sunsetr {
            debug_enabled,
            create_lock: true,
            previous_state: None,
            show_headers: true,
            bypass_smoothing: false,
            background: false,
        }
    }

    /// Skip the lock (a restart that already holds it) and the headers.
    pub fn without_lock(self) -> (s: Self)
        ensures
            s == spec_without_lock(self),
    {
        Sunsetr { create_lock: false, show_headers: false, ..self }
    }

    /// Fade from `state`, the period shown before a restart.
    pub fn with_previous_state(self, state: Option<Period>) -> (s: Self)
        ensures
            s == spec_with_previous_state(self, state),
    {
        Sunsetr { previous_state: state, ..self }
    }

    /// Skip the version header.
    pub fn without_headers(self) -> (s: Self)
        ensures
            s == (Sunsetr { show_headers: false, ..self }),
    {
        Sunsetr { show_headers: false, ..self }
    }

    /// Skip every fade.
    pub fn bypass_smoothing(self) -> (s: Self)
        ensures
            s == (Sunsetr { bypass_smoothing: true, ..self }),
    {
        Sunsetr { bypass_smoothing: true, ..self }
    }

    /// Only spawn an instance in the background.
    pub fn background(self) -> (s: Self)
        ensures
            s == (Sunsetr { background: true, ..self }),
    {
        Sunsetr { background: true, ..self }
    }
}

/// What a run does before its main loop.
#[derive(Debug, Clone, Copy, PartialEq, Eq, Structural)]
pub enum LaunchPlan {
    /// Resolve a conflict with a running instance when there is one, then
    /// spawn an instance in the background.
    SpawnInBackground { header: bool },
    /// Run here, taking the lock first when `lock`.
    RunHere { header: bool, lock: bool },
}

/// A run in the background spawns; any other runs here, with the lock when
/// it takes one.
pub open spec fn launch_plan_spec(s: Sunsetr) -> LaunchPlan {
    if s.background {
        LaunchPlan::SpawnInBackground { header: s.show_headers }
    } else {
        LaunchPlan::RunHere { header: s.show_headers, lock: s.create_lock }
    }
}

pub fn launch_plan(s: &Sunsetr) -> (p: LaunchPlan)
    ensures
        p == launch_plan_spec(*s),
{
    if s.background {
        LaunchPlan::SpawnInBackground { header: s.show_headers }
    } else {
        LaunchPlan::RunHere { header: s.show_headers, lock: s.create_lock }
    }
}

/// The line that opens a run: the lock was taken, or (outside simulation)
/// a restart without lock.
pub fn start_message(lock_acquired: bool, simulated: bool) -> (m: Option<&'static str>)
    ensures
        match m {
            Some(t) => if lock_acquired {
                t@ == "Lock acquired, starting sunsetr..."@
            } else {
                !simulated && t@ == "Restarting sunsetr..."@
            },
            None => !lock_acquired && simulated,
        },
{
    if lock_acquired {
        Some("Lock acquired, starting sunsetr...")
    } else if !simulated {
        Some("Restarting sunsetr...")
    } else {
        None
    }
}

/// Subscribers are served outside simulation only.
pub fn serves_subscribers(simulated: bool) -> (b: bool)
    ensures
        b == !simulated,
{
    !simulated
}

/// A restart after a geo selection (`new`, then `without_lock`, then
/// `with_previous_state`) runs here without lock or header, keeps the debug
/// setting and fades from the given period.
pub proof fn lemma_restart_builder(debug_enabled: bool, state: Option<Period>)
    ensures
        ({
            let s = spec_with_previous_state(spec_without_lock(spec_new_runner(debug_enabled)), state);
            &&& launch_plan_spec(s) == LaunchPlan::RunHere { header: false, lock: false }
            &&& s.debug_enabled == debug_enabled
            &&& s.previous_state == state
            &&& !s.bypass_smoothing
        }),
{
}

} // verus!
