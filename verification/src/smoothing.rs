//! Decisions of the smooth fade between colour settings: what a frame aims
//! at, whether the fade goes on, and how quiet its end is. The interpolation
//! itself works on fractional values and stays with the program.

use vstd::prelude::*;
use crate::period::{Period, spec_is_stable};

verus! {

/// The kind of fade.
#[derive(Debug, Clone, Copy, PartialEq, Eq, Structural)]
pub enum TransitionType {
    /// Towards the state of the moment: at startup, on reload, into a test.
    Startup,
    /// Towards the day values: at shutdown, or back out of a test.
    Shutdown,
}

/// Where a frame takes its target from.
#[derive(Debug, Clone, Copy, PartialEq, Eq, Structural)]
pub enum TargetSource {
    /// The target fixed when the fade was set up.
    Fixed,
    /// The values of the state of the moment, which move during a
    /// transition.
    Live,
}

/// A startup fade that began in a transition and aims at a moving target
/// follows the live values for as long as the same transition lasts; every
/// other fade aims at its fixed target.
pub open spec fn spec_target_source(transition_type: TransitionType, initial: Option<Period>, dynamic_target: bool, current: Period) -> TargetSource {
    match transition_type {
        TransitionType::Shutdown => TargetSource::Fixed,
        TransitionType::Startup => match initial {
            None => TargetSource::Fixed,
            Some(i) => if spec_is_stable(i) {
                TargetSource::Fixed
            } else if dynamic_target && ((i == Period::Sunset && current == Period::Sunset) || (i
                == Period::Sunrise && current == Period::Sunrise)) {
                TargetSource::Live
            } else {
                TargetSource::Fixed
            },
        },
    }
}

pub fn target_source(transition_type: TransitionType, initial: Option<Period>, dynamic_target: bool, current: Period) -> (s: TargetSource)
    ensures
        s == spec_target_source(transition_type, initial, dynamic_target, current),
{
    match transition_type {
        TransitionType::Shutdown => TargetSource::Fixed,
        TransitionType::Startup => match initial {
            None => TargetSource::Fixed,
            Some(i) => if i.is_stable() {
                TargetSource::Fixed
            } else if dynamic_target && ((i == Period::Sunset && current == Period::Sunset) || (i
                == Period::Sunrise && current == Period::Sunrise)) {
                TargetSource::Live
            } else {
                TargetSource::Fixed
            },
        },
    }
}

/// A shutdown fade runs to its end; any other stops when the daemon stops.
pub fn keeps_running(transition_type: TransitionType, running: bool) -> (b: bool)
    ensures
        b == (transition_type == TransitionType::Shutdown || running),
{
    transition_type == TransitionType::Shutdown || running
}

/// The name printed when a fade completes.
pub fn transition_name(transition_type: TransitionType) -> (s: &'static str)
    ensures
        s@ == match transition_type {
            TransitionType::Startup => "Startup"@,
            TransitionType::Shutdown => "Shutdown"@,
        },
{
    match transition_type {
        TransitionType::Startup => "Startup",
        TransitionType::Shutdown => "Shutdown",
    }
}

/// Whether the final state of a completed startup fade is applied with the
/// log muted: when the fade neither showed progress nor suppressed its logs
/// (so the state would be announced twice), or when it must not announce.
pub fn mutes_final_apply(transition_type: TransitionType, show_progress_bar: bool, suppress_logs: bool, no_announce: bool) -> (b: bool)
    ensures
        b == (transition_type == TransitionType::Startup && ((!show_progress_bar && !suppress_logs)
            || no_announce)),
{
    transition_type == TransitionType::Startup && ((!show_progress_bar && !suppress_logs) || no_announce)
}

/// A shutdown fade never follows live values.
pub proof fn lemma_shutdown_target_fixed(initial: Option<Period>, dynamic_target: bool, current: Period)
    ensures
        spec_target_source(TransitionType::Shutdown, initial, dynamic_target, current) == TargetSource::Fixed,
{
}

/// A fade that began in a stable period aims at its fixed target whatever
/// the period becomes.
pub proof fn lemma_stable_start_target_fixed(t: TransitionType, initial: Period, dynamic_target: bool, current: Period)
    requires
        spec_is_stable(initial),
    ensures
        spec_target_source(t, Some(initial), dynamic_target, current) == TargetSource::Fixed,
{
}

} // verus!
