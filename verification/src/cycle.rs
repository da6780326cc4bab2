//! Decisions of the daemon's main loop: when to re-evaluate the period, how
//! long to sleep, what a configuration reload does, and which events go out.
//!
//! The loop itself (applying colours, waiting on signals) lives with the
//! program; each iteration hands the facts it observed to these functions and
//! carries out what they return. Instants are milliseconds since the Unix
//! epoch; durations are milliseconds unless their name says otherwise.

use vstd::prelude::*;
use crate::period::{LineStyle, Period, StateChange, spec_is_transitioning};
use crate::schedule::{interval_ms, spec_interval_ms};
use crate::text::{decimal, push_decimal};

verus! {

/// Per-iteration record of the main loop. `P` is the transition progress
/// that the loop reports; it is stored and handed back, never inspected.
#[derive(Debug, Clone, Copy)]
pub struct Context<P> {
    /// When a state was last applied.
    pub last_update_time: Option<i64>,
    /// Progress reported at the last transition update.
    pub previous_progress: Option<P>,
    /// Period seen at the end of the last iteration.
    pub previous_period: Option<Period>,
    /// Whether the first progress line of the current transition went out.
    pub first_transition_logged: bool,
    /// Whether the loop has not yet finished its first iteration.
    pub is_first_iteration: bool,
    /// Whether a stable-period reload asked to skip the next update check.
    pub config_reload_pending: bool,
    /// Whether the last sleep was cut to end exactly at a transition boundary.
    pub sleeping_to_boundary: bool,
}

/// Whole seconds of a signed span of milliseconds, rounded toward zero.
pub open spec fn whole_seconds(ms: int) -> int {
    if ms >= 0 {
        ms / 1000
    } else {
        -((-ms) / 1000)
    }
}

impl<P: Copy> Context<P> {
    /// The record of a loop that has not run yet.
    pub fn new() -> (c: Self)
        ensures
            c.last_update_time is None,
            c.previous_progress is None,
            c.previous_period is None,
            !c.first_transition_logged,
            c.is_first_iteration,
            !c.config_reload_pending,
            !c.sleeping_to_boundary,
    {
        Context {
            last_update_time: None,
            previous_progress: None,
            previous_period: None,
            first_transition_logged: false,
            is_first_iteration: true,
            config_reload_pending: false,
            sleeping_to_boundary: false,
        }
    }

    /// Note that a state was applied at `now`.
    pub fn record_state_update(&mut self, now: i64)
        ensures
            *final(self) == (Context { last_update_time: Some(now), ..*old(self) }),
    {
        self.last_update_time = Some(now);
    }

    /// Note a reload applied during a stable period: the next update check
    /// is skipped so that the reload's event is not repeated, and the
    /// progress record starts over.
    pub fn record_config_reload(&mut self, now: i64)
        ensures
            *final(self) == (Context {
                last_update_time: Some(now),
                config_reload_pending: true,
                previous_progress: None,
                first_transition_logged: false,
                ..*old(self)
            }),
    {
        self.last_update_time = Some(now);
        self.config_reload_pending = true;
        self.previous_progress = None;
        self.first_transition_logged = false;
    }

    pub open spec fn spec_should_update_during_transition(self, now: int, update_interval_secs: u64) -> bool {
        match self.last_update_time {
            None => true,
            Some(last) => whole_seconds(now - last) >= (update_interval_secs as i64) as int,
        }
    }

    /// Whether a full update interval (whole seconds) has passed since the
    /// last applied state; true when none was applied yet.
    pub fn should_update_during_transition(&self, now: i64, update_interval_secs: u64) -> (b: bool)
        ensures
            b == self.spec_should_update_during_transition(now as int, update_interval_secs),
    {
        match self.last_update_time {
            None => true,
            Some(last) => {
                let diff: i128 = now as i128 - last as i128;
                let secs: i128 = if diff >= 0 {
                    diff / 1000
                } else {
                    -((-diff) / 1000)
                };
                let limit: i64 = update_interval_secs as i64;
                secs >= limit as i128
            },
        }
    }

    /// Whether progress is worth a line: only while transitioning, and then
    /// when a state was just applied or none has been applied yet.
    pub fn should_log_progress(&self, period: Period, state_was_just_applied: bool) -> (b: bool)
        ensures
            b == (spec_is_transitioning(period) && (state_was_just_applied
                || self.last_update_time is None)),
    {
        period.is_transitioning() && (state_was_just_applied || self.last_update_time.is_none())
    }

    /// Keep `progress` as the last reported one; nothing changes for None.
    pub fn update_progress(&mut self, progress: Option<P>)
        ensures
            *final(self) == (match progress {
                Some(p) => Context { previous_progress: Some(p), ..*old(self) },
                None => *old(self),
            }),
    {
        if let Some(p) = progress {
            self.previous_progress = Some(p);
        }
    }

    /// Forget the progress record when a stable period begins.
    pub fn reset_for_stable_period(&mut self)
        ensures
            *final(self) == (Context {
                previous_progress: None,
                first_transition_logged: false,
                ..*old(self)
            }),
    {
        self.previous_progress = None;
        self.first_transition_logged = false;
    }

    /// True exactly once: on the first call.
    pub fn handle_first_iteration(&mut self) -> (b: bool)
        ensures
            b == old(self).is_first_iteration,
            *final(self) == (Context { is_first_iteration: false, ..*old(self) }),
    {
        if self.is_first_iteration {
            self.is_first_iteration = false;
            true
        } else {
            false
        }
    }

    /// True when a reload asked to skip this check; clears the request.
    pub fn handle_config_reload_skip(&mut self) -> (b: bool)
        ensures
            b == old(self).config_reload_pending,
            *final(self) == (Context { config_reload_pending: false, ..*old(self) }),
    {
        if self.config_reload_pending {
            self.config_reload_pending = false;
            true
        } else {
            false
        }
    }

    /// Whether `current` differs from a recorded previous period.
    pub fn is_period_change(&self, current: Period) -> (b: bool)
        ensures
            b == (self.previous_period matches Some(prev) && prev != current),
    {
        match self.previous_period {
            Some(prev) => prev != current,
            None => false,
        }
    }

    pub fn record_current_period(&mut self, period: Period)
        ensures
            *final(self) == (Context { previous_period: Some(period), ..*old(self) }),
    {
        self.previous_period = Some(period);
    }

    pub fn has_recorded_updates(&self) -> (b: bool)
        ensures
            b == (self.last_update_time is Some),
    {
        self.last_update_time.is_some()
    }

    pub fn set_first_transition_logged(&mut self, value: bool)
        ensures
            *final(self) == (Context { first_transition_logged: value, ..*old(self) }),
    {
        self.first_transition_logged = value;
    }

    /// Set when a sleep will end exactly at a transition boundary, cleared
    /// after the forced advance it calls for.
    pub fn set_sleeping_to_boundary(&mut self, value: bool)
        ensures
            *final(self) == (Context { sleeping_to_boundary: value, ..*old(self) }),
    {
        self.sleeping_to_boundary = value;
    }
}

/// What an iteration does about the current period.
#[derive(Debug, Clone, Copy, PartialEq, Eq, Structural)]
pub enum UpdateCheck {
    /// Leave the state as it is this time round.
    Skip,
    /// Re-evaluate the period and apply it when it changed.
    Evaluate,
}

/// The update check of one iteration: the first iteration and the one after
/// a stable-period reload skip; during a transition the period is
/// re-evaluated once an update interval has passed; otherwise always.
pub open spec fn spec_update_check<P: Copy>(c: Context<P>, transitioning: bool, now: int, update_interval_secs: u64) -> UpdateCheck {
    if c.is_first_iteration || c.config_reload_pending {
        UpdateCheck::Skip
    } else if transitioning && !c.spec_should_update_during_transition(now, update_interval_secs) {
        UpdateCheck::Skip
    } else {
        UpdateCheck::Evaluate
    }
}

/// Decide this iteration's update check and consume the one-shot skips.
pub fn update_check<P: Copy>(c: &mut Context<P>, transitioning: bool, now: i64, update_interval_secs: u64) -> (u: UpdateCheck)
    ensures
        u == spec_update_check(*old(c), transitioning, now as int, update_interval_secs),
        *final(c) == (Context {
            is_first_iteration: false,
            config_reload_pending: if old(c).is_first_iteration { old(c).config_reload_pending } else { false },
            ..*old(c)
        }),
{
    if c.handle_first_iteration() {
        UpdateCheck::Skip
    } else if c.handle_config_reload_skip() {
        UpdateCheck::Skip
    } else if transitioning && !c.should_update_during_transition(now, update_interval_secs) {
        UpdateCheck::Skip
    } else {
        UpdateCheck::Evaluate
    }
}

/// An event for subscribers of the daemon's state.
#[derive(Debug, Clone, Copy, PartialEq, Eq, Structural)]
pub enum LoopEvent {
    /// The active preset changed; the program attaches the names and values.
    PresetChanged,
    /// The configured values changed.
    ConfigChanged,
    /// The period changed.
    PeriodChanged { from: Period, to: Period },
    /// A state was applied; the program attaches it.
    StateApplied,
}

/// Events after a state was applied in the loop: the period change against
/// the recorded previous period, then the applied state; none without
/// subscribers.
pub open spec fn spec_applied_events<P: Copy>(c: Context<P>, current: Period, has_subscribers: bool) -> Seq<LoopEvent> {
    if !has_subscribers {
        seq![]
    } else {
        match c.previous_period {
            Some(prev) if prev != current => seq![
                LoopEvent::PeriodChanged { from: prev, to: current },
                LoopEvent::StateApplied,
            ],
            _ => seq![LoopEvent::StateApplied],
        }
    }
}

pub fn applied_events<P: Copy>(c: &Context<P>, current: Period, has_subscribers: bool) -> (v: Vec<LoopEvent>)
    ensures
        v@ == spec_applied_events(*c, current, has_subscribers),
{
    let mut v: Vec<LoopEvent> = Vec::new();
    if has_subscribers {
        if c.is_period_change(current) {
            let prev = c.previous_period.unwrap();
            v.push(LoopEvent::PeriodChanged { from: prev, to: current });
        }
        v.push(LoopEvent::StateApplied);
    }
    v
}

/// Seconds shown for a duration: its milliseconds rounded up to seconds.
pub open spec fn ceil_seconds(ms: int) -> int {
    (ms + 999) / 1000
}

/// The countdown line to the next transition, from the seconds left.
pub open spec fn spec_countdown_text(total_secs: nat) -> Seq<char> {
    let h = total_secs / 3600;
    let m = (total_secs % 3600) / 60;
    let s = total_secs % 60;
    if h > 0 {
        if m > 0 {
            "Next transition in "@ + decimal(h) + " hours "@ + decimal(m) + " minutes"@
        } else {
            "Next transition in "@ + decimal(h) + " hours"@
        }
    } else if m > 0 {
        "Next transition in "@ + decimal(m) + " minutes "@ + decimal(s) + " seconds"@
    } else {
        "Next transition in "@ + decimal(s) + " seconds"@
    }
}

pub fn countdown_text(total_secs: u64) -> (t: String)
    ensures
        t@ == spec_countdown_text(total_secs as nat),
{
    let h = total_secs / 3600;
    let m = (total_secs % 3600) / 60;
    let s = total_secs % 60;
    let mut t = String::from_str("Next transition in ");
    proof {
        reveal_strlit("Next transition in ");
        reveal_strlit(" hours ");
        reveal_strlit(" minutes");
        reveal_strlit(" hours");
        reveal_strlit(" minutes ");
        reveal_strlit(" seconds");
    }
    if h > 0 {
        push_decimal(&mut t, h);
        if m > 0 {
            t.append(" hours ");
            push_decimal(&mut t, m);
            t.append(" minutes");
        } else {
            t.append(" hours");
        }
    } else if m > 0 {
        push_decimal(&mut t, m);
        t.append(" minutes ");
        push_decimal(&mut t, s);
        t.append(" seconds");
    } else {
        push_decimal(&mut t, s);
        t.append(" seconds");
    }
    t
}

/// How long the loop sleeps, and what it reports before sleeping.
#[derive(Debug, Clone)]
pub struct SleepPlan<P> {
    /// Milliseconds to sleep; None to wait until woken (static mode).
    pub duration_ms: Option<u64>,
    /// Whether the sleep ends exactly at the end of the transition.
    pub to_boundary: bool,
    /// The style of the progress line, when one is due.
    pub progress_line: Option<LineStyle>,
    /// The progress recorded before this iteration, for the progress line.
    pub previous_progress: Option<P>,
    /// Seconds until the next update, as the progress line shows them.
    pub next_update_secs: u64,
    /// The countdown line for a stable period just entered.
    pub countdown: Option<String>,
}

/// The sleep length: the update interval (in milliseconds, held at the
/// largest count when too long) while transitioning, cut to the end of the
/// transition when that comes sooner; otherwise the time until the next
/// event.
pub open spec fn spec_sleep_length(transitioning: bool, update_interval_secs: u64, until_end_ms: Option<u64>, until_next_event_ms: Option<u64>) -> (Option<u64>, bool) {
    if transitioning {
        match until_end_ms {
            Some(r) if r < spec_interval_ms(Some(update_interval_secs)) => (Some(r), true),
            _ => (Some(spec_interval_ms(Some(update_interval_secs)) as u64), false),
        }
    } else {
        (until_next_event_ms, false)
    }
}

/// The style of the progress line: a new block when debugging or for the
/// first line of a transition, otherwise a line within the block.
pub open spec fn spec_progress_style(debug_enabled: bool, first_logged: bool) -> LineStyle {
    if debug_enabled || !first_logged {
        LineStyle::Block
    } else {
        LineStyle::Decorated
    }
}

/// What the loop records and reports before it sleeps.
pub open spec fn spec_sleep_plan_context<P: Copy>(c: Context<P>, period: Period, to_boundary: bool, progress: Option<P>, debug_enabled: bool, should_log: bool) -> Context<P> {
    let c1 = if to_boundary { Context { sleeping_to_boundary: true, ..c } } else { c };
    let c2 = match progress {
        Some(p) => Context {
            previous_progress: Some(p),
            first_transition_logged: if should_log && !debug_enabled { true } else { c1.first_transition_logged },
            ..c1
        },
        None => Context { previous_progress: None, first_transition_logged: false, ..c1 },
    };
    Context { previous_period: Some(period), ..c2 }
}

/// Whether the countdown line is due: a stable period was just entered (the
/// previous one was a transition, or none was recorded), the sleep lasts at
/// least a second, and the mode is not static.
pub open spec fn spec_countdown_due<P: Copy>(c: Context<P>, period: Period, duration_ms: Option<u64>) -> bool {
    let just_entered_stable = match c.previous_period {
        Some(prev) => spec_is_transitioning(prev),
        None => true,
    };
    just_entered_stable && period != Period::Static && match duration_ms {
        Some(d) => d >= 1000,
        None => true,
    }
}

/// Decide how long the loop sleeps, update the record, and prepare the
/// lines to print. `until_end_ms` is the time until the current transition
/// ends, `until_next_event_ms` the time until the schedule's next event (None
/// without a schedule), `progress` the transition progress (None when
/// stable). A sleep without end counts as more than a second and shows its
/// countdown from the largest number of seconds.
pub fn determine_sleep_duration<P: Copy>(
    c: &mut Context<P>,
    period: Period,
    update_interval_secs: u64,
    until_end_ms: Option<u64>,
    until_next_event_ms: Option<u64>,
    progress: Option<P>,
    debug_enabled: bool,
    should_log: bool,
) -> (plan: SleepPlan<P>)
    ensures
        ({
            let (d, b) = spec_sleep_length(spec_is_transitioning(period), update_interval_secs, until_end_ms, until_next_event_ms);
            &&& plan.duration_ms == d
            &&& plan.to_boundary == b
            &&& *final(c) == spec_sleep_plan_context(*old(c), period, b, progress, debug_enabled, should_log)
            &&& plan.previous_progress == old(c).previous_progress
            &&& plan.next_update_secs == match d {
                Some(ms) => ceil_seconds(ms as int),
                None => (u64::MAX / 1000) as int + 1,
            }
            &&& plan.progress_line == (if progress is Some && should_log {
                Some(spec_progress_style(debug_enabled, old(c).first_transition_logged))
            } else {
                None
            })
            &&& match plan.countdown {
                Some(t) => progress is None && spec_countdown_due(*old(c), period, d)
                    && t@ == spec_countdown_text(plan.next_update_secs as nat),
                None => !(progress is None && spec_countdown_due(*old(c), period, d)),
            }
        }),
{
    let interval_ms = interval_ms(Some(update_interval_secs));
    let (duration_ms, to_boundary): (Option<u64>, bool) = if period.is_transitioning() {
        match until_end_ms {
            Some(r) => {
                if r < interval_ms {
                    (Some(r), true)
                } else {
                    (Some(interval_ms), false)
                }
            },
            None => (Some(interval_ms), false),
        }
    } else {
        (until_next_event_ms, false)
    };
    if to_boundary {
        c.set_sleeping_to_boundary(true);
    }
    let next_update_secs: u64 = match duration_ms {
        Some(ms) => ms / 1000 + if ms % 1000 > 0 { 1u64 } else { 0u64 },
        None => u64::MAX / 1000 + 1,
    };
    let previous_progress = c.previous_progress;
    let mut progress_line: Option<LineStyle> = None;
    let mut countdown: Option<String> = None;
    match progress {
        Some(p) => {
            if should_log {
                if debug_enabled {
                    progress_line = Some(LineStyle::Block);
                } else if !c.first_transition_logged {
                    progress_line = Some(LineStyle::Block);
                    c.set_first_transition_logged(true);
                } else {
                    progress_line = Some(LineStyle::Decorated);
                }
            }
            c.update_progress(Some(p));
        },
        None => {
            let just_entered_stable = match c.previous_period {
                Some(prev) => prev.is_transitioning(),
                None => true,
            };
            let long_enough = match duration_ms {
                Some(d) => d >= 1000,
                None => true,
            };
            if just_entered_stable && long_enough && period != Period::Static {
                countdown = Some(countdown_text(next_update_secs));
            }
            c.reset_for_stable_period();
        },
    }
    c.record_current_period(period);
    SleepPlan {
        duration_ms,
        to_boundary,
        progress_line,
        previous_progress,
        next_update_secs,
        countdown,
    }
}

/// How a configuration reload takes effect.
#[derive(Debug, Clone, Copy, PartialEq, Eq, Structural)]
pub enum ReloadPlan {
    /// Nothing changed: values, period and preset are as before.
    Skip,
    /// The new values are faded in with a smooth transition.
    Smooth,
    /// The new values are applied at once.
    Immediate,
    /// The values stay; only the new state is adopted.
    Adopt,
}

/// The reload plan: skipped when neither the values, the period nor the
/// preset changed; with changed values a smooth transition where smoothing
/// is on and the backend can fade, else an immediate apply; otherwise the
/// new state is adopted as it is.
pub open spec fn spec_reload_plan(values_changed: bool, period_changed: bool, preset_changed: bool, smoothing: bool, fading_backend: bool) -> ReloadPlan {
    if !values_changed && !period_changed && !preset_changed {
        ReloadPlan::Skip
    } else if values_changed {
        if smoothing && fading_backend {
            ReloadPlan::Smooth
        } else {
            ReloadPlan::Immediate
        }
    } else {
        ReloadPlan::Adopt
    }
}

pub fn reload_plan(values_changed: bool, period_changed: bool, preset_changed: bool, smoothing: bool, fading_backend: bool) -> (p: ReloadPlan)
    ensures
        p == spec_reload_plan(values_changed, period_changed, preset_changed, smoothing, fading_backend),
{
    if !values_changed && !period_changed && !preset_changed {
        ReloadPlan::Skip
    } else if values_changed {
        if smoothing && fading_backend {
            ReloadPlan::Smooth
        } else {
            ReloadPlan::Immediate
        }
    } else {
        ReloadPlan::Adopt
    }
}

/// Events sent before a smooth reload transition starts: the preset change,
/// or else the change of values. Other plans send none up front.
pub open spec fn spec_reload_events_before(plan: ReloadPlan, preset_changed: bool, values_changed: bool, has_subscribers: bool) -> Seq<LoopEvent> {
    if plan == ReloadPlan::Smooth && has_subscribers {
        if preset_changed {
            seq![LoopEvent::PresetChanged]
        } else if values_changed {
            seq![LoopEvent::ConfigChanged]
        } else {
            seq![]
        }
    } else {
        seq![]
    }
}

pub fn reload_events_before(plan: ReloadPlan, preset_changed: bool, values_changed: bool, has_subscribers: bool) -> (v: Vec<LoopEvent>)
    ensures
        v@ == spec_reload_events_before(plan, preset_changed, values_changed, has_subscribers),
{
    let mut v: Vec<LoopEvent> = Vec::new();
    if plan == ReloadPlan::Smooth && has_subscribers {
        if preset_changed {
            v.push(LoopEvent::PresetChanged);
        } else if values_changed {
            v.push(LoopEvent::ConfigChanged);
        }
    }
    v
}

/// What a successful reload reports.
#[derive(Debug, Clone)]
pub struct ReloadOutcome {
    /// Events to send, in order.
    pub events: Vec<LoopEvent>,
    /// Whether one of them is the applied state.
    pub sent_state_applied: bool,
    /// Whether the reload moved from a stable period into a transition.
    pub entering_transition: bool,
    /// Whether the new period is announced in the log.
    pub announce: bool,
}

/// The applied state is sent when the new period is stable, or when a
/// transition is entered from a stable period; during an ongoing transition
/// the loop sends it.
pub open spec fn spec_should_send_state(prev: Period, cur: Period) -> bool {
    !spec_is_transitioning(cur) || (!spec_is_transitioning(prev) && spec_is_transitioning(cur))
}

pub open spec fn spec_period_event(prev: Period, cur: Period) -> Seq<LoopEvent> {
    if prev != cur {
        seq![LoopEvent::PeriodChanged { from: prev, to: cur }]
    } else {
        seq![]
    }
}

pub open spec fn spec_state_event(prev: Period, cur: Period) -> Seq<LoopEvent> {
    if spec_should_send_state(prev, cur) {
        seq![LoopEvent::StateApplied]
    } else {
        seq![]
    }
}

/// The events after a successful reload from period `prev` to `cur`: an
/// immediate apply reports the preset change or else the change of values,
/// an adopted state only a preset change (a smooth reload sent these before
/// it started); then the period change and the applied state.
pub open spec fn spec_reload_events_after(plan: ReloadPlan, prev: Period, cur: Period, preset_changed: bool, values_changed: bool) -> Seq<LoopEvent> {
    let lead = match plan {
        ReloadPlan::Immediate => if preset_changed {
            seq![LoopEvent::PresetChanged]
        } else if values_changed {
            seq![LoopEvent::ConfigChanged]
        } else {
            seq![]
        },
        ReloadPlan::Adopt => if preset_changed { seq![LoopEvent::PresetChanged] } else { seq![] },
        _ => seq![],
    };
    lead + spec_period_event(prev, cur) + spec_state_event(prev, cur)
}

/// The report of a reload that took effect (or was skipped).
pub open spec fn spec_reload_outcome(o: ReloadOutcome, plan: ReloadPlan, prev: Period, cur: Period, preset_changed: bool, values_changed: bool, has_subscribers: bool) -> bool {
    if plan == ReloadPlan::Skip {
        &&& o.events@ == Seq::<LoopEvent>::empty()
        &&& !o.sent_state_applied
        &&& !o.entering_transition
        &&& !o.announce
    } else {
        &&& o.events@ == (if has_subscribers {
            spec_reload_events_after(plan, prev, cur, preset_changed, values_changed)
        } else {
            Seq::<LoopEvent>::empty()
        })
        &&& o.sent_state_applied == (has_subscribers && spec_should_send_state(prev, cur))
        &&& o.entering_transition == (!spec_is_transitioning(prev) && spec_is_transitioning(cur))
        &&& o.announce == (plan == ReloadPlan::Adopt && prev != cur)
    }
}

pub fn reload_outcome(plan: ReloadPlan, prev: Period, cur: Period, preset_changed: bool, values_changed: bool, has_subscribers: bool) -> (o: ReloadOutcome)
    ensures
        spec_reload_outcome(o, plan, prev, cur, preset_changed, values_changed, has_subscribers),
{
    let mut events: Vec<LoopEvent> = Vec::new();
    if plan == ReloadPlan::Skip {
        return ReloadOutcome { events, sent_state_applied: false, entering_transition: false, announce: false };
    }
    let should_send = !cur.is_transitioning() || (!prev.is_transitioning() && cur.is_transitioning());
    if has_subscribers {
        match plan {
            ReloadPlan::Immediate => {
                if preset_changed {
                    events.push(LoopEvent::PresetChanged);
                } else if values_changed {
                    events.push(LoopEvent::ConfigChanged);
                }
            },
            ReloadPlan::Adopt => {
                if preset_changed {
                    events.push(LoopEvent::PresetChanged);
                }
            },
            _ => {},
        }
        if prev != cur {
            events.push(LoopEvent::PeriodChanged { from: prev, to: cur });
        }
        if should_send {
            events.push(LoopEvent::StateApplied);
        }
    }
    proof {
        if has_subscribers {
            assert(events@ =~= spec_reload_events_after(plan, prev, cur, preset_changed, values_changed));
        }
    }
    ReloadOutcome {
        events,
        sent_state_applied: has_subscribers && should_send,
        entering_transition: !prev.is_transitioning() && cur.is_transitioning(),
        announce: plan == ReloadPlan::Adopt && prev != cur,
    }
}

/// Record a reload that took effect at `now`. When it sent the applied
/// state: on entering a transition the update is recorded and, with progress
/// to report, the progress line is due (its previous progress is the one
/// recorded before this call); otherwise the reload is recorded so that the
/// next check is skipped. Returns whether the progress line is due.
pub fn after_reload<P: Copy>(c: &mut Context<P>, sent_state_applied: bool, entering_transition: bool, now: i64, progress: Option<P>) -> (line_due: bool)
    ensures
        line_due == (sent_state_applied && entering_transition && progress is Some),
        *final(c) == (if !sent_state_applied {
            *old(c)
        } else if entering_transition {
            match progress {
                Some(p) => Context {
                    last_update_time: Some(now),
                    previous_progress: Some(p),
                    first_transition_logged: true,
                    ..*old(c)
                },
                None => Context { last_update_time: Some(now), ..*old(c) },
            }
        } else {
            Context {
                last_update_time: Some(now),
                config_reload_pending: true,
                previous_progress: None,
                first_transition_logged: false,
                ..*old(c)
            }
        }),
{
    if sent_state_applied {
        if entering_transition {
            c.record_state_update(now);
            if let Some(p) = progress {
                c.update_progress(Some(p));
                c.set_first_transition_logged(true);
                return true;
            }
        } else {
            c.record_config_reload(now);
        }
    }
    false
}

/// Start the advance forced after a sleep that ended at a transition
/// boundary: clear the flag and step to the period that follows.
pub fn begin_forced_advance<P: Copy>(c: &mut Context<P>, current: Period) -> (r: (Period, StateChange))
    ensures
        r.0 == crate::period::spec_next_period(current),
        r.1 == crate::period::spec_state_change(current, r.0),
        *final(c) == (Context { sleeping_to_boundary: false, ..*old(c) }),
{
    c.set_sleeping_to_boundary(false);
    let next = current.next_period();
    let change = crate::period::should_update_state(&current, &next);
    (next, change)
}

/// Finish a forced advance into `next` at `now`, after the state was applied
/// when `change` called for it: record the update and report the events,
/// then record the period and progress, forgetting progress in a stable
/// period.
pub fn finish_forced_advance<P: Copy>(c: &mut Context<P>, next: Period, change: StateChange, now: i64, progress: Option<P>, has_subscribers: bool) -> (v: Vec<LoopEvent>)
    ensures
        v@ == (if change == StateChange::Unchanged {
            Seq::<LoopEvent>::empty()
        } else {
            spec_applied_events(*old(c), next, has_subscribers)
        }),
        ({
            let c1 = if change == StateChange::Unchanged {
                *old(c)
            } else {
                Context { last_update_time: Some(now), ..*old(c) }
            };
            let c2 = Context { previous_period: Some(next), ..c1 };
            let c3 = match progress {
                Some(p) => Context { previous_progress: Some(p), ..c2 },
                None => c2,
            };
            *final(c) == (if spec_is_transitioning(next) {
                c3
            } else {
                Context { previous_progress: None, first_transition_logged: false, ..c3 }
            })
        }),
{
    let mut v: Vec<LoopEvent> = Vec::new();
    if change != StateChange::Unchanged {
        c.record_state_update(now);
        v = applied_events(c, next, has_subscribers);
    }
    c.record_current_period(next);
    c.update_progress(progress);
    if !next.is_transitioning() {
        c.reset_for_stable_period();
    }
    v
}

/// How the initial state is applied at startup.
#[derive(Debug, Clone, Copy, PartialEq, Eq, Structural)]
pub enum StartupPlan {
    /// Shutdown was already requested: nothing is applied.
    Nothing,
    /// Fade in with a smooth transition.
    Smooth,
    /// Apply the state at once.
    Immediate,
}

/// Fade in when running, smoothing is on, the backend can fade, smoothing
/// was not bypassed and the startup fade lasts long enough; else apply at
/// once.
pub fn startup_plan(running: bool, smoothing: bool, fading_backend: bool, bypass_smoothing: bool, duration_long_enough: bool) -> (p: StartupPlan)
    ensures
        p == (if !running {
            StartupPlan::Nothing
        } else if smoothing && fading_backend && !bypass_smoothing && duration_long_enough {
            StartupPlan::Smooth
        } else {
            StartupPlan::Immediate
        }),
{
    if !running {
        StartupPlan::Nothing
    } else if smoothing && fading_backend && !bypass_smoothing && duration_long_enough {
        StartupPlan::Smooth
    } else {
        StartupPlan::Immediate
    }
}

/// Whether shutdown fades out: smoothing on, a backend that can fade, and
/// no instant shutdown requested.
pub fn smooth_shutdown_wanted(smoothing: bool, fading_backend: bool, instant_shutdown: bool) -> (b: bool)
    ensures
        b == (smoothing && fading_backend && !instant_shutdown),
{
    smoothing && fading_backend && !instant_shutdown
}

/// Whether the colours are reset at shutdown: on a backend that can fade,
/// when no fade-out took place.
pub fn gamma_reset_needed(smooth_shutdown_performed: bool, fading_backend: bool) -> (b: bool)
    ensures
        b == (!smooth_shutdown_performed && fading_backend),
{
    !smooth_shutdown_performed && fading_backend
}

/// A reload applied during a stable period makes the next update check
/// skip, exactly once: the check right after it skips, and the one after
/// that is back to the rules of the loop.
pub proof fn lemma_reload_skips_next_check<P: Copy>(c: Context<P>, now: int, later: int, transitioning: bool, interval: u64)
    requires
        !c.is_first_iteration,
    ensures
        ({
            let after = Context {
                last_update_time: Some(now as i64),
                config_reload_pending: true,
                previous_progress: None::<P>,
                first_transition_logged: false,
                ..c
            };
            let next = Context { is_first_iteration: false, config_reload_pending: false, ..after };
            &&& spec_update_check(after, transitioning, later, interval) == UpdateCheck::Skip
            &&& spec_update_check(next, false, later, interval) == UpdateCheck::Evaluate
        }),
{
}

/// During a transition the loop never sleeps past its end: the sleep lasts
/// at most the time left, and it is marked as ending at the boundary
/// exactly when it was cut short.
pub proof fn lemma_sleep_stops_at_boundary(update_interval_secs: u64, until_end_ms: u64, until_next_event_ms: Option<u64>)
    ensures
        ({
            let (d, b) = spec_sleep_length(true, update_interval_secs, Some(until_end_ms), until_next_event_ms);
            &&& d matches Some(ms) && ms <= until_end_ms
            &&& (b ==> d == Some(until_end_ms))
            &&& (b <==> until_end_ms < spec_interval_ms(Some(update_interval_secs)))
            &&& (!b ==> d == Some(spec_interval_ms(Some(update_interval_secs)) as u64))
        }),
{
}

/// A skipped reload changes nothing and reports nothing; any other reload
/// sends the applied state only when it has subscribers.
pub proof fn lemma_skipped_reload_is_silent(o: ReloadOutcome, prev: Period, cur: Period, preset_changed: bool, values_changed: bool, has_subscribers: bool)
    requires
        spec_reload_outcome(o, ReloadPlan::Skip, prev, cur, preset_changed, values_changed, has_subscribers),
    ensures
        o.events@.len() == 0,
        !o.sent_state_applied,
        !o.entering_transition,
{
}

/// A forced advance after a boundary sleep always moves a transition to the
/// stable period that follows it, so the loop announces the change.
pub proof fn lemma_forced_advance_changes(p: Period)
    requires
        spec_is_transitioning(p),
    ensures
        crate::period::spec_state_change(p, crate::period::spec_next_period(p)) != StateChange::Unchanged,
        !spec_is_transitioning(crate::period::spec_next_period(p)),
{
}

} // verus!
