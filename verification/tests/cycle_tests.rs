use sunsetr::cycle::{
    after_reload, applied_events, begin_forced_advance, countdown_text, determine_sleep_duration,
    finish_forced_advance, gamma_reset_needed, reload_events_before, reload_outcome, reload_plan,
    smooth_shutdown_wanted, startup_plan, update_check, Context, LoopEvent, ReloadPlan, StartupPlan,
    UpdateCheck,
};
use sunsetr::period::{LineStyle, Period, StateChange};

fn ctx() -> Context<u32> {
    Context::new()
}

#[test]
fn first_iteration_skips_then_evaluates() {
    let mut c = ctx();
    assert_eq!(update_check(&mut c, false, 0, 60), UpdateCheck::Skip);
    assert!(!c.is_first_iteration);
    assert_eq!(update_check(&mut c, false, 0, 60), UpdateCheck::Evaluate);
}

#[test]
fn transition_updates_wait_for_the_interval() {
    let mut c = ctx();
    c.is_first_iteration = false;
    assert_eq!(update_check(&mut c, true, 1_000, 60), UpdateCheck::Evaluate);
    c.record_state_update(1_000);
    assert_eq!(update_check(&mut c, true, 60_999, 60), UpdateCheck::Skip);
    assert_eq!(update_check(&mut c, true, 61_000, 60), UpdateCheck::Evaluate);
    // A clock that went back counts whole seconds toward zero.
    assert!(!c.should_update_during_transition(-500, 0));
}

#[test]
fn stable_reload_skips_exactly_one_check() {
    let mut c = ctx();
    c.is_first_iteration = false;
    c.previous_progress = Some(40);
    let line_due = after_reload(&mut c, true, false, 5_000, Some(50));
    assert!(!line_due);
    assert!(c.config_reload_pending);
    assert_eq!(c.previous_progress, None);
    assert_eq!(c.last_update_time, Some(5_000));
    assert_eq!(update_check(&mut c, false, 6_000, 60), UpdateCheck::Skip);
    assert_eq!(update_check(&mut c, false, 7_000, 60), UpdateCheck::Evaluate);
}

#[test]
fn reload_into_transition_reports_progress() {
    let mut c = ctx();
    assert!(after_reload(&mut c, true, true, 9_000, Some(7)));
    assert_eq!(c.previous_progress, Some(7));
    assert!(c.first_transition_logged);
    assert_eq!(c.last_update_time, Some(9_000));
    let mut d = ctx();
    assert!(!after_reload(&mut d, false, true, 9_000, Some(7)));
    assert_eq!(d.last_update_time, None);
}

#[test]
fn reload_plans() {
    assert_eq!(reload_plan(false, false, false, true, true), ReloadPlan::Skip);
    assert_eq!(reload_plan(true, false, false, true, true), ReloadPlan::Smooth);
    assert_eq!(reload_plan(true, false, false, true, false), ReloadPlan::Immediate);
    assert_eq!(reload_plan(true, false, false, false, true), ReloadPlan::Immediate);
    assert_eq!(reload_plan(false, true, false, true, true), ReloadPlan::Adopt);
    assert_eq!(reload_plan(false, false, true, true, true), ReloadPlan::Adopt);
}

#[test]
fn reload_events() {
    assert_eq!(reload_events_before(ReloadPlan::Smooth, true, true, true), vec![LoopEvent::PresetChanged]);
    assert_eq!(reload_events_before(ReloadPlan::Smooth, false, true, true), vec![LoopEvent::ConfigChanged]);
    assert!(reload_events_before(ReloadPlan::Immediate, true, true, true).is_empty());
    assert!(reload_events_before(ReloadPlan::Smooth, true, true, false).is_empty());

    let o = reload_outcome(ReloadPlan::Immediate, Period::Day, Period::Sunset, false, true, true);
    assert_eq!(
        o.events,
        vec![
            LoopEvent::ConfigChanged,
            LoopEvent::PeriodChanged { from: Period::Day, to: Period::Sunset },
            LoopEvent::StateApplied,
        ]
    );
    assert!(o.sent_state_applied);
    assert!(o.entering_transition);
    assert!(!o.announce);

    let o = reload_outcome(ReloadPlan::Smooth, Period::Sunset, Period::Sunset, false, true, true);
    assert!(o.events.is_empty());
    assert!(!o.sent_state_applied);
    assert!(!o.entering_transition);

    let o = reload_outcome(ReloadPlan::Adopt, Period::Day, Period::Night, true, false, true);
    assert_eq!(
        o.events,
        vec![
            LoopEvent::PresetChanged,
            LoopEvent::PeriodChanged { from: Period::Day, to: Period::Night },
            LoopEvent::StateApplied,
        ]
    );
    assert!(o.announce);

    let o = reload_outcome(ReloadPlan::Adopt, Period::Day, Period::Night, true, false, false);
    assert!(o.events.is_empty());
    assert!(!o.sent_state_applied);
    assert!(o.announce);

    let o = reload_outcome(ReloadPlan::Skip, Period::Day, Period::Sunset, true, true, true);
    assert!(o.events.is_empty());
    assert!(!o.entering_transition);
}

#[test]
fn sleep_is_cut_at_the_transition_end() {
    let mut c = ctx();
    let plan = determine_sleep_duration(&mut c, Period::Sunset, 60, Some(12_345), Some(60_000), Some(3), false, true);
    assert_eq!(plan.duration_ms, Some(12_345));
    assert!(plan.to_boundary);
    assert!(c.sleeping_to_boundary);
    assert_eq!(plan.next_update_secs, 13);
    assert_eq!(plan.progress_line, Some(LineStyle::Block));
    assert!(c.first_transition_logged);
    assert_eq!(c.previous_progress, Some(3));
    assert_eq!(c.previous_period, Some(Period::Sunset));

    let plan = determine_sleep_duration(&mut c, Period::Sunset, 60, Some(600_000), None, Some(4), false, true);
    assert_eq!(plan.duration_ms, Some(60_000));
    assert!(!plan.to_boundary);
    assert_eq!(plan.previous_progress, Some(3));
    assert_eq!(plan.progress_line, Some(LineStyle::Decorated));
}

#[test]
fn countdown_after_entering_stable_period() {
    let mut c = ctx();
    c.previous_period = Some(Period::Sunset);
    let plan = determine_sleep_duration(&mut c, Period::Night, 60, None, Some(3_600_000 * 8 + 60_000 * 15 + 500), None, false, false);
    assert_eq!(plan.duration_ms, Some(3_600_000 * 8 + 60_000 * 15 + 500));
    assert_eq!(plan.countdown.as_deref(), Some("Next transition in 8 hours 15 minutes"));
    assert_eq!(c.previous_period, Some(Period::Night));
    let plan = determine_sleep_duration(&mut c, Period::Night, 60, None, Some(5_000_000), None, false, false);
    assert!(plan.countdown.is_none());
    let mut s = ctx();
    let plan = determine_sleep_duration(&mut s, Period::Static, 60, None, None, None, false, false);
    assert_eq!(plan.duration_ms, None);
    assert!(plan.countdown.is_none());
}

#[test]
fn countdown_texts() {
    assert_eq!(countdown_text(7200), "Next transition in 2 hours");
    assert_eq!(countdown_text(7260), "Next transition in 2 hours 1 minutes");
    assert_eq!(countdown_text(125), "Next transition in 2 minutes 5 seconds");
    assert_eq!(countdown_text(42), "Next transition in 42 seconds");
}

#[test]
fn forced_advance_after_boundary() {
    let mut c = ctx();
    c.sleeping_to_boundary = true;
    c.previous_period = Some(Period::Sunset);
    c.previous_progress = Some(99);
    let (next, change) = begin_forced_advance(&mut c, Period::Sunset);
    assert_eq!(next, Period::Night);
    assert!(matches!(change, StateChange::TransitionCompleted { from: Period::Sunset }));
    assert!(!c.sleeping_to_boundary);
    let events = finish_forced_advance(&mut c, next, change, 1_000, None, true);
    assert_eq!(
        events,
        vec![LoopEvent::PeriodChanged { from: Period::Sunset, to: Period::Night }, LoopEvent::StateApplied]
    );
    assert_eq!(c.previous_progress, None);
    assert_eq!(c.previous_period, Some(Period::Night));
    assert_eq!(c.last_update_time, Some(1_000));
}

#[test]
fn applied_events_without_previous_period() {
    let c = ctx();
    assert_eq!(applied_events(&c, Period::Day, true), vec![LoopEvent::StateApplied]);
    assert!(applied_events(&c, Period::Day, false).is_empty());
}

#[test]
fn startup_and_shutdown_plans() {
    assert_eq!(startup_plan(false, true, true, false, true), StartupPlan::Nothing);
    assert_eq!(startup_plan(true, true, true, false, true), StartupPlan::Smooth);
    assert_eq!(startup_plan(true, true, true, true, true), StartupPlan::Immediate);
    assert_eq!(startup_plan(true, true, true, false, false), StartupPlan::Immediate);
    assert!(smooth_shutdown_wanted(true, true, false));
    assert!(!smooth_shutdown_wanted(true, true, true));
    assert!(gamma_reset_needed(false, true));
    assert!(!gamma_reset_needed(true, true));
    assert!(!gamma_reset_needed(false, false));
}

#[test]
fn huge_update_interval_sleeps_the_longest_count() {
    let mut c = ctx();
    let plan = determine_sleep_duration(&mut c, Period::Sunrise, u64::MAX, None, None, Some(1), false, false);
    assert_eq!(plan.duration_ms, Some(u64::MAX));
    assert!(!plan.to_boundary);
    let plan = determine_sleep_duration(&mut c, Period::Sunrise, u64::MAX, Some(5_000), None, Some(2), false, false);
    assert_eq!(plan.duration_ms, Some(5_000));
    assert!(plan.to_boundary);
}
