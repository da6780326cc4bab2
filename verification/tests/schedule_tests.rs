use chrono::{Datelike, Local, TimeZone};
use sunsetr::clock::{get_stable_period, is_time_in_range, ClockWindows, LocalNow, TransitionMode};
use sunsetr::period::Period;
use sunsetr::schedule::{interval_ms, time_until_next_event, Schedule, ScheduleError};

fn secs(h: u32, m: u32, s: u32) -> u32 {
    h * 3600 + m * 60 + s
}

fn ns(h: u32, m: u32, s: u32) -> u64 {
    secs(h, m, s) as u64 * 1_000_000_000
}

fn windows(sunset: &str, sunrise: &str, mode: &str, minutes: u64) -> ClockWindows {
    let m = TransitionMode::from_name(mode).unwrap();
    ClockWindows::from_config(m, sunset, sunrise, minutes).unwrap()
}

fn local_at(hour: u32, min: u32) -> chrono::DateTime<Local> {
    let today = Local::now().date_naive();
    Local.from_local_datetime(&today.and_hms_opt(hour, min, 0).unwrap()).single().unwrap()
}

fn now_at(hour: u32, min: u32) -> LocalNow {
    let at = local_at(hour, min);
    LocalNow {
        date: at.date_naive().num_days_from_ce(),
        time: ns(hour, min, 0),
        instant: at.timestamp_nanos_opt().unwrap(),
    }
}

fn clock_schedule(mode: &str, sunset: &str, sunrise: &str) -> Schedule {
    Schedule::from_config(Some(mode), None, sunset, sunrise, 30).unwrap().expect("clock mode yields a schedule")
}

#[test]
fn test_calculate_transition_windows_finish_by() {
    let w = windows("19:00:00", "06:00:00", "finish_by", 30);
    assert_eq!(w.sunset_start, secs(18, 30, 0));
    assert_eq!(w.sunset_end, secs(19, 0, 0));
    assert_eq!(w.sunrise_start, secs(5, 30, 0));
    assert_eq!(w.sunrise_end, secs(6, 0, 0));
}

#[test]
fn test_calculate_transition_windows_start_at() {
    let w = windows("19:00:00", "06:00:00", "start_at", 30);
    assert_eq!(w.sunset_start, secs(19, 0, 0));
    assert_eq!(w.sunset_end, secs(19, 30, 0));
    assert_eq!(w.sunrise_start, secs(6, 0, 0));
    assert_eq!(w.sunrise_end, secs(6, 30, 0));
}

#[test]
fn test_calculate_transition_windows_center() {
    let w = windows("19:00:00", "06:00:00", "center", 30);
    assert_eq!(w.sunset_start, secs(18, 45, 0));
    assert_eq!(w.sunset_end, secs(19, 15, 0));
    assert_eq!(w.sunrise_start, secs(5, 45, 0));
    assert_eq!(w.sunrise_end, secs(6, 15, 0));
}

#[test]
fn test_extreme_short_transition() {
    let w = windows("19:00:00", "06:00:00", "finish_by", 5);
    assert_eq!(w.sunset_start, secs(18, 55, 0));
    assert_eq!(w.sunset_end, secs(19, 0, 0));
}

#[test]
fn test_extreme_long_transition() {
    let w = windows("19:00:00", "06:00:00", "finish_by", 120);
    assert_eq!(w.sunset_start, secs(17, 0, 0));
    assert_eq!(w.sunset_end, secs(19, 0, 0));
}

#[test]
fn test_midnight_crossing_sunset() {
    let w = windows("23:30:00", "06:00:00", "start_at", 60);
    assert_eq!(w.sunset_start, secs(23, 30, 0));
    assert_eq!(w.sunset_end, secs(0, 30, 0));
}

#[test]
fn test_midnight_crossing_sunrise() {
    let w = windows("20:00:00", "00:30:00", "finish_by", 60);
    assert_eq!(w.sunrise_start, secs(23, 30, 0));
    assert_eq!(w.sunrise_end, secs(0, 30, 0));
}

#[test]
fn test_is_time_in_range_normal() {
    let start = ns(18, 0, 0);
    let end = ns(19, 0, 0);
    assert!(is_time_in_range(ns(18, 30, 0), start, end));
    assert!(is_time_in_range(ns(18, 0, 0), start, end));
    assert!(!is_time_in_range(ns(19, 0, 0), start, end));
    assert!(!is_time_in_range(ns(17, 59, 59), start, end));
    assert!(!is_time_in_range(ns(19, 0, 0), start, end));
}

#[test]
fn test_is_time_in_range_overnight() {
    let start = ns(23, 0, 0);
    let end = ns(1, 0, 0);
    assert!(is_time_in_range(ns(23, 30, 0), start, end));
    assert!(is_time_in_range(ns(0, 30, 0), start, end));
    assert!(is_time_in_range(ns(23, 0, 0), start, end));
    assert!(!is_time_in_range(ns(1, 0, 0), start, end));
    assert!(!is_time_in_range(ns(2, 0, 0), start, end));
    assert!(!is_time_in_range(ns(22, 59, 59), start, end));
}

#[test]
fn test_get_stable_state_for_time_normal_day() {
    let sunset_end = secs(19, 0, 0);
    let sunrise_start = secs(6, 0, 0);
    assert_eq!(get_stable_period(secs(10, 0, 0), sunset_end, sunrise_start), Period::Day);
    assert_eq!(get_stable_period(secs(22, 0, 0), sunset_end, sunrise_start), Period::Night);
    assert_eq!(get_stable_period(secs(3, 0, 0), sunset_end, sunrise_start), Period::Night);
}

#[test]
fn test_extreme_day_night_periods() {
    let w = windows("23:00:00", "01:00:00", "finish_by", 30);
    assert_eq!(get_stable_period(secs(12, 0, 0), w.sunset_end, w.sunrise_start), Period::Day);
    assert_eq!(get_stable_period(secs(0, 0, 0), w.sunset_end, w.sunrise_start), Period::Night);
}

#[test]
fn test_extreme_short_day() {
    let w = windows("01:00:00", "23:00:00", "finish_by", 30);
    assert_eq!(get_stable_period(secs(12, 0, 0), w.sunset_end, w.sunrise_start), Period::Night);
    assert_eq!(get_stable_period(secs(0, 0, 0), w.sunset_end, w.sunrise_start), Period::Day);
}

#[test]
fn test_transition_state_detection() {
    let w = windows("19:00:00", "06:00:00", "finish_by", 30);
    assert_eq!(w.sunset_start, secs(18, 30, 0));
    assert_eq!(w.sunset_end, secs(19, 0, 0));
}

#[test]
fn static_mode_has_no_schedule() {
    let schedule = Schedule::from_config(Some("static"), None, "19:00:00", "06:00:00", 30).unwrap();
    assert!(schedule.is_none());
}

fn period_of(schedule: Option<&Schedule>, now: &LocalNow) -> Period {
    schedule.map_or(Period::Static, |s| s.current_period(now))
}

#[test]
fn test_static_mode_no_time_dependence() {
    let schedule = Schedule::from_config(Some("static"), None, "19:00:00", "06:00:00", 30).unwrap();
    let morning_state = period_of(schedule.as_ref(), &now_at(8, 0));
    let evening_state = period_of(schedule.as_ref(), &now_at(20, 0));
    assert_eq!(morning_state, evening_state);
    assert_eq!(morning_state, Period::Static);
}

#[test]
fn test_static_mode_long_sleep_duration() {
    let schedule = Schedule::from_config(Some("static"), None, "19:00:00", "06:00:00", 30).unwrap();
    assert_eq!(time_until_next_event(schedule.as_ref(), Some(60), &now_at(12, 0)), None);
}

#[test]
fn from_config_geo_without_times_is_none() {
    assert!(Schedule::from_config(Some("geo"), None, "19:00:00", "06:00:00", 30).unwrap().is_none());
}

#[test]
fn from_config_clock_mode_is_some_clock() {
    let schedule = Schedule::from_config(Some("finish_by"), None, "19:00:00", "06:00:00", 30).unwrap();
    assert!(matches!(schedule, Some(Schedule::Clock(_))));
}

#[test]
fn from_config_static_mode_is_none() {
    assert!(Schedule::from_config(Some("static"), None, "19:00:00", "06:00:00", 30).unwrap().is_none());
}

#[test]
fn from_config_rejects_unknown_mode_and_bad_times() {
    assert_eq!(
        Schedule::from_config(Some("dusk"), None, "19:00:00", "06:00:00", 30).unwrap_err(),
        ScheduleError::UnknownMode
    );
    assert_eq!(
        Schedule::from_config(Some("center"), None, "7pm", "06:00:00", 30).unwrap_err(),
        ScheduleError::InvalidTime
    );
    assert!(matches!(
        Schedule::from_config(None, None, "19:00:00", "06:00:00", 30).unwrap(),
        Some(Schedule::Clock(w)) if w.sunset_start == secs(18, 30, 0)
    ));
}

#[test]
fn clock_windows_finish_by_edges() {
    let w = windows("19:00:00", "06:00:00", "finish_by", 30);
    assert_eq!(w.sunset_start, secs(18, 30, 0));
    assert_eq!(w.sunset_end, secs(19, 0, 0));
    assert_eq!(w.sunrise_start, secs(5, 30, 0));
    assert_eq!(w.sunrise_end, secs(6, 0, 0));
}

#[test]
fn clock_current_period_normal_schedule() {
    let schedule = clock_schedule("finish_by", "19:00:00", "06:00:00");
    assert_eq!(schedule.current_period(&now_at(12, 0)), Period::Day);
    assert_eq!(schedule.current_period(&now_at(18, 45)), Period::Sunset);
    assert_eq!(schedule.current_period(&now_at(3, 0)), Period::Night);
    assert_eq!(schedule.current_period(&now_at(5, 45)), Period::Sunrise);
}

#[test]
fn clock_current_period_inverted_schedule() {
    let schedule = clock_schedule("finish_by", "07:00:00", "19:00:00");
    assert_eq!(schedule.current_period(&now_at(12, 0)), Period::Night);
    assert_eq!(schedule.current_period(&now_at(0, 0)), Period::Day);
    assert_eq!(schedule.current_period(&now_at(6, 45)), Period::Sunset);
    assert_eq!(schedule.current_period(&now_at(18, 45)), Period::Sunrise);
}

#[test]
fn clock_next_period_start_from_day_is_today_sunset() {
    let schedule = clock_schedule("finish_by", "19:00:00", "06:00:00");
    let next = schedule.next_period_start(Period::Day, &now_at(12, 0)).unwrap();
    assert_eq!(next, local_at(18, 30).timestamp_millis());
}

#[test]
fn clock_time_until_next_transition_picks_nearest_start() {
    let schedule = clock_schedule("finish_by", "19:00:00", "06:00:00");
    let ms = schedule.time_until_next_transition(&now_at(12, 0));
    assert_eq!(ms, (6 * 3600 + 30 * 60) * 1000);
}

#[test]
fn clock_time_until_transition_end_none_outside_transition() {
    let schedule = clock_schedule("finish_by", "19:00:00", "06:00:00");
    assert!(schedule.time_until_transition_end(&now_at(12, 0)).is_none());
    assert!(schedule.time_until_transition_end(&now_at(18, 45)).is_some());
}

#[test]
fn clock_current_period_across_midnight() {
    let schedule = clock_schedule("start_at", "23:45:00", "06:00:00");
    assert_eq!(schedule.current_period(&now_at(23, 50)), Period::Sunset);
    assert_eq!(schedule.current_period(&now_at(0, 5)), Period::Sunset);
    assert_eq!(schedule.current_period(&now_at(0, 30)), Period::Night);
    assert_eq!(schedule.current_period(&now_at(12, 0)), Period::Day);
}

#[test]
fn clock_time_until_transition_end_across_midnight() {
    let schedule = clock_schedule("start_at", "23:45:00", "06:00:00");
    assert_eq!(schedule.time_until_transition_end(&now_at(23, 50)), Some(25 * 60 * 1000));
    assert_eq!(schedule.time_until_transition_end(&now_at(0, 5)), Some(10 * 60 * 1000));
}

#[test]
fn transitioning_sleep_is_the_update_interval() {
    let schedule = clock_schedule("finish_by", "19:00:00", "06:00:00");
    assert_eq!(time_until_next_event(Some(&schedule), Some(45), &now_at(18, 45)), Some(45_000));
    assert_eq!(time_until_next_event(Some(&schedule), None, &now_at(18, 45)), Some(60_000));
}

#[test]
fn clock_progress_only_within_window() {
    let schedule = clock_schedule("finish_by", "19:00:00", "06:00:00");

    let mid = schedule.window_position(Period::Sunset, &now_at(18, 45));
    assert!(mid.is_some_and(|(elapsed, total)| elapsed > 0 && elapsed < total));

    assert!(schedule.window_position(Period::Sunset, &now_at(12, 0)).is_none());
    assert!(schedule.window_position(Period::Day, &now_at(18, 45)).is_none());
}

#[test]
fn clock_window_position_counts_from_start() {
    let schedule = clock_schedule("finish_by", "19:00:00", "06:00:00");
    assert_eq!(schedule.window_position(Period::Sunset, &now_at(18, 45)), Some((15 * 60_000, 30 * 60_000)));
    assert_eq!(schedule.window_position(Period::Sunrise, &now_at(5, 30)), Some((0, 30 * 60_000)));
    assert_eq!(schedule.window_position(Period::Sunrise, &now_at(6, 0)), None);
    let late = clock_schedule("start_at", "23:45:00", "06:00:00");
    assert_eq!(late.window_position(Period::Sunset, &now_at(23, 50)), Some((5 * 60_000, 30 * 60_000)));
    assert_eq!(late.window_position(Period::Sunset, &now_at(0, 5)), Some((20 * 60_000, 30 * 60_000)));
}

#[test]
fn test_static_mode_state_properties() {
    let schedule = Schedule::from_config(Some("static"), None, "19:00:00", "06:00:00", 30).unwrap();
    let state = Period::Static;

    assert!(!state.is_stable());
    assert!(!state.is_transitioning());
    assert!(schedule.as_ref().and_then(|s| s.window_position(state, &now_at(12, 0))).is_none());
    assert_eq!(state.display_name(), "Static");
    assert_eq!(state.symbol(), "󰋙 ");
    assert_eq!(state.next_period(), Period::Static);
}

#[test]
fn stable_period_sleeps_until_next_transition() {
    let schedule = clock_schedule("finish_by", "19:00:00", "06:00:00");
    let now = now_at(12, 0);
    assert_eq!(time_until_next_event(Some(&schedule), Some(60), &now), Some((6 * 3600 + 30 * 60) * 1000));
    assert_eq!(schedule.time_until_next_event(Some(60), Period::Day, &now), (6 * 3600 + 30 * 60) * 1000);
    assert_eq!(schedule.time_until_next_event(Some(60), Period::Sunset, &now), 60_000);
}

#[test]
fn update_interval_saturates_in_milliseconds() {
    assert_eq!(interval_ms(Some(60)), 60_000);
    assert_eq!(interval_ms(None), 60_000);
    assert_eq!(interval_ms(Some(u64::MAX)), u64::MAX);
    assert_eq!(interval_ms(Some(u64::MAX / 1000)), (u64::MAX / 1000) * 1000);
}
