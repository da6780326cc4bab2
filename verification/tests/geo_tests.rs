use chrono::{Datelike, NaiveDate, TimeZone};
use chrono_tz::Europe::Berlin;
use sunsetr::geo::{anchor_window, sunrise_start_date, GeoTimes, GeoTimesError};
use sunsetr::period::Period;
use sunsetr::solar::{solar_windows, SolarEvents, SolarWindows};

const ZONE: &str = "Europe/Berlin";

fn hms(h: u32, m: u32, s: u32) -> u32 {
    h * 3600 + m * 60 + s
}

fn day(y: i32, m: u32, d: u32) -> i32 {
    NaiveDate::from_ymd_opt(y, m, d).unwrap().num_days_from_ce()
}

fn berlin_ms(y: i32, mo: u32, d: u32, h: u32, mi: u32, s: u32) -> i64 {
    Berlin.with_ymd_and_hms(y, mo, d, h, mi, s).single().unwrap().timestamp_millis()
}

fn midsummer_windows() -> SolarWindows {
    let events = SolarEvents {
        sunset: Some(hms(21, 30, 0)),
        sunrise: Some(hms(5, 0, 0)),
        civil_dusk: Some(hms(22, 20, 0)),
        civil_dawn: Some(hms(4, 10, 0)),
    };
    solar_windows(events, false, true, 173)
}

fn midsummer_times() -> GeoTimes {
    let w = midsummer_windows();
    let now = berlin_ms(2024, 6, 21, 12, 0, 0);
    GeoTimes::from_solar_result(ZONE, day(2024, 6, 21), &w, Some(&w), now).unwrap()
}

#[test]
fn solar_windows_from_twilight_spans() {
    let w = midsummer_windows();
    let ns = |s: u32| s as u64 * 1_000_000_000;
    assert!(!w.used_extreme_latitude_fallback);
    assert_eq!(w.sunset_plus_10_start, ns(hms(20, 6, 40)));
    assert_eq!(w.sunset_minus_2_end, ns(hms(21, 46, 40)));
    assert_eq!(w.sunrise_minus_2_start, ns(hms(4, 43, 20)));
    assert_eq!(w.sunrise_plus_10_end, ns(hms(6, 23, 20)));
    assert_eq!(w.sunset_duration_ms, 100 * 60 * 1000);
    assert_eq!(w.sunrise_duration_ms, 100 * 60 * 1000);
    assert_eq!(w.golden_hour_start, ns(hms(20, 40, 0)));
    assert_eq!(w.golden_hour_end, ns(hms(5, 50, 0)));
    assert_eq!(w.fallback_duration_minutes, 30);
}

#[test]
fn solar_windows_polar_fallback() {
    let events = SolarEvents { sunset: None, sunrise: None, civil_dusk: None, civil_dawn: None };
    let summer = solar_windows(events, true, true, 172);
    assert!(summer.used_extreme_latitude_fallback);
    assert_eq!(summer.fallback_duration_minutes, 25);
    assert_eq!(summer.sunset_duration_ms, 25 * 60 * 1000);
    let winter = solar_windows(events, true, true, 355);
    assert_eq!(winter.fallback_duration_minutes, 45);
    let south_summer = solar_windows(events, true, false, 355);
    assert_eq!(south_summer.fallback_duration_minutes, 25);
    let normal = solar_windows(events, false, true, 172);
    assert!(!normal.used_extreme_latitude_fallback);
}

#[test]
fn tomorrow_is_needed_after_todays_sunrise() {
    let w = midsummer_windows();
    let now = berlin_ms(2024, 6, 21, 12, 0, 0);
    let r = GeoTimes::from_solar_result(ZONE, day(2024, 6, 21), &w, None, now);
    assert_eq!(r.unwrap_err(), GeoTimesError::TomorrowNeeded);
    let early = berlin_ms(2024, 6, 21, 3, 0, 0);
    let g = GeoTimes::from_solar_result(ZONE, day(2024, 6, 21), &w, None, early).unwrap();
    assert_eq!(g.sunrise_start, berlin_ms(2024, 6, 21, 4, 43, 20));
    assert_eq!(g.sunrise_end_date, day(2024, 6, 21));
}

#[test]
fn geo_times_anchor_in_zone() {
    let g = midsummer_times();
    assert_eq!(g.coordinate_tz, ZONE);
    assert_eq!(g.sunset_start, berlin_ms(2024, 6, 21, 20, 6, 40));
    assert_eq!(g.sunset_end, berlin_ms(2024, 6, 21, 21, 46, 40));
    assert_eq!(g.sunrise_start, berlin_ms(2024, 6, 22, 4, 43, 20));
    assert_eq!(g.sunrise_end, berlin_ms(2024, 6, 22, 6, 23, 20));
    assert_eq!(g.sunrise_start_date, day(2024, 6, 22));
}

#[test]
fn geo_current_period_and_durations() {
    let g = midsummer_times();
    let noon = berlin_ms(2024, 6, 21, 12, 0, 0);
    assert_eq!(g.current_period(noon), Period::Day);
    assert_eq!(g.time_until_next_transition(noon), 29_200_000);
    assert_eq!(g.time_until_transition_end(noon), None);
    let dusk = berlin_ms(2024, 6, 21, 20, 30, 0);
    assert_eq!(g.current_period(dusk), Period::Sunset);
    assert_eq!(g.time_until_transition_end(dusk), Some(4_600_000));
    assert_eq!(g.window_position(Period::Sunset, dusk), Some((1_400_000, 6_000_000)));
    assert_eq!(g.window_position(Period::Sunrise, dusk), None);
    let night = berlin_ms(2024, 6, 22, 1, 0, 0);
    assert_eq!(g.current_period(night), Period::Night);
    let dawn = berlin_ms(2024, 6, 22, 5, 0, 0);
    assert_eq!(g.current_period(dawn), Period::Sunrise);
}

#[test]
fn geo_needs_recalculation() {
    let g = midsummer_times();
    // After sunset, with tomorrow's sunrise ahead: nothing to do.
    assert!(!g.needs_recalculation(berlin_ms(2024, 6, 21, 23, 0, 0)));
    // Both windows over.
    assert!(g.needs_recalculation(berlin_ms(2024, 6, 22, 7, 0, 0)));
    // More than a day later.
    assert!(g.needs_recalculation(berlin_ms(2024, 6, 23, 23, 0, 0)));
    // Before the sunset window while the sunrise is anchored to a later date.
    assert!(g.needs_recalculation(berlin_ms(2024, 6, 21, 1, 0, 0)));
    assert!(g.needs_recalculation(berlin_ms(2024, 6, 21, 12, 0, 0)));
}

#[test]
fn anchor_window_rolls_end_past_midnight() {
    let start = hms(23, 30, 0) as u64 * 1_000_000_000;
    let end = hms(0, 30, 0) as u64 * 1_000_000_000 + 500_000_000;
    let (s, e) = anchor_window(ZONE, day(2024, 1, 10), start, end).unwrap();
    assert_eq!(s, berlin_ms(2024, 1, 10, 23, 30, 0));
    assert_eq!(e, berlin_ms(2024, 1, 11, 0, 30, 0));
    assert_eq!(sunrise_start_date(day(2024, 1, 11), start, end), day(2024, 1, 10));
    assert_eq!(anchor_window("Nowhere/Land", day(2024, 1, 10), start, end).unwrap_err(), GeoTimesError::AmbiguousStart);
}

#[test]
fn nonexistent_local_time_is_ambiguous() {
    // 02:30 does not exist in Berlin on 2024-03-31 (clocks go forward).
    let start = hms(2, 30, 0) as u64 * 1_000_000_000;
    let end = hms(3, 30, 0) as u64 * 1_000_000_000;
    assert_eq!(anchor_window(ZONE, day(2024, 3, 31), start, end).unwrap_err(), GeoTimesError::AmbiguousStart);
    assert_eq!(GeoTimesError::AmbiguousStart.message(), "Ambiguous transition start time");
}

#[test]
fn recalculation_check_past_the_last_local_date() {
    // 23:00 UTC on chrono's last day is already the next day in Tokyo,
    // which chrono cannot hold: no local date, so only the windows decide.
    let last = chrono::NaiveDateTime::MAX.date().and_hms_opt(23, 0, 0).unwrap().and_utc().timestamp_millis();
    let times = GeoTimes {
        coordinate_tz: "Asia/Tokyo".to_string(),
        calculated_date: 0,
        sunset_start: i64::MAX,
        sunset_end: i64::MAX,
        sunrise_start: i64::MAX,
        sunrise_end: i64::MAX,
        sunset_start_date: 0,
        sunrise_start_date: 0,
        sunrise_end_date: 0,
    };
    assert!(!times.needs_recalculation(last));
    let passed = GeoTimes { sunset_end: 0, sunrise_end: 0, ..times };
    assert!(passed.needs_recalculation(last));
}
