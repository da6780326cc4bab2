use sunsetr::ipc::{
    disconnect_message, fallback_runtime_dir, is_disconnected, receive_verdict, socket_path, ClientRegistry,
    ConnectionClosed, ProbeResult, ReadOutcome, ReceiveVerdict,
};
use sunsetr::launcher::{launch_plan, serves_subscribers, start_message, LaunchPlan};
use sunsetr::logger::{format_line, strip_ansi_codes, timestamp_prefix, LineKind, Log};
use sunsetr::period::{
    detect_state_change, log_state_announcement, should_update_state, Period, PeriodType, StateChange,
};
use sunsetr::report::{fallback_label, format_utc_offset, forward_span, hours_and_minutes, time_difference_text};
use sunsetr::simulation::{
    parse_datetime_in_tz, refusal_message, simulation_refusal, DateParseError, FastForwardClock, ScaledClock,
    RealTimeSource, SimulationRefusal,
};
use sunsetr::smoothing::{keeps_running, mutes_final_apply, target_source, transition_name, TargetSource, TransitionType};
use sunsetr::spawn::{spawn_command, spawn_texts, Compositor};
use sunsetr::state::{get_state_namespace, identity_matches, identity_record, is_orphaned, marker_preset, state_namespace};
use sunsetr::workflow::{
    menu_options, resolve_explicit_target, run_geo_workflow, target_from_menu, ConfigTarget, GeoSelectionResult,
    GeoWorkflow, TargetDecision,
};
use sunsetr::Sunsetr;

#[test]
fn period_cycle_and_names() {
    assert_eq!(Period::Day.next_period(), Period::Sunset);
    assert_eq!(Period::Sunrise.next_period(), Period::Day);
    assert_eq!(Period::Static.next_period(), Period::Static);
    assert_eq!(Period::Sunset.display_name(), "Sunset");
    assert_eq!(Period::Night.as_str(), "Night");
    assert_eq!(Period::Day.period_type().as_str(), "stable");
    assert_eq!(Period::Sunset.period_type(), PeriodType::Transitioning);
    assert!(Period::Static.is_static());
    assert!(!Period::Static.is_time_based());
}

#[test]
fn state_changes() {
    assert_eq!(detect_state_change(&Period::Day, &Period::Day), StateChange::Unchanged);
    assert_eq!(detect_state_change(&Period::Sunset, &Period::Sunset), StateChange::TransitionProgress);
    assert_eq!(detect_state_change(&Period::Day, &Period::Sunset), StateChange::TransitionStarted);
    assert_eq!(
        should_update_state(&Period::Sunset, &Period::Night),
        StateChange::TransitionCompleted { from: Period::Sunset }
    );
    assert_eq!(
        detect_state_change(&Period::Day, &Period::Night),
        StateChange::StableJump { from: Period::Day, to: Period::Night }
    );
    assert!(log_state_announcement(Period::Night).contains("night"));
}

#[test]
fn log_switch_and_lines() {
    let mut log = Log::new();
    assert!(log.is_enabled());
    log.set_enabled(false);
    assert!(!log.is_enabled());
    assert_eq!(format_line(LineKind::Decorated, "", "hello"), "┣ hello\n");
    assert_eq!(format_line(LineKind::Indented, "[12:00:00] ", "x"), "[12:00:00] ┃   x\n");
    assert_eq!(format_line(LineKind::BlockStart, "p", "m"), "p┃\np┣ m\n");
    assert_eq!(format_line(LineKind::Pipe, "", "ignored"), "┃\n");
    assert_eq!(format_line(LineKind::End, "", "ignored"), "╹\n");
    assert_eq!(format_line(LineKind::Warning, "", "w"), "┣[\x1b[33mWARNING\x1b[0m] w\n");
    assert_eq!(format_line(LineKind::ErrorExit, "", "e"), "┃\n┗[\x1b[31mERROR\x1b[0m] e\n");
}

#[test]
fn ansi_codes_are_stripped() {
    assert_eq!(strip_ansi_codes("┣[\x1b[33mWARNING\x1b[0m] w\n"), "┣[WARNING] w\n");
    assert_eq!(strip_ansi_codes("plain"), "plain");
    assert_eq!(strip_ansi_codes("a\x1bb"), "a\x1bb");
    assert_eq!(strip_ansi_codes("a\x1b[31"), "a\x1b[31");
    assert_eq!(strip_ansi_codes("ab\x1b[2Kcd"), "ab\x1b[2Kcd");
    assert_eq!(strip_ansi_codes("\x1b[1;31mred\x1b[0m!"), "red!");
    assert_eq!(strip_ansi_codes("x\x1b[my"), "xy");
    assert_eq!(strip_ansi_codes("\x1b\x1b[32mok"), "\x1bok");
    assert_eq!(strip_ansi_codes(""), "");
}

#[test]
fn simulation_timestamps() {
    assert_eq!(timestamp_prefix(false, Some("10:00:00"), "11:00:00"), "");
    assert_eq!(timestamp_prefix(true, None, "11:00:00"), "[11:00:00] ");
    assert_eq!(timestamp_prefix(true, Some("11:00:00"), "11:00:00"), "[11:00:00] ");
    assert_eq!(timestamp_prefix(true, Some("10:00:00"), "11:00:00"), "[10:00:00C] [11:00:00L] ");
}

#[test]
fn report_pieces() {
    assert_eq!(fallback_label(25), "Summer polar approximation");
    assert_eq!(fallback_label(45), "Winter polar approximation");
    let hour = 3_600_000_000_000u64;
    assert_eq!(forward_span(20 * hour, 4 * hour), 8 * hour);
    assert_eq!(forward_span(4 * hour, 20 * hour), 16 * hour);
    assert_eq!(forward_span(5 * hour, 5 * hour), 24 * hour);
    assert_eq!(hours_and_minutes(8 * hour + 15 * 60_000_000_000), (8, 15));
    assert_eq!(format_utc_offset(7200), "+02:00");
    assert_eq!(format_utc_offset(-12600), "-03:30");
    assert_eq!(format_utc_offset(19800), "+05:30");
    assert_eq!(format_utc_offset(-1800), "+00:30");
    assert_eq!(time_difference_text(3600), "+1 hours");
    assert_eq!(time_difference_text(-5400), "-1 hours 30 minutes");
    assert_eq!(time_difference_text(0), "+0 hours");
}

#[test]
fn smoothing_decisions() {
    assert_eq!(target_source(TransitionType::Shutdown, Some(Period::Sunset), true, Period::Sunset), TargetSource::Fixed);
    assert_eq!(target_source(TransitionType::Startup, Some(Period::Sunset), true, Period::Sunset), TargetSource::Live);
    assert_eq!(target_source(TransitionType::Startup, Some(Period::Sunset), true, Period::Night), TargetSource::Fixed);
    assert_eq!(target_source(TransitionType::Startup, Some(Period::Day), true, Period::Day), TargetSource::Fixed);
    assert_eq!(target_source(TransitionType::Startup, None, true, Period::Sunset), TargetSource::Fixed);
    assert!(keeps_running(TransitionType::Shutdown, false));
    assert!(!keeps_running(TransitionType::Startup, false));
    assert_eq!(transition_name(TransitionType::Startup), "Startup");
    assert!(mutes_final_apply(TransitionType::Startup, false, false, false));
    assert!(!mutes_final_apply(TransitionType::Startup, true, false, false));
    assert!(mutes_final_apply(TransitionType::Startup, true, false, true));
    assert!(!mutes_final_apply(TransitionType::Shutdown, false, false, true));
}

#[test]
fn state_files() {
    let ns = get_state_namespace("/home/user/custom");
    assert!(ns.starts_with("custom_"));
    assert_eq!(ns.len(), 23);
    assert_eq!(ns, get_state_namespace("/home/user/custom"));
    assert_ne!(ns, get_state_namespace("/home/user/other"));
    // sha256("abc") = ba7816bf8f01cfea...
    assert_eq!(get_state_namespace("abc"), "custom_ba7816bf8f01cfea");
    assert_eq!(state_namespace(None), "default");
    assert_eq!(marker_preset("  evening \n"), Some("evening".to_string()));
    assert_eq!(marker_preset(" \n"), None);
    assert!(identity_matches(" 1234\n", 1234));
    assert!(!identity_matches("1235", 1234));
    assert!(identity_matches(&identity_record(987654321), 987654321));
    assert!(is_orphaned(0, 7_776_001));
    assert!(!is_orphaned(1, 7_776_001));
    assert!(!is_orphaned(0, 100));
}

#[test]
fn ipc_registry_and_reads() {
    let mut reg: ClientRegistry<&str> = ClientRegistry::new();
    let a = reg.register("a");
    let b = reg.register("b");
    assert_eq!((a, b), (0, 1));
    assert_eq!(reg.len(), 2);
    assert_eq!(reg.remove(a), Some("a"));
    assert_eq!(reg.remove(a), None);
    assert_eq!(reg.len(), 1);
    assert!(is_disconnected(ProbeResult::Eof));
    assert!(is_disconnected(ProbeResult::Error));
    assert!(!is_disconnected(ProbeResult::WouldBlock));
    assert!(!is_disconnected(ProbeResult::Data));
    assert_eq!(disconnect_message(1_500, 3), "IPC one-shot client served (1500ms), connections: 3");
    assert_eq!(disconnect_message(65_000, 0), "IPC client disconnected after 65s, connections: 0");
    assert_eq!(receive_verdict(ReadOutcome::Eof), ReceiveVerdict::Closed);
    assert_eq!(receive_verdict(ReadOutcome::ConnectionLost), ReceiveVerdict::Closed);
    assert_eq!(receive_verdict(ReadOutcome::NotReady), ReceiveVerdict::Nothing);
    assert_eq!(receive_verdict(ReadOutcome::Line("  \n".to_string())), ReceiveVerdict::Nothing);
    assert_eq!(
        receive_verdict(ReadOutcome::Line(" {\"a\":1}\n".to_string())),
        ReceiveVerdict::Event("{\"a\":1}".to_string())
    );
    assert_eq!(ConnectionClosed.message(), "IPC connection closed");
    assert_eq!(fallback_runtime_dir(1000), "/run/user/1000");
}

#[test]
fn spawn_commands() {
    let c = spawn_command(&Compositor::Niri, "/usr/bin/sunsetr", Some("/cfg"));
    assert_eq!(c.program, "niri");
    assert_eq!(c.args, vec!["msg", "action", "spawn", "--", "/usr/bin/sunsetr", "--config", "/cfg"]);
    assert!(!c.direct);
    let c = spawn_command(&Compositor::Hyprland, "/bin/s", None);
    assert_eq!(c.program, "hyprctl");
    assert_eq!(c.args, vec!["dispatch", "exec", "--", "/bin/s"]);
    let c = spawn_command(&Compositor::Sway, "/bin/s", Some("/cfg"));
    assert_eq!(c.args, vec!["exec", "'/bin/s --config /cfg'"]);
    let c = spawn_command(&Compositor::Sway, "/bin/s", None);
    assert_eq!(c.args, vec!["exec", "'/bin/s'"]);
    let c = spawn_command(&Compositor::Other("weston".to_string()), "/bin/s", None);
    assert_eq!(c.program, "/bin/s");
    assert!(c.args.is_empty());
    assert!(c.direct);
    assert_eq!(spawn_texts(&Compositor::Sway).1, Some("swaymsg exec command failed: "));
}

#[test]
fn builder_settings() {
    let s = Sunsetr::new(true).without_lock().with_previous_state(Some(Period::Night));
    assert!(!s.create_lock);
    assert!(!s.show_headers);
    assert_eq!(s.previous_state, Some(Period::Night));
    assert!(s.debug_enabled);
    assert_eq!(launch_plan(&s), LaunchPlan::RunHere { header: false, lock: false });
    let b = Sunsetr::new(false).without_headers().background();
    assert_eq!(launch_plan(&b), LaunchPlan::SpawnInBackground { header: false });
    assert!(Sunsetr::new(false).bypass_smoothing().bypass_smoothing);
    assert_eq!(start_message(true, true), Some("Lock acquired, starting sunsetr..."));
    assert_eq!(start_message(false, false), Some("Restarting sunsetr..."));
    assert_eq!(start_message(false, true), None);
    assert!(serves_subscribers(false));
}

#[test]
fn geo_workflow_choices() {
    let w = GeoWorkflow::new(false, None);
    assert_eq!(w.determine_target(None), TargetDecision::Settled(ConfigTarget::Default));
    assert_eq!(w.determine_target(Some("evening")), TargetDecision::Ask("evening".to_string()));
    let (w2, d) = run_geo_workflow(true, Some("night".to_string()), Some("evening"));
    assert!(w2.debug_enabled);
    assert_eq!(d, TargetDecision::Explicit("night".to_string()));
    assert_eq!(w.run(&Some(ConfigTarget::Default), true), GeoSelectionResult::Updated);
    assert_eq!(w.run(&Some(ConfigTarget::Default), false), GeoSelectionResult::Cancelled);
    assert_eq!(w.run(&None, true), GeoSelectionResult::Cancelled);
    assert_eq!(resolve_explicit_target("default", false), Some(ConfigTarget::Default));
    assert_eq!(resolve_explicit_target("night", true), Some(ConfigTarget::Preset("night".to_string())));
    assert_eq!(resolve_explicit_target("night", false), None);
    assert_eq!(
        menu_options("evening"),
        vec!["Cancel operation", "Update default configuration", "Update preset 'evening'"]
    );
    assert_eq!(target_from_menu(Some(0), "evening"), None);
    assert_eq!(target_from_menu(Some(1), "evening"), Some(ConfigTarget::Default));
    assert_eq!(target_from_menu(Some(2), "evening"), Some(ConfigTarget::Preset("evening".to_string())));
    assert_eq!(target_from_menu(None, "evening"), None);
}

#[test]
fn simulation_rules() {
    assert!(!RealTimeSource.is_simulated());
    let mut c = FastForwardClock::new(1_000, 10_000);
    c.sleep(4_000);
    assert_eq!(c.now(), 5_000);
    assert!(!c.is_ended());
    c.sleep(u64::MAX);
    assert_eq!(c.now(), 10_000);
    assert!(c.is_ended());
    assert_eq!(simulation_refusal(Some(42), true, true, 0, 1), Some(SimulationRefusal::AlreadyRunning(42)));
    assert_eq!(simulation_refusal(None, true, true, 0, 1), Some(SimulationRefusal::TestModeActive));
    assert_eq!(simulation_refusal(None, false, true, 0, 1), Some(SimulationRefusal::StaticMode));
    assert_eq!(simulation_refusal(None, false, false, 5, 5), Some(SimulationRefusal::EmptyWindow));
    assert_eq!(simulation_refusal(None, false, false, 5, 6), None);
    assert_eq!(
        refusal_message(SimulationRefusal::AlreadyRunning(7)),
        "Cannot run simulation: sunsetr is already running (PID: 7)\n   Stop the existing sunsetr instance first with: kill 7"
    );
    let t = parse_datetime_in_tz("2024-06-21 12:00:00", "Europe/Berlin").unwrap();
    assert_eq!(t, 1_718_964_000_000);
    assert!(matches!(parse_datetime_in_tz("June 21", "Europe/Berlin"), Err(DateParseError::InvalidFormat(_))));
    assert_eq!(parse_datetime_in_tz("2024-03-31 02:30:00", "Europe/Berlin"), Err(DateParseError::Ambiguous));
}

fn current_socket_path() -> String {
    socket_path(None, nix::unistd::getuid().as_raw())
}

#[test]
fn client_test_socket_path() {
    let path = current_socket_path();
    assert!(path.contains("sunsetr-events.sock"));
    assert!(path.contains("run/user") || path.contains("XDG_RUNTIME_DIR"));
}

#[test]
fn server_test_socket_path() {
    let path = current_socket_path();
    assert!(path.contains("sunsetr-events.sock"));
}

#[test]
fn socket_path_joins_runtime_dir() {
    assert_eq!(socket_path(None, 1000), "/run/user/1000/sunsetr-events.sock");
    assert_eq!(socket_path(Some("/tmp/rt"), 7), "/tmp/rt/sunsetr-events.sock");
    assert_eq!(socket_path(Some("/tmp/rt/"), 7), "/tmp/rt/sunsetr-events.sock");
    assert_eq!(socket_path(Some(""), 7), "sunsetr-events.sock");
}

#[test]
fn scaled_clock_counts_completed_sleeps_and_stops_at_end() {
    let mut c = ScaledClock::new(1_000, 10_000);
    assert_eq!(c.now(0), 1_000);
    assert_eq!(c.begin_sleep(3_000), 3_000);
    assert_eq!(c.now(500), 1_500);
    assert_eq!(c.now(5_000), 4_000);
    c.finish_sleep();
    assert_eq!(c.now(0), 4_000);
    assert_eq!(c.begin_sleep(20_000), 6_000);
    assert!(!c.is_ended(0));
    c.finish_sleep();
    assert_eq!(c.now(0), 10_000);
    assert!(c.is_ended(0));
    assert_eq!(c.begin_sleep(1_000), 0);
    assert_eq!(c.in_progress, None);
}

#[test]
fn scaled_clock_agrees_with_fast_forward() {
    let mut scaled = ScaledClock::new(0, 5_000);
    let mut fast = FastForwardClock::new(0, 5_000);
    for step in [1_200u64, 0, 2_500, 4_000] {
        scaled.begin_sleep(step);
        scaled.finish_sleep();
        fast.sleep(step);
        assert_eq!(scaled.now(0), fast.now());
    }
}
