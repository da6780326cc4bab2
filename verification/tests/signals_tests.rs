use sunsetr::period::Period;
use sunsetr::signals::{
    config_reload_response, drain_to_latest_reload, is_instant_shutdown_request, message_action,
    should_restart_monitor, signal_response, test_request, test_signal_message, LogLine,
    MessageAction, SignalKind, SignalMessage, SignalResponse, SleepTracker, TimeChangeVerdict,
};

type Msg = SignalMessage<u32, ()>;

#[test]
fn consume_pending_wake_event_returns_false_when_no_wakes_recorded() {
    let mut tracker = SleepTracker::new();
    assert!(!tracker.consume_pending_wake_event());
    assert_eq!(tracker.wake_events_pending, 0);
}

#[test]
fn consume_pending_wake_event_decrements_once_per_call_until_drained() {
    let mut tracker = SleepTracker::new();
    tracker.wake_events_pending = 2;

    assert!(tracker.consume_pending_wake_event());
    assert_eq!(tracker.wake_events_pending, 1);

    assert!(tracker.consume_pending_wake_event());
    assert_eq!(tracker.wake_events_pending, 0);

    assert!(!tracker.consume_pending_wake_event());
    assert_eq!(tracker.wake_events_pending, 0);
}

#[test]
fn wake_absorbs_exactly_one_time_change() {
    let mut tracker = SleepTracker::new();
    tracker.record_sleep();
    assert_eq!(tracker.judge_time_change(), TimeChangeVerdict::WhileAsleep);
    tracker.record_wake();
    assert!(!tracker.is_sleeping);
    assert_eq!(tracker.judge_time_change(), TimeChangeVerdict::FromWake);
    assert_eq!(tracker.judge_time_change(), TimeChangeVerdict::Report);
}

#[test]
fn wake_counter_wraps() {
    let mut tracker = SleepTracker { is_sleeping: true, wake_events_pending: 255 };
    tracker.record_wake();
    assert_eq!(tracker.wake_events_pending, 0);
}

#[test]
fn drain_empty_channel_returns_none() {
    let (latest, rest) = drain_to_latest_reload::<u32, ()>(Vec::new());
    assert!(latest.is_none());
    assert!(rest.is_empty());
}

#[test]
fn drain_two_reloads_keeps_the_second() {
    let pending: Vec<Msg> = vec![SignalMessage::Reload(3000), SignalMessage::Reload(4000)];
    let (latest, rest) = drain_to_latest_reload(pending);
    assert_eq!(latest, Some(4000));
    assert!(rest.is_empty());
}

#[test]
fn drain_keeps_latest_reload_and_reemits_others_in_order() {
    let pending: Vec<Msg> = vec![
        SignalMessage::Shutdown,
        SignalMessage::Reload(3000),
        SignalMessage::TimeChange,
        SignalMessage::Reload(4000),
        SignalMessage::ResumeFromSleep,
    ];
    let (latest, rest) = drain_to_latest_reload(pending);
    assert_eq!(latest, Some(4000));
    assert_eq!(rest.len(), 3);
    assert!(matches!(rest[0], SignalMessage::Shutdown));
    assert!(matches!(rest[1], SignalMessage::TimeChange));
    assert!(matches!(rest[2], SignalMessage::ResumeFromSleep));
}

#[test]
fn drain_with_only_non_reload_returns_none_and_reemits() {
    let pending: Vec<Msg> = vec![SignalMessage::ResumeFromSleep, SignalMessage::Shutdown];
    let (latest, rest) = drain_to_latest_reload(pending);
    assert!(latest.is_none());
    assert_eq!(rest.len(), 2);
    assert!(matches!(rest[0], SignalMessage::ResumeFromSleep));
    assert!(matches!(rest[1], SignalMessage::Shutdown));
}

#[test]
fn signal_responses() {
    assert!(matches!(signal_response(SignalKind::User1, false, false), SignalResponse::TestMode));
    assert!(matches!(signal_response(SignalKind::User2, false, false), SignalResponse::Reload));
    assert!(matches!(signal_response(SignalKind::Hangup, false, false), SignalResponse::Exit));
    match signal_response(SignalKind::Terminate, false, true) {
        SignalResponse::Shutdown { message, instant } => {
            assert!(instant);
            assert_eq!(message, "Received instant shutdown request for restart");
        }
        _ => panic!("expected shutdown"),
    }
    match signal_response(SignalKind::Terminate, false, false) {
        SignalResponse::Shutdown { message, instant } => {
            assert!(!instant);
            assert_eq!(message, "Received termination request, initiating graceful shutdown...");
        }
        _ => panic!("expected shutdown"),
    }
    match signal_response(SignalKind::Interrupt, true, false) {
        SignalResponse::Shutdown { message, .. } => {
            assert_eq!(message, "Received SIGINT (Ctrl+C), initiating graceful shutdown...")
        }
        _ => panic!("expected shutdown"),
    }
    match signal_response(SignalKind::Interrupt, false, false) {
        SignalResponse::Shutdown { message, .. } => {
            assert_eq!(message, "Received interrupt signal, initiating graceful shutdown...")
        }
        _ => panic!("expected shutdown"),
    }
}

#[test]
fn instant_shutdown_flag_file() {
    assert!(is_instant_shutdown_request("instant\n"));
    assert!(is_instant_shutdown_request("  instant  "));
    assert!(!is_instant_shutdown_request("instantly"));
    assert!(!is_instant_shutdown_request(""));
}

#[test]
fn test_request_file() {
    let (temp, gamma) = test_request("3300\n90.5\n").unwrap();
    assert_eq!(temp, 3300);
    assert_eq!(gamma, "90.5");
    assert!(test_request("3300").is_none());
    assert!(test_request("warm\n90").is_none());
    assert!(test_request("1\n2\n3").is_none());
    assert_eq!(test_signal_message(0), "Received test mode exit signal");
    assert_eq!(test_signal_message(4000), "Received test mode signal");
}

#[test]
fn message_actions() {
    let test: SignalMessage<u32, u8> = SignalMessage::TestMode(1);
    assert_eq!(message_action(&test, false), MessageAction::EnterTestMode);
    assert_eq!(message_action(&test, true), MessageAction::IgnoreTestRequest);
    let time: SignalMessage<u32, u8> = SignalMessage::TimeChange;
    assert_eq!(message_action(&time, false), MessageAction::ScheduleReload);
    let wake: SignalMessage<u32, u8> = SignalMessage::ResumeFromSleep;
    assert_eq!(message_action(&wake, false), MessageAction::ScheduleReload);
    let stop: SignalMessage<u32, u8> = SignalMessage::Shutdown;
    assert_eq!(message_action(&stop, false), MessageAction::StopRunning);
    let reload: SignalMessage<u32, u8> = SignalMessage::Reload(1);
    assert_eq!(message_action(&reload, false), MessageAction::ReloadConfig);
}

#[test]
fn config_reload_responses() {
    let r = config_reload_response(true, false, Period::Day, Period::Day, &Some("day".to_string()), &None);
    assert!(r.needs_reload);
    assert!(r.store_preset);
    assert_eq!(
        r.lines,
        vec![
            LogLine::Indented("Configuration changed, applying changes...".to_string()),
            LogLine::Info("Deactivated preset 'day', restored default configuration".to_string()),
        ]
    );
    let r = config_reload_response(true, true, Period::Day, Period::Night, &None, &Some("evening".to_string()));
    assert_eq!(r.lines[1], LogLine::Info("Active preset: evening".to_string()));
    let r = config_reload_response(false, false, Period::Day, Period::Night, &None, &None);
    assert!(r.needs_reload);
    assert!(!r.store_preset);
    assert_eq!(
        r.lines,
        vec![LogLine::Indented("State changed after config reload, applying changes...".to_string())]
    );
    let r = config_reload_response(false, true, Period::Day, Period::Night, &None, &None);
    assert!(!r.needs_reload);
    assert_eq!(r.lines, vec![LogLine::Indented("Configuration and state unchanged".to_string())]);
}

#[test]
fn monitor_restarts_three_times() {
    assert!(should_restart_monitor(0));
    assert!(should_restart_monitor(2));
    assert!(!should_restart_monitor(3));
}
