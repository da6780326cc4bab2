use sunsetr::instance::{
    conflict_action, get_running_instance_pid, is_stale_process, keep_waiting_for_lock, proc_path,
    recorded_instance, test_lock_pid, ConflictAction, InstanceInfo, LockContentsError,
    RunningInstanceError,
};

#[test]
fn test_instance_info_from_lock_contents() {
    let contents = "12345\nHyprland\n/home/user/.config/sunsetr\nsession1";
    let info = InstanceInfo::from_lock_contents(contents).unwrap();
    assert_eq!(info.pid, 12345);
    assert_eq!(info.compositor, "Hyprland");
    assert_eq!(info.config_dir, Some("/home/user/.config/sunsetr".to_string()));
    assert_eq!(info.session_id, Some("session1".to_string()));

    let contents = "12345\nHyprland\n/home/user/.config/sunsetr";
    let info = InstanceInfo::from_lock_contents(contents).unwrap();
    assert_eq!(info.pid, 12345);
    assert_eq!(info.compositor, "Hyprland");
    assert_eq!(info.config_dir, Some("/home/user/.config/sunsetr".to_string()));
    assert_eq!(info.session_id, None);

    let contents = "67890\nNiri\n";
    let info = InstanceInfo::from_lock_contents(contents).unwrap();
    assert_eq!(info.pid, 67890);
    assert_eq!(info.compositor, "Niri");
    assert_eq!(info.config_dir, None);
    assert_eq!(info.session_id, None);

    let contents = "99999\nSway\n";
    let info = InstanceInfo::from_lock_contents(contents).unwrap();
    assert_eq!(info.pid, 99999);
    assert_eq!(info.compositor, "Sway");
    assert_eq!(info.config_dir, None);
    assert_eq!(info.session_id, None);

    let contents = "11111\nWayland";
    let info = InstanceInfo::from_lock_contents(contents).unwrap();
    assert_eq!(info.pid, 11111);
    assert_eq!(info.compositor, "Wayland");
    assert_eq!(info.config_dir, None);
    assert_eq!(info.session_id, None);
}

#[test]
fn test_instance_info_from_lock_contents_errors() {
    let contents = "";
    assert!(InstanceInfo::from_lock_contents(contents).is_err());

    let contents = "12345";
    assert!(InstanceInfo::from_lock_contents(contents).is_err());

    let contents = "not_a_pid\nHyprland";
    assert!(InstanceInfo::from_lock_contents(contents).is_err());

    let contents = "12345\nHyprland\n/config/dir\nsession\nextra_line";
    assert!(InstanceInfo::from_lock_contents(contents).is_err());
}

#[test]
fn test_instance_info_to_lock_contents() {
    let info = InstanceInfo {
        pid: 12345,
        compositor: "Hyprland".to_string(),
        config_dir: Some("/home/user/.config/sunsetr".to_string()),
        session_id: Some("session1".to_string()),
    };
    let contents = info.to_lock_contents();
    assert_eq!(contents, "12345\nHyprland\n/home/user/.config/sunsetr\nsession1");

    let info = InstanceInfo {
        pid: 67890,
        compositor: "Niri".to_string(),
        config_dir: None,
        session_id: None,
    };
    let contents = info.to_lock_contents();
    assert_eq!(contents, "67890\nNiri\n\n");
}

#[test]
fn test_instance_info_round_trip() {
    let first = InstanceInfo {
        pid: 99999,
        compositor: "Sway".to_string(),
        config_dir: Some("/custom/config".to_string()),
        session_id: Some("test_session".to_string()),
    };

    let serialized = first.to_lock_contents();
    let parsed = InstanceInfo::from_lock_contents(&serialized).unwrap();

    assert_eq!(parsed.pid, first.pid);
    assert_eq!(parsed.compositor, first.compositor);
    assert_eq!(parsed.config_dir, first.config_dir);
    assert_eq!(parsed.session_id, first.session_id);
}

#[test]
fn lock_contents_error_kinds_and_messages() {
    assert_eq!(InstanceInfo::from_lock_contents("  \n ").unwrap_err(), LockContentsError::Empty);
    assert_eq!(InstanceInfo::from_lock_contents("12345").unwrap_err(), LockContentsError::InvalidFormat);
    assert_eq!(InstanceInfo::from_lock_contents("x\nNiri").unwrap_err(), LockContentsError::InvalidPid);
    assert_eq!(LockContentsError::Empty.message(), "Lock file is empty");
    assert_eq!(
        LockContentsError::InvalidFormat.message(),
        "Invalid lock file format (expected 2-4 lines)"
    );
    assert_eq!(LockContentsError::InvalidPid.message(), "Invalid PID format in lock file");
}

#[test]
fn lock_contents_accept_plus_sign_and_crlf() {
    let info = InstanceInfo::from_lock_contents("+42\r\nHyprland\r\n").unwrap();
    assert_eq!(info.pid, 42);
    assert_eq!(info.compositor, "Hyprland");
    assert_eq!(InstanceInfo::from_lock_contents("4294967296\nNiri").unwrap_err(), LockContentsError::InvalidPid);
}

#[test]
fn round_trip_without_optional_fields() {
    let first = InstanceInfo {
        pid: 7,
        compositor: "Niri".to_string(),
        config_dir: None,
        session_id: Some("s2".to_string()),
    };
    let parsed = InstanceInfo::from_lock_contents(&first.to_lock_contents()).unwrap();
    assert_eq!(parsed.pid, 7);
    assert_eq!(parsed.config_dir, None);
    assert_eq!(parsed.session_id, Some("s2".to_string()));
}

#[test]
fn stale_process_needs_two_known_different_sessions() {
    assert!(is_stale_process(Some("1"), Some("2")));
    assert!(!is_stale_process(Some("1"), Some("1")));
    assert!(!is_stale_process(None, Some("1")));
    assert!(!is_stale_process(Some("1"), None));
}

#[test]
fn conflict_actions() {
    assert_eq!(conflict_action(None, true, None), ConflictAction::Retry);
    assert_eq!(conflict_action(Some("garbage"), true, None), ConflictAction::RemoveInvalidLock);
    assert_eq!(conflict_action(Some("12\nNiri\n\ns1"), false, Some("s1")), ConflictAction::RemoveStaleLock);
    assert_eq!(
        conflict_action(Some("12\nNiri\n\ns1"), true, Some("s2")),
        ConflictAction::RecoverFromPreviousSession
    );
    assert_eq!(conflict_action(Some("12\nNiri\n\ns1"), true, Some("s1")), ConflictAction::ReportRunning);
    assert_eq!(conflict_action(Some("12\nNiri"), true, Some("s1")), ConflictAction::ReportRunning);
}

#[test]
fn recovery_waits_at_most_thirty_times() {
    assert!(keep_waiting_for_lock(0, true));
    assert!(keep_waiting_for_lock(29, true));
    assert!(!keep_waiting_for_lock(30, true));
    assert!(!keep_waiting_for_lock(3, false));
}

#[test]
fn test_lock_pid_reads_trimmed_number() {
    assert_eq!(test_lock_pid(" 999999999\n"), Some(999999999));
    assert_eq!(test_lock_pid("abc"), None);
    assert_eq!(test_lock_pid(""), None);
}

#[test]
fn running_instance_pid() {
    let recorded = recorded_instance(Some("4321\nSway\n"));
    assert_eq!(get_running_instance_pid(recorded.clone(), true), Ok(4321));
    assert_eq!(get_running_instance_pid(recorded, false), Err(RunningInstanceError::NotRunning));
    assert_eq!(get_running_instance_pid(recorded_instance(None), true), Err(RunningInstanceError::NotRunning));
    let malformed = recorded_instance(Some("x\ny"));
    assert_eq!(
        get_running_instance_pid(malformed, true),
        Err(RunningInstanceError::Malformed(LockContentsError::InvalidPid))
    );
    assert_eq!(RunningInstanceError::NotRunning.message(), "No sunsetr instance running");
}

#[test]
fn proc_path_of_pid() {
    assert_eq!(proc_path(1234), "/proc/1234");
    assert_eq!(proc_path(0), "/proc/0");
}
