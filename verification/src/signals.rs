//! What the daemon does on a process signal, on a message from its signal
//! thread, and on sleep, wake and clock-change notices.
//!
//! Receiving signals, reading the small request files and talking to the
//! channel stay with the program; it hands the facts to these functions and
//! carries out their answers.

use vstd::prelude::*;
use crate::period::Period;
use crate::text::{chars_of, lines_of, parse_u32, parse_u32_spec, split_newlines, split_nl, string_of, strip_cr, trim, trim_bounds};

verus! {

/// A message from the signal thread or the system monitors to the main
/// loop. `C` is the configuration a reload carries, `T` the test request.
#[derive(Debug)]
pub enum SignalMessage<C, T> {
    Reload(C),
    TestMode(T),
    Shutdown,
    TimeChange,
    ResumeFromSleep,
}

/// The payload of the last reload in `s`, if any.
pub open spec fn spec_latest_reload<C, T>(s: Seq<SignalMessage<C, T>>) -> Option<C>
    decreases s.len(),
{
    if s.len() == 0 {
        None
    } else {
        match s.last() {
            SignalMessage::Reload(c) => Some(c),
            _ => spec_latest_reload(s.drop_last()),
        }
    }
}

/// The messages of `s` that are not reloads, in their order.
pub open spec fn spec_non_reloads<C, T>(s: Seq<SignalMessage<C, T>>) -> Seq<SignalMessage<C, T>>
    decreases s.len(),
{
    if s.len() == 0 {
        Seq::empty()
    } else {
        let rest = spec_non_reloads(s.drop_last());
        match s.last() {
            SignalMessage::Reload(_) => rest,
            m => rest.push(m),
        }
    }
}

/// Split the pending messages into the configuration of the most recent
/// reload (None when no reload is queued) and the other messages in their
/// order, which go back onto the channel.
pub fn drain_to_latest_reload<C, T>(pending: Vec<SignalMessage<C, T>>) -> (r: (Option<C>, Vec<SignalMessage<C, T>>))
    ensures
        r.0 == spec_latest_reload(pending@),
        r.1@ == spec_non_reloads(pending@),
{
    let ghost all = pending@;
    let mut rest = pending;
    let mut latest: Option<C> = None;
    let mut deferred: Vec<SignalMessage<C, T>> = Vec::new();
    let mut i: usize = 0;
    let n = rest.len();
    while rest.len() > 0
        invariant
            i + rest@.len() == n,
            n == all.len(),
            rest@ == all.subrange(i as int, n as int),
            latest == spec_latest_reload(all.subrange(0, i as int)),
            deferred@ == spec_non_reloads(all.subrange(0, i as int)),
        decreases rest@.len(),
    {
        let msg = rest.remove(0);
        proof {
            assert(all.subrange(0, i + 1).drop_last() =~= all.subrange(0, i as int));
            assert(all.subrange(0, i + 1).last() == msg);
        }
        match msg {
            SignalMessage::Reload(c) => {
                latest = Some(c);
            },
            other => {
                deferred.push(other);
            },
        }
        i = i + 1;
        proof {
            assert(rest@ =~= all.subrange(i as int, n as int));
        }
    }
    proof {
        assert(all.subrange(0, n as int) =~= all);
    }
    (latest, deferred)
}

/// The process signals the daemon listens for.
#[derive(Debug, Clone, Copy, PartialEq, Eq, Structural)]
pub enum SignalKind {
    /// SIGINT.
    Interrupt,
    /// SIGTERM.
    Terminate,
    /// SIGHUP.
    Hangup,
    /// SIGUSR1: enter or leave test mode.
    User1,
    /// SIGUSR2: reload the configuration.
    User2,
    /// Any other signal.
    Other,
}

/// What the signal thread does with a signal.
#[derive(Debug, Clone, Copy)]
pub enum SignalResponse {
    /// Read the test request file; when it holds a request, announce it and
    /// forward it to the main loop, stopping when that is gone.
    TestMode,
    /// Load the configuration; on success raise the interrupt flag and
    /// forward it, announcing it once sent and stopping when the main loop is
    /// gone; on failure keep the current one.
    Reload,
    /// Print `message`, set the instant-shutdown flag when `instant`, stop
    /// the main loop, send it a shutdown, and stop listening.
    Shutdown { message: &'static str, instant: bool },
    /// The terminal went away: stop the main loop and exit at once.
    Exit,
    /// Print `message`, send a shutdown and stop the main loop; keep
    /// listening unless the main loop is gone.
    ShutdownAndListen { message: &'static str },
}

pub open spec fn spec_signal_response(kind: SignalKind, debug_enabled: bool, instant: bool) -> SignalResponse {
    match kind {
        SignalKind::User1 => SignalResponse::TestMode,
        SignalKind::User2 => SignalResponse::Reload,
        SignalKind::Terminate => if instant {
            SignalResponse::Shutdown { message: "Received instant shutdown request for restart", instant: true }
        } else {
            SignalResponse::Shutdown {
                message: "Received termination request, initiating graceful shutdown...",
                instant: false,
            }
        },
        SignalKind::Interrupt => SignalResponse::Shutdown {
            message: if debug_enabled {
                "Received SIGINT (Ctrl+C), initiating graceful shutdown..."
            } else {
                "Received interrupt signal, initiating graceful shutdown..."
            },
            instant: false,
        },
        SignalKind::Hangup => SignalResponse::Exit,
        SignalKind::Other => SignalResponse::ShutdownAndListen {
            message: "Received shutdown signal, initiating graceful shutdown...",
        },
    }
}

/// The signal thread's response to `kind`. `instant` tells whether the
/// shutdown request file asked for an instant shutdown (it matters only for
/// SIGTERM).
pub fn signal_response(kind: SignalKind, debug_enabled: bool, instant: bool) -> (r: SignalResponse)
    ensures
        r == spec_signal_response(kind, debug_enabled, instant),
{
    match kind {
        SignalKind::User1 => SignalResponse::TestMode,
        SignalKind::User2 => SignalResponse::Reload,
        SignalKind::Terminate => if instant {
            SignalResponse::Shutdown { message: "Received instant shutdown request for restart", instant: true }
        } else {
            SignalResponse::Shutdown {
                message: "Received termination request, initiating graceful shutdown...",
                instant: false,
            }
        },
        SignalKind::Interrupt => SignalResponse::Shutdown {
            message: if debug_enabled {
                "Received SIGINT (Ctrl+C), initiating graceful shutdown..."
            } else {
                "Received interrupt signal, initiating graceful shutdown..."
            },
            instant: false,
        },
        SignalKind::Hangup => SignalResponse::Exit,
        SignalKind::Other => SignalResponse::ShutdownAndListen {
            message: "Received shutdown signal, initiating graceful shutdown...",
        },
    }
}

/// Whether the shutdown request file asks for an instant shutdown: its text,
/// trimmed, is exactly `instant`.
pub fn is_instant_shutdown_request(content: &str) -> (b: bool)
    ensures
        b == (trim(content@) == "instant"@),
{
    let chars = chars_of(content);
    let (a, e) = trim_bounds(&chars);
    let word = "instant";
    proof {
        reveal_strlit("instant");
    }
    let w = chars_of(word);
    if e - a != w.len() {
        proof {
            assert(trim(content@).len() != "instant"@.len());
        }
        return false;
    }
    let mut i: usize = 0;
    while i < w.len()
        invariant
            a <= e <= chars@.len(),
            e - a == w@.len(),
            w@ == "instant"@,
            i <= w@.len(),
            chars@.subrange(a as int, e as int) == trim(content@),
            forall|k: int| 0 <= k < i ==> chars@[a + k] == w@[k],
        decreases w@.len() - i,
    {
        if chars[a + i] != w[i] {
            proof {
                assert(trim(content@)[i as int] != "instant"@[i as int]);
            }
            return false;
        }
        i = i + 1;
    }
    proof {
        assert(trim(content@) =~= "instant"@);
    }
    true
}

/// The test request a file holds: after trimming, exactly two lines, the
/// first a temperature; the second (the gamma, read by the program) is
/// handed back as text.
pub open spec fn spec_test_request(content: Seq<char>) -> Option<(u32, Seq<char>)> {
    let ls = lines_of(trim(content));
    if ls.len() == 2 {
        match parse_u32_spec(ls[0]) {
            Some(t) => Some((t, ls[1])),
            None => None,
        }
    } else {
        None
    }
}

/// Read a test request file's text: the temperature and the gamma line.
pub fn test_request(content: &str) -> (r: Option<(u32, String)>)
    ensures
        match r {
            Some((t, g)) => spec_test_request(content@) == Some((t, g@)),
            None => spec_test_request(content@) is None,
        },
{
    let chars = chars_of(content);
    let (a, b) = trim_bounds(&chars);
    let ghost t = chars@.subrange(a as int, b as int);
    if a == b {
        proof {
            assert(t.len() == 0);
        }
        return None;
    }
    let pieces = split_newlines(&chars, a, b);
    let ghost ls = lines_of(t);
    proof {
        assert(ls =~= split_nl(t).map_values(|l: Seq<char>| strip_cr(l)));
    }
    if pieces.len() != 2 {
        return None;
    }
    let e0 = crate::text::strip_cr_end(&pieces[0]);
    let temp = match parse_u32(&pieces[0], 0, e0) {
        Some(v) => v,
        None => {
            proof {
                assert(ls[0] == strip_cr(pieces@[0]@));
            }
            return None;
        },
    };
    let e1 = crate::text::strip_cr_end(&pieces[1]);
    let gamma = string_of(&pieces[1], 0, e1);
    proof {
        assert(ls[0] == strip_cr(pieces@[0]@));
        assert(ls[1] == strip_cr(pieces@[1]@));
    }
    Some((temp, gamma))
}

/// The announcement of a test request: temperature 0 asks to leave test
/// mode.
pub fn test_signal_message(temperature: u32) -> (s: &'static str)
    ensures
        s@ == (if temperature == 0 {
            "Received test mode exit signal"@
        } else {
            "Received test mode signal"@
        }),
{
    if temperature == 0 {
        "Received test mode exit signal"
    } else {
        "Received test mode signal"
    }
}

/// What the main loop does with a message.
#[derive(Debug, Clone, Copy, PartialEq, Eq, Structural)]
pub enum MessageAction {
    /// Enter test mode and stay there until it ends.
    EnterTestMode,
    /// A test is running: warn and ignore the request.
    IgnoreTestRequest,
    /// Stop the main loop.
    StopRunning,
    /// Re-read the configuration and compare it (see `config_reload_response`).
    ReloadConfig,
    /// Re-evaluate everything against the clock.
    ScheduleReload,
}

pub open spec fn spec_message_action<C, T>(msg: SignalMessage<C, T>, in_test_mode: bool) -> MessageAction {
    match msg {
        SignalMessage::TestMode(_) => if in_test_mode {
            MessageAction::IgnoreTestRequest
        } else {
            MessageAction::EnterTestMode
        },
        SignalMessage::Shutdown => MessageAction::StopRunning,
        SignalMessage::Reload(_) => MessageAction::ReloadConfig,
        SignalMessage::TimeChange => MessageAction::ScheduleReload,
        SignalMessage::ResumeFromSleep => MessageAction::ScheduleReload,
    }
}

/// The main loop's action for a message; a clock change and a wake from
/// sleep both make it re-evaluate everything.
pub fn message_action<C, T>(msg: &SignalMessage<C, T>, in_test_mode: bool) -> (a: MessageAction)
    ensures
        a == spec_message_action(*msg, in_test_mode),
{
    match msg {
        SignalMessage::TestMode(_) => if in_test_mode {
            MessageAction::IgnoreTestRequest
        } else {
            MessageAction::EnterTestMode
        },
        SignalMessage::Shutdown => MessageAction::StopRunning,
        SignalMessage::Reload(_) => MessageAction::ReloadConfig,
        SignalMessage::TimeChange => MessageAction::ScheduleReload,
        SignalMessage::ResumeFromSleep => MessageAction::ScheduleReload,
    }
}

/// A line of the log, by kind.
#[derive(Debug, Clone, PartialEq, Eq)]
pub enum LogLine {
    /// An indented detail line.
    Indented(String),
    /// An informational line that opens a block.
    Info(String),
}

pub open spec fn log_line_view(l: LogLine) -> (bool, Seq<char>) {
    match l {
        LogLine::Indented(s) => (false, s@),
        LogLine::Info(s) => (true, s@),
    }
}

/// The announcement of the preset after a configuration change: its
/// deactivation, the newly active one, or nothing.
pub open spec fn spec_preset_line(old_preset: Option<Seq<char>>, new_preset: Option<Seq<char>>) -> Option<Seq<char>> {
    match (old_preset, new_preset) {
        (Some(old), None) => Some("Deactivated preset '"@ + old + "', restored default configuration"@),
        (_, Some(new)) => Some("Active preset: "@ + new),
        (None, None) => None,
    }
}

/// The main loop's answer to a loaded configuration.
#[derive(Debug, Clone)]
pub struct ConfigReloadResponse {
    /// Lines to log, in order.
    pub lines: Vec<LogLine>,
    /// Whether the state is re-applied by the main loop.
    pub needs_reload: bool,
    /// Whether the new preset becomes the remembered one.
    pub store_preset: bool,
}

/// The answer to a reloaded configuration: a changed configuration is
/// applied (announcing the preset), a state that changed under a clock
/// schedule too; otherwise nothing happens. Under a geo schedule the state
/// is left to the main loop, so only the configuration counts.
pub open spec fn spec_config_reload_response(r: ConfigReloadResponse, config_changed: bool, geo_mode: bool, current: Period, computed: Period, old_preset: Option<Seq<char>>, new_preset: Option<Seq<char>>) -> bool {
    let lines = r.lines@.map_values(|l: LogLine| log_line_view(l));
    if config_changed {
        &&& r.needs_reload
        &&& r.store_preset
        &&& lines == seq![(false, "Configuration changed, applying changes..."@)] + match spec_preset_line(old_preset, new_preset) {
            Some(p) => seq![(true, p)],
            None => Seq::<(bool, Seq<char>)>::empty(),
        }
    } else if !geo_mode && current != computed {
        &&& r.needs_reload
        &&& !r.store_preset
        &&& lines == seq![(false, "State changed after config reload, applying changes..."@)]
    } else {
        &&& !r.needs_reload
        &&& !r.store_preset
        &&& lines == seq![(false, "Configuration and state unchanged"@)]
    }
}

fn preset_line(old_preset: &Option<String>, new_preset: &Option<String>) -> (r: Option<String>)
    ensures
        r.deep_view() == spec_preset_line(old_preset.deep_view(), new_preset.deep_view()),
{
    proof {
        reveal_strlit("Deactivated preset '");
        reveal_strlit("', restored default configuration");
        reveal_strlit("Active preset: ");
    }
    match (old_preset, new_preset) {
        (Some(old), None) => {
            let mut s = String::from_str("Deactivated preset '");
            s.append(old.as_str());
            s.append("', restored default configuration");
            Some(s)
        },
        (_, Some(new)) => {
            let mut s = String::from_str("Active preset: ");
            s.append(new.as_str());
            Some(s)
        },
        (None, None) => None,
    }
}

/// Compare a freshly loaded configuration with the running one.
/// `config_changed` tells whether the two differ, `computed` is the period
/// the new clock schedule gives now (unused under a geo schedule).
pub fn config_reload_response(
    config_changed: bool,
    geo_mode: bool,
    current: Period,
    computed: Period,
    old_preset: &Option<String>,
    new_preset: &Option<String>,
) -> (r: ConfigReloadResponse)
    ensures
        spec_config_reload_response(r, config_changed, geo_mode, current, computed, old_preset.deep_view(), new_preset.deep_view()),
{
    let mut lines: Vec<LogLine> = Vec::new();
    if config_changed {
        lines.push(LogLine::Indented(String::from_str("Configuration changed, applying changes...")));
        match preset_line(old_preset, new_preset) {
            Some(p) => lines.push(LogLine::Info(p)),
            None => {},
        }
        proof {
            reveal_strlit("Configuration changed, applying changes...");
            let v = lines@.map_values(|l: LogLine| log_line_view(l));
            assert(v =~= seq![(false, "Configuration changed, applying changes..."@)] + match spec_preset_line(old_preset.deep_view(), new_preset.deep_view()) {
                Some(p) => seq![(true, p)],
                None => Seq::<(bool, Seq<char>)>::empty(),
            });
        }
        ConfigReloadResponse { lines, needs_reload: true, store_preset: true }
    } else if !geo_mode && current != computed {
        lines.push(LogLine::Indented(String::from_str("State changed after config reload, applying changes...")));
        proof {
            reveal_strlit("State changed after config reload, applying changes...");
            assert(lines@.map_values(|l: LogLine| log_line_view(l)) =~= seq![(false, "State changed after config reload, applying changes..."@)]);
        }
        ConfigReloadResponse { lines, needs_reload: true, store_preset: false }
    } else {
        lines.push(LogLine::Indented(String::from_str("Configuration and state unchanged")));
        proof {
            reveal_strlit("Configuration and state unchanged");
            assert(lines@.map_values(|l: LogLine| log_line_view(l)) =~= seq![(false, "Configuration and state unchanged"@)]);
        }
        ConfigReloadResponse { lines, needs_reload: false, store_preset: false }
    }
}

/// Sleep state shared by the sleep monitor and the clock-change monitor.
///
/// The sleep monitor counts each wake before announcing it; the clock-change
/// monitor attributes one clock change to each counted wake and ignores it,
/// since waking moves the wall clock too.
#[derive(Debug, Clone, Copy, PartialEq, Eq, Structural)]
pub struct SleepTracker {
    pub is_sleeping: bool,
    pub wake_events_pending: u8,
}

/// What the clock-change monitor does with a change of the wall clock.
#[derive(Debug, Clone, Copy, PartialEq, Eq, Structural)]
pub enum TimeChangeVerdict {
    /// A recent wake moved the clock: ignore it.
    FromWake,
    /// The system is going to sleep: ignore it.
    WhileAsleep,
    /// A real adjustment: announce it and have the state re-evaluated.
    Report,
}

/// The tracker after a wake: the wake is counted (wrapping, as the atomic
/// counter does) and the system is awake.
pub open spec fn spec_record_wake(t: SleepTracker) -> SleepTracker {
    SleepTracker { is_sleeping: false, wake_events_pending: ((t.wake_events_pending + 1) % 256) as u8 }
}

/// The verdict on a clock change: first against a pending wake, then
/// against sleep.
pub open spec fn spec_time_change_verdict(t: SleepTracker) -> TimeChangeVerdict {
    if t.wake_events_pending > 0 {
        TimeChangeVerdict::FromWake
    } else if t.is_sleeping {
        TimeChangeVerdict::WhileAsleep
    } else {
        TimeChangeVerdict::Report
    }
}

/// The tracker after judging a clock change: one pending wake is used up.
pub open spec fn spec_after_time_change(t: SleepTracker) -> SleepTracker {
    SleepTracker {
        wake_events_pending: if t.wake_events_pending > 0 { (t.wake_events_pending - 1) as u8 } else { 0 },
        ..t
    }
}

impl SleepTracker {
    pub fn new() -> (t: Self)
        ensures
            !t.is_sleeping,
            t.wake_events_pending == 0,
    {
        SleepTracker { is_sleeping: false, wake_events_pending: 0 }
    }

    /// Attribute one clock change to a pending wake if one is expected;
    /// true when the change should be ignored.
    pub fn consume_pending_wake_event(&mut self) -> (b: bool)
        ensures
            b == (old(self).wake_events_pending > 0),
            *final(self) == spec_after_time_change(*old(self)),
    {
        if self.wake_events_pending > 0 {
            self.wake_events_pending = self.wake_events_pending - 1;
            true
        } else {
            false
        }
    }

    /// The system is about to sleep.
    pub fn record_sleep(&mut self)
        ensures
            *final(self) == (SleepTracker { is_sleeping: true, ..*old(self) }),
    {
        self.is_sleeping = true;
    }

    /// The system woke up.
    pub fn record_wake(&mut self)
        ensures
            *final(self) == spec_record_wake(*old(self)),
    {
        self.wake_events_pending = self.wake_events_pending.wrapping_add(1);
        self.is_sleeping = false;
    }

    /// Judge a clock change and use up the pending wake it is attributed to.
    pub fn judge_time_change(&mut self) -> (v: TimeChangeVerdict)
        ensures
            v == spec_time_change_verdict(*old(self)),
            *final(self) == spec_after_time_change(*old(self)),
    {
        if self.consume_pending_wake_event() {
            TimeChangeVerdict::FromWake
        } else if self.is_sleeping {
            TimeChangeVerdict::WhileAsleep
        } else {
            TimeChangeVerdict::Report
        }
    }
}

/// How often the sleep monitor is restarted after a failure.
pub const MAX_MONITOR_RESTARTS: u8 = 3;

/// Whether a failed sleep monitor is started again: while fewer than the
/// allowed number of restarts were made.
pub fn should_restart_monitor(restart_count: u8) -> (b: bool)
    ensures
        b == (restart_count < MAX_MONITOR_RESTARTS),
{
    restart_count < MAX_MONITOR_RESTARTS
}

/// Every counted wake makes exactly one later clock change be ignored:
/// the change after a wake is attributed to it, and the count of pending
/// wakes is back to what it was before the wake.
pub proof fn lemma_wake_absorbs_one_change(t: SleepTracker)
    requires
        t.wake_events_pending < 255,
    ensures
        spec_time_change_verdict(spec_record_wake(t)) == TimeChangeVerdict::FromWake,
        spec_after_time_change(spec_record_wake(t)) == (SleepTracker { is_sleeping: false, ..t }),
{
}

/// With no wake pending, a clock change while awake is reported and leaves
/// the tracker as it was.
pub proof fn lemma_awake_change_is_reported(t: SleepTracker)
    requires
        t.wake_events_pending == 0,
        !t.is_sleeping,
    ensures
        spec_time_change_verdict(t) == TimeChangeVerdict::Report,
        spec_after_time_change(t) == t,
{
}

} // verus!
