//! The lock-file record of a running instance, and the decisions made on it.

use vstd::prelude::*;
use crate::text::{
    chars_of, decimal, lines_of, parse_u32, parse_u32_spec, push_decimal, split_newlines, string_of,
    strip_cr, trim, trim_bounds, no_newline, is_ws, split_nl, trim_start, lemma_parse_decimal,
    lemma_decimal_digits, lemma_trim_identity, lemma_split_nl_single, lemma_split_nl_concat,
    lemma_trim_end_push_ws, strip_cr_end,
};

verus! {

/// Information about a running sunsetr instance, as its lock file records it.
#[derive(Debug, Clone)]
pub struct InstanceInfo {
    pub pid: u32,
    pub compositor: String,
    /// The custom config directory the instance was started with.
    pub config_dir: Option<String>,
    /// The login session the instance belongs to.
    pub session_id: Option<String>,
}

/// The record as plain values: pid, compositor, config directory, session.
pub type InstanceRecord = (u32, Seq<char>, Option<Seq<char>>, Option<Seq<char>>);

impl View for InstanceInfo {
    type V = InstanceRecord;

    open spec fn view(&self) -> InstanceRecord {
        (self.pid, self.compositor@, self.config_dir.deep_view(), self.session_id.deep_view())
    }
}

/// Why lock file contents could not be read.
#[derive(Debug, Clone, Copy, PartialEq, Eq, Structural)]
pub enum LockContentsError {
    /// The file holds nothing but white space.
    Empty,
    /// The file does not hold two to four lines.
    InvalidFormat,
    /// The first line is not a process id.
    InvalidPid,
}

impl LockContentsError {
    /// The message the error is reported with.
    pub fn message(&self) -> (s: &'static str)
        ensures
            s@ == (match *self {
                LockContentsError::Empty => "Lock file is empty"@,
                LockContentsError::InvalidFormat => "Invalid lock file format (expected 2-4 lines)"@,
                LockContentsError::InvalidPid => "Invalid PID format in lock file"@,
            }),
    {
        match self {
            LockContentsError::Empty => "Lock file is empty",
            LockContentsError::InvalidFormat => "Invalid lock file format (expected 2-4 lines)",
            LockContentsError::InvalidPid => "Invalid PID format in lock file",
        }
    }
}

/// Line `i` if it is present and not empty.
pub open spec fn optional_line(ls: Seq<Seq<char>>, i: int) -> Option<Seq<char>> {
    if i < ls.len() && ls[i].len() > 0 {
        Some(ls[i])
    } else {
        None
    }
}

/// What a lock file with contents `c` holds: the lines of the trimmed text
/// are the pid, the compositor, an optional config directory and an optional
/// session id (an empty line stands for an absent one).
pub open spec fn spec_from_lock_contents(c: Seq<char>) -> Result<InstanceRecord, LockContentsError> {
    let ls = lines_of(trim(c));
    if ls.len() == 0 {
        Err(LockContentsError::Empty)
    } else if ls.len() < 2 || ls.len() > 4 {
        Err(LockContentsError::InvalidFormat)
    } else {
        match parse_u32_spec(ls[0]) {
            None => Err(LockContentsError::InvalidPid),
            Some(pid) => Ok((pid, ls[1], optional_line(ls, 2), optional_line(ls, 3))),
        }
    }
}

/// `"\n" + x` for a present value, `"\n"` for an absent one.
pub open spec fn line_or_empty(o: Option<Seq<char>>) -> Seq<char> {
    match o {
        Some(x) => seq!['\n'] + x,
        None => seq!['\n'],
    }
}

/// The text `to_lock_contents` writes for a record.
pub open spec fn spec_to_lock_contents(r: InstanceRecord) -> Seq<char> {
    decimal(r.0 as nat) + seq!['\n'] + r.1 + line_or_empty(r.2) + line_or_empty(r.3)
}

/// The stripped piece `pieces[i]` as a string, or None when it is empty or
/// absent.
fn optional_piece(pieces: &Vec<Vec<char>>, i: usize) -> (r: Option<String>)
    ensures
        r.deep_view() == optional_line(pieces@.map_values(|p: Vec<char>| strip_cr(p@)), i as int),
{
    if i < pieces.len() {
        let e = strip_cr_end(&pieces[i]);
        if e > 0 {
            Some(string_of(&pieces[i], 0, e))
        } else {
            None
        }
    } else {
        None
    }
}

impl InstanceInfo {
    /// Parse instance info from lock file contents.
    ///
    /// Lock file format, after trimming white space from both ends:
    /// - Line 1: PID
    /// - Line 2: Compositor name
    /// - Line 3: Config directory (optional, empty if default)
    /// - Line 4: Session ID (optional)
    pub fn from_lock_contents(contents: &str) -> (r: Result<InstanceInfo, LockContentsError>)
        ensures
            match r {
                Ok(info) => spec_from_lock_contents(contents@) == Ok::<InstanceRecord, LockContentsError>(info@),
                Err(e) => spec_from_lock_contents(contents@) == Err::<InstanceRecord, LockContentsError>(e),
            },
    {
        let chars = chars_of(contents);
        let (a, b) = trim_bounds(&chars);
        let ghost t = chars@.subrange(a as int, b as int);
        if a == b {
            return Err(LockContentsError::Empty);
        }
        let pieces = split_newlines(&chars, a, b);
        let ghost ls = lines_of(t);
        proof {
            assert(pieces@.map_values(|p: Vec<char>| strip_cr(p@)) =~= ls);
        }
        if pieces.len() < 2 || pieces.len() > 4 {
            return Err(LockContentsError::InvalidFormat);
        }
        let e0 = strip_cr_end(&pieces[0]);
        let pid = match parse_u32(&pieces[0], 0, e0) {
            Some(p) => p,
            None => {
                return Err(LockContentsError::InvalidPid);
            },
        };
        let e1 = strip_cr_end(&pieces[1]);
        let compositor = string_of(&pieces[1], 0, e1);
        let config_dir = optional_piece(&pieces, 2);
        let session_id = optional_piece(&pieces, 3);
        let info = InstanceInfo { pid, compositor, config_dir, session_id };
        proof {
            assert(ls[0] == strip_cr(pieces@[0]@));
            assert(ls[1] == strip_cr(pieces@[1]@));
        }
        Ok(info)
    }

    /// The lock file text for this instance: pid, compositor, config
    /// directory and session id on four lines, an absent value as an empty
    /// line.
    pub fn to_lock_contents(&self) -> (s: String)
        ensures
            s@ == spec_to_lock_contents(self@),
    {
        let mut s = String::new();
        push_decimal(&mut s, self.pid as u64);
        s.append("\n");
        s.append(self.compositor.as_str());
        match &self.config_dir {
            Some(d) => {
                s.append("\n");
                s.append(d.as_str());
            },
            None => {
                s.append("\n");
            },
        }
        match &self.session_id {
            Some(x) => {
                s.append("\n");
                s.append(x.as_str());
            },
            None => {
                s.append("\n");
            },
        }
        proof {
            reveal_strlit("\n");
        }
        s
    }
}

} // verus!

verus! {

/// The field that ends the written record: the session id if present, else
/// the config directory if present, else the compositor.
pub open spec fn final_field(r: InstanceRecord) -> Seq<char> {
    match (r.2, r.3) {
        (_, Some(s)) => s,
        (Some(d), None) => d,
        (None, None) => r.1,
    }
}

pub open spec fn ends_with_cr(s: Seq<char>) -> bool {
    s.len() > 0 && s.last() == '\r'
}

/// The records that survive a write and a read unchanged: no field holds a
/// newline, present optional fields are not empty, the compositor and the
/// config directory do not end with a carriage return (it would be taken for
/// part of the line break), and the last written field is not empty and does
/// not end with white space (it would be trimmed).
pub open spec fn lock_record_round_trips(r: InstanceRecord) -> bool {
    &&& no_newline(r.1)
    &&& !ends_with_cr(r.1)
    &&& (r.2 matches Some(d) ==> no_newline(d) && d.len() > 0 && !ends_with_cr(d))
    &&& (r.3 matches Some(s) ==> no_newline(s) && s.len() > 0)
    &&& final_field(r).len() > 0
    &&& !is_ws(final_field(r).last())
}

proof fn lemma_strip_cr_identity(s: Seq<char>)
    requires
        !ends_with_cr(s),
    ensures
        strip_cr(s) == s,
{
}

/// Reading back what `to_lock_contents` writes gives the same record, for
/// every record that `lock_record_round_trips` admits.
pub proof fn lemma_lock_contents_round_trip(r: InstanceRecord)
    requires
        lock_record_round_trips(r),
    ensures
        spec_from_lock_contents(spec_to_lock_contents(r)) == Ok::<InstanceRecord, LockContentsError>(r),
{
    let dec = decimal(r.0 as nat);
    lemma_parse_decimal(r.0);
    lemma_decimal_digits(r.0 as nat);
    let c = r.1;
    let out = spec_to_lock_contents(r);
    let nl = seq!['\n'];
    assert(no_newline(dec));
    assert(!ends_with_cr(dec));
    lemma_strip_cr_identity(dec);
    lemma_strip_cr_identity(c);
    assert(!is_ws(out[0])) by {
        assert(out[0] == dec[0]);
    }
    match (r.2, r.3) {
        (_, Some(s)) => {
            let dd = match r.2 {
                Some(d) => d,
                None => Seq::<char>::empty(),
            };
            assert(out =~= dec + nl + (c + nl + (dd + nl + s)));
            assert(out.last() == s.last());
            lemma_trim_identity(out);
            lemma_split_nl_single(s);
            lemma_split_nl_concat(dd, s);
            lemma_split_nl_concat(c, dd + nl + s);
            lemma_split_nl_concat(dec, c + nl + (dd + nl + s));
            let ls = split_nl(out);
            assert(ls =~= seq![dec, c, dd, s]);
            lemma_strip_cr_identity(s);
            if r.2 is Some {
                lemma_strip_cr_identity(dd);
            }
            assert(lines_of(trim(out)) =~= seq![dec, c, strip_cr(dd), s]);
            assert(strip_cr(dd) == dd);
        },
        (Some(d), None) => {
            let core = dec + nl + (c + nl + d);
            assert(out =~= core.push('\n'));
            lemma_trim_end_push_ws(core, '\n');
            assert(core.last() == d.last());
            assert(core[0] == dec[0]);
            lemma_trim_identity(core);
            assert(trim_start(out) == out);
            assert(trim(out) == core);
            lemma_split_nl_single(d);
            lemma_split_nl_concat(c, d);
            lemma_split_nl_concat(dec, c + nl + d);
            assert(split_nl(core) =~= seq![dec, c, d]);
            lemma_strip_cr_identity(d);
            assert(lines_of(trim(out)) =~= seq![dec, c, d]);
        },
        (None, None) => {
            let core = dec + nl + c;
            assert(out =~= core.push('\n').push('\n'));
            lemma_trim_end_push_ws(core.push('\n'), '\n');
            lemma_trim_end_push_ws(core, '\n');
            assert(core.last() == c.last());
            assert(core[0] == dec[0]);
            lemma_trim_identity(core);
            assert(trim_start(out) == out);
            assert(trim(out) == core);
            lemma_split_nl_single(c);
            lemma_split_nl_concat(dec, c);
            assert(split_nl(core) =~= seq![dec, c]);
            assert(lines_of(trim(out)) =~= seq![dec, c]);
        },
    }
}

/// Whether an instance belongs to an earlier login session: it recorded a
/// session and the current session is known and different.
pub open spec fn spec_is_stale_process(stored: Option<Seq<char>>, current: Option<Seq<char>>) -> bool {
    match (stored, current) {
        (Some(a), Some(b)) => a != b,
        _ => false,
    }
}

pub fn is_stale_process(stored_session_id: Option<&str>, current_session_id: Option<&str>) -> (b: bool)
    ensures
        b == spec_is_stale_process(
            match stored_session_id { Some(x) => Some(x@), None => None },
            match current_session_id { Some(x) => Some(x@), None => None },
        ),
{
    match (stored_session_id, current_session_id) {
        (Some(a), Some(b)) => !crate::clock::same_text(a, b),
        _ => false,
    }
}

/// What to do about a lock held by another instance.
#[derive(Debug, Clone, Copy, PartialEq, Eq, Structural)]
pub enum ConflictAction {
    /// The lock file was not there any more: try again.
    Retry,
    /// The lock file cannot be read as an instance record: remove it.
    RemoveInvalidLock,
    /// The recorded process is gone: remove the lock.
    RemoveStaleLock,
    /// The instance belongs to an earlier session: shut it down at once,
    /// wait for its lock to go, and start afresh in the background.
    RecoverFromPreviousSession,
    /// A live instance of this session holds the lock: report it and stop.
    ReportRunning,
}

/// The answer to a held lock, from what was found: the file's contents (None
/// when it could not be read), whether the recorded process is alive, and
/// the current login session.
pub open spec fn spec_conflict_action(contents: Option<Seq<char>>, process_alive: bool, current_session: Option<Seq<char>>) -> ConflictAction {
    match contents {
        None => ConflictAction::Retry,
        Some(c) => match spec_from_lock_contents(c) {
            Err(_) => ConflictAction::RemoveInvalidLock,
            Ok(r) => if !process_alive {
                ConflictAction::RemoveStaleLock
            } else if spec_is_stale_process(r.3, current_session) {
                ConflictAction::RecoverFromPreviousSession
            } else {
                ConflictAction::ReportRunning
            },
        },
    }
}

/// Decide about a held lock. `process_alive` tells whether the process the
/// lock names is running (it is only consulted for a readable record).
pub fn conflict_action(contents: Option<&str>, process_alive: bool, current_session: Option<&str>) -> (a: ConflictAction)
    ensures
        a == spec_conflict_action(
            match contents { Some(x) => Some(x@), None => None },
            process_alive,
            match current_session { Some(x) => Some(x@), None => None },
        ),
{
    let c = match contents {
        None => {
            return ConflictAction::Retry;
        },
        Some(c) => c,
    };
    match InstanceInfo::from_lock_contents(c) {
        Err(_) => ConflictAction::RemoveInvalidLock,
        Ok(info) => if !process_alive {
            ConflictAction::RemoveStaleLock
        } else {
            let stored: Option<&str> = match &info.session_id {
                Some(s) => Some(s.as_str()),
                None => None,
            };
            if is_stale_process(stored, current_session) {
                ConflictAction::RecoverFromPreviousSession
            } else {
                ConflictAction::ReportRunning
            }
        },
    }
}

/// How many times the recovery waits (100 ms each) for the old instance
/// to remove its lock.
pub const RECOVERY_WAIT_ATTEMPTS: u32 = 30;

/// Whether the recovery keeps waiting for the old lock to disappear.
pub fn keep_waiting_for_lock(attempts: u32, lock_exists: bool) -> (b: bool)
    ensures
        b == (attempts < RECOVERY_WAIT_ATTEMPTS && lock_exists),
{
    attempts < RECOVERY_WAIT_ATTEMPTS && lock_exists
}

/// The pid a test-mode lock file names: its trimmed text as a number.
pub fn test_lock_pid(contents: &str) -> (r: Option<u32>)
    ensures
        r == parse_u32_spec(trim(contents@)),
{
    let chars = chars_of(contents);
    let (a, b) = trim_bounds(&chars);
    parse_u32(&chars, a, b)
}

/// Why no running instance could be named.
#[derive(Debug, Clone, Copy, PartialEq, Eq, Structural)]
pub enum RunningInstanceError {
    /// No lock file, or its process is gone.
    NotRunning,
    /// The lock file cannot be read as an instance record.
    Malformed(LockContentsError),
}

impl RunningInstanceError {
    pub fn message(&self) -> (s: &'static str)
        ensures
            s@ == match *self {
                RunningInstanceError::NotRunning => "No sunsetr instance running"@,
                RunningInstanceError::Malformed(e) => match e {
                    LockContentsError::Empty => "Lock file is empty"@,
                    LockContentsError::InvalidFormat => "Invalid lock file format (expected 2-4 lines)"@,
                    LockContentsError::InvalidPid => "Invalid PID format in lock file"@,
                },
            },
    {
        match self {
            RunningInstanceError::NotRunning => "No sunsetr instance running",
            RunningInstanceError::Malformed(e) => e.message(),
        }
    }
}

/// The instance a main lock file records: None without a file, the
/// record otherwise (whether its process still runs is checked next).
pub fn recorded_instance(contents: Option<&str>) -> (r: Result<Option<InstanceInfo>, LockContentsError>)
    ensures
        match contents {
            None => r is Ok && r->Ok_0 is None,
            Some(c) => match r {
                Ok(Some(info)) => spec_from_lock_contents(c@) == Ok::<InstanceRecord, LockContentsError>(info@),
                Ok(None) => false,
                Err(e) => spec_from_lock_contents(c@) == Err::<InstanceRecord, LockContentsError>(e),
            },
        },
{
    match contents {
        None => Ok(None),
        Some(c) => match InstanceInfo::from_lock_contents(c) {
            Ok(info) => Ok(Some(info)),
            Err(e) => Err(e),
        },
    }
}

/// The pid of the running instance: the recorded one when its process is
/// alive (`alive`), else `NotRunning`.
pub fn get_running_instance_pid(recorded: Result<Option<InstanceInfo>, LockContentsError>, alive: bool) -> (r: Result<u32, RunningInstanceError>)
    ensures
        r == match recorded {
            Err(e) => Err(RunningInstanceError::Malformed(e)),
            Ok(None) => Err(RunningInstanceError::NotRunning),
            Ok(Some(info)) => if alive { Ok(info.pid) } else { Err(RunningInstanceError::NotRunning) },
        },
{
    match recorded {
        Err(e) => Err(RunningInstanceError::Malformed(e)),
        Ok(None) => Err(RunningInstanceError::NotRunning),
        Ok(Some(info)) => if alive {
            Ok(info.pid)
        } else {
            Err(RunningInstanceError::NotRunning)
        },
    }
}

/// The `/proc` entry of a process, whose presence tells that it runs.
pub open spec fn spec_proc_path(pid: u32) -> Seq<char> {
    "/proc/"@ + decimal(pid as nat)
}

pub fn proc_path(pid: u32) -> (s: String)
    ensures
        s@ == spec_proc_path(pid),
{
    let mut s = String::from_str("/proc/");
    proof {
        reveal_strlit("/proc/");
    }
    push_decimal(&mut s, pid as u64);
    s
}

/// A lock held by a live process of the current session is reported, never
/// removed: removal happens only for unreadable records and dead processes.
pub proof fn lemma_live_instance_never_removed(c: Seq<char>, current: Option<Seq<char>>)
    requires
        spec_from_lock_contents(c) is Ok,
    ensures
        spec_conflict_action(Some(c), true, current) != ConflictAction::RemoveStaleLock,
        spec_conflict_action(Some(c), true, current) != ConflictAction::RemoveInvalidLock,
{
}

/// An instance's own freshly written lock, read back by a process of the
/// same session, is a running instance to report, not stale.
pub proof fn lemma_own_session_lock_reported(r: InstanceRecord)
    requires
        lock_record_round_trips(r),
    ensures
        spec_conflict_action(Some(spec_to_lock_contents(r)), true, r.3) == ConflictAction::ReportRunning,
{
    lemma_lock_contents_round_trip(r);
}

} // verus!
