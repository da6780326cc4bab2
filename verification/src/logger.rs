//! The text of the structured log: its line shapes, the timestamp prefix of
//! simulation runs, and the removal of terminal colour codes for log files.
//! Writing the lines out, and the switch the program keeps for the whole
//! process, live with the program.

use vstd::prelude::*;
use crate::text::{chars_of, push_char};

verus! {

/// The switch that turns log output on and off.
#[derive(Debug, Clone, Copy, PartialEq, Eq, Structural)]
pub struct Log {
    pub enabled: bool,
}

impl Log {
    /// Logging starts enabled.
    pub fn new() -> (l: Log)
        ensures
            l.enabled,
    {
        Log { enabled: true }
    }

    /// Enable or disable logging, for quiet stretches such as automated runs.
    pub fn set_enabled(&mut self, enabled: bool)
        ensures
            final(self).enabled == enabled,
    {
        self.enabled = enabled;
    }

    /// Whether logging is enabled.
    pub fn is_enabled(&self) -> (b: bool)
        ensures
            b == self.enabled,
    {
        self.enabled
    }
}

/// The shapes of log lines.
#[derive(Debug, Clone, Copy, PartialEq, Eq, Structural)]
pub enum LineKind {
    /// `┣ message`, a line of the current block.
    Decorated,
    /// `┃   message`, a detail line.
    Indented,
    /// `┃`, an empty spacing line (the message is ignored).
    Pipe,
    /// An empty pipe line, then `┣ message`.
    BlockStart,
    /// `╹`, the end of the log (the message is ignored).
    End,
    Info,
    Debug,
    Warning,
    Error,
    Critical,
    /// An empty pipe line, then the error closing the log.
    ErrorExit,
}

/// The text of a log line of `kind` carrying `message`, each physical line
/// starting with `prefix` and ending with a newline.
pub open spec fn spec_format_line(kind: LineKind, prefix: Seq<char>, message: Seq<char>) -> Seq<char> {
    let nl = seq!['\n'];
    match kind {
        LineKind::Decorated => prefix + "┣ "@ + message + nl,
        LineKind::Indented => prefix + "┃   "@ + message + nl,
        LineKind::Pipe => prefix + "┃"@ + nl,
        LineKind::BlockStart => prefix + "┃"@ + nl + prefix + "┣ "@ + message + nl,
        LineKind::End => prefix + "╹"@ + nl,
        LineKind::Info => prefix + "┣[\x1b[32mINFO\x1b[0m] "@ + message + nl,
        LineKind::Debug => prefix + "┣[\x1b[32mDEBUG\x1b[0m] "@ + message + nl,
        LineKind::Warning => prefix + "┣[\x1b[33mWARNING\x1b[0m] "@ + message + nl,
        LineKind::Error => prefix + "┣[\x1b[31mERROR\x1b[0m] "@ + message + nl,
        LineKind::Critical => prefix + "┣[\x1b[31mCRITICAL\x1b[0m] "@ + message + nl,
        LineKind::ErrorExit => prefix + "┃"@ + nl + prefix + "┗[\x1b[31mERROR\x1b[0m] "@ + message + nl,
    }
}

/// The marker that opens a line of `kind` after its prefix.
pub open spec fn spec_marker(kind: LineKind) -> Seq<char> {
    match kind {
        LineKind::Decorated | LineKind::BlockStart => "┣ "@,
        LineKind::Indented => "┃   "@,
        LineKind::Pipe => "┃"@,
        LineKind::End => "╹"@,
        LineKind::Info => "┣[\x1b[32mINFO\x1b[0m] "@,
        LineKind::Debug => "┣[\x1b[32mDEBUG\x1b[0m] "@,
        LineKind::Warning => "┣[\x1b[33mWARNING\x1b[0m] "@,
        LineKind::Error => "┣[\x1b[31mERROR\x1b[0m] "@,
        LineKind::Critical => "┣[\x1b[31mCRITICAL\x1b[0m] "@,
        LineKind::ErrorExit => "┗[\x1b[31mERROR\x1b[0m] "@,
    }
}

fn marker(kind: LineKind) -> (s: &'static str)
    ensures
        s@ == spec_marker(kind),
{
    match kind {
        LineKind::Decorated | LineKind::BlockStart => "┣ ",
        LineKind::Indented => "┃   ",
        LineKind::Pipe => "┃",
        LineKind::End => "╹",
        LineKind::Info => "┣[\x1b[32mINFO\x1b[0m] ",
        LineKind::Debug => "┣[\x1b[32mDEBUG\x1b[0m] ",
        LineKind::Warning => "┣[\x1b[33mWARNING\x1b[0m] ",
        LineKind::Error => "┣[\x1b[31mERROR\x1b[0m] ",
        LineKind::Critical => "┣[\x1b[31mCRITICAL\x1b[0m] ",
        LineKind::ErrorExit => "┗[\x1b[31mERROR\x1b[0m] ",
    }
}

/// Format a log line.
pub fn format_line(kind: LineKind, prefix: &str, message: &str) -> (s: String)
    ensures
        s@ == spec_format_line(kind, prefix@, message@),
{
    let mut s = String::new();
    proof {
        reveal_strlit("┃");
    }
    match kind {
        LineKind::BlockStart | LineKind::ErrorExit => {
            s.append(prefix);
            s.append("┃");
            push_char(&mut s, '\n');
        },
        _ => {},
    }
    s.append(prefix);
    s.append(marker(kind));
    match kind {
        LineKind::Pipe | LineKind::End => {},
        _ => {
            s.append(message);
        },
    }
    push_char(&mut s, '\n');
    proof {
        let nl = seq!['\n'];
        match kind {
            LineKind::BlockStart | LineKind::ErrorExit => {
                assert(s@ =~= prefix@ + "┃"@ + nl + prefix@ + spec_marker(kind) + message@ + nl);
            },
            LineKind::Pipe | LineKind::End => {
                assert(s@ =~= prefix@ + spec_marker(kind) + nl);
            },
            _ => {
                assert(s@ =~= prefix@ + spec_marker(kind) + message@ + nl);
            },
        }
    }
    s
}

/// A character that may stand inside a colour code: a digit or `;`.
pub open spec fn is_code_param(c: char) -> bool {
    ('0' <= c && c <= '9') || c == ';'
}

/// How many digits and semicolons `s` starts with.
pub open spec fn params_len(s: Seq<char>) -> nat
    decreases s.len(),
{
    if s.len() > 0 && is_code_param(s[0]) {
        1 + params_len(s.drop_first())
    } else {
        0
    }
}

/// The length of the colour code at the start of `s`, if one starts there:
/// an escape character, `[`, any digits and semicolons, then `m`.
pub open spec fn code_len(s: Seq<char>) -> Option<nat> {
    if s.len() >= 2 && s[0] == '\x1b' && s[1] == '[' {
        let k = params_len(s.subrange(2, s.len() as int));
        if 2 + k < s.len() && s[2 + k as int] == 'm' {
            Some((3 + k) as nat)
        } else {
            None
        }
    } else {
        None
    }
}

/// `s` without colour codes: each `ESC [` digits-and-semicolons `m` is
/// removed; every other character, escapes that start no such code
/// included, is kept.
pub open spec fn spec_strip_ansi(s: Seq<char>) -> Seq<char>
    decreases s.len(),
{
    if s.len() == 0 {
        s
    } else {
        match code_len(s) {
            Some(k) => if k <= s.len() {
                spec_strip_ansi(s.subrange(k as int, s.len() as int))
            } else {
                s
            },
            None => seq![s[0]] + spec_strip_ansi(s.drop_first()),
        }
    }
}

/// The position after the digits and semicolons that start at `i`.
fn scan_params(v: &Vec<char>, i: usize) -> (j: usize)
    requires
        i <= v@.len(),
    ensures
        i <= j <= v@.len(),
        j - i == params_len(v@.subrange(i as int, v@.len() as int)),
    decreases v@.len() - i,
{
    if i == v.len() {
        return i;
    }
    proof {
        assert(v@.subrange(i as int, v@.len() as int).drop_first() =~= v@.subrange(i + 1, v@.len() as int));
    }
    let c = v[i];
    if ('0' <= c && c <= '9') || c == ';' {
        scan_params(v, i + 1)
    } else {
        i
    }
}

/// The length of the colour code that starts at `i`, if one does.
fn code_at(v: &Vec<char>, i: usize) -> (r: Option<usize>)
    requires
        i < v@.len(),
    ensures
        match code_len(v@.subrange(i as int, v@.len() as int)) {
            Some(k) => r == Some(k as usize) && i + k <= v@.len(),
            None => r is None,
        },
{
    let n = v.len();
    let ghost rest = v@.subrange(i as int, n as int);
    if !(i + 1 < n && v[i] == '\x1b' && v[i + 1] == '[') {
        return None;
    }
    let j = scan_params(v, i + 2);
    proof {
        assert(rest.subrange(2, rest.len() as int) =~= v@.subrange(i + 2, n as int));
    }
    if j < n && v[j] == 'm' {
        Some(j - i + 1)
    } else {
        None
    }
}

/// Remove colour codes from text bound for a log file.
pub fn strip_ansi_codes(text: &str) -> (r: String)
    ensures
        r@ == spec_strip_ansi(text@),
{
    let v = chars_of(text);
    let n = v.len();
    let mut out = String::new();
    let mut i: usize = 0;
    proof {
        assert(v@.subrange(0, n as int) =~= v@);
        assert(out@ + spec_strip_ansi(v@) =~= spec_strip_ansi(v@));
    }
    while i < n
        invariant
            n == v@.len(),
            i <= n,
            out@ + spec_strip_ansi(v@.subrange(i as int, n as int)) == spec_strip_ansi(v@),
        decreases n - i,
    {
        let ghost rest = v@.subrange(i as int, n as int);
        match code_at(&v, i) {
            Some(k) => {
                proof {
                    assert(rest.subrange(k as int, rest.len() as int) =~= v@.subrange(i + k, n as int));
                }
                i = i + k;
            },
            None => {
                proof {
                    assert(rest.drop_first() =~= v@.subrange(i + 1, n as int));
                    assert(out@ + seq![v@[i as int]] + spec_strip_ansi(rest.drop_first()) =~= out@ + (seq![rest[0]] + spec_strip_ansi(rest.drop_first())));
                }
                push_char(&mut out, v[i]);
                i = i + 1;
            },
        }
    }
    proof {
        assert(v@.subrange(n as int, n as int) =~= Seq::<char>::empty());
        assert(out@ + Seq::<char>::empty() =~= out@);
        assert(v@.subrange(0, n as int) =~= v@);
    }
    out
}

/// The timestamp prefix of a simulation run: none outside simulation; the
/// local time, or in geo mode both the coordinates' and the local time when
/// they read differently.
pub open spec fn spec_timestamp_prefix(simulated: bool, coordinate_time: Option<Seq<char>>, local_time: Seq<char>) -> Seq<char> {
    if !simulated {
        Seq::empty()
    } else {
        match coordinate_time {
            Some(c) => if c != local_time {
                "["@ + c + "C] ["@ + local_time + "L] "@
            } else {
                "["@ + local_time + "] "@
            },
            None => "["@ + local_time + "] "@,
        }
    }
}

/// Build the timestamp prefix from the formatted clock readings.
pub fn timestamp_prefix(simulated: bool, coordinate_time: Option<&str>, local_time: &str) -> (s: String)
    ensures
        s@ == spec_timestamp_prefix(simulated, match coordinate_time { Some(c) => Some(c@), None => None }, local_time@),
{
    proof {
        reveal_strlit("[");
        reveal_strlit("C] [");
        reveal_strlit("L] ");
        reveal_strlit("] ");
    }
    let mut s = String::new();
    if !simulated {
        return s;
    }
    s.append("[");
    match coordinate_time {
        Some(c) => if !crate::clock::same_text(c, local_time) {
            s.append(c);
            s.append("C] [");
            s.append(local_time);
            s.append("L] ");
        } else {
            s.append(local_time);
            s.append("] ");
        },
        None => {
            s.append(local_time);
            s.append("] ");
        },
    }
    s
}

/// A file log holds what the terminal shows, without its colour codes:
/// text in which no colour code starts (an escape that opens no
/// `ESC [` digits-and-semicolons `m` sequence included) is left unchanged.
pub proof fn lemma_strip_without_codes(s: Seq<char>)
    requires
        forall|i: int| 0 <= i < s.len() ==> #[trigger] code_len(s.subrange(i, s.len() as int)) is None,
    ensures
        spec_strip_ansi(s) == s,
    decreases s.len(),
{
    if s.len() > 0 {
        let t = s.drop_first();
        assert(s.subrange(0, s.len() as int) =~= s);
        assert forall|i: int| 0 <= i < t.len() implies #[trigger] code_len(t.subrange(i, t.len() as int)) is None by {
            assert(t.subrange(i, t.len() as int) =~= s.subrange(i + 1, s.len() as int));
            assert(code_len(s.subrange(i + 1, s.len() as int)) is None);
        }
        lemma_strip_without_codes(t);
        assert(seq![s[0]] + t =~= s);
    }
}

} // verus!
