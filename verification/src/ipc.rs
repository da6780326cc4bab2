//! The event channel to subscribers: the server's table of connected
//! clients, when a client counts as gone, and how a client reads what the
//! server sends. Sockets and JSON stay with the program.

use vstd::prelude::*;
use std::collections::HashMap;
use crate::text::{chars_of, decimal, push_char, push_decimal, string_of, trim, trim_bounds};

verus! {

broadcast use vstd::std_specs::hash::group_hash_axioms;

/// The connection to the daemon was closed.
#[derive(Debug, Clone, Copy, PartialEq, Eq, Structural)]
pub struct ConnectionClosed;

impl ConnectionClosed {
    pub fn message(&self) -> (s: &'static str)
        ensures
            s@ == "IPC connection closed"@,
    {
        "IPC connection closed"
    }
}

/// The server's connected clients, by the id each got on arrival. `C` is
/// the program's connection.
#[derive(Debug)]
pub struct ClientRegistry<C> {
    pub next_client_id: u64,
    pub clients: HashMap<u64, C>,
}

impl<C> ClientRegistry<C> {
    /// Every client's id was handed out before the next one.
    pub open spec fn wf(self) -> bool {
        forall|id: u64| #[trigger] self.clients@.contains_key(id) ==> id < self.next_client_id
    }

    pub fn new() -> (r: Self)
        ensures
            r.clients@ == Map::<u64, C>::empty(),
            r.next_client_id == 0,
            r.wf(),
    {
        ClientRegistry { next_client_id: 0, clients: HashMap::new() }
    }

    /// Add a client under a fresh id, which is returned.
    pub fn register(&mut self, client: C) -> (id: u64)
        requires
            old(self).wf(),
            old(self).next_client_id < u64::MAX,
        ensures
            id == old(self).next_client_id,
            !old(self).clients@.contains_key(id),
            final(self).next_client_id == old(self).next_client_id + 1,
            final(self).clients@ == old(self).clients@.insert(id, client),
            final(self).wf(),
    {
        let id = self.next_client_id;
        self.next_client_id = self.next_client_id + 1;
        self.clients.insert(id, client);
        id
    }

    /// Drop the client with `id`, handing it back when it was there.
    pub fn remove(&mut self, id: u64) -> (r: Option<C>)
        requires
            old(self).wf(),
        ensures
            final(self).clients@ == old(self).clients@.remove(id),
            final(self).next_client_id == old(self).next_client_id,
            match r {
                Some(c) => old(self).clients@.contains_key(id) && c == old(self).clients@[id],
                None => !old(self).clients@.contains_key(id),
            },
            final(self).wf(),
    {
        self.clients.remove(&id)
    }

    /// The number of connected clients.
    pub fn len(&self) -> (n: usize)
        ensures
            n == self.clients@.len(),
    {
        self.clients.len()
    }
}

/// What a one-byte probe read on a client's socket gave.
#[derive(Debug, Clone, Copy, PartialEq, Eq, Structural)]
pub enum ProbeResult {
    /// End of stream.
    Eof,
    /// The client sent data (ignored: the channel only goes to clients).
    Data,
    /// Nothing waiting.
    WouldBlock,
    /// Any other error.
    Error,
}

/// A client is gone at end of stream or on an error; data or an empty
/// socket leave it connected.
pub fn is_disconnected(p: ProbeResult) -> (b: bool)
    ensures
        b == (p == ProbeResult::Eof || p == ProbeResult::Error),
{
    match p {
        ProbeResult::Eof | ProbeResult::Error => true,
        ProbeResult::Data | ProbeResult::WouldBlock => false,
    }
}

/// The debug line on a dropped client: a one-shot client (under two
/// seconds) with its milliseconds, else its seconds, with the connections
/// left.
pub open spec fn spec_disconnect_message(elapsed_ms: u64, remaining: u64) -> Seq<char> {
    if elapsed_ms / 1000 < 2 {
        "IPC one-shot client served ("@ + decimal(elapsed_ms as nat) + "ms), connections: "@ + decimal(remaining as nat)
    } else {
        "IPC client disconnected after "@ + decimal((elapsed_ms / 1000) as nat) + "s, connections: "@ + decimal(remaining as nat)
    }
}

pub fn disconnect_message(elapsed_ms: u64, remaining: u64) -> (s: String)
    ensures
        s@ == spec_disconnect_message(elapsed_ms, remaining),
{
    proof {
        reveal_strlit("IPC one-shot client served (");
        reveal_strlit("ms), connections: ");
        reveal_strlit("IPC client disconnected after ");
        reveal_strlit("s, connections: ");
    }
    if elapsed_ms / 1000 < 2 {
        let mut s = String::from_str("IPC one-shot client served (");
        push_decimal(&mut s, elapsed_ms);
        s.append("ms), connections: ");
        push_decimal(&mut s, remaining);
        s
    } else {
        let mut s = String::from_str("IPC client disconnected after ");
        push_decimal(&mut s, elapsed_ms / 1000);
        s.append("s, connections: ");
        push_decimal(&mut s, remaining);
        s
    }
}

/// What a client's attempt to read a line gave.
#[derive(Debug, Clone, PartialEq, Eq)]
pub enum ReadOutcome {
    /// End of stream.
    Eof,
    /// A line (with its line break).
    Line(String),
    /// Nothing yet, or the read timed out.
    NotReady,
    /// The connection broke, was reset, aborted or refused, or the socket is
    /// gone.
    ConnectionLost,
    /// Any other error.
    Failed,
}

/// What the client makes of a read.
#[derive(Debug, Clone, PartialEq, Eq)]
pub enum ReceiveVerdict {
    /// The connection is closed.
    Closed,
    /// No event yet.
    Nothing,
    /// Parse this (trimmed) line as an event.
    Event(String),
    /// Report the read error.
    Failed,
}

/// Classify a read: a closed or lost connection is closed; a blank line or
/// nothing yet is no event; a line is an event to parse.
pub fn receive_verdict(o: ReadOutcome) -> (v: ReceiveVerdict)
    ensures
        match v {
            ReceiveVerdict::Closed => o is Eof || o is ConnectionLost,
            ReceiveVerdict::Nothing => o is NotReady || (o matches ReadOutcome::Line(l) && trim(l@).len() == 0),
            ReceiveVerdict::Event(t) => o matches ReadOutcome::Line(l) && trim(l@).len() > 0 && t@ == trim(l@),
            ReceiveVerdict::Failed => o is Failed,
        },
{
    match o {
        ReadOutcome::Eof | ReadOutcome::ConnectionLost => ReceiveVerdict::Closed,
        ReadOutcome::NotReady => ReceiveVerdict::Nothing,
        ReadOutcome::Failed => ReceiveVerdict::Failed,
        ReadOutcome::Line(l) => {
            let chars = chars_of(l.as_str());
            let (a, b) = trim_bounds(&chars);
            if a == b {
                ReceiveVerdict::Nothing
            } else {
                ReceiveVerdict::Event(string_of(&chars, a, b))
            }
        },
    }
}

/// The runtime directory when none is configured: `/run/user/<uid>`.
pub fn fallback_runtime_dir(uid: u32) -> (s: String)
    ensures
        s@ == "/run/user/"@ + decimal(uid as nat),
{
    let mut s = String::from_str("/run/user/");
    proof {
        reveal_strlit("/run/user/");
    }
    push_decimal(&mut s, uid as u64);
    s
}

/// The name of the event socket in the runtime directory.
pub const SOCKET_FILE_NAME: &'static str = "sunsetr-events.sock";

/// A file name joined onto a directory path: a separator goes between them
/// unless the directory is empty or already ends with one.
pub open spec fn join_path(dir: Seq<char>, name: Seq<char>) -> Seq<char> {
    if dir.len() == 0 || dir.last() == '/' {
        dir + name
    } else {
        dir + seq!['/'] + name
    }
}

/// The runtime directory: the configured one, else `/run/user/<uid>`.
pub open spec fn spec_runtime_dir(configured: Option<Seq<char>>, uid: u32) -> Seq<char> {
    match configured {
        Some(d) => d,
        None => "/run/user/"@ + decimal(uid as nat),
    }
}

/// The event socket's path: its file name in the runtime directory, which is
/// `configured` (the `XDG_RUNTIME_DIR` setting) where there is one, else
/// `/run/user/<uid>`.
pub fn socket_path(configured: Option<&str>, uid: u32) -> (s: String)
    ensures
        s@ == join_path(
            spec_runtime_dir(
                match configured {
                    Some(d) => Some(d@),
                    None => None,
                },
                uid,
            ),
            SOCKET_FILE_NAME@,
        ),
{
    let mut s = match configured {
        Some(d) => String::from_str(d),
        None => fallback_runtime_dir(uid),
    };
    let chars = chars_of(s.as_str());
    let n = chars.len();
    if n > 0 && chars[n - 1] != '/' {
        push_char(&mut s, '/');
    }
    s.append(SOCKET_FILE_NAME);
    s
}

/// Registering then removing a client gives back that client and leaves the
/// table as it was.
pub proof fn lemma_register_remove<C>(m: Map<u64, C>, next: u64, c: C)
    requires
        forall|id: u64| #[trigger] m.contains_key(id) ==> id < next,
    ensures
        m.insert(next, c).remove(next) == m,
        m.insert(next, c)[next] == c,
{
    assert(!m.contains_key(next));
    assert(m.insert(next, c).remove(next) =~= m);
}

} // verus!
