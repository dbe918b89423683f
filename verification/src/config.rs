//! Server configuration: the record read at startup, the field-by-field
//! merge of command-line overrides, and the parsing of event lists.
use vstd::prelude::*;
use crate::events::{kind_from_name, spec_kind_from_name, EventKind};
use crate::textutil::{chars_to_string, str_to_chars};

verus! {

/// An address to serve on: a TCP address text or a unix socket path.
#[derive(Debug, PartialEq, Eq)]
pub enum TcpOrUnix {
    Tcp(String),
    Unix(String),
}

impl TcpOrUnix {
    /// The address as text: the TCP address or the socket path.
    pub fn to_text(&self) -> (r: String)
        ensures
            r@ == (match *self {
                TcpOrUnix::Tcp(s) => s@,
                TcpOrUnix::Unix(p) => p@,
            }),
    {
        match self {
            TcpOrUnix::Tcp(s) => s.clone(),
            TcpOrUnix::Unix(p) => p.clone(),
        }
    }
}

/// The text could not be read as a TCP address or a path.
#[derive(Clone, Copy, Debug, PartialEq, Eq, Structural)]
pub struct TcpOrUnixParseError;

/// The server configuration, read once at startup and read-only afterwards.
#[derive(Debug, PartialEq)]
pub struct ServerConfig {
    /// The unix user name to run the pull as.
    pub username: String,
    /// The path to the tracked repository.
    pub repo_path: String,
    /// The remote to pull changes from.
    pub remote: String,
    /// The branch to pull changes from.
    pub branch: String,
    /// The service to restart after a pull.
    pub system_name: String,
    /// The event kinds that trigger a deploy cycle.
    pub update_events: Vec<EventKind>,
    /// The address to serve on.
    pub addr: TcpOrUnix,
    /// The group the unix socket is put under.
    pub socket_group: String,
    /// The owner of the unix socket.
    pub socket_user: String,
    /// A command to run before restarting the service.
    pub pre_restart_command: String,
}

/// Command-line overrides for serving: every field is optional, and a set
/// field replaces the configured value.
#[derive(Debug, Default, PartialEq)]
pub struct Serve {
    pub username: Option<String>,
    pub repo_path: Option<String>,
    pub remote: Option<String>,
    pub branch: Option<String>,
    pub system_name: Option<String>,
    pub update_events: Option<Vec<EventKind>>,
    pub addr: Option<TcpOrUnix>,
    pub socket_group: Option<String>,
    pub socket_user: Option<String>,
    pub pre_restart_command: Option<String>,
}

impl ServerConfig {
    /// Merge command-line overrides into the configuration: a field given on
    /// the command line wins, an absent one keeps the configured value.
    pub fn merge(&mut self, cli: Serve)
        ensures
            final(self).username == (match cli.username {
                Some(v) => v,
                None => old(self).username,
            }),
            final(self).repo_path == (match cli.repo_path {
                Some(v) => v,
                None => old(self).repo_path,
            }),
            final(self).remote == (match cli.remote {
                Some(v) => v,
                None => old(self).remote,
            }),
            final(self).branch == (match cli.branch {
                Some(v) => v,
                None => old(self).branch,
            }),
            final(self).system_name == (match cli.system_name {
                Some(v) => v,
                None => old(self).system_name,
            }),
            final(self).update_events == (match cli.update_events {
                Some(v) => v,
                None => old(self).update_events,
            }),
            final(self).addr == (match cli.addr {
                Some(v) => v,
                None => old(self).addr,
            }),
            final(self).socket_group == (match cli.socket_group {
                Some(v) => v,
                None => old(self).socket_group,
            }),
            final(self).socket_user == (match cli.socket_user {
                Some(v) => v,
                None => old(self).socket_user,
            }),
            final(self).pre_restart_command == (match cli.pre_restart_command {
                Some(v) => v,
                None => old(self).pre_restart_command,
            }),
    {
        if let Some(p) = cli.repo_path {
            self.repo_path = p;
        }
        if let Some(n) = cli.system_name {
            self.system_name = n;
        }
        if let Some(e) = cli.update_events {
            self.update_events = e;
        }
        if let Some(a) = cli.addr {
            self.addr = a;
        }
        if let Some(u) = cli.username {
            self.username = u;
        }
        if let Some(r) = cli.remote {
            self.remote = r;
        }
        if let Some(b) = cli.branch {
            self.branch = b;
        }
        if let Some(g) = cli.socket_group {
            self.socket_group = g;
        }
        if let Some(u) = cli.socket_user {
            self.socket_user = u;
        }
        if let Some(c) = cli.pre_restart_command {
            self.pre_restart_command = c;
        }
    }
}

/// Daemon control: which command to send, and where the configuration sits.
#[derive(Debug, PartialEq)]
pub struct Daemon {
    pub action: DaemonAction,
    pub repo_path: String,
}

/// A command for the daemon.
#[derive(Clone, Copy, Debug, PartialEq, Eq, Structural)]
pub enum DaemonAction {
    Start(DaemonStart),
    Enable(DaemonEnable),
    Stop(DaemonStop),
}

/// Start the service.
#[derive(Clone, Copy, Debug, PartialEq, Eq, Structural)]
pub struct DaemonStart {}

/// Stop the service.
#[derive(Clone, Copy, Debug, PartialEq, Eq, Structural)]
pub struct DaemonStop {}

/// Enable the service at startup.
#[derive(Clone, Copy, Debug, PartialEq, Eq, Structural)]
pub struct DaemonEnable {}

/// The end of the run of characters before the next comma.
pub open spec fn comma_end(s: Seq<char>, i: int) -> int
    decreases s.len() - i,
{
    if i < 0 || i >= s.len() || s[i] == ',' {
        i
    } else {
        comma_end(s, i + 1)
    }
}

/// The kinds a comma-separated list names from position `i` on, or the
/// first segment that names no kind.
pub open spec fn spec_parse_events(s: Seq<char>, i: int) -> Result<Seq<EventKind>, Seq<char>>
    decreases s.len() - i,
{
    if i < 0 || i > s.len() {
        Err(Seq::empty())
    } else {
        let e0 = comma_end(s, i);
        let e = if e0 < i {
            i
        } else {
            e0
        };
        let seg = s.subrange(i, e);
        match spec_kind_from_name(seg) {
            Option::None => Err(seg),
            Option::Some(k) => if e >= s.len() {
                Ok(seq![k])
            } else {
                match spec_parse_events(s, e + 1) {
                    Ok(rest) => Ok(seq![k] + rest),
                    Err(bad) => Err(bad),
                }
            },
        }
    }
}

/// The end of the segment starting at `i`.
fn comma_end_exec(s: &[char], i: usize) -> (r: usize)
    requires
        i <= s@.len(),
    ensures
        r == comma_end(s@, i as int),
        i <= r <= s@.len(),
{
    let mut cur = i;
    while cur < s.len() && s[cur] != ','
        invariant
            i <= cur <= s@.len(),
            comma_end(s@, i as int) == comma_end(s@, cur as int),
        decreases s@.len() - cur,
    {
        cur = cur + 1;
    }
    cur
}

/// Parse the events from position `i` on.
fn parse_events_from(s: &[char], i: usize) -> (r: Result<Vec<EventKind>, String>)
    requires
        i <= s@.len(),
    ensures
        match r {
            Ok(ks) => spec_parse_events(s@, i as int) == Ok::<Seq<EventKind>, Seq<char>>(ks@),
            Err(bad) => spec_parse_events(s@, i as int) == Err::<Seq<EventKind>, Seq<char>>(bad@),
        },
    decreases s@.len() - i,
{
    let e = comma_end_exec(s, i);
    let seg = vstd::slice::slice_to_vec(vstd::slice::slice_subrange(s, i, e));
    let seg_str = chars_to_string(&seg);
    match kind_from_name(seg_str.as_str()) {
        None => Err(seg_str),
        Some(k) => {
            if e >= s.len() {
                let mut out: Vec<EventKind> = Vec::new();
                out.push(k);
                proof {
                    assert(out@ =~= seq![k]);
                }
                Ok(out)
            } else {
                match parse_events_from(s, e + 1) {
                    Ok(rest) => {
                        let mut out: Vec<EventKind> = Vec::new();
                        out.push(k);
                        let mut rest = rest;
                        out.append(&mut rest);
                        proof {
                            if let Ok(r0) = spec_parse_events(s@, e + 1) {
                                assert(out@ =~= seq![k] + r0);
                            }
                        }
                        Ok(out)
                    },
                    Err(bad) => Err(bad),
                }
            }
        },
    }
}

/// Parse a comma-separated list of event names, such as `push` or
/// `ping,push`, into event kinds. The first segment that names no known
/// event is returned as the error.
pub fn parse_multiple_events(s: &str) -> (r: Result<Vec<EventKind>, String>)
    ensures
        match r {
            Ok(ks) => spec_parse_events(s@, 0) == Ok::<Seq<EventKind>, Seq<char>>(ks@),
            Err(bad) => spec_parse_events(s@, 0) == Err::<Seq<EventKind>, Seq<char>>(bad@),
        },
{
    let cs = str_to_chars(s);
    parse_events_from(cs.as_slice(), 0)
}

} // verus!
