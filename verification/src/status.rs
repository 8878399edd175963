//! The state of the tunnel, as the supervisor publishes it and the browser
//! extension reads it.
use vstd::prelude::*;

use crate::config;
use crate::json;
use crate::number;
use crate::text;

verus! {

/// Who makes a status, and when: the process and the seconds since 1970.
#[derive(Clone, Copy, Debug, PartialEq, Eq, Structural)]
pub struct Stamp {
    pub pid: u32,
    pub now: u64,
}

/// The state of the tunnel.
#[derive(Clone, Debug)]
pub struct Status {
    /// One of `stopped`, `starting`, `running`, `reconnecting`, `error`,
    /// `unavailable`.
    pub state: String,
    pub detail: String,
    pub socks_port: u16,
    pub pid: u32,
    pub since: u64,
    pub error: Option<String>,
}

/// What a status amounts to.
pub struct StatusModel {
    pub state: Seq<char>,
    pub detail: Seq<char>,
    pub socks_port: u16,
    pub pid: u32,
    pub since: u64,
    pub error: Option<Seq<char>>,
}

impl View for Status {
    type V = StatusModel;

    open spec fn view(&self) -> StatusModel {
        StatusModel {
            state: self.state@,
            detail: self.detail@,
            socks_port: self.socks_port,
            pid: self.pid,
            since: self.since,
            error: self.error.deep_view(),
        }
    }
}

impl DeepView for Status {
    type V = StatusModel;

    open spec fn deep_view(&self) -> StatusModel {
        self@
    }
}

/// A fresh status without an error.
pub open spec fn fresh(state: Seq<char>, detail: Seq<char>, socks_port: u16, stamp: Stamp) -> StatusModel {
    StatusModel { state, detail, socks_port, pid: stamp.pid, since: stamp.now, error: None }
}

/// A fresh status that reports `detail` as an error, with `error` as its
/// explanation.
pub open spec fn failed(
    detail: Seq<char>,
    error: Seq<char>,
    socks_port: u16,
    stamp: Stamp,
) -> StatusModel {
    StatusModel { error: Some(error), ..fresh("error"@, detail, socks_port, stamp) }
}

/// Whether a tunnel in this state is to be left alone: it runs, starts or
/// reconnects.
pub open spec fn healthy(state: Seq<char>) -> bool {
    state == "running"@ || state == "starting"@ || state == "reconnecting"@
}

impl StatusModel {
    /// The members of the status as a JSON object.
    pub open spec fn members(self) -> Seq<(Seq<char>, Seq<char>)> {
        seq![
            ("state"@, json::quoted(self.state)),
            ("detail"@, json::quoted(self.detail)),
            ("socks_port"@, number::decimal(self.socks_port as nat)),
            ("pid"@, number::decimal(self.pid as nat)),
            ("since"@, number::decimal(self.since as nat)),
            ("error"@, json::quoted_or_null(self.error)),
        ]
    }

    /// The status as JSON, as it is stored and printed.
    pub open spec fn json(self) -> Seq<char> {
        json::object(self.members())
    }
}

impl Status {
    /// A status without an error.
    pub fn new(state: &str, detail: &str, socks_port: u16, stamp: Stamp) -> (r: Status)
        ensures
            r@ == fresh(state@, detail@, socks_port, stamp),
    {
        Status {
            state: state.to_owned(),
            detail: detail.to_owned(),
            socks_port,
            pid: stamp.pid,
            since: stamp.now,
            error: None,
        }
    }

    /// The status `error` with `detail`, explained by `error`.
    pub fn failure(detail: &str, error: &str, socks_port: u16, stamp: Stamp) -> (r: Status)
        ensures
            r@ == failed(detail@, error@, socks_port, stamp),
    {
        let mut status = Status::new("error", detail, socks_port, stamp);
        status.error = Some(error.to_owned());
        status
    }

    /// The status as JSON.
    pub fn json(&self) -> (r: String)
        ensures
            r@ == self@.json(),
    {
        let members: Vec<(String, String)> = vec![
            json::member("state", json::quote(self.state.as_str())),
            json::member("detail", json::quote(self.detail.as_str())),
            json::member("socks_port", number::decimal_of(self.socks_port as u64)),
            json::member("pid", number::decimal_of(self.pid as u64)),
            json::member("since", number::decimal_of(self.since)),
            json::member("error", json::quote_or_null(&self.error)),
        ];
        proof {
            assert(members.deep_view() =~= self@.members());
        }
        json::render(&members)
    }

    /// A copy of the status.
    pub fn copy(&self) -> (r: Status)
        ensures
            r@ == self@,
    {
        Status {
            state: self.state.clone(),
            detail: self.detail.clone(),
            socks_port: self.socks_port,
            pid: self.pid,
            since: self.since,
            error: self.error.clone(),
        }
    }

    /// Whether the tunnel in this status is to be left alone.
    pub fn is_healthy(&self) -> (r: bool)
        ensures
            r == healthy(self.state@),
    {
        text::same(self.state.as_str(), "running") || text::same(self.state.as_str(), "starting")
            || text::same(self.state.as_str(), "reconnecting")
    }
}

/// A file that is to be replaced in one step: written beside its place under
/// another name, then renamed.
pub struct AtomicWrite {
    pub temp: String,
    pub path: String,
    pub content: String,
}

/// What an atomic write amounts to.
pub struct AtomicWriteModel {
    pub temp: Seq<char>,
    pub path: Seq<char>,
    pub content: Seq<char>,
}

impl View for AtomicWrite {
    type V = AtomicWriteModel;

    open spec fn view(&self) -> AtomicWriteModel {
        AtomicWriteModel { temp: self.temp@, path: self.path@, content: self.content@ }
    }
}

/// How `path` is replaced by a file that holds `content`.
pub open spec fn replacing(path: Seq<char>, content: Seq<char>) -> AtomicWriteModel {
    AtomicWriteModel { temp: path + ".tmp"@, path, content }
}

/// How `path` is replaced by a file that holds `content`.
pub fn write_atomic(path: &str, content: &str) -> (r: AtomicWrite)
    ensures
        r@ == replacing(path@, content@),
{
    AtomicWrite {
        temp: text::cat(path, ".tmp"),
        path: path.to_owned(),
        content: content.to_owned(),
    }
}

/// How the status is published.
pub open spec fn publishing(s: StatusModel) -> AtomicWriteModel {
    replacing(config::STATUS_PATH@, s.json())
}

/// How the status is published.
pub fn write_status(s: &Status) -> (r: AtomicWrite)
    ensures
        r@ == publishing(s@),
{
    write_atomic(config::STATUS_PATH, s.json().as_str())
}

} // verus!
