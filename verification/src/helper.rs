//! The operations of the privileged helper: `enable` and `disable`.
//!
//! The helper takes no argument but the operation; everything else comes from
//! the configuration, which belongs to root. Both operations decide step by
//! step: `next` says what is to be done, and `took` takes what came of it.
use vstd::prelude::*;

use crate::command;
use crate::command::{Command, CommandModel};
use crate::config;
use crate::config::{Config, ConfigModel};
use crate::netns;
use crate::number;
use crate::status;
use crate::status::{Stamp, Status, StatusModel};
use crate::subnet;
use crate::text;

verus! {

/// How often a supervisor that was killed is looked at until it is gone.
pub const KILL_POLLS: u32 = 50;

/// How often the status is looked at while another process holds the lock.
pub const LOCK_POLLS: u32 = 30;

/// How often a supervisor that was asked to end is looked at until it is gone.
pub const STOP_POLLS: u32 = 100;

/// How long to sleep between two looks at a process, in milliseconds.
pub const PROCESS_NAP: u64 = 100;

/// How long to sleep between two looks at the status, in milliseconds.
pub const STATUS_NAP: u64 = 200;

/// What is to be done next.
pub enum Action {
    /// Read the configuration.
    LoadConfig,
    /// See whether there is such a regular file.
    SeeFile(String),
    /// Read the file.
    ReadFile(String),
    /// Remove the file.
    RemoveFile(String),
    /// See whether the process is alive.
    Probe(i32),
    /// Ask the process to terminate.
    Terminate(i32),
    /// Kill the process.
    Kill(i32),
    /// Read the published status.
    ReadStatus,
    /// Publish this status.
    Publish(Status),
    /// Sleep for so many milliseconds.
    Sleep(u64),
    /// Take the lock in the given file, without waiting for it. It is held for
    /// as long as this process, or the supervisor, lives.
    TakeLock(String),
    /// Pick a subnet, by the configured one.
    PickSubnet(String),
    /// Set up the namespace.
    SetUp { host: String, ns: String, prefix: u8 },
    /// Route the servers of this OpenVPN file directly.
    AddRules(String),
    /// Undo that.
    RemoveRules(String),
    /// Run the command.
    Run(Command),
    /// Split off the supervisor.
    Fork,
    /// Become the supervisor.
    Supervise { cfg: Config, ns_ip: String, port: u16 },
    /// The operation is over, with the status to print or an error.
    Finish(Result<String, String>),
}

/// What is to be done next.
pub enum ActionModel {
    LoadConfig,
    SeeFile(Seq<char>),
    ReadFile(Seq<char>),
    RemoveFile(Seq<char>),
    Probe(i32),
    Terminate(i32),
    Kill(i32),
    ReadStatus,
    Publish(StatusModel),
    Sleep(u64),
    TakeLock(Seq<char>),
    PickSubnet(Seq<char>),
    SetUp { host: Seq<char>, ns: Seq<char>, prefix: u8 },
    AddRules(Seq<char>),
    RemoveRules(Seq<char>),
    Run(CommandModel),
    Fork,
    Supervise { cfg: ConfigModel, ns_ip: Seq<char>, port: u16 },
    Finish(Result<Seq<char>, Seq<char>>),
}

impl View for Action {
    type V = ActionModel;

    open spec fn view(&self) -> ActionModel {
        match self {
            Action::LoadConfig => ActionModel::LoadConfig,
            Action::SeeFile(path) => ActionModel::SeeFile(path@),
            Action::ReadFile(path) => ActionModel::ReadFile(path@),
            Action::RemoveFile(path) => ActionModel::RemoveFile(path@),
            Action::Probe(pid) => ActionModel::Probe(*pid),
            Action::Terminate(pid) => ActionModel::Terminate(*pid),
            Action::Kill(pid) => ActionModel::Kill(*pid),
            Action::ReadStatus => ActionModel::ReadStatus,
            Action::Publish(status) => ActionModel::Publish(status@),
            Action::Sleep(ms) => ActionModel::Sleep(*ms),
            Action::TakeLock(path) => ActionModel::TakeLock(path@),
            Action::PickSubnet(subnet) => ActionModel::PickSubnet(subnet@),
            Action::SetUp { host, ns, prefix } => ActionModel::SetUp {
                host: host@,
                ns: ns@,
                prefix: *prefix,
            },
            Action::AddRules(ovpn) => ActionModel::AddRules(ovpn@),
            Action::RemoveRules(ovpn) => ActionModel::RemoveRules(ovpn@),
            Action::Run(command) => ActionModel::Run(command@),
            Action::Fork => ActionModel::Fork,
            Action::Supervise { cfg, ns_ip, port } => ActionModel::Supervise {
                cfg: cfg@,
                ns_ip: ns_ip@,
                port: *port,
            },
            Action::Finish(result) => ActionModel::Finish(command::reply_model(*result)),
        }
    }
}

/// Whether the lock was taken.
#[derive(Debug)]
pub enum Lock {
    Taken,
    /// Another process holds it.
    Held,
    /// Its file cannot be opened, for the given reason.
    Unavailable(String),
}

/// Which process goes on after the fork.
#[derive(Clone, Copy, Debug, PartialEq, Eq, Structural)]
pub enum Side {
    Parent,
    Child,
}

/// What came of an action.
pub enum Event {
    /// It was done; there is nothing more to say.
    Done,
    /// The configuration, or why there is none.
    Config(Result<Config, String>),
    /// What was asked about is so, or is not so.
    Seen(bool),
    /// The text of the file, if it can be read.
    Text(Option<String>),
    /// The published status, if there is one.
    Status(Option<Status>),
    Lock(Lock),
    /// The host's address, the namespace's and the length of their prefix, or
    /// why there is no subnet.
    Subnet(Result<(String, String, u8), String>),
    /// The namespace was set up, or why not.
    SetUp(Result<(), String>),
    /// The outcome of a command.
    Reply(Result<String, String>),
    /// The process that goes on, or why there is no other.
    Forked(Result<Side, String>),
}

/// What came of an action.
pub enum EventModel {
    Done,
    Config(Result<ConfigModel, Seq<char>>),
    Seen(bool),
    Text(Option<Seq<char>>),
    Status(Option<StatusModel>),
    LockTaken,
    LockHeld,
    LockUnavailable(Seq<char>),
    Subnet(Result<(Seq<char>, Seq<char>, u8), Seq<char>>),
    SetUp(Result<(), Seq<char>>),
    Reply(Result<Seq<char>, Seq<char>>),
    Forked(Result<Side, Seq<char>>),
}

impl View for Event {
    type V = EventModel;

    open spec fn view(&self) -> EventModel {
        match self {
            Event::Done => EventModel::Done,
            Event::Config(Ok(cfg)) => EventModel::Config(Ok(cfg@)),
            Event::Config(Err(e)) => EventModel::Config(Err(e@)),
            Event::Seen(so) => EventModel::Seen(*so),
            Event::Text(text) => EventModel::Text(text.deep_view()),
            Event::Status(status) => EventModel::Status(status.deep_view()),
            Event::Lock(Lock::Taken) => EventModel::LockTaken,
            Event::Lock(Lock::Held) => EventModel::LockHeld,
            Event::Lock(Lock::Unavailable(e)) => EventModel::LockUnavailable(e@),
            Event::Subnet(choice) => EventModel::Subnet(subnet::choice_model(*choice)),
            Event::SetUp(Ok(_)) => EventModel::SetUp(Ok(())),
            Event::SetUp(Err(e)) => EventModel::SetUp(Err(e@)),
            Event::Reply(reply) => EventModel::Reply(command::reply_model(*reply)),
            Event::Forked(Ok(side)) => EventModel::Forked(Ok(*side)),
            Event::Forked(Err(e)) => EventModel::Forked(Err(e@)),
        }
    }
}

/// The process that a file with a process id names.
pub open spec fn pid_in(content: Option<Seq<char>>) -> Option<i32> {
    match content {
        Some(content) => match number::signed32(text::trim(content)) {
            Some(pid) => Some(pid as i32),
            None => None,
        },
        None => None,
    }
}

fn read_pid(content: Option<String>) -> (r: Option<i32>)
    ensures
        r == pid_in(content.deep_view()),
{
    match content {
        Some(content) => number::read_i32(text::trimmed(content.as_str()).as_str()),
        None => None,
    }
}

// ---- enable ----

/// What `enable` is at.
#[derive(Clone, Copy, Debug, PartialEq, Eq, Structural)]
pub enum EnablePhase {
    LoadConfig,
    SeeOvpn,
    /// A supervisor may be running already.
    ReadPid,
    Probe,
    ReadStatus,
    /// It is alive but not healthy.
    Kill,
    ProbeKilled,
    NapKilled,
    RemovePid,
    TakeLock,
    /// Another process holds the lock.
    AwaitHealthy,
    NapHealthy,
    LastLook,
    /// The lock is taken.
    PickSubnet,
    SetUp,
    ReadOvpn,
    AddRules,
    Fork,
    Supervise,
    Over,
}

/// The operation `enable`: brings the tunnel up, unless it is up already.
pub struct Enable {
    phase: EnablePhase,
    cfg: Config,
    pid: i32,
    polls: u32,
    host: String,
    ns: String,
    prefix: u8,
    ovpn: String,
    result: Result<String, String>,
}

/// What an `enable` amounts to.
pub struct EnableModel {
    pub phase: EnablePhase,
    /// The configuration, once it is loaded.
    pub cfg: ConfigModel,
    /// The supervisor that was found.
    pub pid: i32,
    /// How often it, or the status, was looked at.
    pub polls: u32,
    /// The subnet, once it is picked.
    pub host: Seq<char>,
    pub ns: Seq<char>,
    pub prefix: u8,
    /// The text of the OpenVPN file, once it is read.
    pub ovpn: Seq<char>,
    /// What the operation came to, once it is over.
    pub result: Result<Seq<char>, Seq<char>>,
}

impl View for Enable {
    type V = EnableModel;

    closed spec fn view(&self) -> EnableModel {
        EnableModel {
            phase: self.phase,
            cfg: self.cfg@,
            pid: self.pid,
            polls: self.polls,
            host: self.host@,
            ns: self.ns@,
            prefix: self.prefix,
            ovpn: self.ovpn@,
            result: command::reply_model(self.result),
        }
    }
}

/// Whether the tunnel in this status is to be left alone.
pub open spec fn healthy(status: Option<StatusModel>) -> bool {
    status is Some && status::healthy(status->0.state)
}

fn is_healthy(status: &Option<Status>) -> (r: bool)
    ensures
        r == healthy(status.deep_view()),
{
    match status {
        Some(status) => status.is_healthy(),
        None => false,
    }
}

impl EnableModel {
    /// What holds of an `enable` at all times.
    pub open spec fn wf(self) -> bool {
        &&& self.phase is ProbeKilled || self.phase is NapKilled ==> self.polls < KILL_POLLS
        &&& self.phase is AwaitHealthy || self.phase is NapHealthy ==> self.polls < LOCK_POLLS
    }

    /// What is to be done next.
    pub open spec fn next(self) -> ActionModel {
        match self.phase {
            EnablePhase::LoadConfig => ActionModel::LoadConfig,
            EnablePhase::SeeOvpn => ActionModel::SeeFile(self.cfg.ovpn()),
            EnablePhase::ReadPid => ActionModel::ReadFile(config::PID_PATH@),
            EnablePhase::Probe => ActionModel::Probe(self.pid),
            EnablePhase::ReadStatus => ActionModel::ReadStatus,
            EnablePhase::Kill => ActionModel::Kill(self.pid),
            EnablePhase::ProbeKilled => ActionModel::Probe(self.pid),
            EnablePhase::NapKilled => ActionModel::Sleep(PROCESS_NAP),
            EnablePhase::RemovePid => ActionModel::RemoveFile(config::PID_PATH@),
            EnablePhase::TakeLock => ActionModel::TakeLock(config::LOCK_PATH@),
            EnablePhase::AwaitHealthy => ActionModel::ReadStatus,
            EnablePhase::NapHealthy => ActionModel::Sleep(STATUS_NAP),
            EnablePhase::LastLook => ActionModel::ReadStatus,
            EnablePhase::PickSubnet => ActionModel::PickSubnet(self.cfg.subnet_text()),
            EnablePhase::SetUp => ActionModel::SetUp {
                host: self.host,
                ns: self.ns,
                prefix: self.prefix,
            },
            EnablePhase::ReadOvpn => ActionModel::ReadFile(self.cfg.ovpn()),
            EnablePhase::AddRules => ActionModel::AddRules(self.ovpn),
            EnablePhase::Fork => ActionModel::Fork,
            EnablePhase::Supervise => ActionModel::Supervise {
                cfg: self.cfg,
                ns_ip: self.ns,
                port: self.cfg.port(),
            },
            EnablePhase::Over => ActionModel::Finish(self.result),
        }
    }

    /// The operation that goes on with another phase.
    pub open spec fn at(self, phase: EnablePhase) -> EnableModel {
        EnableModel { phase, ..self }
    }

    /// The operation that is over.
    pub open spec fn finished(self, result: Result<Seq<char>, Seq<char>>) -> EnableModel {
        EnableModel { phase: EnablePhase::Over, result, ..self }
    }

    /// The operation after the action came to this. An event that does not
    /// belong to the action changes nothing.
    pub open spec fn after(self, event: EventModel, stamp: Stamp) -> EnableModel {
        match (self.phase, event) {
            (EnablePhase::LoadConfig, EventModel::Config(Ok(cfg))) => EnableModel {
                phase: EnablePhase::SeeOvpn,
                cfg,
                ..self
            },
            (EnablePhase::LoadConfig, EventModel::Config(Err(e))) => self.finished(Err(e)),
            (EnablePhase::SeeOvpn, EventModel::Seen(true)) => self.at(EnablePhase::ReadPid),
            (EnablePhase::SeeOvpn, EventModel::Seen(false)) => self.finished(
                Err(
                    "OpenVPN configuration not found at "@ + self.cfg.ovpn()
                        + " — run scripts/install.sh with your KIT .ovpn file"@,
                ),
            ),
            (EnablePhase::ReadPid, EventModel::Text(content)) => match pid_in(content) {
                Some(pid) => EnableModel { phase: EnablePhase::Probe, pid, ..self },
                None => self.at(EnablePhase::TakeLock),
            },
            (EnablePhase::Probe, EventModel::Seen(alive)) => self.at(
                if alive {
                    EnablePhase::ReadStatus
                } else {
                    EnablePhase::TakeLock
                },
            ),
            (EnablePhase::ReadStatus, EventModel::Status(status)) => if healthy(status) {
                self.finished(Ok(status->0.json()))
            } else {
                self.at(EnablePhase::Kill)
            },
            (EnablePhase::Kill, EventModel::Done) => EnableModel {
                phase: EnablePhase::ProbeKilled,
                polls: 0,
                ..self
            },
            (EnablePhase::ProbeKilled, EventModel::Seen(alive)) => self.at(
                if alive {
                    EnablePhase::NapKilled
                } else {
                    EnablePhase::RemovePid
                },
            ),
            (EnablePhase::NapKilled, EventModel::Done) => if self.polls + 1 < KILL_POLLS {
                EnableModel {
                    phase: EnablePhase::ProbeKilled,
                    polls: (self.polls + 1) as u32,
                    ..self
                }
            } else {
                self.at(EnablePhase::RemovePid)
            },
            (EnablePhase::RemovePid, EventModel::Done) => self.at(EnablePhase::TakeLock),
            (EnablePhase::TakeLock, EventModel::LockTaken) => self.at(EnablePhase::PickSubnet),
            (EnablePhase::TakeLock, EventModel::LockHeld) => EnableModel {
                phase: EnablePhase::AwaitHealthy,
                polls: 0,
                ..self
            },
            (EnablePhase::TakeLock, EventModel::LockUnavailable(e)) => self.finished(
                Err("cannot open lock file: "@ + e),
            ),
            (EnablePhase::AwaitHealthy, EventModel::Status(status)) => if healthy(status) {
                self.finished(Ok(status->0.json()))
            } else {
                self.at(EnablePhase::NapHealthy)
            },
            (EnablePhase::NapHealthy, EventModel::Done) => if self.polls + 1 < LOCK_POLLS {
                EnableModel {
                    phase: EnablePhase::AwaitHealthy,
                    polls: (self.polls + 1) as u32,
                    ..self
                }
            } else {
                self.at(EnablePhase::LastLook)
            },
            (EnablePhase::LastLook, EventModel::Status(status)) => self.finished(
                match status {
                    Some(status) => Ok(status.json()),
                    None => Err("another enable is in progress"@),
                },
            ),
            (EnablePhase::PickSubnet, EventModel::Subnet(Ok((host, ns, prefix)))) => EnableModel {
                phase: EnablePhase::SetUp,
                host,
                ns,
                prefix,
                ..self
            },
            (EnablePhase::PickSubnet, EventModel::Subnet(Err(e))) => self.finished(Err(e)),
            (EnablePhase::SetUp, EventModel::SetUp(Ok(_))) => self.at(EnablePhase::ReadOvpn),
            (EnablePhase::SetUp, EventModel::SetUp(Err(e))) => self.finished(Err(e)),
            (EnablePhase::ReadOvpn, EventModel::Text(content)) => EnableModel {
                phase: EnablePhase::AddRules,
                ovpn: config::text_or(content, seq![]),
                ..self
            },
            (EnablePhase::AddRules, EventModel::Done) => self.at(EnablePhase::Fork),
            (EnablePhase::Fork, EventModel::Forked(Ok(Side::Parent))) => self.finished(
                Ok(
                    status::fresh("starting"@, "tunnel starting"@, self.cfg.port(), stamp).json(),
                ),
            ),
            (EnablePhase::Fork, EventModel::Forked(Ok(Side::Child))) => self.at(
                EnablePhase::Supervise,
            ),
            (EnablePhase::Fork, EventModel::Forked(Err(e))) => self.finished(
                Err("fork: "@ + e),
            ),
            _ => self,
        }
    }
}

/// An `enable` at its start.
pub open spec fn enable_start() -> EnableModel {
    EnableModel {
        phase: EnablePhase::LoadConfig,
        cfg: config::default_model(),
        pid: 0,
        polls: 0,
        host: seq![],
        ns: seq![],
        prefix: 0,
        ovpn: seq![],
        result: Ok(seq![]),
    }
}

/// Starts bringing the tunnel up.
pub fn enable() -> (r: Enable)
    ensures
        r@ == enable_start(),
        r@.wf(),
{
    Enable {
        phase: EnablePhase::LoadConfig,
        cfg: Config::default(),
        pid: 0,
        polls: 0,
        host: String::new(),
        ns: String::new(),
        prefix: 0,
        ovpn: String::new(),
        result: Ok(String::new()),
    }
}

impl Enable {
    /// What is to be done next.
    pub fn next(&self) -> (r: Action)
        ensures
            r@ == self@.next(),
    {
        match self.phase {
            EnablePhase::LoadConfig => Action::LoadConfig,
            EnablePhase::SeeOvpn => Action::SeeFile(self.cfg.ovpn()),
            EnablePhase::ReadPid => Action::ReadFile(config::PID_PATH.to_owned()),
            EnablePhase::Probe => Action::Probe(self.pid),
            EnablePhase::ReadStatus => Action::ReadStatus,
            EnablePhase::Kill => Action::Kill(self.pid),
            EnablePhase::ProbeKilled => Action::Probe(self.pid),
            EnablePhase::NapKilled => Action::Sleep(PROCESS_NAP),
            EnablePhase::RemovePid => Action::RemoveFile(config::PID_PATH.to_owned()),
            EnablePhase::TakeLock => Action::TakeLock(config::LOCK_PATH.to_owned()),
            EnablePhase::AwaitHealthy => Action::ReadStatus,
            EnablePhase::NapHealthy => Action::Sleep(STATUS_NAP),
            EnablePhase::LastLook => Action::ReadStatus,
            EnablePhase::PickSubnet => Action::PickSubnet(self.cfg.subnet_text()),
            EnablePhase::SetUp => Action::SetUp {
                host: self.host.clone(),
                ns: self.ns.clone(),
                prefix: self.prefix,
            },
            EnablePhase::ReadOvpn => Action::ReadFile(self.cfg.ovpn()),
            EnablePhase::AddRules => Action::AddRules(self.ovpn.clone()),
            EnablePhase::Fork => Action::Fork,
            EnablePhase::Supervise => Action::Supervise {
                cfg: self.cfg.copy(),
                ns_ip: self.ns.clone(),
                port: self.cfg.socks_port(),
            },
            EnablePhase::Over => Action::Finish(
                match &self.result {
                    Ok(json) => Ok(json.clone()),
                    Err(e) => Err(e.clone()),
                },
            ),
        }
    }

    fn finish(&mut self, result: Result<String, String>)
        ensures
            final(self)@ == old(self)@.finished(command::reply_model(result)),
    {
        self.phase = EnablePhase::Over;
        self.result = result;
    }

    /// Takes what came of the action that `next` gave.
    pub fn took(&mut self, event: Event, stamp: Stamp)
        requires
            old(self)@.wf(),
        ensures
            final(self)@ == old(self)@.after(event@, stamp),
            final(self)@.wf(),
    {
        match (self.phase, event) {
            (EnablePhase::LoadConfig, Event::Config(loaded)) => match loaded {
                Ok(cfg) => {
                    self.cfg = cfg;
                    self.phase = EnablePhase::SeeOvpn;
                },
                Err(e) => self.finish(Err(e)),
            },
            (EnablePhase::SeeOvpn, Event::Seen(present)) => {
                if present {
                    self.phase = EnablePhase::ReadPid;
                } else {
                    let message = text::cat3(
                        "OpenVPN configuration not found at ",
                        self.cfg.ovpn().as_str(),
                        " — run scripts/install.sh with your KIT .ovpn file",
                    );
                    self.finish(Err(message));
                }
            },
            (EnablePhase::ReadPid, Event::Text(content)) => match read_pid(content) {
                Some(pid) => {
                    self.pid = pid;
                    self.phase = EnablePhase::Probe;
                },
                None => {
                    self.phase = EnablePhase::TakeLock;
                },
            },
            (EnablePhase::Probe, Event::Seen(alive)) => {
                self.phase = if alive {
                    EnablePhase::ReadStatus
                } else {
                    EnablePhase::TakeLock
                };
            },
            (EnablePhase::ReadStatus, Event::Status(status)) => {
                let fine = is_healthy(&status);
                match status {
                    Some(status) if fine => self.finish(Ok(status.json())),
                    _ => {
                        self.phase = EnablePhase::Kill;
                    },
                }
            },
            (EnablePhase::Kill, Event::Done) => {
                self.polls = 0;
                self.phase = EnablePhase::ProbeKilled;
            },
            (EnablePhase::ProbeKilled, Event::Seen(alive)) => {
                self.phase = if alive {
                    EnablePhase::NapKilled
                } else {
                    EnablePhase::RemovePid
                };
            },
            (EnablePhase::NapKilled, Event::Done) => {
                if self.polls + 1 < KILL_POLLS {
                    self.polls += 1;
                    self.phase = EnablePhase::ProbeKilled;
                } else {
                    self.phase = EnablePhase::RemovePid;
                }
            },
            (EnablePhase::RemovePid, Event::Done) => {
                self.phase = EnablePhase::TakeLock;
            },
            (EnablePhase::TakeLock, Event::Lock(lock)) => match lock {
                Lock::Taken => {
                    self.phase = EnablePhase::PickSubnet;
                },
                Lock::Held => {
                    self.polls = 0;
                    self.phase = EnablePhase::AwaitHealthy;
                },
                Lock::Unavailable(e) => self.finish(
                    Err(text::cat("cannot open lock file: ", e.as_str())),
                ),
            },
            (EnablePhase::AwaitHealthy, Event::Status(status)) => {
                let fine = is_healthy(&status);
                match status {
                    Some(status) if fine => self.finish(Ok(status.json())),
                    _ => {
                        self.phase = EnablePhase::NapHealthy;
                    },
                }
            },
            (EnablePhase::NapHealthy, Event::Done) => {
                if self.polls + 1 < LOCK_POLLS {
                    self.polls += 1;
                    self.phase = EnablePhase::AwaitHealthy;
                } else {
                    self.phase = EnablePhase::LastLook;
                }
            },
            (EnablePhase::LastLook, Event::Status(status)) => match status {
                Some(status) => self.finish(Ok(status.json())),
                None => self.finish(Err("another enable is in progress".to_owned())),
            },
            (EnablePhase::PickSubnet, Event::Subnet(choice)) => match choice {
                Ok((host, ns, prefix)) => {
                    self.host = host;
                    self.ns = ns;
                    self.prefix = prefix;
                    self.phase = EnablePhase::SetUp;
                },
                Err(e) => self.finish(Err(e)),
            },
            (EnablePhase::SetUp, Event::SetUp(outcome)) => match outcome {
                Ok(_) => {
                    self.phase = EnablePhase::ReadOvpn;
                },
                Err(e) => self.finish(Err(e)),
            },
            (EnablePhase::ReadOvpn, Event::Text(content)) => {
                self.ovpn = match content {
                    Some(text) => text,
                    None => String::new(),
                };
                self.phase = EnablePhase::AddRules;
            },
            (EnablePhase::AddRules, Event::Done) => {
                self.phase = EnablePhase::Fork;
            },
            (EnablePhase::Fork, Event::Forked(forked)) => match forked {
                Ok(Side::Parent) => {
                    let status = Status::new(
                        "starting",
                        "tunnel starting",
                        self.cfg.socks_port(),
                        stamp,
                    );
                    self.finish(Ok(status.json()));
                },
                Ok(Side::Child) => {
                    self.phase = EnablePhase::Supervise;
                },
                Err(e) => self.finish(Err(text::cat("fork: ", e.as_str()))),
            },
            _ => {},
        }
    }
}

// ---- disable ----

/// What `disable` is at.
#[derive(Clone, Copy, Debug, PartialEq, Eq, Structural)]
pub enum DisablePhase {
    ReadPid,
    Terminate,
    Probe,
    Nap,
    /// Whatever became of the supervisor, nothing is left behind.
    CleanNetns,
    RemovePid,
    LoadConfig,
    ReadOvpn,
    RemoveRules,
    Publish,
    Over,
}

/// The operation `disable`: takes the tunnel down.
pub struct Disable {
    phase: DisablePhase,
    pid: i32,
    polls: u32,
    path: String,
    ovpn: String,
    status: Status,
}

/// What a `disable` amounts to.
pub struct DisableModel {
    pub phase: DisablePhase,
    /// The supervisor that was found.
    pub pid: i32,
    /// How often it was looked at.
    pub polls: u32,
    /// The OpenVPN file, once it is known.
    pub path: Seq<char>,
    /// The text of that file, once it is read.
    pub ovpn: Seq<char>,
    /// The status in the end.
    pub status: StatusModel,
}

impl View for Disable {
    type V = DisableModel;

    closed spec fn view(&self) -> DisableModel {
        DisableModel {
            phase: self.phase,
            pid: self.pid,
            polls: self.polls,
            path: self.path@,
            ovpn: self.ovpn@,
            status: self.status@,
        }
    }
}

/// The status of a tunnel that was taken down.
pub open spec fn taken_down(stamp: Stamp) -> StatusModel {
    status::fresh("stopped"@, "tunnel stopped"@, 0, stamp)
}

impl DisableModel {
    /// What holds of a `disable` at all times.
    pub open spec fn wf(self) -> bool {
        self.phase is Probe || self.phase is Nap ==> self.polls < STOP_POLLS
    }

    /// What is to be done next.
    pub open spec fn next(self) -> ActionModel {
        match self.phase {
            DisablePhase::ReadPid => ActionModel::ReadFile(config::PID_PATH@),
            DisablePhase::Terminate => ActionModel::Terminate(self.pid),
            DisablePhase::Probe => ActionModel::Probe(self.pid),
            DisablePhase::Nap => ActionModel::Sleep(PROCESS_NAP),
            DisablePhase::CleanNetns => ActionModel::Run(netns::cleanup_command()),
            DisablePhase::RemovePid => ActionModel::RemoveFile(config::PID_PATH@),
            DisablePhase::LoadConfig => ActionModel::LoadConfig,
            DisablePhase::ReadOvpn => ActionModel::ReadFile(self.path),
            DisablePhase::RemoveRules => ActionModel::RemoveRules(self.ovpn),
            DisablePhase::Publish => ActionModel::Publish(self.status),
            DisablePhase::Over => ActionModel::Finish(Ok(self.status.json())),
        }
    }

    /// The operation that goes on with another phase.
    pub open spec fn at(self, phase: DisablePhase) -> DisableModel {
        DisableModel { phase, ..self }
    }

    /// The operation that has nothing left but to report.
    pub open spec fn reporting(self, stamp: Stamp) -> DisableModel {
        DisableModel { phase: DisablePhase::Publish, status: taken_down(stamp), ..self }
    }

    /// The operation after the action came to this. An event that does not
    /// belong to the action changes nothing.
    pub open spec fn after(self, event: EventModel, stamp: Stamp) -> DisableModel {
        match (self.phase, event) {
            (DisablePhase::ReadPid, EventModel::Text(content)) => match pid_in(content) {
                Some(pid) => DisableModel { phase: DisablePhase::Terminate, pid, ..self },
                None => self.at(DisablePhase::CleanNetns),
            },
            (DisablePhase::Terminate, EventModel::Done) => DisableModel {
                phase: DisablePhase::Probe,
                polls: 0,
                ..self
            },
            (DisablePhase::Probe, EventModel::Seen(alive)) => self.at(
                if alive {
                    DisablePhase::Nap
                } else {
                    DisablePhase::CleanNetns
                },
            ),
            (DisablePhase::Nap, EventModel::Done) => if self.polls + 1 < STOP_POLLS {
                DisableModel {
                    phase: DisablePhase::Probe,
                    polls: (self.polls + 1) as u32,
                    ..self
                }
            } else {
                self.at(DisablePhase::CleanNetns)
            },
            (DisablePhase::CleanNetns, EventModel::Reply(_)) => self.at(DisablePhase::RemovePid),
            (DisablePhase::RemovePid, EventModel::Done) => self.at(DisablePhase::LoadConfig),
            (DisablePhase::LoadConfig, EventModel::Config(loaded)) => DisableModel {
                phase: DisablePhase::ReadOvpn,
                path: match loaded {
                    Ok(cfg) => cfg.ovpn(),
                    Err(_) => config::DEFAULT_OVPN_PATH@,
                },
                ..self
            },
            (DisablePhase::ReadOvpn, EventModel::Text(Some(ovpn))) => DisableModel {
                phase: DisablePhase::RemoveRules,
                ovpn,
                ..self
            },
            (DisablePhase::ReadOvpn, EventModel::Text(None)) => self.reporting(stamp),
            (DisablePhase::RemoveRules, EventModel::Done) => self.reporting(stamp),
            (DisablePhase::Publish, EventModel::Done) => self.at(DisablePhase::Over),
            _ => self,
        }
    }
}

/// A `disable` at its start.
pub open spec fn disable_start(stamp: Stamp) -> DisableModel {
    DisableModel {
        phase: DisablePhase::ReadPid,
        pid: 0,
        polls: 0,
        path: seq![],
        ovpn: seq![],
        status: taken_down(stamp),
    }
}

/// Starts taking the tunnel down.
pub fn disable(stamp: Stamp) -> (r: Disable)
    ensures
        r@ == disable_start(stamp),
        r@.wf(),
{
    Disable {
        phase: DisablePhase::ReadPid,
        pid: 0,
        polls: 0,
        path: String::new(),
        ovpn: String::new(),
        status: Status::new("stopped", "tunnel stopped", 0, stamp),
    }
}

impl Disable {
    /// What is to be done next.
    pub fn next(&self) -> (r: Action)
        ensures
            r@ == self@.next(),
    {
        match self.phase {
            DisablePhase::ReadPid => Action::ReadFile(config::PID_PATH.to_owned()),
            DisablePhase::Terminate => Action::Terminate(self.pid),
            DisablePhase::Probe => Action::Probe(self.pid),
            DisablePhase::Nap => Action::Sleep(PROCESS_NAP),
            DisablePhase::CleanNetns => Action::Run(netns::cleanup_netns()),
            DisablePhase::RemovePid => Action::RemoveFile(config::PID_PATH.to_owned()),
            DisablePhase::LoadConfig => Action::LoadConfig,
            DisablePhase::ReadOvpn => Action::ReadFile(self.path.clone()),
            DisablePhase::RemoveRules => Action::RemoveRules(self.ovpn.clone()),
            DisablePhase::Publish => Action::Publish(self.status.copy()),
            DisablePhase::Over => Action::Finish(Ok(self.status.json())),
        }
    }

    fn report(&mut self, stamp: Stamp)
        ensures
            final(self)@ == old(self)@.reporting(stamp),
    {
        self.status = Status::new("stopped", "tunnel stopped", 0, stamp);
        self.phase = DisablePhase::Publish;
    }

    /// Takes what came of the action that `next` gave.
    pub fn took(&mut self, event: Event, stamp: Stamp)
        requires
            old(self)@.wf(),
        ensures
            final(self)@ == old(self)@.after(event@, stamp),
            final(self)@.wf(),
    {
        match (self.phase, event) {
            (DisablePhase::ReadPid, Event::Text(content)) => match read_pid(content) {
                Some(pid) => {
                    self.pid = pid;
                    self.phase = DisablePhase::Terminate;
                },
                None => {
                    self.phase = DisablePhase::CleanNetns;
                },
            },
            (DisablePhase::Terminate, Event::Done) => {
                self.polls = 0;
                self.phase = DisablePhase::Probe;
            },
            (DisablePhase::Probe, Event::Seen(alive)) => {
                self.phase = if alive {
                    DisablePhase::Nap
                } else {
                    DisablePhase::CleanNetns
                };
            },
            (DisablePhase::Nap, Event::Done) => {
                if self.polls + 1 < STOP_POLLS {
                    self.polls += 1;
                    self.phase = DisablePhase::Probe;
                } else {
                    self.phase = DisablePhase::CleanNetns;
                }
            },
            (DisablePhase::CleanNetns, Event::Reply(_)) => {
                self.phase = DisablePhase::RemovePid;
            },
            (DisablePhase::RemovePid, Event::Done) => {
                self.phase = DisablePhase::LoadConfig;
            },
            (DisablePhase::LoadConfig, Event::Config(loaded)) => {
                self.path = match loaded {
                    Ok(cfg) => cfg.ovpn(),
                    Err(_) => config::DEFAULT_OVPN_PATH.to_owned(),
                };
                self.phase = DisablePhase::ReadOvpn;
            },
            (DisablePhase::ReadOvpn, Event::Text(content)) => match content {
                Some(ovpn) => {
                    self.ovpn = ovpn;
                    self.phase = DisablePhase::RemoveRules;
                },
                None => self.report(stamp),
            },
            (DisablePhase::RemoveRules, Event::Done) => self.report(stamp),
            (DisablePhase::Publish, Event::Done) => {
                self.phase = DisablePhase::Over;
            },
            _ => {},
        }
    }
}

} // verus!
