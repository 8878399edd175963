//! The supervisor: it outlives `helper enable`, owns the OpenVPN and SOCKS5
//! children and the relay, switches the default route of the namespace over
//! when the tunnel comes up, and tears everything down in the end.
//!
//! The supervisor decides step by step: `next` says what is to be done, and
//! `took` takes what came of it.
use vstd::prelude::*;

use crate::command;
use crate::command::{Command, CommandModel};
use crate::config;
use crate::config::{Config, ConfigModel};
use crate::netns;
use crate::number;
use crate::relay;
use crate::status;
use crate::status::{Stamp, Status, StatusModel};
use crate::supervision_laws;
use crate::text;

verus! {

/// How long the supervisor sleeps between two looks, in milliseconds.
pub const POLL_INTERVAL: u64 = 500;

/// How often OpenVPN is restarted.
pub const MAX_OPENVPN_RESTARTS: u32 = 3;

/// How long OpenVPN must have run to be restarted, in milliseconds.
pub const RESTART_DELAY: u64 = 10000;

/// What the supervisor is at.
#[derive(Clone, Copy, Debug, PartialEq, Eq, Structural)]
pub enum Phase {
    WritePid,
    FindPort,
    StartRelay,
    StartOpenvpn,
    StartSocks,
    /// The start failed: wait until the supervisor is asked to stop.
    AwaitStop,
    AwaitSleep,
    /// The top of the loop.
    CheckStop,
    CheckNamespace,
    CheckOpenvpn,
    RestartOpenvpn,
    CheckSocks,
    RestartSocks,
    CheckHostTun,
    MoveTun,
    CheckNsTun,
    SetRoute,
    Sleep,
    /// The teardown.
    RemovePid,
    StopOpenvpn,
    StopSocks,
    CleanNetns,
    Over,
}

/// What is to be done next.
pub enum Action {
    /// Publish this status.
    Publish(Status),
    /// Write the file.
    WriteFile { path: String, content: String },
    /// Find a free port on 127.0.0.1, at or above the given one.
    FindPort(u16),
    /// Listen on the first address and pass each connection on to the second.
    StartRelay { listen: String, target: String },
    /// Start OpenVPN.
    StartOpenvpn,
    /// Start the SOCKS5 server on the given address of the namespace.
    StartSocks { ns_ip: String, port: u16, dns: Vec<String> },
    /// See whether the supervisor was asked to stop.
    CheckStop,
    /// See whether the namespace is there.
    CheckNamespace,
    /// See whether OpenVPN has ended.
    CheckOpenvpn,
    /// See whether the SOCKS5 server has ended.
    CheckSocks,
    /// Run the command.
    Run(Command),
    /// Move the tunnel device into the namespace.
    MoveTun,
    /// Sleep for so many milliseconds.
    Sleep(u64),
    /// Remove the file.
    RemoveFile(String),
    /// Stop OpenVPN.
    StopOpenvpn,
    /// Stop the SOCKS5 server.
    StopSocks,
    /// The supervisor is done.
    Exit,
}

/// What is to be done next.
pub enum ActionModel {
    Publish(StatusModel),
    WriteFile { path: Seq<char>, content: Seq<char> },
    FindPort(u16),
    StartRelay { listen: Seq<char>, target: Seq<char> },
    StartOpenvpn,
    StartSocks { ns_ip: Seq<char>, port: u16, dns: Seq<Seq<char>> },
    CheckStop,
    CheckNamespace,
    CheckOpenvpn,
    CheckSocks,
    Run(CommandModel),
    MoveTun,
    Sleep(u64),
    RemoveFile(Seq<char>),
    StopOpenvpn,
    StopSocks,
    Exit,
}

impl View for Action {
    type V = ActionModel;

    open spec fn view(&self) -> ActionModel {
        match self {
            Action::Publish(status) => ActionModel::Publish(status@),
            Action::WriteFile { path, content } => ActionModel::WriteFile {
                path: path@,
                content: content@,
            },
            Action::FindPort(port) => ActionModel::FindPort(*port),
            Action::StartRelay { listen, target } => ActionModel::StartRelay {
                listen: listen@,
                target: target@,
            },
            Action::StartOpenvpn => ActionModel::StartOpenvpn,
            Action::StartSocks { ns_ip, port, dns } => ActionModel::StartSocks {
                ns_ip: ns_ip@,
                port: *port,
                dns: dns.deep_view(),
            },
            Action::CheckStop => ActionModel::CheckStop,
            Action::CheckNamespace => ActionModel::CheckNamespace,
            Action::CheckOpenvpn => ActionModel::CheckOpenvpn,
            Action::CheckSocks => ActionModel::CheckSocks,
            Action::Run(command) => ActionModel::Run(command@),
            Action::MoveTun => ActionModel::MoveTun,
            Action::Sleep(ms) => ActionModel::Sleep(*ms),
            Action::RemoveFile(path) => ActionModel::RemoveFile(path@),
            Action::StopOpenvpn => ActionModel::StopOpenvpn,
            Action::StopSocks => ActionModel::StopSocks,
            Action::Exit => ActionModel::Exit,
        }
    }
}

/// What came of an action.
pub enum Event {
    /// It was done; there is nothing more to say.
    Done,
    /// The port that was found, if one was.
    Port(Option<u16>),
    /// The child was started, or the reason why not.
    Spawned(Result<(), String>),
    /// What was asked about is so, or is not so.
    Seen(bool),
    /// The outcome of a command.
    Reply(Result<String, String>),
}

/// What came of an action.
pub enum EventModel {
    Done,
    Port(Option<u16>),
    Spawned(Result<(), Seq<char>>),
    Seen(bool),
    Reply(Result<Seq<char>, Seq<char>>),
}

impl View for Event {
    type V = EventModel;

    open spec fn view(&self) -> EventModel {
        match self {
            Event::Done => EventModel::Done,
            Event::Port(port) => EventModel::Port(*port),
            Event::Spawned(Ok(_)) => EventModel::Spawned(Ok(())),
            Event::Spawned(Err(e)) => EventModel::Spawned(Err(e@)),
            Event::Seen(so) => EventModel::Seen(*so),
            Event::Reply(reply) => EventModel::Reply(command::reply_model(*reply)),
        }
    }
}

/// The supervisor.
pub struct Supervisor {
    cfg: Config,
    ns_ip: String,
    port: u16,
    pid: u32,
    phase: Phase,
    status: Status,
    outbox: Vec<Status>,
    key: String,
    socks_port: u16,
    openvpn: bool,
    socks: bool,
    restarts: u32,
    last_restart: u64,
}

/// What a supervisor amounts to.
pub struct SupervisorModel {
    pub cfg: ConfigModel,
    /// The address of the namespace.
    pub ns_ip: Seq<char>,
    /// The port that is configured.
    pub port: u16,
    /// The process that the supervisor runs in.
    pub pid: u32,
    pub phase: Phase,
    /// The status of the tunnel.
    pub status: StatusModel,
    /// What is still to be published, in this order.
    pub outbox: Seq<StatusModel>,
    /// The state and the detail that were last reported.
    pub key: Seq<char>,
    /// The port that the relay listens on.
    pub socks_port: u16,
    /// Whether there is an OpenVPN child.
    pub openvpn: bool,
    /// Whether there is a SOCKS5 child.
    pub socks: bool,
    pub restarts: u32,
    /// When OpenVPN was last restarted, or the loop began.
    pub last_restart: u64,
}

impl View for Supervisor {
    type V = SupervisorModel;

    closed spec fn view(&self) -> SupervisorModel {
        SupervisorModel {
            cfg: self.cfg@,
            ns_ip: self.ns_ip@,
            port: self.port,
            pid: self.pid,
            phase: self.phase,
            status: self.status@,
            outbox: self.outbox.deep_view(),
            key: self.key@,
            socks_port: self.socks_port,
            openvpn: self.openvpn,
            socks: self.socks,
            restarts: self.restarts,
            last_restart: self.last_restart,
        }
    }
}

/// The states that the supervisor reports.
pub open spec fn reported(state: Seq<char>) -> bool {
    status::healthy(state) || state == "stopped"@ || state == "error"@
}

/// The detail that goes with a restart of OpenVPN.
pub open spec fn restarting(attempt: u32) -> Seq<char> {
    "restarting openvpn (attempt "@ + number::decimal(attempt as nat) + ")"@
}

/// The explanation that goes with an OpenVPN that is not restarted any more.
pub open spec fn gave_up(restarts: u32) -> Seq<char> {
    "openvpn exited after "@ + number::decimal(restarts as nat) + " restart(s); giving up"@
}

/// Whether the supervisor has not yet begun to end.
pub open spec fn live(phase: Phase) -> bool {
    match phase {
        Phase::AwaitStop => false,
        Phase::AwaitSleep => false,
        Phase::RemovePid => false,
        Phase::StopOpenvpn => false,
        Phase::StopSocks => false,
        Phase::CleanNetns => false,
        Phase::Over => false,
        _ => true,
    }
}

impl SupervisorModel {
    /// Whether the state and the detail are those that were last reported.
    pub open spec fn keyed(self) -> bool {
        ||| self.key.len() == 0 && self.status.state == "starting"@
        ||| self.key == self.status.state + "|"@ + self.status.detail
    }

    /// What holds of a supervisor at all times.
    pub open spec fn wf(self) -> bool {
        &&& live(self.phase) ==> self.keyed()
        &&& self.phase is WritePid ==> self.key.len() == 0
        &&& self.restarts <= MAX_OPENVPN_RESTARTS
        &&& reported(self.status.state)
        &&& forall|i: int|
            0 <= i < self.outbox.len() ==> reported((#[trigger] self.outbox[i]).state)
        &&& self.phase is RestartOpenvpn ==> self.restarts > 0 && !self.openvpn
        &&& self.phase is CleanNetns || self.phase is Over ==> !self.openvpn && !self.socks
        &&& self.phase is StopSocks ==> !self.openvpn
    }

    /// What is to be done next. A status is published before anything else.
    pub open spec fn next(self) -> ActionModel {
        if self.outbox.len() > 0 {
            ActionModel::Publish(self.outbox[0])
        } else {
            match self.phase {
                Phase::WritePid => ActionModel::WriteFile {
                    path: config::PID_PATH@,
                    content: number::decimal(self.pid as nat) + "\n"@,
                },
                Phase::FindPort => ActionModel::FindPort(self.port),
                Phase::StartRelay => ActionModel::StartRelay {
                    listen: relay::address_model("127.0.0.1"@, self.socks_port),
                    target: relay::address_model(self.ns_ip, self.port),
                },
                Phase::StartOpenvpn => ActionModel::StartOpenvpn,
                Phase::StartSocks => self.start_socks(),
                Phase::AwaitStop => ActionModel::CheckStop,
                Phase::AwaitSleep => ActionModel::Sleep(POLL_INTERVAL),
                Phase::CheckStop => ActionModel::CheckStop,
                Phase::CheckNamespace => ActionModel::CheckNamespace,
                Phase::CheckOpenvpn => ActionModel::CheckOpenvpn,
                Phase::RestartOpenvpn => ActionModel::StartOpenvpn,
                Phase::CheckSocks => ActionModel::CheckSocks,
                Phase::RestartSocks => self.start_socks(),
                Phase::CheckHostTun => ActionModel::Run(netns::host_tun_command()),
                Phase::MoveTun => ActionModel::MoveTun,
                Phase::CheckNsTun => ActionModel::Run(netns::ns_tun_command()),
                Phase::SetRoute => ActionModel::Run(netns::default_route_command()),
                Phase::Sleep => ActionModel::Sleep(POLL_INTERVAL),
                Phase::RemovePid => ActionModel::RemoveFile(config::PID_PATH@),
                Phase::StopOpenvpn => ActionModel::StopOpenvpn,
                Phase::StopSocks => ActionModel::StopSocks,
                Phase::CleanNetns => ActionModel::Run(netns::cleanup_command()),
                Phase::Over => ActionModel::Exit,
            }
        }
    }

    pub open spec fn start_socks(self) -> ActionModel {
        ActionModel::StartSocks { ns_ip: self.ns_ip, port: self.port, dns: self.cfg.dns() }
    }

    /// The supervisor that goes on with another phase.
    pub open spec fn at(self, phase: Phase) -> SupervisorModel {
        SupervisorModel { phase, ..self }
    }

    /// The supervisor that publishes a new status.
    pub open spec fn with(self, status: StatusModel) -> SupervisorModel {
        SupervisorModel { status, outbox: self.outbox.push(status), ..self }
    }

    /// The supervisor that reports a state, unless it is what was last
    /// reported.
    pub open spec fn reporting(self, state: Seq<char>, detail: Seq<char>) -> SupervisorModel {
        let key = state + "|"@ + detail;
        if self.key == key {
            self
        } else {
            SupervisorModel { key, ..self }.with(
                StatusModel { state, detail, socks_port: self.socks_port, ..self.status },
            )
        }
    }

    /// The supervisor that has an explanation for the error that it reports.
    pub open spec fn explaining(self, error: Seq<char>) -> SupervisorModel {
        SupervisorModel { status: StatusModel { error: Some(error), ..self.status }, ..self }
    }

    /// The supervisor whose start failed: it says so and waits.
    pub open spec fn failing(self, detail: Seq<char>, error: Seq<char>, port: u16, stamp: Stamp) -> SupervisorModel {
        self.with(status::failed(detail, error, port, stamp)).at(Phase::AwaitStop)
    }

    /// The supervisor that begins its teardown.
    pub open spec fn stopping(self, stamp: Stamp) -> SupervisorModel {
        self.with(status::fresh("stopped"@, "stopped"@, self.socks_port, stamp)).at(
            Phase::RemovePid,
        )
    }

    /// The supervisor that stops what children it has.
    pub open spec fn releasing(self) -> SupervisorModel {
        self.at(
            if self.openvpn {
                Phase::StopOpenvpn
            } else if self.socks {
                Phase::StopSocks
            } else {
                Phase::CleanNetns
            },
        )
    }

    /// The supervisor that goes on with the SOCKS5 child.
    pub open spec fn onto_socks(self) -> SupervisorModel {
        self.at(
            if self.socks {
                Phase::CheckSocks
            } else {
                Phase::CheckHostTun
            },
        )
    }

    /// The supervisor that found out that OpenVPN has ended.
    pub open spec fn openvpn_ended(self, now: u64) -> SupervisorModel {
        let gone = SupervisorModel { openvpn: false, ..self };
        if self.restarts < MAX_OPENVPN_RESTARTS && now - self.last_restart >= RESTART_DELAY {
            SupervisorModel {
                restarts: (self.restarts + 1) as u32,
                last_restart: now,
                ..gone
            }.at(Phase::RestartOpenvpn)
        } else {
            gone.explaining(gave_up(self.restarts)).reporting(
                "error"@,
                "openvpn exited; give up"@,
            ).onto_socks()
        }
    }

    /// The supervisor after the action came to this; `now` is in milliseconds
    /// on a clock that does not go back. An event that does not belong to the
    /// action changes nothing.
    pub open spec fn after(self, event: EventModel, stamp: Stamp, now: u64) -> SupervisorModel {
        if self.outbox.len() > 0 {
            match event {
                EventModel::Done => SupervisorModel { outbox: self.outbox.drop_first(), ..self },
                _ => self,
            }
        } else {
            match (self.phase, event) {
                (Phase::WritePid, EventModel::Done) => self.with(
                    status::fresh("starting"@, "starting tunnel"@, self.port, stamp),
                ).at(Phase::FindPort),
                (Phase::FindPort, EventModel::Port(Some(port))) => SupervisorModel {
                    phase: Phase::StartRelay,
                    socks_port: port,
                    status: StatusModel { socks_port: port, ..self.status },
                    ..self
                },
                (Phase::FindPort, EventModel::Port(None)) => self.failing(
                    "cannot bind 127.0.0.1 proxy port"@,
                    "no free port near "@ + number::decimal(self.port as nat),
                    self.port,
                    stamp,
                ),
                (Phase::StartRelay, EventModel::Done) => self.at(Phase::StartOpenvpn),
                (Phase::StartOpenvpn, EventModel::Spawned(Ok(_))) => SupervisorModel {
                    phase: Phase::StartSocks,
                    openvpn: true,
                    ..self
                },
                (Phase::StartOpenvpn, EventModel::Spawned(Err(e))) => self.failing(
                    e,
                    e,
                    self.socks_port,
                    stamp,
                ),
                (Phase::StartSocks, EventModel::Spawned(Ok(_))) => SupervisorModel {
                    phase: Phase::CheckStop,
                    socks: true,
                    last_restart: now,
                    ..self
                },
                (Phase::StartSocks, EventModel::Spawned(Err(e))) => self.failing(
                    e,
                    e,
                    self.socks_port,
                    stamp,
                ),
                (Phase::AwaitStop, EventModel::Seen(true)) => self.releasing(),
                (Phase::AwaitStop, EventModel::Seen(false)) => self.at(Phase::AwaitSleep),
                (Phase::AwaitSleep, EventModel::Done) => self.at(Phase::AwaitStop),
                (Phase::CheckStop, EventModel::Seen(true)) => self.stopping(stamp),
                (Phase::CheckStop, EventModel::Seen(false)) => self.at(Phase::CheckNamespace),
                (Phase::CheckNamespace, EventModel::Seen(true)) => if self.openvpn {
                    self.at(Phase::CheckOpenvpn)
                } else {
                    self.onto_socks()
                },
                (Phase::CheckNamespace, EventModel::Seen(false)) => self.reporting(
                    "error"@,
                    "network namespace disappeared; re-enable the tunnel"@,
                ).stopping(stamp),
                (Phase::CheckOpenvpn, EventModel::Seen(true)) => self.openvpn_ended(now),
                (Phase::CheckOpenvpn, EventModel::Seen(false)) => self.onto_socks(),
                (Phase::RestartOpenvpn, EventModel::Spawned(Ok(_))) => SupervisorModel {
                    openvpn: true,
                    ..self
                }.reporting("starting"@, restarting(self.restarts)).onto_socks(),
                (Phase::RestartOpenvpn, EventModel::Spawned(Err(e))) => self.explaining(
                    e,
                ).reporting("error"@, e).onto_socks(),
                (Phase::CheckSocks, EventModel::Seen(true)) => SupervisorModel {
                    phase: Phase::RestartSocks,
                    socks: false,
                    ..self
                },
                (Phase::CheckSocks, EventModel::Seen(false)) => self.at(Phase::CheckHostTun),
                (Phase::RestartSocks, EventModel::Spawned(started)) => SupervisorModel {
                    phase: Phase::CheckHostTun,
                    socks: started is Ok,
                    ..self
                },
                (Phase::CheckHostTun, EventModel::Reply(reply)) => self.at(
                    if command::output_has(reply, "inet "@) {
                        Phase::MoveTun
                    } else {
                        Phase::CheckNsTun
                    },
                ),
                (Phase::MoveTun, EventModel::Done) => self.at(Phase::CheckNsTun),
                (Phase::CheckNsTun, EventModel::Reply(reply)) => if command::output_has(
                    reply,
                    "LOWER_UP"@,
                ) {
                    self.at(Phase::SetRoute)
                } else if self.status.state == "running"@ {
                    self.reporting("reconnecting"@, "tunnel down; waiting for reconnect"@).at(
                        Phase::Sleep,
                    )
                } else {
                    self.at(Phase::Sleep)
                },
                (Phase::SetRoute, EventModel::Reply(_)) => if self.status.state != "running"@ {
                    self.reporting("running"@, "tunnel up"@).at(Phase::Sleep)
                } else {
                    self.at(Phase::Sleep)
                },
                (Phase::Sleep, EventModel::Done) => self.at(Phase::CheckStop),
                (Phase::RemovePid, EventModel::Done) => self.releasing(),
                (Phase::StopOpenvpn, EventModel::Done) => SupervisorModel {
                    openvpn: false,
                    ..self
                }.releasing(),
                (Phase::StopSocks, EventModel::Done) => SupervisorModel {
                    socks: false,
                    ..self
                }.releasing(),
                (Phase::CleanNetns, EventModel::Reply(_)) => self.at(Phase::Over),
                _ => self,
            }
        }
    }
}

/// Starts a supervisor: `ns_ip` is the address of the namespace, `port` the
/// port that is configured.
pub fn run(cfg: Config, ns_ip: String, port: u16, stamp: Stamp) -> (r: Supervisor)
    ensures
        r@ == start_model(cfg@, ns_ip@, port, stamp),
        r@.wf(),
{
    let status = Status::new("starting", "starting tunnel", port, stamp);
    let outbox: Vec<Status> = Vec::new();
    proof {
        assert(outbox.deep_view() =~= Seq::<StatusModel>::empty());
    }
    Supervisor {
        cfg,
        ns_ip,
        port,
        pid: stamp.pid,
        phase: Phase::WritePid,
        status,
        outbox,
        key: String::new(),
        socks_port: port,
        openvpn: false,
        socks: false,
        restarts: 0,
        last_restart: 0,
    }
}

/// A supervisor at its start.
pub open spec fn start_model(
    cfg: ConfigModel,
    ns_ip: Seq<char>,
    port: u16,
    stamp: Stamp,
) -> SupervisorModel {
    SupervisorModel {
        cfg,
        ns_ip,
        port,
        pid: stamp.pid,
        phase: Phase::WritePid,
        status: status::fresh("starting"@, "starting tunnel"@, port, stamp),
        outbox: seq![],
        key: seq![],
        socks_port: port,
        openvpn: false,
        socks: false,
        restarts: 0,
        last_restart: 0,
    }
}

impl Supervisor {
    /// What is to be done next.
    pub fn next(&self) -> (r: Action)
        ensures
            r@ == self@.next(),
    {
        if self.outbox.len() > 0 {
            proof {
                assert(self.outbox.deep_view()[0] == self.outbox@[0]@);
            }
            return Action::Publish(self.outbox[0].copy());
        }
        match self.phase {
            Phase::WritePid => Action::WriteFile {
                path: config::PID_PATH.to_owned(),
                content: text::cat(number::decimal_of(self.pid as u64).as_str(), "\n"),
            },
            Phase::FindPort => Action::FindPort(self.port),
            Phase::StartRelay => Action::StartRelay {
                listen: relay::address("127.0.0.1", self.socks_port),
                target: relay::address(self.ns_ip.as_str(), self.port),
            },
            Phase::StartOpenvpn => Action::StartOpenvpn,
            Phase::StartSocks => self.start_socks(),
            Phase::AwaitStop => Action::CheckStop,
            Phase::AwaitSleep => Action::Sleep(POLL_INTERVAL),
            Phase::CheckStop => Action::CheckStop,
            Phase::CheckNamespace => Action::CheckNamespace,
            Phase::CheckOpenvpn => Action::CheckOpenvpn,
            Phase::RestartOpenvpn => Action::StartOpenvpn,
            Phase::CheckSocks => Action::CheckSocks,
            Phase::RestartSocks => self.start_socks(),
            Phase::CheckHostTun => Action::Run(netns::host_tun_query()),
            Phase::MoveTun => Action::MoveTun,
            Phase::CheckNsTun => Action::Run(netns::ns_tun_query()),
            Phase::SetRoute => Action::Run(netns::ensure_ns_tun_default()),
            Phase::Sleep => Action::Sleep(POLL_INTERVAL),
            Phase::RemovePid => Action::RemoveFile(config::PID_PATH.to_owned()),
            Phase::StopOpenvpn => Action::StopOpenvpn,
            Phase::StopSocks => Action::StopSocks,
            Phase::CleanNetns => Action::Run(netns::cleanup_netns()),
            Phase::Over => Action::Exit,
        }
    }

    fn start_socks(&self) -> (r: Action)
        ensures
            r@ == self@.start_socks(),
    {
        Action::StartSocks { ns_ip: self.ns_ip.clone(), port: self.port, dns: self.cfg.dns() }
    }

    /// Publishes a new status.
    fn publish(&mut self, status: Status)
        ensures
            final(self)@ == old(self)@.with(status@),
    {
        let ghost before = self.outbox;
        self.outbox.push(status.copy());
        self.status = status;
        proof {
            assert(self.outbox.deep_view() =~= before.deep_view().push(status@));
        }
    }

    /// Reports a state, unless it is what was last reported.
    fn set_state(&mut self, state: &str, detail: &str)
        ensures
            final(self)@ == old(self)@.reporting(state@, detail@),
    {
        let key = text::cat3(state, "|", detail);
        if text::same(self.key.as_str(), key.as_str()) {
            return;
        }
        self.key = key;
        let mut status = self.status.copy();
        status.state = state.to_owned();
        status.detail = detail.to_owned();
        status.socks_port = self.socks_port;
        self.publish(status);
    }

    /// Reports that the start failed.
    fn fail(&mut self, detail: &str, error: &str, port: u16, stamp: Stamp)
        ensures
            final(self)@ == old(self)@.failing(detail@, error@, port, stamp),
    {
        self.publish(Status::failure(detail, error, port, stamp));
        self.phase = Phase::AwaitStop;
    }

    /// Begins the teardown.
    fn stop(&mut self, stamp: Stamp)
        ensures
            final(self)@ == old(self)@.stopping(stamp),
    {
        self.publish(Status::new("stopped", "stopped", self.socks_port, stamp));
        self.phase = Phase::RemovePid;
    }

    /// Stops what children there are.
    fn cleanup(&mut self)
        ensures
            final(self)@ == old(self)@.releasing(),
    {
        self.phase = if self.openvpn {
            Phase::StopOpenvpn
        } else if self.socks {
            Phase::StopSocks
        } else {
            Phase::CleanNetns
        };
    }

    /// Goes on with the SOCKS5 child.
    fn onto_socks(&mut self)
        ensures
            final(self)@ == old(self)@.onto_socks(),
    {
        self.phase = if self.socks {
            Phase::CheckSocks
        } else {
            Phase::CheckHostTun
        };
    }

    /// Restarts OpenVPN, or gives up.
    fn openvpn_ended(&mut self, now: u64)
        requires
            old(self)@.restarts <= MAX_OPENVPN_RESTARTS,
        ensures
            final(self)@ == old(self)@.openvpn_ended(now),
    {
        self.openvpn = false;
        if self.restarts < MAX_OPENVPN_RESTARTS && now >= self.last_restart && now
            - self.last_restart >= RESTART_DELAY {
            self.restarts += 1;
            self.last_restart = now;
            self.phase = Phase::RestartOpenvpn;
        } else {
            self.status.error = Some(
                text::cat3(
                    "openvpn exited after ",
                    number::decimal_of(self.restarts as u64).as_str(),
                    " restart(s); giving up",
                ),
            );
            self.set_state("error", "openvpn exited; give up");
            self.onto_socks();
        }
    }

    /// Takes what came of the action that `next` gave; `now` is in milliseconds
    /// on a clock that does not go back.
    pub fn took(&mut self, event: Event, stamp: Stamp, now: u64)
        requires
            old(self)@.wf(),
        ensures
            final(self)@ == old(self)@.after(event@, stamp, now),
            final(self)@.wf(),
            old(self)@.outbox.len() == 0 && old(self)@.phase is CheckHostTun && event@ is Reply
                ==> final(self)@.next() == (if supervision_laws::tells(
                event@->Reply_0,
                "inet "@,
            ) {
                ActionModel::MoveTun
            } else {
                supervision_laws::asks_namespace()
            }),
    {
        proof {
            law_invariant(self@, event@, stamp, now);
            if self@.outbox.len() == 0 && self@.phase is CheckHostTun && event@ is Reply {
                supervision_laws::law_device_on_the_host_is_moved(
                    self@,
                    event@->Reply_0,
                    stamp,
                    now,
                );
            }
        }
        if self.outbox.len() > 0 {
            if let Event::Done = event {
                let ghost before = self.outbox;
                let _ = self.outbox.remove(0);
                proof {
                    assert(self.outbox.deep_view() =~= before.deep_view().drop_first());
                }
            }
            return;
        }
        match (self.phase, event) {
            (Phase::WritePid, Event::Done) => {
                self.publish(Status::new("starting", "starting tunnel", self.port, stamp));
                self.phase = Phase::FindPort;
            },
            (Phase::FindPort, Event::Port(Some(port))) => {
                self.socks_port = port;
                self.status.socks_port = port;
                self.phase = Phase::StartRelay;
            },
            (Phase::FindPort, Event::Port(None)) => {
                let near = text::cat(
                    "no free port near ",
                    number::decimal_of(self.port as u64).as_str(),
                );
                self.fail("cannot bind 127.0.0.1 proxy port", near.as_str(), self.port, stamp);
            },
            (Phase::StartRelay, Event::Done) => {
                self.phase = Phase::StartOpenvpn;
            },
            (Phase::StartOpenvpn, Event::Spawned(Ok(_))) => {
                self.openvpn = true;
                self.phase = Phase::StartSocks;
            },
            (Phase::StartOpenvpn, Event::Spawned(Err(e))) => {
                self.fail(e.as_str(), e.as_str(), self.socks_port, stamp);
            },
            (Phase::StartSocks, Event::Spawned(Ok(_))) => {
                self.socks = true;
                self.last_restart = now;
                self.phase = Phase::CheckStop;
            },
            (Phase::StartSocks, Event::Spawned(Err(e))) => {
                self.fail(e.as_str(), e.as_str(), self.socks_port, stamp);
            },
            (Phase::AwaitStop, Event::Seen(stop)) => {
                if stop {
                    self.cleanup();
                } else {
                    self.phase = Phase::AwaitSleep;
                }
            },
            (Phase::AwaitSleep, Event::Done) => {
                self.phase = Phase::AwaitStop;
            },
            (Phase::CheckStop, Event::Seen(stop)) => {
                if stop {
                    self.stop(stamp);
                } else {
                    self.phase = Phase::CheckNamespace;
                }
            },
            (Phase::CheckNamespace, Event::Seen(present)) => {
                if !present {
                    self.set_state("error", "network namespace disappeared; re-enable the tunnel");
                    self.stop(stamp);
                } else if self.openvpn {
                    self.phase = Phase::CheckOpenvpn;
                } else {
                    self.onto_socks();
                }
            },
            (Phase::CheckOpenvpn, Event::Seen(ended)) => {
                if ended {
                    self.openvpn_ended(now);
                } else {
                    self.onto_socks();
                }
            },
            (Phase::RestartOpenvpn, Event::Spawned(Ok(_))) => {
                self.openvpn = true;
                let detail = text::cat3(
                    "restarting openvpn (attempt ",
                    number::decimal_of(self.restarts as u64).as_str(),
                    ")",
                );
                self.set_state("starting", detail.as_str());
                self.onto_socks();
            },
            (Phase::RestartOpenvpn, Event::Spawned(Err(e))) => {
                self.status.error = Some(e.clone());
                self.set_state("error", e.as_str());
                self.onto_socks();
            },
            (Phase::CheckSocks, Event::Seen(ended)) => {
                if ended {
                    self.socks = false;
                    self.phase = Phase::RestartSocks;
                } else {
                    self.phase = Phase::CheckHostTun;
                }
            },
            (Phase::RestartSocks, Event::Spawned(started)) => {
                self.socks = started.is_ok();
                self.phase = Phase::CheckHostTun;
            },
            (Phase::CheckHostTun, Event::Reply(reply)) => {
                self.phase = if netns::host_tun_ready(&reply) {
                    Phase::MoveTun
                } else {
                    Phase::CheckNsTun
                };
            },
            (Phase::MoveTun, Event::Done) => {
                self.phase = Phase::CheckNsTun;
            },
            (Phase::CheckNsTun, Event::Reply(reply)) => {
                if netns::ns_tun_ready(&reply) {
                    self.phase = Phase::SetRoute;
                } else {
                    if text::same(self.status.state.as_str(), "running") {
                        self.set_state("reconnecting", "tunnel down; waiting for reconnect");
                    }
                    self.phase = Phase::Sleep;
                }
            },
            (Phase::SetRoute, Event::Reply(_)) => {
                if !text::same(self.status.state.as_str(), "running") {
                    self.set_state("running", "tunnel up");
                }
                self.phase = Phase::Sleep;
            },
            (Phase::Sleep, Event::Done) => {
                self.phase = Phase::CheckStop;
            },
            (Phase::RemovePid, Event::Done) => {
                self.cleanup();
            },
            (Phase::StopOpenvpn, Event::Done) => {
                self.openvpn = false;
                self.cleanup();
            },
            (Phase::StopSocks, Event::Done) => {
                self.socks = false;
                self.cleanup();
            },
            (Phase::CleanNetns, Event::Reply(_)) => {
                self.phase = Phase::Over;
            },
            _ => {},
        }
    }
}

/// What holds of a supervisor at all times holds after every event. So every
/// status that it publishes is in one of the states that the extension knows,
/// and nothing is left running when the namespace is deleted.
#[verifier::rlimit(60)]
pub proof fn law_invariant(s: SupervisorModel, event: EventModel, stamp: Stamp, now: u64)
    requires
        s.wf(),
    ensures
        s.after(event, stamp, now).wf(),
{
    let t = s.after(event, stamp, now);
    assert forall|i: int| 0 <= i < t.outbox.len() implies reported(
        (#[trigger] t.outbox[i]).state,
    ) by {
        if s.outbox.len() > 0 {
            if event is Done {
                assert(t.outbox[i] == s.outbox[i + 1]);
            } else {
                assert(t.outbox[i] == s.outbox[i]);
            }
        }
    }
}

} // verus!
