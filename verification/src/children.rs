//! The processes that the supervisor owns: OpenVPN on the host and the SOCKS5
//! server in the namespace. How they are started and how they are stopped.
use vstd::prelude::*;

use crate::command;
use crate::command::{Invocation, InvocationModel};
use crate::config;
use crate::config::{Config, ConfigModel};
use crate::netns;
use crate::number;
use crate::text;

verus! {

// ---- starting ----

/// What OpenVPN is started with. It may neither change routes nor run scripts
/// on the host, and its data path is in user space, because other devices
/// cannot be moved into a namespace.
pub open spec fn openvpn_args(ovpn: Seq<char>, auth: Option<Seq<char>>) -> Seq<Seq<char>> {
    seq![
        "--config"@,
        ovpn,
        "--dev"@,
        config::TUN_DEV@,
        "--dev-type"@,
        "tun"@,
        "--route-noexec"@,
        "--disable-dco"@,
        "--script-security"@,
        "0"@,
        "--auth-retry"@,
        "nointeract"@,
        "--auth-nocache"@,
        "--verb"@,
        "3"@,
        "--log"@,
        "/run/kit-vpn/openvpn.log"@,
        "--status"@,
        "/run/kit-vpn/openvpn-status.log"@,
        "30"@,
    ] + match auth {
        Some(file) => seq!["--auth-user-pass"@, file],
        None => seq![],
    }
}

/// How OpenVPN is started. `found` is the file to run, if it was found;
/// `auth_present` says whether the configured file with credentials is there.
pub open spec fn openvpn_invocation(
    cfg: ConfigModel,
    found: Option<Seq<char>>,
    auth_present: bool,
) -> InvocationModel {
    InvocationModel {
        program: config::text_or(found, "openvpn"@),
        args: openvpn_args(
            cfg.ovpn(),
            if auth_present {
                cfg.auth_user_pass
            } else {
                None
            },
        ),
    }
}

/// How OpenVPN is started. `found` is the file to run, if it was found;
/// `auth_present` says whether the configured file with credentials is there.
/// If it is not, OpenVPN is started without one.
pub fn spawn_openvpn(cfg: &Config, found: Option<String>, auth_present: bool) -> (r: Invocation)
    ensures
        r@ == openvpn_invocation(cfg@, found.deep_view(), auth_present),
        r@.args[0] == "--config"@,
        r@.args[1] == cfg@.ovpn(),
{
    let ovpn = cfg.ovpn();
    let mut args = text::owned(
        &[
            "--config",
            ovpn.as_str(),
            "--dev",
            config::TUN_DEV,
            "--dev-type",
            "tun",
            "--route-noexec",
            "--disable-dco",
            "--script-security",
            "0",
            "--auth-retry",
            "nointeract",
            "--auth-nocache",
            "--verb",
            "3",
            "--log",
            "/run/kit-vpn/openvpn.log",
            "--status",
            "/run/kit-vpn/openvpn-status.log",
            "30",
        ],
    );
    let ghost head = args;
    if auth_present {
        if let Some(file) = &cfg.auth_user_pass {
            let mut more = text::owned(&["--auth-user-pass", file.as_str()]);
            let ghost tail = more;
            args.append(&mut more);
            proof {
                assert(tail.deep_view() =~= seq!["--auth-user-pass"@, file@]);
                assert(args.deep_view() =~= head.deep_view() + tail.deep_view());
            }
        }
    }
    proof {
        assert(head.deep_view() + Seq::<Seq<char>>::empty() =~= head.deep_view());
        assert(args.deep_view() =~= openvpn_args(
            cfg@.ovpn(),
            if auth_present {
                cfg@.auth_user_pass
            } else {
                None
            },
        ));
    }
    Invocation { program: command::bin("openvpn", found), args }
}

/// Why OpenVPN does not run.
pub open spec fn no_openvpn(e: Seq<char>) -> Seq<char> {
    "cannot spawn openvpn: "@ + e
}

/// Why OpenVPN does not run.
pub fn openvpn_not_started(e: &str) -> (r: String)
    ensures
        r@ == no_openvpn(e@),
{
    text::cat("cannot spawn openvpn: ", e)
}

/// Where the SOCKS5 server writes its log.
pub const SOCKS_LOG: &'static str = "/run/kit-vpn/socks.log";

/// What the SOCKS5 server is started with.
pub open spec fn socks_args(ns_ip: Seq<char>, port: u16, dns: Seq<Seq<char>>) -> Seq<Seq<char>> {
    seq![
        "child-socks"@,
        "--bind-ip"@,
        ns_ip,
        "--port"@,
        number::decimal(port as nat),
        "--dns"@,
        text::join(dns, ","@),
        "--log"@,
        SOCKS_LOG@,
    ]
}

/// How the SOCKS5 server is started.
pub open spec fn socks_invocation(
    exe: Seq<char>,
    ns_ip: Seq<char>,
    port: u16,
    dns: Seq<Seq<char>>,
) -> InvocationModel {
    InvocationModel { program: exe, args: socks_args(ns_ip, port, dns) }
}

/// How the SOCKS5 server is started: `exe`, this very program, is run inside
/// the namespace.
pub fn spawn_socks(exe: &str, ns_ip: &str, port: u16, dns_servers: &Vec<String>) -> (r: Invocation)
    ensures
        r@ == socks_invocation(exe@, ns_ip@, port, dns_servers.deep_view()),
{
    let port_text = number::decimal_of(port as u64);
    let dns_text = text::joined(dns_servers, ",");
    let args = text::owned(
        &[
            "child-socks",
            "--bind-ip",
            ns_ip,
            "--port",
            port_text.as_str(),
            "--dns",
            dns_text.as_str(),
            "--log",
            SOCKS_LOG,
        ],
    );
    proof {
        assert(args.deep_view() =~= socks_args(ns_ip@, port, dns_servers.deep_view()));
    }
    Invocation { program: exe.to_owned(), args }
}

/// Why a program does not run inside the namespace.
pub enum NotSpawned {
    /// The path of this program is not known.
    NoProgram(String),
    /// The namespace cannot be entered.
    NoNamespace(String),
    /// The program cannot be started.
    NotStarted { program: String, error: String },
}

/// Why a program does not run inside the namespace.
pub open spec fn not_spawned(fault: NotSpawned) -> Seq<char> {
    match fault {
        NotSpawned::NoProgram(e) => "cannot locate own binary: "@ + e@,
        NotSpawned::NoNamespace(e) => "cannot open "@ + netns::ns_path_model() + ": "@ + e@,
        NotSpawned::NotStarted { program, error } => "cannot spawn "@ + program@ + ": "@ + error@,
    }
}

/// Why a program does not run inside the namespace.
pub fn spawn_in_netns_error(fault: NotSpawned) -> (r: String)
    ensures
        r@ == not_spawned(fault),
{
    match fault {
        NotSpawned::NoProgram(e) => text::cat("cannot locate own binary: ", e.as_str()),
        NotSpawned::NoNamespace(e) => {
            let mut r = text::cat3("cannot open ", netns::ns_path().as_str(), ": ");
            r.append(e.as_str());
            r
        },
        NotSpawned::NotStarted { program, error } => {
            let mut r = text::cat3("cannot spawn ", program.as_str(), ": ");
            r.append(error.as_str());
            r
        },
    }
}

/// How OpenVPN is started, it may not change the routes of the host: all its
/// data goes through the namespace.
pub proof fn law_openvpn_leaves_the_routes_alone(ovpn: Seq<char>, auth: Option<Seq<char>>)
    ensures
        openvpn_args(ovpn, auth).contains("--route-noexec"@),
        openvpn_args(ovpn, auth).contains("--disable-dco"@),
        openvpn_args(ovpn, auth)[8] == "--script-security"@,
        openvpn_args(ovpn, auth)[9] == "0"@,
        openvpn_args(ovpn, auth)[2] == "--dev"@,
        openvpn_args(ovpn, auth)[3] == config::TUN_DEV@,
{
    assert(openvpn_args(ovpn, auth)[6] == "--route-noexec"@);
    assert(openvpn_args(ovpn, auth)[7] == "--disable-dco"@);
}

// ---- stopping ----

/// How a child that ended did so: the code that it exited with, and -1 if a
/// signal ended it.
pub open spec fn exit_of(ended: Option<Option<i32>>) -> Option<i32> {
    match ended {
        Some(Some(code)) => Some(code),
        Some(None) => Some(-1i32),
        None => None,
    }
}

/// How a child that ended did so: the code that it exited with, and -1 if a
/// signal ended it. `ended` is `None` while it runs, or when that cannot be
/// told.
pub fn try_exit(ended: Option<Option<i32>>) -> (r: Option<i32>)
    ensures
        r == exit_of(ended),
{
    match ended {
        Some(Some(code)) => Some(code),
        Some(None) => Some(-1),
        None => None,
    }
}

/// How long a child may take to end when it is asked to, and again when it is
/// killed, in milliseconds.
pub const STOP_WAIT: u64 = 5000;

/// How often a child that is to end is looked at, in milliseconds.
pub const STOP_POLL: u64 = 100;

/// What to do to stop a child.
#[derive(Clone, Copy, Debug, PartialEq, Eq, Structural)]
pub enum StopStep {
    /// Ask it to terminate.
    Terminate,
    /// See whether it has ended.
    Poll,
    /// Sleep for `STOP_POLL` milliseconds.
    Sleep,
    /// Kill it.
    Kill,
    /// It has ended: nothing is left to do.
    Ended,
    /// It does not end: leave it to the system.
    GiveUp,
}

/// Stopping a child. All times are milliseconds on one clock that does not go
/// back.
#[derive(Clone, Copy, Debug)]
pub struct StopChild {
    pub step: StopStep,
    /// Whether it has been killed.
    pub killed: bool,
    /// When it was asked to end, or was killed.
    pub since: u64,
}

impl StopChild {
    /// The child after the step was done at the time `now`; `ended` says
    /// whether it was seen to have ended.
    pub open spec fn after(self, ended: bool, now: u64) -> StopChild {
        match self.step {
            StopStep::Terminate => StopChild { step: StopStep::Poll, since: now, ..self },
            StopStep::Poll => StopChild {
                step: if ended {
                    StopStep::Ended
                } else if now - self.since < STOP_WAIT {
                    StopStep::Sleep
                } else if self.killed {
                    StopStep::GiveUp
                } else {
                    StopStep::Kill
                },
                ..self
            },
            StopStep::Sleep => StopChild { step: StopStep::Poll, ..self },
            StopStep::Kill => StopChild { step: StopStep::Poll, killed: true, since: now },
            StopStep::Ended => self,
            StopStep::GiveUp => self,
        }
    }

    /// What to do next.
    pub fn next(&self) -> (r: StopStep)
        ensures
            r == self.step,
    {
        self.step
    }

    /// Takes the outcome of the step that `next` gave.
    pub fn took(&mut self, ended: bool, now: u64)
        ensures
            *final(self) == old(self).after(ended, now),
    {
        match self.step {
            StopStep::Terminate => {
                self.step = StopStep::Poll;
                self.since = now;
            },
            StopStep::Poll => {
                self.step = if ended {
                    StopStep::Ended
                } else if now < self.since || now - self.since < STOP_WAIT {
                    StopStep::Sleep
                } else if self.killed {
                    StopStep::GiveUp
                } else {
                    StopStep::Kill
                };
            },
            StopStep::Sleep => {
                self.step = StopStep::Poll;
            },
            StopStep::Kill => {
                self.step = StopStep::Poll;
                self.killed = true;
                self.since = now;
            },
            StopStep::Ended => {},
            StopStep::GiveUp => {},
        }
    }
}

/// Starts stopping a child.
pub fn stop_child() -> (r: StopChild)
    ensures
        r == stop_start(),
{
    StopChild { step: StopStep::Terminate, killed: false, since: 0 }
}

/// The start of stopping a child.
pub open spec fn stop_start() -> StopChild {
    StopChild { step: StopStep::Terminate, killed: false, since: 0 }
}

/// A child is asked to end first. It is killed only if it still runs
/// `STOP_WAIT` later, and it is left alone only if it still runs `STOP_WAIT`
/// after it was killed; a child that is seen to have ended is left at once.
pub proof fn law_stopping_escalates(s: StopChild, ended: bool, now: u64)
    ensures
        s.after(ended, now).step is Kill && !(s.step is Kill) ==> s.step is Poll && !ended
            && !s.killed && now >= s.since + STOP_WAIT,
        s.after(ended, now).step is GiveUp && !(s.step is GiveUp) ==> s.step is Poll && !ended
            && s.killed && now >= s.since + STOP_WAIT,
        s.after(ended, now).killed && !s.killed ==> s.step is Kill && s.after(ended, now).since
            == now,
        s.step is Poll && ended ==> s.after(ended, now).step is Ended,
        s.step is Terminate ==> s.after(ended, now).since == now,
{
}

/// No wait for a child goes on forever: the first look at it `STOP_WAIT` after
/// a signal ends the wait, with the second signal or for good.
pub proof fn law_stopping_ends(s: StopChild, ended: bool, now: u64)
    requires
        s.step is Poll,
        now >= s.since + STOP_WAIT,
    ensures
        ({
            let t = s.after(ended, now);
            t.step is Ended || t.step is GiveUp || (t.step is Kill && !s.killed)
        }),
{
}

} // verus!
