//! What `enable` and `disable` do next, by what came of what they did.
use vstd::prelude::*;

use crate::command::CommandModel;
use crate::config::ConfigModel;
use crate::helper;
use crate::helper::{
    ActionModel, DisableModel, DisablePhase, EnableModel, EnablePhase, EventModel, Side,
};
use crate::number;
use crate::status::{Stamp, StatusModel};
use crate::text;
use crate::text_laws;

verus! {

// ---- what is read ----

/// The file with a process id names the process whose number it holds, with
/// white space around it or none; a file that cannot be read names none.
pub proof fn law_pid_file(left: Seq<char>, t: Seq<char>, right: Seq<char>, pid: i32)
    requires
        forall|i: int| 0 <= i < left.len() ==> text::white_space(left[i]),
        forall|i: int| 0 <= i < right.len() ==> text::white_space(right[i]),
        t.len() > 0 ==> !text::white_space(t[0]) && !text::white_space(t.last()),
    ensures
        helper::pid_in(None) is None,
        helper::pid_in(Some(left + t + right)) == Some(pid) <==> (pid >= 0 && exists|
            plus: bool,
            zeros: nat,
        |
            t == #[trigger] text_laws::written(plus, zeros, pid as nat)) || (pid <= 0 && exists|
            zeros: nat,
        |
            t == seq!['-'] + #[trigger] text_laws::written(false, zeros, (-pid) as nat)),
{
    text_laws::law_trimming(left, t, right);
    text_laws::law_reading_signed_numbers(t, pid as int);
    if let Some(n) = number::signed32(t) {
        text_laws::law_reading_signed_numbers(t, n);
    }
}

/// A tunnel is left alone when its status says that it runs, starts or
/// reconnects, and only then.
pub proof fn law_healthy_states(status: Option<StatusModel>)
    ensures
        helper::healthy(status) <==> status is Some && (status->0.state == "running"@
            || status->0.state == "starting"@ || status->0.state == "reconnecting"@),
{
}

// ---- enable ----

/// Whether an operation differs from another one only in what it is at.
pub open spec fn enable_else_unchanged(s: EnableModel, t: EnableModel) -> bool {
    t == EnableModel { phase: t.phase, ..s }
}

/// `enable` loads the configuration first, and then sees whether the configured
/// OpenVPN file is there. Without a configuration, or without that file, it is
/// over, with the reason.
pub proof fn law_enable_begins(
    s: EnableModel,
    loaded: Result<ConfigModel, Seq<char>>,
    there: bool,
    stamp: Stamp,
)
    requires
        s.phase is LoadConfig,
    ensures
        ({
            let t = s.after(EventModel::Config(loaded), stamp);
            let u = t.after(EventModel::Seen(there), stamp);
            &&& helper::enable_start().phase is LoadConfig
            &&& s.next() is LoadConfig
            &&& loaded matches Err(e) ==> t.next() == ActionModel::Finish(Err(e))
            &&& loaded matches Ok(cfg) ==> {
                &&& t == (EnableModel { phase: t.phase, cfg, ..s })
                &&& t.next() == ActionModel::SeeFile(cfg.ovpn())
                &&& there ==> u.next() == ActionModel::ReadFile("/run/kit-vpn/supervisor.pid"@)
                    && enable_else_unchanged(t, u)
                &&& !there ==> u.next() == ActionModel::Finish(
                    Err(
                        "OpenVPN configuration not found at "@ + cfg.ovpn()
                            + " — run scripts/install.sh with your KIT .ovpn file"@,
                    ),
                )
            }
        }),
{
}

/// `enable` looks for a supervisor: one that its file names is probed; if there
/// is none, or it is not alive, the lock is taken. The status of one that is
/// alive is read: a healthy one is reported, and any other supervisor is
/// killed.
pub proof fn law_enable_looks_for_a_supervisor(
    s: EnableModel,
    content: Option<Seq<char>>,
    alive: bool,
    status: Option<StatusModel>,
    stamp: Stamp,
)
    ensures
        ({
            let read = s.after(EventModel::Text(content), stamp);
            let probed = s.after(EventModel::Seen(alive), stamp);
            let looked = s.after(EventModel::Status(status), stamp);
            let locks = ActionModel::TakeLock("/run/kit-vpn/lock"@);
            &&& s.phase is ReadPid ==> (match helper::pid_in(content) {
                Some(pid) => read.next() == ActionModel::Probe(pid) && read == (EnableModel {
                    phase: EnablePhase::Probe,
                    pid,
                    ..s
                }),
                None => read.next() == locks && enable_else_unchanged(s, read),
            })
            &&& s.phase is Probe ==> s.next() == ActionModel::Probe(s.pid) && probed.next() == (
            if alive {
                ActionModel::ReadStatus
            } else {
                locks
            }) && enable_else_unchanged(s, probed)
            &&& s.phase is ReadStatus ==> s.next() is ReadStatus && (if helper::healthy(status) {
                looked.next() == ActionModel::Finish(Ok(status->0.json()))
            } else {
                looked.next() == ActionModel::Kill(s.pid) && enable_else_unchanged(s, looked)
            })
        }),
{
}

/// A supervisor that was killed is probed up to fifty times, a tenth of a
/// second apart, until it is gone; then its file is removed and the lock is
/// taken.
pub proof fn law_enable_awaits_the_killed(
    s: EnableModel,
    alive: bool,
    stamp: Stamp,
)
    requires
        s.wf(),
    ensures
        ({
            let done = s.after(EventModel::Done, stamp);
            let seen = s.after(EventModel::Seen(alive), stamp);
            let removes = ActionModel::RemoveFile("/run/kit-vpn/supervisor.pid"@);
            &&& s.phase is Kill ==> done.phase is ProbeKilled && done.polls == 0 && done.pid
                == s.pid && done.cfg == s.cfg
            &&& s.phase is ProbeKilled ==> s.next() == ActionModel::Probe(s.pid) && seen.next()
                == (if alive {
                ActionModel::Sleep(100)
            } else {
                removes
            }) && enable_else_unchanged(s, seen)
            &&& s.phase is NapKilled && s.polls < 49 ==> done == (EnableModel {
                phase: EnablePhase::ProbeKilled,
                polls: (s.polls + 1) as u32,
                ..s
            })
            &&& s.phase is NapKilled && s.polls >= 49 ==> done.next() == removes
            &&& s.phase is RemovePid ==> s.next() == removes && done.next() == ActionModel::TakeLock(
                "/run/kit-vpn/lock"@,
            ) && enable_else_unchanged(s, done)
        }),
{
}

/// With the lock, the subnet is picked. While another process holds it the
/// status is looked at up to thirty times, a fifth of a second apart, and then
/// once more: a healthy status is reported, and in the end whatever there is.
/// A lock that cannot be had ends the operation.
pub proof fn law_enable_takes_the_lock(
    s: EnableModel,
    status: Option<StatusModel>,
    e: Seq<char>,
    stamp: Stamp,
)
    requires
        s.wf(),
    ensures
        ({
            let taken = s.after(EventModel::LockTaken, stamp);
            let held = s.after(EventModel::LockHeld, stamp);
            let looked = s.after(EventModel::Status(status), stamp);
            let done = s.after(EventModel::Done, stamp);
            &&& s.phase is TakeLock ==> {
                &&& s.next() == ActionModel::TakeLock("/run/kit-vpn/lock"@)
                &&& taken.next() == ActionModel::PickSubnet(s.cfg.subnet_text())
                &&& enable_else_unchanged(s, taken)
                &&& held == (EnableModel { phase: EnablePhase::AwaitHealthy, polls: 0, ..s })
                &&& s.after(EventModel::LockUnavailable(e), stamp).next() == ActionModel::Finish(
                    Err("cannot open lock file: "@ + e),
                )
            }
            &&& s.phase is AwaitHealthy ==> s.next() is ReadStatus && (if helper::healthy(status) {
                looked.next() == ActionModel::Finish(Ok(status->0.json()))
            } else {
                looked.next() == ActionModel::Sleep(200) && enable_else_unchanged(s, looked)
            })
            &&& s.phase is NapHealthy && s.polls < 29 ==> done == (EnableModel {
                phase: EnablePhase::AwaitHealthy,
                polls: (s.polls + 1) as u32,
                ..s
            })
            &&& s.phase is NapHealthy && s.polls >= 29 ==> done.phase is LastLook
            &&& s.phase is LastLook ==> s.next() is ReadStatus && looked.next()
                == ActionModel::Finish(
                match status {
                    Some(status) => Ok(status.json()),
                    None => Err("another enable is in progress"@),
                },
            )
        }),
{
}

/// The tunnel is set up on the subnet that was picked; then the OpenVPN file
/// is read and the rules for its servers are added, none if it cannot be read;
/// then the process forks. What fails on the way ends the operation with its
/// reason.
pub proof fn law_enable_sets_up(
    s: EnableModel,
    picked: Result<(Seq<char>, Seq<char>, u8), Seq<char>>,
    made: Result<(), Seq<char>>,
    content: Option<Seq<char>>,
    stamp: Stamp,
)
    requires
        s.phase is PickSubnet,
    ensures
        ({
            let t = s.after(EventModel::Subnet(picked), stamp);
            let u = t.after(EventModel::SetUp(made), stamp);
            let v = u.after(EventModel::Text(content), stamp);
            let w = v.after(EventModel::Done, stamp);
            &&& s.next() == ActionModel::PickSubnet(s.cfg.subnet_text())
            &&& picked matches Err(e) ==> t.next() == ActionModel::Finish(Err(e))
            &&& picked is Ok ==> t.next() == (ActionModel::SetUp {
                host: (picked->Ok_0).0,
                ns: (picked->Ok_0).1,
                prefix: (picked->Ok_0).2,
            })
            &&& picked is Ok && made is Err ==> u.next() == ActionModel::Finish(
                Err(made->Err_0),
            )
            &&& picked is Ok && made is Ok ==> {
                &&& u.next() == ActionModel::ReadFile(s.cfg.ovpn())
                &&& v.next() == ActionModel::AddRules(
                    match content {
                        Some(ovpn) => ovpn,
                        None => Seq::<char>::empty(),
                    },
                )
                &&& w.next() is Fork
                &&& w.cfg == s.cfg && w.ns == (picked->Ok_0).1
            }
        }),
{
}

/// After the fork the parent reports a tunnel that starts on the configured
/// port, and the child supervises it.
pub proof fn law_enable_forks(s: EnableModel, e: Seq<char>, stamp: Stamp)
    requires
        s.phase is Fork,
    ensures
        s.next() is Fork,
        s.after(EventModel::Forked(Ok(Side::Parent)), stamp).next() == ActionModel::Finish(
            Ok(
                StatusModel {
                    state: "starting"@,
                    detail: "tunnel starting"@,
                    socks_port: s.cfg.port(),
                    pid: stamp.pid,
                    since: stamp.now,
                    error: None,
                }.json(),
            ),
        ),
        s.after(EventModel::Forked(Ok(Side::Child)), stamp).next() == (ActionModel::Supervise {
            cfg: s.cfg,
            ns_ip: s.ns,
            port: s.cfg.port(),
        }),
        s.after(EventModel::Forked(Err(e)), stamp).next() == ActionModel::Finish(
            Err("fork: "@ + e),
        ),
{
}

// ---- disable ----

/// Whether an operation differs from another one only in what it is at.
pub open spec fn disable_else_unchanged(s: DisableModel, t: DisableModel) -> bool {
    t == DisableModel { phase: t.phase, ..s }
}

/// The command that deletes the namespace.
pub open spec fn deletes_namespace() -> ActionModel {
    ActionModel::Run(CommandModel { args: seq!["netns"@, "del"@, "kitvpn"@] })
}

/// `disable` asks the supervisor that its file names to terminate, and probes
/// it up to a hundred times, a tenth of a second apart, until it is gone. Then,
/// or at once if there is none, the namespace is deleted.
pub proof fn law_disable_stops_the_supervisor(
    s: DisableModel,
    content: Option<Seq<char>>,
    alive: bool,
    stamp: Stamp,
)
    requires
        s.wf(),
    ensures
        ({
            let read = s.after(EventModel::Text(content), stamp);
            let done = s.after(EventModel::Done, stamp);
            let seen = s.after(EventModel::Seen(alive), stamp);
            &&& helper::disable_start(stamp).phase is ReadPid
            &&& s.phase is ReadPid ==> s.next() == ActionModel::ReadFile(
                "/run/kit-vpn/supervisor.pid"@,
            ) && (match helper::pid_in(content) {
                Some(pid) => read.next() == ActionModel::Terminate(pid) && read.pid == pid,
                None => read.next() == deletes_namespace(),
            })
            &&& s.phase is Terminate ==> done == (DisableModel {
                phase: DisablePhase::Probe,
                polls: 0,
                ..s
            })
            &&& s.phase is Probe ==> s.next() == ActionModel::Probe(s.pid) && seen.next() == (
            if alive {
                ActionModel::Sleep(100)
            } else {
                deletes_namespace()
            }) && disable_else_unchanged(s, seen)
            &&& s.phase is Nap && s.polls < 99 ==> done == (DisableModel {
                phase: DisablePhase::Probe,
                polls: (s.polls + 1) as u32,
                ..s
            })
            &&& s.phase is Nap && s.polls >= 99 ==> done.next() == deletes_namespace()
        }),
{
}

/// Once the namespace was deleted, whatever that came to, the file with the
/// process id is removed, and the rules for the servers of the configured
/// OpenVPN file are, or of the usual one if there is no configuration; if that
/// file can be read. Then it is published and reported that the tunnel is
/// stopped.
pub proof fn law_disable_cleans_up(
    s: DisableModel,
    deleted: Result<Seq<char>, Seq<char>>,
    loaded: Result<ConfigModel, Seq<char>>,
    content: Option<Seq<char>>,
    stamp: Stamp,
    later: Stamp,
)
    requires
        s.phase is CleanNetns,
    ensures
        ({
            let t = s.after(EventModel::Reply(deleted), stamp);
            let u = t.after(EventModel::Done, stamp);
            let v = u.after(EventModel::Config(loaded), stamp);
            let w = v.after(EventModel::Text(content), stamp);
            let x = if content is Some {
                w.after(EventModel::Done, stamp)
            } else {
                w
            };
            let stopped = StatusModel {
                state: "stopped"@,
                detail: "tunnel stopped"@,
                socks_port: 0,
                pid: stamp.pid,
                since: stamp.now,
                error: None,
            };
            &&& s.next() == deletes_namespace()
            &&& t.next() == ActionModel::RemoveFile("/run/kit-vpn/supervisor.pid"@)
            &&& u.next() is LoadConfig
            &&& v.next() == ActionModel::ReadFile(
                match loaded {
                    Ok(cfg) => cfg.ovpn(),
                    Err(_) => "/etc/kit-vpn/kit.ovpn"@,
                },
            )
            &&& content matches Some(ovpn) ==> w.next() == ActionModel::RemoveRules(ovpn)
            &&& x.next() == ActionModel::Publish(stopped)
            &&& x.after(EventModel::Done, later).next() == ActionModel::Finish(
                Ok(stopped.json()),
            )
        }),
{
}

// ---- events that do not belong ----

/// Whether an event can come of an action.
pub open spec fn answers(action: ActionModel, event: EventModel) -> bool {
    match action {
        ActionModel::LoadConfig => event is Config,
        ActionModel::SeeFile(_) => event is Seen,
        ActionModel::ReadFile(_) => event is Text,
        ActionModel::RemoveFile(_) => event is Done,
        ActionModel::Probe(_) => event is Seen,
        ActionModel::Terminate(_) => event is Done,
        ActionModel::Kill(_) => event is Done,
        ActionModel::ReadStatus => event is Status,
        ActionModel::Publish(_) => event is Done,
        ActionModel::Sleep(_) => event is Done,
        ActionModel::TakeLock(_) => event is LockTaken || event is LockHeld
            || event is LockUnavailable,
        ActionModel::PickSubnet(_) => event is Subnet,
        ActionModel::SetUp { host: _, ns: _, prefix: _ } => event is SetUp,
        ActionModel::AddRules(_) => event is Done,
        ActionModel::RemoveRules(_) => event is Done,
        ActionModel::Run(_) => event is Reply,
        ActionModel::Fork => event is Forked,
        ActionModel::Supervise { cfg: _, ns_ip: _, port: _ } => false,
        ActionModel::Finish(_) => false,
    }
}

/// An event that cannot come of the action at hand changes nothing, and every
/// event that can brings another action.
pub proof fn law_other_events_change_nothing(
    e: EnableModel,
    d: DisableModel,
    event: EventModel,
    stamp: Stamp,
)
    ensures
        !answers(e.next(), event) ==> e.after(event, stamp) == e,
        !answers(d.next(), event) ==> d.after(event, stamp) == d,
        answers(e.next(), event) ==> e.after(event, stamp).phase != e.phase,
        answers(d.next(), event) ==> d.after(event, stamp).phase != d.phase,
{
}

} // verus!
