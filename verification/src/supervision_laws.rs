//! What the supervisor does next, by what came of what it did.
use vstd::prelude::*;

use crate::command::CommandModel;
use crate::config::ConfigModel;
use crate::number;
use crate::status::{Stamp, StatusModel};
use crate::supervisor;
use crate::supervisor::{ActionModel, EventModel, Phase, SupervisorModel};
use crate::text;

verus! {

// ---- how things are said ----

/// Whether a command succeeded and its output holds `p`.
pub open spec fn tells(reply: Result<Seq<char>, Seq<char>>, p: Seq<char>) -> bool {
    reply is Ok && text::contains(reply->Ok_0, p)
}

/// `ip` with these arguments, to be run.
pub open spec fn ip(args: Seq<Seq<char>>) -> ActionModel {
    ActionModel::Run(CommandModel { args })
}

/// The question for the address of the tunnel device on the host.
pub open spec fn asks_host() -> ActionModel {
    ip(seq!["-4"@, "addr"@, "show"@, "dev"@, "kitvpn-tun"@])
}

/// The question for the tunnel device in the namespace.
pub open spec fn asks_namespace() -> ActionModel {
    ip(seq!["netns"@, "exec"@, "kitvpn"@, "ip"@, "link"@, "show"@, "kitvpn-tun"@])
}

/// The command that points the default route of the namespace at the tunnel.
pub open spec fn sets_route() -> ActionModel {
    ip(
        seq![
            "netns"@, "exec"@, "kitvpn"@, "ip"@, "route"@, "replace"@, "default"@, "dev"@,
            "kitvpn-tun"@
        ],
    )
}

/// Whether a supervisor differs from another one only in what it is at.
pub open spec fn else_unchanged(s: SupervisorModel, t: SupervisorModel) -> bool {
    t == SupervisorModel { phase: t.phase, ..s }
}

/// The status of a supervisor with another state and detail.
pub open spec fn told(s: SupervisorModel, state: Seq<char>, detail: Seq<char>) -> StatusModel {
    StatusModel {
        state,
        detail,
        socks_port: s.socks_port,
        pid: s.status.pid,
        since: s.status.since,
        error: s.status.error,
    }
}

/// Whether a supervisor that had nothing to publish now publishes just this
/// status, which is its status from now on.
pub open spec fn publishes(t: SupervisorModel, status: StatusModel) -> bool {
    t.status == status && t.outbox == seq![status] && t.next() == ActionModel::Publish(status)
}

/// Whether the children and the counts of a supervisor are those of another.
pub open spec fn same_children(s: SupervisorModel, t: SupervisorModel) -> bool {
    &&& t.openvpn == s.openvpn
    &&& t.socks == s.socks
    &&& t.restarts == s.restarts
    &&& t.last_restart == s.last_restart
    &&& t.socks_port == s.socks_port
}

/// What is done once OpenVPN was looked after: the SOCKS5 child is looked
/// after if there is one, else the device on the host is asked for.
pub open spec fn looks_on(t: SupervisorModel) -> ActionModel {
    if t.socks {
        ActionModel::CheckSocks
    } else {
        asks_host()
    }
}

// ---- lemmas ----

proof fn lemma_commands(s: SupervisorModel)
    ensures
        s.outbox.len() == 0 && s.phase is CheckHostTun ==> s.next() == asks_host(),
        s.outbox.len() == 0 && s.phase is CheckNsTun ==> s.next() == asks_namespace(),
        s.outbox.len() == 0 && s.phase is SetRoute ==> s.next() == sets_route(),
        s.outbox.len() == 0 && s.phase is CleanNetns ==> s.next() == ip(seq!["netns"@, "del"@, "kitvpn"@]),
{
    assert(seq!["netns"@, "exec"@, "kitvpn"@, "ip"@] + seq!["link"@, "show"@, "kitvpn-tun"@]
        =~= seq!["netns"@, "exec"@, "kitvpn"@, "ip"@, "link"@, "show"@, "kitvpn-tun"@]);
    assert(seq!["netns"@, "exec"@, "kitvpn"@, "ip"@] + seq![
        "route"@, "replace"@, "default"@, "dev"@, "kitvpn-tun"@
    ] =~= seq![
        "netns"@, "exec"@, "kitvpn"@, "ip"@, "route"@, "replace"@, "default"@, "dev"@,
        "kitvpn-tun"@
    ]);
}

/// The names of the states tell them apart, also with more text behind them.
proof fn lemma_states(a: Seq<char>, x: Seq<char>, b: Seq<char>, y: Seq<char>)
    requires
        supervisor::reported(a),
        supervisor::reported(b),
        a + "|"@ + x == b + "|"@ + y,
    ensures
        a == b,
        x == y,
{
    reveal_strlit("running");
    reveal_strlit("starting");
    reveal_strlit("reconnecting");
    reveal_strlit("stopped");
    reveal_strlit("error");
    let ka = a + "|"@ + x;
    let kb = b + "|"@ + y;
    assert(a.len() >= 3 && b.len() >= 3);
    assert(ka[0] == a[0] && ka[1] == a[1] && ka[2] == a[2]);
    assert(kb[0] == b[0] && kb[1] == b[1] && kb[2] == b[2]);
    assert(a == b);
    text::lemma_same_front(a + "|"@, x, y);
}

/// What reporting a state comes to: it is published unless it is the state
/// and the detail that were last reported.
pub proof fn law_reporting(s: SupervisorModel, state: Seq<char>, detail: Seq<char>)
    requires
        s.keyed(),
        s.outbox.len() == 0,
        supervisor::reported(s.status.state),
        supervisor::reported(state),
    ensures
        ({
            let t = s.reporting(state, detail);
            let known = s.key.len() > 0 && s.status.state == state && s.status.detail == detail;
            &&& known ==> t == s
            &&& !known ==> publishes(t, told(s, state, detail)) && t == (SupervisorModel {
                key: t.key,
                status: t.status,
                outbox: t.outbox,
                ..s
            })
            &&& t.keyed()
        }),
{
    let key = state + "|"@ + detail;
    reveal_strlit("|");
    assert(key.len() > 0);
    if s.key == key {
        lemma_states(s.status.state, s.status.detail, state, detail);
    } else {
        let status = told(s, state, detail);
        assert(s.outbox.push(status) =~= seq![status]);
    }
}

// ---- the device ----

/// In whatever state the supervisor is: when the reply to the question for the
/// address of the tunnel device on the host holds `inet `, the device is moved
/// next; when it does not, the device in the namespace is asked for.
pub proof fn law_device_on_the_host_is_moved(
    s: SupervisorModel,
    reply: Result<Seq<char>, Seq<char>>,
    stamp: Stamp,
    now: u64,
)
    requires
        s.outbox.len() == 0,
        s.phase is CheckHostTun,
    ensures
        ({
            let t = s.after(EventModel::Reply(reply), stamp, now);
            &&& s.next() == asks_host()
            &&& tells(reply, "inet "@) ==> t.next() == ActionModel::MoveTun
            &&& !tells(reply, "inet "@) ==> t.next() == asks_namespace()
            &&& else_unchanged(s, t)
        }),
{
    lemma_commands(s);
    lemma_commands(s.after(EventModel::Reply(reply), stamp, now));
}

/// Once the device was moved, the device in the namespace is asked for.
pub proof fn law_moved_device_is_looked_at(s: SupervisorModel, stamp: Stamp, now: u64)
    requires
        s.outbox.len() == 0,
        s.next() is MoveTun,
    ensures
        s.after(EventModel::Done, stamp, now).next() == asks_namespace(),
        else_unchanged(s, s.after(EventModel::Done, stamp, now)),
{
    lemma_commands(s.after(EventModel::Done, stamp, now));
}

/// When the device is up in the namespace, the default route is set, in
/// whatever state the supervisor is. When it is not, a supervisor that was
/// running says that it reconnects, another one says nothing, and both sleep.
pub proof fn law_device_in_the_namespace(
    s: SupervisorModel,
    reply: Result<Seq<char>, Seq<char>>,
    stamp: Stamp,
    later: Stamp,
    now: u64,
)
    requires
        s.wf(),
        s.outbox.len() == 0,
        s.phase is CheckNsTun,
    ensures
        ({
            let t = s.after(EventModel::Reply(reply), stamp, now);
            let up = tells(reply, "LOWER_UP"@);
            &&& s.next() == asks_namespace()
            &&& up ==> t.next() == sets_route() && else_unchanged(s, t)
            &&& !up && s.status.state == "running"@ ==> publishes(
                t,
                told(s, "reconnecting"@, "tunnel down; waiting for reconnect"@),
            ) && same_children(s, t) && t.after(EventModel::Done, later, now).next()
                == ActionModel::Sleep(500)
            &&& !up && s.status.state != "running"@ ==> t.next() == ActionModel::Sleep(500)
                && else_unchanged(s, t)
        }),
{
    let t = s.after(EventModel::Reply(reply), stamp, now);
    lemma_commands(s);
    lemma_commands(t);
    reveal_strlit("running");
    reveal_strlit("reconnecting");
    law_reporting(s, "reconnecting"@, "tunnel down; waiting for reconnect"@);
    assert("running"@.len() != "reconnecting"@.len());
    if !tells(reply, "LOWER_UP"@) && s.status.state == "running"@ {
        assert(t.outbox.drop_first() =~= Seq::<StatusModel>::empty());
    }
}

/// Once the route was set, whatever the command came to, a supervisor that was
/// not running says that it is, another one says nothing, and both sleep.
pub proof fn law_route_set_means_running(
    s: SupervisorModel,
    reply: Result<Seq<char>, Seq<char>>,
    stamp: Stamp,
    later: Stamp,
    now: u64,
)
    requires
        s.wf(),
        s.outbox.len() == 0,
        s.phase is SetRoute,
    ensures
        ({
            let t = s.after(EventModel::Reply(reply), stamp, now);
            &&& s.next() == sets_route()
            &&& s.status.state != "running"@ ==> publishes(t, told(s, "running"@, "tunnel up"@))
                && same_children(s, t) && t.after(EventModel::Done, later, now).next()
                == ActionModel::Sleep(500)
            &&& s.status.state == "running"@ ==> t.next() == ActionModel::Sleep(500)
                && else_unchanged(s, t)
        }),
{
    let t = s.after(EventModel::Reply(reply), stamp, now);
    lemma_commands(s);
    reveal_strlit("running");
    law_reporting(s, "running"@, "tunnel up"@);
    if s.status.state != "running"@ {
        assert(t.outbox.drop_first() =~= Seq::<StatusModel>::empty());
    }
}

// ---- the loop ----

/// The loop: after its sleep the supervisor sees whether it is asked to stop;
/// if not, whether the namespace is there; and if it is, how the children are.
pub proof fn law_loop_goes_round(s: SupervisorModel, stamp: Stamp, now: u64)
    requires
        s.wf(),
        s.outbox.len() == 0,
    ensures
        s.phase is Sleep ==> s.next() == ActionModel::Sleep(500) && s.after(
            EventModel::Done,
            stamp,
            now,
        ).next() is CheckStop && else_unchanged(s, s.after(EventModel::Done, stamp, now)),
        s.phase is CheckStop ==> s.next() is CheckStop && s.after(
            EventModel::Seen(false),
            stamp,
            now,
        ).next() is CheckNamespace && else_unchanged(
            s,
            s.after(EventModel::Seen(false), stamp, now),
        ),
        s.phase is CheckNamespace ==> s.next() is CheckNamespace && s.after(
            EventModel::Seen(true),
            stamp,
            now,
        ).next() == (if s.openvpn {
            ActionModel::CheckOpenvpn
        } else {
            looks_on(s)
        }) && else_unchanged(s, s.after(EventModel::Seen(true), stamp, now)),
        s.phase is CheckOpenvpn ==> s.next() is CheckOpenvpn && s.after(
            EventModel::Seen(false),
            stamp,
            now,
        ).next() == looks_on(s) && else_unchanged(s, s.after(EventModel::Seen(false), stamp, now)),
        s.phase is CheckSocks ==> s.next() is CheckSocks && s.after(
            EventModel::Seen(false),
            stamp,
            now,
        ).next() == asks_host() && else_unchanged(
            s,
            s.after(EventModel::Seen(false), stamp, now),
        ),
{
    lemma_commands(s.after(EventModel::Seen(true), stamp, now));
    lemma_commands(s.after(EventModel::Seen(false), stamp, now));
}

/// The status that says that the supervisor stops.
pub open spec fn says_stopped(s: SupervisorModel, stamp: Stamp) -> StatusModel {
    StatusModel {
        state: "stopped"@,
        detail: "stopped"@,
        socks_port: s.socks_port,
        pid: stamp.pid,
        since: stamp.now,
        error: None,
    }
}

/// A supervisor that is asked to stop says so and then removes the file with
/// its process.
pub proof fn law_asked_to_stop(s: SupervisorModel, stamp: Stamp, later: Stamp, now: u64)
    requires
        s.outbox.len() == 0,
        s.phase is CheckStop,
    ensures
        ({
            let t = s.after(EventModel::Seen(true), stamp, now);
            &&& publishes(t, says_stopped(s, stamp))
            &&& same_children(s, t)
            &&& t.after(EventModel::Done, later, now).next() == ActionModel::RemoveFile(
                "/run/kit-vpn/supervisor.pid"@,
            )
        }),
{
    let t = s.after(EventModel::Seen(true), stamp, now);
    assert(t.outbox =~= seq![says_stopped(s, stamp)]);
    assert(t.outbox.drop_first() =~= Seq::<StatusModel>::empty());
}

/// A supervisor whose namespace is gone says so, unless that was the last thing
/// it said, then says that it stops, and then removes the file with its
/// process.
pub proof fn law_namespace_gone(s: SupervisorModel, stamp: Stamp, later: Stamp, now: u64)
    requires
        s.wf(),
        s.outbox.len() == 0,
        s.phase is CheckNamespace,
    ensures
        ({
            let t = s.after(EventModel::Seen(false), stamp, now);
            let gone = told(s, "error"@, "network namespace disappeared; re-enable the tunnel"@);
            let known = s.key.len() > 0 && s.status.state == gone.state && s.status.detail
                == gone.detail;
            &&& known ==> t.outbox == seq![says_stopped(s, stamp)]
            &&& !known ==> t.outbox == seq![gone, says_stopped(s, stamp)]
            &&& same_children(s, t)
            &&& (SupervisorModel { outbox: seq![], ..t }).next() == ActionModel::RemoveFile(
                "/run/kit-vpn/supervisor.pid"@,
            )
        }),
{
    let t = s.after(EventModel::Seen(false), stamp, now);
    let gone = told(s, "error"@, "network namespace disappeared; re-enable the tunnel"@);
    law_reporting(s, gone.state, gone.detail);
    let known = s.key.len() > 0 && s.status.state == gone.state && s.status.detail == gone.detail;
    if known {
        assert(t.outbox =~= seq![says_stopped(s, stamp)]);
    } else {
        assert(t.outbox =~= seq![gone, says_stopped(s, stamp)]);
    }
}

// ---- the children ----

/// When OpenVPN ended and was restarted fewer than three times, and ten seconds
/// have gone by since the last restart or the start, it is started anew.
pub proof fn law_openvpn_is_restarted(s: SupervisorModel, stamp: Stamp, now: u64)
    requires
        s.outbox.len() == 0,
        s.phase is CheckOpenvpn,
        s.restarts < 3,
        now >= s.last_restart + 10000,
    ensures
        ({
            let t = s.after(EventModel::Seen(true), stamp, now);
            &&& t.next() is StartOpenvpn
            &&& t.restarts == s.restarts + 1
            &&& t == (SupervisorModel {
                phase: t.phase,
                openvpn: false,
                restarts: t.restarts,
                last_restart: now,
                ..s
            })
        }),
{
}

/// When OpenVPN ended and may not be restarted, the supervisor gives up on it
/// and says so, unless that was the last thing it said, with the number of
/// restarts for an explanation; the rest goes on.
pub proof fn law_openvpn_is_given_up(s: SupervisorModel, stamp: Stamp, now: u64)
    requires
        s.wf(),
        s.outbox.len() == 0,
        s.phase is CheckOpenvpn,
        s.restarts >= 3 || now < s.last_restart + 10000,
    ensures
        ({
            let t = s.after(EventModel::Seen(true), stamp, now);
            let why = "openvpn exited after "@ + number::decimal(s.restarts as nat)
                + " restart(s); giving up"@;
            let said = StatusModel {
                error: Some(why),
                ..told(s, "error"@, "openvpn exited; give up"@)
            };
            let known = s.key.len() > 0 && s.status.state == said.state && s.status.detail
                == said.detail;
            &&& !t.openvpn && t.socks == s.socks && t.restarts == s.restarts
            &&& t.last_restart == s.last_restart
            &&& !known ==> publishes(t, said)
            &&& known ==> t.outbox.len() == 0 && t.status == (StatusModel {
                error: Some(why),
                ..s.status
            })
            &&& (SupervisorModel { outbox: seq![], ..t }).next() == looks_on(s)
        }),
{
    let gone = SupervisorModel { openvpn: false, ..s }.explaining(supervisor::gave_up(s.restarts));
    law_reporting(gone, "error"@, "openvpn exited; give up"@);
    let t = s.after(EventModel::Seen(true), stamp, now);
    lemma_commands(SupervisorModel { outbox: seq![], ..t });
}

/// What comes of a restart of OpenVPN: when it was started the supervisor says
/// which attempt it is; when not, it says why; and the rest goes on.
pub proof fn law_openvpn_restart_is_reported(
    s: SupervisorModel,
    started: Result<(), Seq<char>>,
    stamp: Stamp,
    now: u64,
)
    requires
        s.wf(),
        s.outbox.len() == 0,
        s.phase is RestartOpenvpn,
    ensures
        ({
            let t = s.after(EventModel::Spawned(started), stamp, now);
            let attempt = "restarting openvpn (attempt "@ + number::decimal(s.restarts as nat)
                + ")"@;
            let said = match started {
                Ok(_) => told(s, "starting"@, attempt),
                Err(e) => StatusModel { error: Some(e), ..told(s, "error"@, e) },
            };
            let known = s.key.len() > 0 && s.status.state == said.state && s.status.detail
                == said.detail;
            &&& s.next() is StartOpenvpn
            &&& t.openvpn <==> started is Ok
            &&& t.socks == s.socks && t.restarts == s.restarts && t.last_restart == s.last_restart
            &&& !known ==> publishes(t, said)
            &&& known ==> t.outbox.len() == 0 && t.status == (StatusModel {
                error: said.error,
                ..s.status
            })
            &&& (SupervisorModel { outbox: seq![], ..t }).next() == looks_on(s)
        }),
{
    let t = s.after(EventModel::Spawned(started), stamp, now);
    match started {
        Ok(_) => {
            law_reporting(
                SupervisorModel { openvpn: true, ..s },
                "starting"@,
                supervisor::restarting(s.restarts),
            );
        },
        Err(e) => {
            law_reporting(s.explaining(e), "error"@, e);
        },
    }
    lemma_commands(SupervisorModel { outbox: seq![], ..t });
}

/// When the SOCKS5 server ended it is started anew, on the address of the
/// namespace, the configured port and with the DNS servers; whether that
/// succeeds or not, the device on the host is asked for next, and nothing is
/// published.
pub proof fn law_socks_is_restarted(
    s: SupervisorModel,
    started: Result<(), Seq<char>>,
    stamp: Stamp,
    later: Stamp,
    now: u64,
)
    requires
        s.outbox.len() == 0,
        s.phase is CheckSocks,
    ensures
        ({
            let t = s.after(EventModel::Seen(true), stamp, now);
            let u = t.after(EventModel::Spawned(started), later, now);
            &&& t == (SupervisorModel { phase: t.phase, socks: false, ..s })
            &&& t.next() == (ActionModel::StartSocks {
                ns_ip: s.ns_ip,
                port: s.port,
                dns: s.cfg.dns(),
            })
            &&& u == (SupervisorModel { phase: u.phase, socks: started is Ok, ..s })
            &&& u.next() == asks_host()
        }),
{
    let t = s.after(EventModel::Seen(true), stamp, now);
    lemma_commands(t.after(EventModel::Spawned(started), later, now));
}

// ---- the start ----

/// How a supervisor starts: it writes the number of its process to its file,
/// says that it is starting, and looks for a free port.
pub proof fn law_start(
    cfg: ConfigModel,
    ns_ip: Seq<char>,
    port: u16,
    made: Stamp,
    stamp: Stamp,
    later: Stamp,
    now: u64,
)
    ensures
        ({
            let s = supervisor::start_model(cfg, ns_ip, port, made);
            let t = s.after(EventModel::Done, stamp, now);
            let u = t.after(EventModel::Done, later, now);
            &&& s.next() == (ActionModel::WriteFile {
                path: "/run/kit-vpn/supervisor.pid"@,
                content: number::decimal(made.pid as nat) + "\n"@,
            })
            &&& publishes(
                t,
                StatusModel {
                    state: "starting"@,
                    detail: "starting tunnel"@,
                    socks_port: port,
                    pid: stamp.pid,
                    since: stamp.now,
                    error: None,
                },
            )
            &&& u.next() == ActionModel::FindPort(port)
            &&& u.outbox.len() == 0 && u.phase is FindPort
            &&& u.cfg == cfg && u.ns_ip == ns_ip && u.port == port && u.pid == made.pid
            &&& !u.openvpn && !u.socks && u.restarts == 0
        }),
{
    let s = supervisor::start_model(cfg, ns_ip, port, made);
    let t = s.after(EventModel::Done, stamp, now);
    assert(t.outbox =~= seq![t.status]);
    assert(t.outbox.drop_first() =~= Seq::<StatusModel>::empty());
}

/// With the port that was found, the relay is started, from that port on
/// 127.0.0.1 to the SOCKS5 server in the namespace; then OpenVPN, then the
/// SOCKS5 server, and then the loop begins.
pub proof fn law_start_goes_on(
    s: SupervisorModel,
    found: u16,
    stamp: Stamp,
    now: u64,
)
    requires
        s.outbox.len() == 0,
        s.phase is FindPort,
    ensures
        ({
            let t = s.after(EventModel::Port(Some(found)), stamp, now);
            let u = t.after(EventModel::Done, stamp, now);
            let v = u.after(EventModel::Spawned(Ok(())), stamp, now);
            let w = v.after(EventModel::Spawned(Ok(())), stamp, now);
            &&& t.next() == (ActionModel::StartRelay {
                listen: "127.0.0.1"@ + ":"@ + number::decimal(found as nat),
                target: s.ns_ip + ":"@ + number::decimal(s.port as nat),
            })
            &&& u.next() is StartOpenvpn
            &&& v.next() == (ActionModel::StartSocks {
                ns_ip: s.ns_ip,
                port: s.port,
                dns: s.cfg.dns(),
            })
            &&& v.openvpn
            &&& w.next() is CheckStop
            &&& w == (SupervisorModel {
                phase: Phase::CheckStop,
                socks_port: found,
                status: StatusModel { socks_port: found, ..s.status },
                openvpn: true,
                socks: true,
                last_restart: now,
                ..s
            })
        }),
{
}

/// What the supervisor says when its start fails.
pub open spec fn says_failed(
    detail: Seq<char>,
    error: Seq<char>,
    port: u16,
    stamp: Stamp,
) -> StatusModel {
    StatusModel {
        state: "error"@,
        detail,
        socks_port: port,
        pid: stamp.pid,
        since: stamp.now,
        error: Some(error),
    }
}

/// When there is no free port, or a child cannot be started, the supervisor
/// says so, waits until it is asked to stop, looking every half second, and
/// starts nothing more.
pub proof fn law_start_fails(
    s: SupervisorModel,
    e: Seq<char>,
    stamp: Stamp,
    later: Stamp,
    now: u64,
)
    requires
        s.outbox.len() == 0,
    ensures
        ({
            let no_port = s.after(EventModel::Port(None), stamp, now);
            let no_child = s.after(EventModel::Spawned(Err(e)), stamp, now);
            &&& s.phase is FindPort ==> publishes(
                no_port,
                says_failed(
                    "cannot bind 127.0.0.1 proxy port"@,
                    "no free port near "@ + number::decimal(s.port as nat),
                    s.port,
                    stamp,
                ),
            ) && no_port.phase is AwaitStop && same_children(s, no_port)
            &&& s.phase is StartOpenvpn || s.phase is StartSocks ==> publishes(
                no_child,
                says_failed(e, e, s.socks_port, stamp),
            ) && no_child.phase is AwaitStop && same_children(s, no_child)
            &&& s.phase is AwaitStop ==> s.next() is CheckStop && s.after(
                EventModel::Seen(false),
                stamp,
                now,
            ).next() == ActionModel::Sleep(500) && s.after(EventModel::Seen(false), stamp, now).after(
                EventModel::Done,
                later,
                now,
            ) == s
        }),
{
    let no_port = s.after(EventModel::Port(None), stamp, now);
    let no_child = s.after(EventModel::Spawned(Err(e)), stamp, now);
    assert(s.phase is FindPort ==> no_port.outbox =~= seq![no_port.status]);
    assert(s.phase is StartOpenvpn || s.phase is StartSocks ==> no_child.outbox =~= seq![
        no_child.status,
    ]);
}

// ---- the end ----

/// The end: OpenVPN is stopped if it runs, then the SOCKS5 server if it runs,
/// then the namespace is deleted, and then the supervisor is done.
pub proof fn law_teardown(
    s: SupervisorModel,
    reply: Result<Seq<char>, Seq<char>>,
    stamp: Stamp,
    now: u64,
)
    requires
        s.outbox.len() == 0,
    ensures
        ({
            let removed = s.after(EventModel::Done, stamp, now);
            let asked = s.after(EventModel::Seen(true), stamp, now);
            let cleans = ip(seq!["netns"@, "del"@, "kitvpn"@]);
            let first = if s.openvpn {
                ActionModel::StopOpenvpn
            } else if s.socks {
                ActionModel::StopSocks
            } else {
                cleans
            };
            &&& s.phase is RemovePid ==> removed.next() == first && else_unchanged(s, removed)
            &&& s.phase is AwaitStop ==> asked.next() == first && else_unchanged(s, asked)
            &&& s.phase is StopOpenvpn ==> s.next() is StopOpenvpn && removed.next() == (
            if s.socks {
                ActionModel::StopSocks
            } else {
                cleans
            }) && removed == (SupervisorModel { phase: removed.phase, openvpn: false, ..s })
            &&& s.phase is StopSocks && !s.openvpn ==> s.next() is StopSocks && removed.next()
                == cleans && removed == (SupervisorModel {
                phase: removed.phase,
                socks: false,
                ..s
            })
            &&& s.phase is CleanNetns ==> s.next() == cleans && s.after(
                EventModel::Reply(reply),
                stamp,
                now,
            ).next() is Exit
            &&& s.phase is Over ==> s.next() is Exit
        }),
{
    lemma_commands(s);
    lemma_commands(s.after(EventModel::Done, stamp, now));
    lemma_commands(s.after(EventModel::Seen(true), stamp, now));
}

// ---- what always holds ----

/// A status that is to be published is published before anything else is done,
/// and when it was, only it is taken off the list.
pub proof fn law_statuses_are_published_in_order(s: SupervisorModel, stamp: Stamp, now: u64)
    requires
        s.outbox.len() > 0,
    ensures
        s.next() == ActionModel::Publish(s.outbox[0]),
        s.after(EventModel::Done, stamp, now) == (SupervisorModel {
            outbox: s.outbox.skip(1),
            ..s
        }),
{
    assert(s.outbox.drop_first() =~= s.outbox.skip(1));
}

/// The configuration, the address of the namespace, the configured port and the
/// process never change; the port of the relay changes only to one that was
/// found; and the first status to be published stays so until it was.
#[verifier::rlimit(40)]
pub proof fn law_what_never_changes(s: SupervisorModel, event: EventModel, stamp: Stamp, now: u64)
    ensures
        ({
            let t = s.after(event, stamp, now);
            &&& t.cfg == s.cfg && t.ns_ip == s.ns_ip && t.port == s.port && t.pid == s.pid
            &&& t.socks_port == s.socks_port || event == EventModel::Port(Some(t.socks_port))
            &&& s.outbox.len() > 0 && !(event is Done) ==> t == s
        }),
{
}

/// Whether an event can come of an action.
pub open spec fn answers(action: ActionModel, event: EventModel) -> bool {
    match action {
        ActionModel::FindPort(_) => event is Port,
        ActionModel::StartOpenvpn => event is Spawned,
        ActionModel::StartSocks { ns_ip: _, port: _, dns: _ } => event is Spawned,
        ActionModel::CheckStop => event is Seen,
        ActionModel::CheckNamespace => event is Seen,
        ActionModel::CheckOpenvpn => event is Seen,
        ActionModel::CheckSocks => event is Seen,
        ActionModel::Run(_) => event is Reply,
        ActionModel::Exit => false,
        _ => event is Done,
    }
}

/// An event that cannot come of the action at hand changes nothing.
#[verifier::rlimit(40)]
pub proof fn law_other_events_change_nothing(
    s: SupervisorModel,
    event: EventModel,
    stamp: Stamp,
    now: u64,
)
    requires
        !answers(s.next(), event),
    ensures
        s.after(event, stamp, now) == s,
{
}

} // verus!
