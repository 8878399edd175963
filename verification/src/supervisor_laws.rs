//! What the supervisor promises as a whole.
use vstd::prelude::*;

use crate::command;
use crate::config;
use crate::config::ConfigModel;
use crate::netns;
use crate::number;
use crate::relay;
use crate::status;
use crate::status::Stamp;
use crate::supervisor;
use crate::supervisor::{ActionModel, EventModel, SupervisorModel};

verus! {

/// What came of an action, and when.
pub struct Step {
    pub event: EventModel,
    pub stamp: Stamp,
    pub now: u64,
}

impl SupervisorModel {
    pub open spec fn step(self, step: Step) -> SupervisorModel {
        self.after(step.event, step.stamp, step.now)
    }

    /// The supervisor after the steps.
    pub open spec fn run(self, steps: Seq<Step>) -> SupervisorModel
        decreases steps.len(),
    {
        if steps.len() == 0 {
            self
        } else {
            self.step(steps[0]).run(steps.drop_first())
        }
    }

    /// What is done in the steps.
    pub open spec fn actions(self, steps: Seq<Step>) -> Seq<ActionModel>
        decreases steps.len(),
    {
        if steps.len() == 0 {
            seq![]
        } else {
            seq![self.next()] + self.step(steps[0]).actions(steps.drop_first())
        }
    }

    /// How often an attempt is made to start OpenVPN in the steps.
    pub open spec fn openvpn_starts(self, steps: Seq<Step>) -> nat
        decreases steps.len(),
    {
        if steps.len() == 0 {
            0
        } else {
            let rest = self.step(steps[0]).openvpn_starts(steps.drop_first());
            if self.next() is StartOpenvpn && steps[0].event is Spawned {
                rest + 1
            } else {
                rest
            }
        }
    }
}

/// Whatever comes of its actions, a supervisor keeps what holds of it at all
/// times.
pub proof fn law_always_valid(s: SupervisorModel, steps: Seq<Step>)
    requires
        s.wf(),
    ensures
        s.run(steps).wf(),
    decreases steps.len(),
{
    if steps.len() > 0 {
        let step = steps[0];
        supervisor::law_invariant(s, step.event, step.stamp, step.now);
        law_always_valid(s.step(step), steps.drop_first());
    }
}

/// OpenVPN is restarted at most three times, and each time only after it, and
/// the loop, have run for the delay.
pub proof fn law_restarts_are_bounded(s: SupervisorModel, event: EventModel, stamp: Stamp, now: u64)
    requires
        s.wf(),
    ensures
        ({
            let t = s.after(event, stamp, now);
            &&& t.restarts <= supervisor::MAX_OPENVPN_RESTARTS
            &&& t.restarts != s.restarts || (t.phase is RestartOpenvpn && !(
            s.phase is RestartOpenvpn)) ==> {
                &&& t.restarts == s.restarts + 1
                &&& s.next() == ActionModel::CheckOpenvpn && event == EventModel::Seen(true)
                &&& now >= s.last_restart + supervisor::RESTART_DELAY
                &&& t.last_restart == now
            }
        }),
{
    supervisor::law_invariant(s, event, stamp, now);
}

/// How often OpenVPN may still be started.
spec fn starts_left(s: SupervisorModel) -> int {
    let first = if s.phase is WritePid || s.phase is FindPort || s.phase is StartRelay
        || s.phase is StartOpenvpn {
        1int
    } else {
        0
    };
    let pending = if s.phase is RestartOpenvpn {
        1int
    } else {
        0
    };
    first + pending + (supervisor::MAX_OPENVPN_RESTARTS - s.restarts)
}

proof fn lemma_starts_left(s: SupervisorModel, step: Step)
    requires
        s.wf(),
    ensures
        0 <= starts_left(s.step(step)) <= starts_left(s),
        s.next() is StartOpenvpn && step.event is Spawned ==> starts_left(s.step(step)) + 1
            <= starts_left(s),
{
    supervisor::law_invariant(s, step.event, step.stamp, step.now);
    law_restarts_are_bounded(s, step.event, step.stamp, step.now);
}

proof fn lemma_openvpn_starts(s: SupervisorModel, steps: Seq<Step>)
    requires
        s.wf(),
    ensures
        s.openvpn_starts(steps) <= starts_left(s),
    decreases steps.len(),
{
    if steps.len() > 0 {
        let step = steps[0];
        supervisor::law_invariant(s, step.event, step.stamp, step.now);
        lemma_starts_left(s, step);
        lemma_openvpn_starts(s.step(step), steps.drop_first());
    }
}

/// Whatever happens, OpenVPN is started once and restarted at most three
/// times.
pub proof fn law_openvpn_starts_are_bounded(
    cfg: ConfigModel,
    ns_ip: Seq<char>,
    port: u16,
    stamp: Stamp,
    steps: Seq<Step>,
)
    ensures
        supervisor::start_model(cfg, ns_ip, port, stamp).openvpn_starts(steps) <= 1
            + supervisor::MAX_OPENVPN_RESTARTS,
{
    lemma_openvpn_starts(supervisor::start_model(cfg, ns_ip, port, stamp), steps);
}

/// The default route of the namespace is pointed at the tunnel only when the
/// tunnel device was just seen to be up in the namespace.
pub proof fn law_route_only_when_up(s: SupervisorModel, event: EventModel, stamp: Stamp, now: u64)
    requires
        s.wf(),
        s.after(event, stamp, now).phase is SetRoute,
        !(s.phase is SetRoute),
    ensures
        s.next() == ActionModel::Run(netns::ns_tun_command()),
        event is Reply,
        command::output_has(event->Reply_0, "LOWER_UP"@),
        s.after(event, stamp, now).next() == ActionModel::Run(netns::default_route_command()),
{
}

/// The state becomes `running` only right after the default route was pointed
/// at the tunnel that was seen to be up, and then it does.
pub proof fn law_running_means_up(s: SupervisorModel, event: EventModel, stamp: Stamp, now: u64)
    requires
        s.wf(),
    ensures
        ({
            let t = s.after(event, stamp, now);
            &&& t.status.state == "running"@ && s.status.state != "running"@ ==> s.next()
                == ActionModel::Run(netns::default_route_command()) && event is Reply
            &&& s.phase is SetRoute && s.outbox.len() == 0 && event is Reply ==> t.status.state
                == "running"@
        }),
{
    lemma_states_differ();
    lemma_keys_differ(s.status.state, s.status.detail, "running"@, "tunnel up"@);
    reveal_strlit("running");
    assert(("running"@ + "|"@ + "tunnel up"@).len() > 0);
}

/// When the tunnel device is seen not to be up, the state is not, or not any
/// more, `running`.
pub proof fn law_down_is_noticed(
    s: SupervisorModel,
    reply: Result<Seq<char>, Seq<char>>,
    stamp: Stamp,
    now: u64,
)
    requires
        s.wf(),
        s.phase is CheckNsTun,
        s.outbox.len() == 0,
        !command::output_has(reply, "LOWER_UP"@),
    ensures
        ({
            let t = s.after(EventModel::Reply(reply), stamp, now);
            &&& t.status.state != "running"@
            &&& s.status.state == "running"@ ==> t.status.state == "reconnecting"@ && t.next()
                == ActionModel::Publish(t.status)
        }),
{
    lemma_states_differ();
    lemma_keys_differ(
        s.status.state,
        s.status.detail,
        "reconnecting"@,
        "tunnel down; waiting for reconnect"@,
    );
}

/// The states that are reported differ from each other.
proof fn lemma_states_differ()
    ensures
        "running"@ != "starting"@,
        "running"@ != "reconnecting"@,
        "running"@ != "stopped"@,
        "running"@ != "error"@,
{
    reveal_strlit("running");
    reveal_strlit("starting");
    reveal_strlit("reconnecting");
    reveal_strlit("stopped");
    reveal_strlit("error");
    assert("running"@[1] == 'u');
    assert("starting"@[1] == 't');
    assert("reconnecting"@[1] == 'e');
    assert("stopped"@[1] == 't');
    assert("error"@[1] == 'r');
}

/// Two reports with the same key are of the same state.
proof fn lemma_keys_differ(a: Seq<char>, x: Seq<char>, b: Seq<char>, y: Seq<char>)
    requires
        supervisor::reported(a),
        supervisor::reported(b),
    ensures
        a + "|"@ + x == b + "|"@ + y ==> a == b,
{
    reveal_strlit("running");
    reveal_strlit("starting");
    reveal_strlit("reconnecting");
    reveal_strlit("stopped");
    reveal_strlit("error");
    let ka = a + "|"@ + x;
    let kb = b + "|"@ + y;
    assert(a.len() >= 3 && b.len() >= 3);
    assert(ka[0] == a[0] && ka[1] == a[1] && ka[2] == a[2]);
    assert(kb[0] == b[0] && kb[1] == b[1] && kb[2] == b[2]);
}

/// A state is reported only when it is not what was last reported.
pub proof fn law_only_changes_are_reported(s: SupervisorModel, state: Seq<char>, detail: Seq<char>)
    ensures
        s.reporting(state, detail).reporting(state, detail) == s.reporting(state, detail),
        s.reporting(state, detail).outbox.len() <= s.outbox.len() + 1,
{
}

/// The relay listens on 127.0.0.1 and nowhere else, and passes connections on
/// to the SOCKS5 server in the namespace.
pub proof fn law_relay_listens_on_loopback(s: SupervisorModel)
    requires
        s.next() is StartRelay,
    ensures
        s.next() == (ActionModel::StartRelay {
            listen: "127.0.0.1"@ + ":"@ + number::decimal(s.socks_port as nat),
            target: relay::address_model(s.ns_ip, s.port),
        }),
{
}

/// Once the supervisor has begun to end it never goes back: it starts and
/// moves nothing any more, and the one command that it still runs deletes the
/// namespace.
pub proof fn law_no_way_back(s: SupervisorModel, event: EventModel, stamp: Stamp, now: u64)
    requires
        !supervisor::live(s.phase),
    ensures
        !supervisor::live(s.after(event, stamp, now).phase),
        !(s.next() is StartRelay),
        !(s.next() is StartOpenvpn),
        !(s.next() is StartSocks),
        !(s.next() is MoveTun),
        s.next() is Run ==> s.next() == ActionModel::Run(netns::cleanup_command()),
{
}

/// The supervisor exits only after the command that deletes the namespace, and
/// that command runs only when no child is left.
pub proof fn law_exit_is_clean(s: SupervisorModel, event: EventModel, stamp: Stamp, now: u64)
    requires
        s.wf(),
        s.after(event, stamp, now).phase is Over,
        !(s.phase is Over),
    ensures
        s.next() == ActionModel::Run(netns::cleanup_command()),
        !s.openvpn,
        !s.socks,
{
}

/// When a part of the start fails, the error is published and the supervisor
/// waits to be stopped; nothing more is started.
pub proof fn law_failed_start_is_reported(
    s: SupervisorModel,
    event: EventModel,
    stamp: Stamp,
    now: u64,
)
    requires
        s.outbox.len() == 0,
        s.phase is FindPort && event == EventModel::Port(None) || ((s.phase is StartOpenvpn
            || s.phase is StartSocks) && event is Spawned && event->Spawned_0 is Err),
    ensures
        ({
            let t = s.after(event, stamp, now);
            &&& t.next() == ActionModel::Publish(t.status)
            &&& t.status.state == "error"@
            &&& t.status.error is Some
            &&& t.phase is AwaitStop
            &&& t.after(EventModel::Done, stamp, now).next() == ActionModel::CheckStop
        }),
{
}

/// What is done to the children and the namespace in the end.
pub open spec fn release(openvpn: bool, socks: bool) -> Seq<ActionModel> {
    let cleaned = seq![ActionModel::Run(netns::cleanup_command())];
    let stopped = if socks {
        seq![ActionModel::StopSocks] + cleaned
    } else {
        cleaned
    };
    if openvpn {
        seq![ActionModel::StopOpenvpn] + stopped
    } else {
        stopped
    }
}

/// The steps in which that is done: each child is stopped, then the last
/// command comes to this.
pub open spec fn release_steps(openvpn: bool, socks: bool, done: Step, cleaned: Step) -> Seq<Step> {
    let last = seq![cleaned];
    let stopped = if socks {
        seq![done] + last
    } else {
        last
    };
    if openvpn {
        seq![done] + stopped
    } else {
        stopped
    }
}

proof fn lemma_release(s: SupervisorModel, done: Step, cleaned: Step)
    requires
        s.outbox.len() == 0,
        done.event is Done,
        cleaned.event is Reply,
    ensures
        ({
            let steps = release_steps(s.openvpn, s.socks, done, cleaned);
            &&& s.releasing().actions(steps) == release(s.openvpn, s.socks)
            &&& s.releasing().run(steps).next() == ActionModel::Exit
        }),
    decreases release(s.openvpn, s.socks).len(),
{
    let t = s.releasing();
    let steps = release_steps(s.openvpn, s.socks, done, cleaned);
    let rest = steps.drop_first();
    if s.openvpn {
        let gone = SupervisorModel { openvpn: false, ..s };
        lemma_release(gone, done, cleaned);
        assert(t.step(done) == gone.releasing());
        assert(rest =~= release_steps(false, s.socks, done, cleaned));
    } else if s.socks {
        let gone = SupervisorModel { socks: false, ..s };
        lemma_release(gone, done, cleaned);
        assert(t.step(done) == gone.releasing());
        assert(rest =~= release_steps(false, false, done, cleaned));
    } else {
        assert(rest =~= seq![]);
        assert(t.step(cleaned).actions(rest) =~= seq![]);
    }
    assert(t.actions(steps) =~= release(s.openvpn, s.socks));
    assert(t.run(steps) == t.step(steps[0]).run(rest));
}

/// A supervisor that is asked to stop publishes that it has stopped, frees the
/// file with its process id, stops its children, deletes the namespace and
/// exits, whatever becomes of that.
pub proof fn law_stop_tears_down(s: SupervisorModel, stop: Step, done: Step, cleaned: Step)
    requires
        s.phase is CheckStop,
        s.outbox.len() == 0,
        stop.event == EventModel::Seen(true),
        done.event is Done,
        cleaned.event is Reply,
    ensures
        ({
            let stopping = s.step(stop);
            let steps = seq![done, done] + release_steps(s.openvpn, s.socks, done, cleaned);
            &&& stopping.actions(steps) == seq![
                ActionModel::Publish(
                    status::fresh("stopped"@, "stopped"@, s.socks_port, stop.stamp),
                ),
                ActionModel::RemoveFile(config::PID_PATH@),
            ] + release(s.openvpn, s.socks)
            &&& stopping.run(steps).next() == ActionModel::Exit
        }),
{
    let stopping = s.step(stop);
    let rest = release_steps(s.openvpn, s.socks, done, cleaned);
    let steps = seq![done, done] + rest;
    let published = SupervisorModel { outbox: seq![], ..stopping };
    lemma_release(published, done, cleaned);
    assert(stopping == s.stopping(stop.stamp));
    assert(stopping.outbox.drop_first() =~= published.outbox);
    assert(stopping.step(done) == published);
    assert(steps.drop_first() =~= seq![done] + rest);
    assert((seq![done] + rest).drop_first() =~= rest);
    assert(published.step(done) == published.releasing());
    assert(published.actions(seq![done] + rest) =~= seq![published.next()]
        + published.releasing().actions(rest));
    assert(stopping.actions(steps) =~= seq![stopping.next(), published.next()]
        + published.releasing().actions(rest));
    assert(stopping.run(steps) == published.run(seq![done] + rest));
    assert(published.run(seq![done] + rest) == published.releasing().run(rest));
}

/// A supervisor whose namespace is gone says so and then tears down what is
/// left.
pub proof fn law_lost_namespace_ends(s: SupervisorModel, stamp: Stamp, now: u64)
    requires
        s.wf(),
        s.phase is CheckNamespace,
        s.outbox.len() == 0,
    ensures
        ({
            let t = s.after(EventModel::Seen(false), stamp, now);
            &&& t.phase is RemovePid
            &&& t.outbox.last().state == "stopped"@
            &&& t.outbox.len() == 1 ==> s.key == "error"@ + "|"@
                + "network namespace disappeared; re-enable the tunnel"@
            &&& t.outbox.len() != 1 ==> t.outbox.len() == 2 && t.outbox[0].state == "error"@
        }),
{
}

} // verus!
