//! What the operations of the helper promise as a whole.
use vstd::prelude::*;

use crate::config;
use crate::config::ConfigModel;
use crate::helper;
use crate::helper::{
    ActionModel, DisableModel, DisablePhase, EnableModel, EnablePhase, EventModel, Side,
};
use crate::netns;
use crate::number;
use crate::status::{Stamp, StatusModel};
use crate::text;

verus! {

/// What came of an action, and when.
pub struct Step {
    pub event: EventModel,
    pub stamp: Stamp,
}

// ---- enable ----

impl EnableModel {
    /// The operation after the steps.
    pub open spec fn run(self, steps: Seq<Step>) -> EnableModel
        decreases steps.len(),
    {
        if steps.len() == 0 {
            self
        } else {
            self.after(steps[0].event, steps[0].stamp).run(steps.drop_first())
        }
    }

    /// What is done in the steps.
    pub open spec fn actions(self, steps: Seq<Step>) -> Seq<ActionModel>
        decreases steps.len(),
    {
        if steps.len() == 0 {
            seq![]
        } else {
            seq![self.next()] + self.after(steps[0].event, steps[0].stamp).actions(
                steps.drop_first(),
            )
        }
    }

    /// How many actions are left at most.
    pub open spec fn rank(self) -> int {
        match self.phase {
            EnablePhase::LoadConfig => 200,
            EnablePhase::SeeOvpn => 199,
            EnablePhase::ReadPid => 198,
            EnablePhase::Probe => 197,
            EnablePhase::ReadStatus => 196,
            EnablePhase::Kill => 195,
            EnablePhase::ProbeKilled => 94 + 2 * (helper::KILL_POLLS - self.polls),
            EnablePhase::NapKilled => 93 + 2 * (helper::KILL_POLLS - self.polls),
            EnablePhase::RemovePid => 94,
            EnablePhase::TakeLock => 93,
            EnablePhase::AwaitHealthy => 12 + 2 * (helper::LOCK_POLLS - self.polls),
            EnablePhase::NapHealthy => 11 + 2 * (helper::LOCK_POLLS - self.polls),
            EnablePhase::LastLook => 12,
            EnablePhase::PickSubnet => 11,
            EnablePhase::SetUp => 10,
            EnablePhase::ReadOvpn => 9,
            EnablePhase::AddRules => 8,
            EnablePhase::Fork => 7,
            EnablePhase::Supervise => 1,
            EnablePhase::Over => 0,
        }
    }

    /// Whether the operation holds the lock.
    pub open spec fn locked(self) -> bool {
        match self.phase {
            EnablePhase::PickSubnet => true,
            EnablePhase::SetUp => true,
            EnablePhase::ReadOvpn => true,
            EnablePhase::AddRules => true,
            EnablePhase::Fork => true,
            EnablePhase::Supervise => true,
            _ => false,
        }
    }
}

/// Bringing the tunnel up takes a bounded number of steps: every event that
/// belongs to the action at hand brings the end nearer.
pub proof fn law_enable_ends(s: EnableModel, event: EventModel, stamp: Stamp)
    requires
        s.wf(),
        s.after(event, stamp) != s,
    ensures
        s.after(event, stamp).wf(),
        0 <= s.after(event, stamp).rank() < s.rank() <= 200,
{
}

/// A tunnel that runs, starts or reconnects under a living supervisor is not
/// touched: its status is reported, and nothing else is done than to look.
pub proof fn law_healthy_tunnel_is_left_alone(
    cfg: ConfigModel,
    content: Seq<char>,
    status: StatusModel,
    stamp: Stamp,
)
    requires
        helper::pid_in(Some(content)) is Some,
        helper::healthy(Some(status)),
    ensures
        ({
            let steps = seq![
                Step { event: EventModel::Config(Ok(cfg)), stamp },
                Step { event: EventModel::Seen(true), stamp },
                Step { event: EventModel::Text(Some(content)), stamp },
                Step { event: EventModel::Seen(true), stamp },
                Step { event: EventModel::Status(Some(status)), stamp },
            ];
            &&& helper::enable_start().actions(steps) == seq![
                ActionModel::LoadConfig,
                ActionModel::SeeFile(cfg.ovpn()),
                ActionModel::ReadFile(config::PID_PATH@),
                ActionModel::Probe(helper::pid_in(Some(content))->0),
                ActionModel::ReadStatus,
            ]
            &&& helper::enable_start().run(steps).next() == ActionModel::Finish(Ok(status.json()))
        }),
{
    let start = helper::enable_start();
    let e0 = Step { event: EventModel::Config(Ok(cfg)), stamp };
    let e1 = Step { event: EventModel::Seen(true), stamp };
    let e2 = Step { event: EventModel::Text(Some(content)), stamp };
    let e4 = Step { event: EventModel::Status(Some(status)), stamp };
    let steps = seq![e0, e1, e2, e1, e4];
    let s1 = start.after(e0.event, stamp);
    let s2 = s1.after(e1.event, stamp);
    let s3 = s2.after(e2.event, stamp);
    let s4 = s3.after(e1.event, stamp);
    let s5 = s4.after(e4.event, stamp);
    assert(steps.drop_first() =~= seq![e1, e2, e1, e4]);
    assert(seq![e1, e2, e1, e4].drop_first() =~= seq![e2, e1, e4]);
    assert(seq![e2, e1, e4].drop_first() =~= seq![e1, e4]);
    assert(seq![e1, e4].drop_first() =~= seq![e4]);
    assert(seq![e4].drop_first() =~= seq![]);
    assert(s5.actions(seq![]) =~= seq![]);
    assert(s4.actions(seq![e4]) =~= seq![s4.next()]);
    assert(s3.actions(seq![e1, e4]) =~= seq![s3.next(), s4.next()]);
    assert(s2.actions(seq![e2, e1, e4]) =~= seq![s2.next(), s3.next(), s4.next()]);
    assert(s1.actions(seq![e1, e2, e1, e4]) =~= seq![
        s1.next(),
        s2.next(),
        s3.next(),
        s4.next(),
    ]);
    assert(start.actions(steps) =~= seq![
        start.next(),
        s1.next(),
        s2.next(),
        s3.next(),
        s4.next(),
    ]);
    assert(s4.run(seq![e4]) == s5.run(seq![]));
    assert(s3.run(seq![e1, e4]) == s5);
    assert(s2.run(seq![e2, e1, e4]) == s5);
    assert(s1.run(seq![e1, e2, e1, e4]) == s5);
    assert(start.run(steps) == s5);
}

/// A supervisor is killed only if it is alive and its status is not healthy.
pub proof fn law_only_the_unhealthy_are_killed(s: EnableModel, event: EventModel, stamp: Stamp)
    requires
        s.after(event, stamp).next() is Kill,
        !(s.next() is Kill),
    ensures
        s.phase is ReadStatus,
        event is Status,
        !helper::healthy(event->Status_0),
        s.after(event, stamp).next() == ActionModel::Kill(s.pid),
{
}

/// The lock guards the tunnel: addresses, namespace, routing rules and the
/// supervisor are touched only by the operation that took it.
pub proof fn law_lock_guards_the_tunnel(s: EnableModel, event: EventModel, stamp: Stamp)
    ensures
        s.next() is PickSubnet || s.next() is SetUp || s.next() is AddRules || s.next() is Fork
            || s.next() is Supervise ==> s.locked(),
        s.after(event, stamp).locked() && !s.locked() ==> s.next() == ActionModel::TakeLock(
            config::LOCK_PATH@,
        ) && event is LockTaken,
{
}

/// While another process holds the lock, the operation does nothing but look
/// at the status and sleep until it is over.
pub proof fn law_held_lock_only_waits(s: EnableModel, event: EventModel, stamp: Stamp)
    requires
        s.phase is AwaitHealthy || s.phase is NapHealthy || s.phase is LastLook,
    ensures
        s.next() is ReadStatus || s.next() is Sleep,
        ({
            let t = s.after(event, stamp);
            t.phase is AwaitHealthy || t.phase is NapHealthy || t.phase is LastLook
                || t.phase is Over
        }),
{
}

/// The supervisor is split off only after the namespace was set up, and gets
/// the addresses that it was set up with.
pub proof fn law_supervisor_gets_the_namespace(
    s: EnableModel,
    setup: Step,
    read: Step,
    rules: Step,
    fork: Step,
)
    requires
        s.phase is SetUp,
        setup.event is SetUp && setup.event->SetUp_0 is Ok,
        read.event is Text,
        rules.event is Done,
        fork.event == EventModel::Forked(Ok(Side::Child)),
    ensures
        ({
            let t = s.after(setup.event, setup.stamp).after(read.event, read.stamp);
            let u = t.after(rules.event, rules.stamp).after(fork.event, fork.stamp);
            &&& t.next() == ActionModel::AddRules(
                config::text_or(read.event->Text_0, seq![]),
            )
            &&& u.next() == (ActionModel::Supervise {
                cfg: s.cfg,
                ns_ip: s.ns,
                port: s.cfg.port(),
            })
        }),
{
}

/// The process id that the supervisor writes to its file is the one that the
/// helper reads there.
pub proof fn law_pid_reads_back(pid: u32)
    requires
        pid <= i32::MAX,
    ensures
        helper::pid_in(Some(number::decimal(pid as nat) + "\n"@)) == Some(pid as i32),
{
    let digits = number::decimal(pid as nat);
    let content = digits + "\n"@;
    reveal_strlit("\n");
    number::law_decimal_reads_back(pid as nat);
    number::law_signed32_of_decimal(pid as nat);
    assert(content[0] == digits[0] && number::is_digit(digits[0]));
    assert(text::trim_start(content) == content);
    assert(content.last() == '\n');
    assert(content.drop_last() =~= digits);
    assert(number::is_digit(digits[digits.len() - 1]));
    assert(text::trim_end(digits) == digits);
}

// ---- disable ----

impl DisableModel {
    /// The operation after the steps.
    pub open spec fn run(self, steps: Seq<Step>) -> DisableModel
        decreases steps.len(),
    {
        if steps.len() == 0 {
            self
        } else {
            self.after(steps[0].event, steps[0].stamp).run(steps.drop_first())
        }
    }

    /// What is done in the steps.
    pub open spec fn actions(self, steps: Seq<Step>) -> Seq<ActionModel>
        decreases steps.len(),
    {
        if steps.len() == 0 {
            seq![]
        } else {
            seq![self.next()] + self.after(steps[0].event, steps[0].stamp).actions(
                steps.drop_first(),
            )
        }
    }

    /// How many actions are left at most.
    pub open spec fn rank(self) -> int {
        match self.phase {
            DisablePhase::ReadPid => 210,
            DisablePhase::Terminate => 209,
            DisablePhase::Probe => 8 + 2 * (helper::STOP_POLLS - self.polls),
            DisablePhase::Nap => 7 + 2 * (helper::STOP_POLLS - self.polls),
            DisablePhase::CleanNetns => 6,
            DisablePhase::RemovePid => 5,
            DisablePhase::LoadConfig => 4,
            DisablePhase::ReadOvpn => 3,
            DisablePhase::RemoveRules => 2,
            DisablePhase::Publish => 1,
            DisablePhase::Over => 0,
        }
    }
}

/// Taking the tunnel down takes a bounded number of steps: every event that
/// belongs to the action at hand brings the end nearer.
pub proof fn law_disable_ends(s: DisableModel, event: EventModel, stamp: Stamp)
    requires
        s.wf(),
        s.after(event, stamp) != s,
    ensures
        s.after(event, stamp).wf(),
        0 <= s.after(event, stamp).rank() < s.rank() <= 210,
{
}

proof fn lemma_taken(s: DisableModel, steps: Seq<Step>, action: ActionModel, rank: int)
    requires
        s.wf(),
        s.run(steps).rank() < rank <= s.rank(),
        forall|t: DisableModel|
            #![trigger t.next()]
            t.wf() && t.rank() == rank ==> t.next() == action,
        forall|t: DisableModel, event: EventModel, stamp: Stamp|
            #![trigger t.after(event, stamp)]
            t.wf() && t.rank() > rank ==> t.after(event, stamp).rank() >= rank,
    ensures
        s.actions(steps).contains(action),
    decreases steps.len(),
{
    assert(steps.len() > 0);
    let t = s.after(steps[0].event, steps[0].stamp);
    let rest = steps.drop_first();
    assert(s.actions(steps)[0] == s.next());
    if s.rank() > rank {
        if t != s {
            law_disable_ends(s, steps[0].event, steps[0].stamp);
        }
        lemma_taken(t, rest, action, rank);
        let i = choose|i: int|
            0 <= i < t.actions(rest).len() && t.actions(rest)[i] == action;
        assert(s.actions(steps)[i + 1] == action);
    }
}

/// However the supervisor ended, and whatever fails: a tunnel that was taken
/// down has had its namespace deleted and the file with the process id
/// removed.
pub proof fn law_disable_leaves_nothing(steps: Seq<Step>, stamp: Stamp)
    requires
        helper::disable_start(stamp).run(steps).phase is Over,
    ensures
        helper::disable_start(stamp).actions(steps).contains(
            ActionModel::Run(netns::cleanup_command()),
        ),
        helper::disable_start(stamp).actions(steps).contains(
            ActionModel::RemoveFile(config::PID_PATH@),
        ),
{
    let start = helper::disable_start(stamp);
    lemma_taken(start, steps, ActionModel::Run(netns::cleanup_command()), 6);
    lemma_taken(start, steps, ActionModel::RemoveFile(config::PID_PATH@), 5);
}

/// A tunnel that was taken down is reported as stopped: the status is
/// published, and it is the one that the operation prints.
pub proof fn law_disable_reports(s: DisableModel, event: EventModel, stamp: Stamp)
    requires
        s.after(event, stamp).phase is Over,
        !(s.phase is Over),
    ensures
        s.next() == ActionModel::Publish(s.status),
        s.after(event, stamp).next() == ActionModel::Finish(Ok(s.status.json())),
{
}

/// The status that is published in the end says that the tunnel is stopped.
pub proof fn law_disable_publishes_stopped(s: DisableModel, event: EventModel, stamp: Stamp)
    requires
        s.after(event, stamp).next() is Publish,
        !(s.next() is Publish),
    ensures
        s.after(event, stamp).next() == ActionModel::Publish(helper::taken_down(stamp)),
{
}

/// The configuration that `enable` loaded is the one that it uses to its end.
pub proof fn law_configuration_is_kept(s: EnableModel, event: EventModel, stamp: Stamp)
    ensures
        s.phase is LoadConfig && event is Config && event->Config_0 is Ok ==> s.after(
            event,
            stamp,
        ).cfg == event->Config_0->Ok_0,
        !(s.phase is LoadConfig) ==> s.after(event, stamp).cfg == s.cfg,
        !(s.after(event, stamp).phase is LoadConfig) || s.phase is LoadConfig,
{
}

/// `disable` removes the routing rules for the servers of the same OpenVPN
/// file for which `enable` added them.
pub proof fn law_same_servers(
    e: EnableModel,
    d: DisableModel,
    cfg: ConfigModel,
    stamp: Stamp,
    ovpn: Seq<char>,
)
    requires
        e.phase is ReadOvpn,
        e.cfg == cfg,
        d.phase is LoadConfig,
    ensures
        ({
            let read = d.after(EventModel::Config(Ok(cfg)), stamp);
            &&& e.next() == ActionModel::ReadFile(cfg.ovpn())
            &&& read.next() == e.next()
            &&& e.after(EventModel::Text(Some(ovpn)), stamp).next() == ActionModel::AddRules(ovpn)
            &&& read.after(EventModel::Text(Some(ovpn)), stamp).next()
                == ActionModel::RemoveRules(ovpn)
        }),
{
}

} // verus!
