//! The network namespace, the veth pair and the tunnel device.
//!
//! OpenVPN runs on the host; the device that it creates is moved into the
//! namespace, so that all tunnel data stays there. The default route of the
//! namespace points at that device: when it disappears there is no route at
//! all, and connections through the tunnel fail.
use vstd::prelude::*;

use crate::command;
use crate::command::{Command, CommandModel};
use crate::config;
use crate::number;
use crate::text;

verus! {

// ---- single commands ----

/// Deletes the namespace, and with it the veth pair.
pub open spec fn cleanup_command() -> CommandModel {
    command::ip_model(seq!["netns"@, "del"@, config::NETNS@])
}

/// Deletes the namespace, and with it the veth pair. It may be run when there
/// is none; its outcome does not matter.
pub fn cleanup_netns() -> (r: Command)
    ensures
        r@ == cleanup_command(),
{
    let r = command::ip(&["netns", "del", config::NETNS]);
    proof {
        assert(r@.args =~= cleanup_command().args);
    }
    r
}

/// Points the default route of the namespace at the tunnel.
pub open spec fn default_route_command() -> CommandModel {
    command::ns_ip_model(seq!["route"@, "replace"@, "default"@, "dev"@, config::TUN_DEV@])
}

/// Points the default route of the namespace at the tunnel.
pub fn ensure_ns_tun_default() -> (r: Command)
    ensures
        r@ == default_route_command(),
{
    let r = command::ns_ip(&["route", "replace", "default", "dev", config::TUN_DEV]);
    proof {
        assert(r@.args =~= default_route_command().args);
    }
    r
}

/// The file that is there while the namespace is.
pub open spec fn ns_path_model() -> Seq<char> {
    "/var/run/netns/"@ + config::NETNS@
}

/// The file that is there while the namespace is.
pub fn ns_path() -> (r: String)
    ensures
        r@ == ns_path_model(),
{
    text::cat("/var/run/netns/", config::NETNS)
}

/// Asks for the IPv4 address of the tunnel device on the host.
pub open spec fn host_tun_command() -> CommandModel {
    command::ip_model(seq!["-4"@, "addr"@, "show"@, "dev"@, config::TUN_DEV@])
}

/// Asks for the IPv4 address of the tunnel device on the host.
pub fn host_tun_query() -> (r: Command)
    ensures
        r@ == host_tun_command(),
{
    let r = command::ip(&["-4", "addr", "show", "dev", config::TUN_DEV]);
    proof {
        assert(r@.args =~= host_tun_command().args);
    }
    r
}

/// Whether a device has an address, by the reply to the question for it.
pub open spec fn addressed(reply: Result<Seq<char>, Seq<char>>) -> bool {
    command::output_has(reply, "inet "@)
}

/// Whether OpenVPN has created the tunnel device on the host and given it an
/// address, by the reply to `host_tun_query`.
pub fn host_tun_ready(reply: &Result<String, String>) -> (r: bool)
    ensures
        r == addressed(command::reply_model(*reply)),
{
    command::reply_has(reply, "inet ")
}

/// Asks for the IPv4 address of the tunnel device in the namespace.
pub open spec fn ns_tun_addr_command() -> CommandModel {
    command::ns_ip_model(seq!["-4"@, "addr"@, "show"@, "dev"@, config::TUN_DEV@])
}

/// Asks for the IPv4 address of the tunnel device in the namespace.
pub fn ns_tun_addr_query() -> (r: Command)
    ensures
        r@ == ns_tun_addr_command(),
{
    let r = command::ns_ip(&["-4", "addr", "show", "dev", config::TUN_DEV]);
    proof {
        assert(r@.args =~= ns_tun_addr_command().args);
    }
    r
}

/// Whether the tunnel device has an address in the namespace, by the reply to
/// `ns_tun_addr_query`.
pub fn ns_tun_has_addr(reply: &Result<String, String>) -> (r: bool)
    ensures
        r == addressed(command::reply_model(*reply)),
{
    command::reply_has(reply, "inet ")
}

/// Asks for the state of the tunnel device in the namespace.
pub open spec fn ns_tun_command() -> CommandModel {
    command::ns_ip_model(seq!["link"@, "show"@, config::TUN_DEV@])
}

/// Asks for the state of the tunnel device in the namespace.
pub fn ns_tun_query() -> (r: Command)
    ensures
        r@ == ns_tun_command(),
{
    let r = command::ns_ip(&["link", "show", config::TUN_DEV]);
    proof {
        assert(r@.args =~= ns_tun_command().args);
    }
    r
}

/// Whether a device is up, by the reply to the question for its state.
pub open spec fn up(reply: Result<Seq<char>, Seq<char>>) -> bool {
    command::output_has(reply, "LOWER_UP"@)
}

/// Whether the tunnel device is present and up in the namespace, by the reply
/// to `ns_tun_query`.
pub fn ns_tun_ready(reply: &Result<String, String>) -> (r: bool)
    ensures
        r == up(command::reply_model(*reply)),
{
    command::reply_has(reply, "LOWER_UP")
}

// ---- setting up the namespace ----

/// An address with the length of its prefix.
pub open spec fn cidr(addr: Seq<char>, prefix: u8) -> Seq<char> {
    addr + "/"@ + number::decimal(prefix as nat)
}

/// The commands that set up the namespace and the veth pair, in order.
pub open spec fn setup_commands(host: Seq<char>, ns: Seq<char>, prefix: u8) -> Seq<CommandModel> {
    seq![
        command::ip_model(seq!["netns"@, "add"@, config::NETNS@]),
        command::ip_model(
            seq![
                "link"@,
                "add"@,
                config::VETH_HOST@,
                "type"@,
                "veth"@,
                "peer"@,
                "name"@,
                config::VETH_NS@,
            ],
        ),
        command::ip_model(seq!["link"@, "set"@, config::VETH_NS@, "netns"@, config::NETNS@]),
        command::ip_model(seq!["addr"@, "add"@, cidr(host, prefix), "dev"@, config::VETH_HOST@]),
        command::ip_model(seq!["link"@, "set"@, config::VETH_HOST@, "up"@]),
        command::ns_ip_model(seq!["link"@, "set"@, "lo"@, "up"@]),
        command::ns_ip_model(seq!["addr"@, "add"@, cidr(ns, prefix), "dev"@, config::VETH_NS@]),
        command::ns_ip_model(seq!["link"@, "set"@, config::VETH_NS@, "up"@]),
    ]
}

/// Setting up the namespace: the commands run one after the other; if one
/// fails the namespace is deleted again.
pub struct Setup {
    commands: Vec<Command>,
    done: usize,
    error: Option<String>,
    cleaned: bool,
}

/// What a setup amounts to.
pub struct SetupModel {
    pub commands: Seq<CommandModel>,
    pub done: nat,
    pub error: Option<Seq<char>>,
    pub cleaned: bool,
}

impl View for Setup {
    type V = SetupModel;

    closed spec fn view(&self) -> SetupModel {
        SetupModel {
            commands: self.commands.deep_view(),
            done: self.done as nat,
            error: self.error.deep_view(),
            cleaned: self.cleaned,
        }
    }
}

impl SetupModel {
    pub open spec fn wf(self) -> bool {
        self.done <= self.commands.len()
    }

    /// The command to run next.
    pub open spec fn next(self) -> Option<CommandModel> {
        if self.error is None && self.done < self.commands.len() {
            Some(self.commands[self.done as int])
        } else if self.error is Some && !self.cleaned {
            Some(cleanup_command())
        } else {
            None
        }
    }

    /// The setup after the next command ran.
    pub open spec fn after(self, reply: Result<Seq<char>, Seq<char>>) -> SetupModel {
        if self.error is Some {
            SetupModel { cleaned: true, ..self }
        } else {
            match reply {
                Ok(_) => SetupModel { done: self.done + 1, ..self },
                Err(e) => SetupModel { error: Some(e), ..self },
            }
        }
    }

    /// What the setup came to once there is nothing more to run.
    pub open spec fn outcome(self) -> Result<(), Seq<char>> {
        match self.error {
            Some(e) => Err(e),
            None => Ok(()),
        }
    }

    /// The commands that run when the replies come in this order.
    pub open spec fn trace(self, replies: Seq<Result<Seq<char>, Seq<char>>>) -> Seq<CommandModel>
        decreases replies.len(),
    {
        if self.next() is None || replies.len() == 0 {
            seq![]
        } else {
            seq![self.next()->0] + self.after(replies[0]).trace(replies.drop_first())
        }
    }

    /// The setup after the replies.
    pub open spec fn run(self, replies: Seq<Result<Seq<char>, Seq<char>>>) -> SetupModel
        decreases replies.len(),
    {
        if self.next() is None || replies.len() == 0 {
            self
        } else {
            self.after(replies[0]).run(replies.drop_first())
        }
    }
}

/// A setup at its start.
pub open spec fn setup_start(host: Seq<char>, ns: Seq<char>, prefix: u8) -> SetupModel {
    SetupModel {
        commands: setup_commands(host, ns, prefix),
        done: 0,
        error: None,
        cleaned: false,
    }
}

/// Starts setting up the namespace, with `host_addr` for the host's end of the
/// veth pair and `ns_addr` for the other end.
pub fn setup(host_addr: &str, ns_addr: &str, prefix: u8) -> (r: Setup)
    ensures
        r@.wf(),
        r@ == setup_start(host_addr@, ns_addr@, prefix),
{
    let p = number::decimal_of(prefix as u64);
    let host_cidr = text::cat3(host_addr, "/", p.as_str());
    let ns_cidr = text::cat3(ns_addr, "/", p.as_str());
    let c0 = command::ip(&["netns", "add", config::NETNS]);
    let c1 = command::ip(
        &["link", "add", config::VETH_HOST, "type", "veth", "peer", "name", config::VETH_NS],
    );
    let c2 = command::ip(&["link", "set", config::VETH_NS, "netns", config::NETNS]);
    let c3 = command::ip(&["addr", "add", host_cidr.as_str(), "dev", config::VETH_HOST]);
    let c4 = command::ip(&["link", "set", config::VETH_HOST, "up"]);
    let c5 = command::ns_ip(&["link", "set", "lo", "up"]);
    let c6 = command::ns_ip(&["addr", "add", ns_cidr.as_str(), "dev", config::VETH_NS]);
    let c7 = command::ns_ip(&["link", "set", config::VETH_NS, "up"]);
    let ghost expected = setup_commands(host_addr@, ns_addr@, prefix);
    proof {
        assert(c0@.args =~= expected[0].args);
        assert(c1@.args =~= expected[1].args);
        assert(c2@.args =~= expected[2].args);
        assert(c3@.args =~= expected[3].args);
        assert(c4@.args =~= expected[4].args);
        assert(c5@.args =~= expected[5].args);
        assert(c6@.args =~= expected[6].args);
        assert(c7@.args =~= expected[7].args);
    }
    let commands: Vec<Command> = vec![c0, c1, c2, c3, c4, c5, c6, c7];
    proof {
        assert(commands.deep_view() =~= expected);
    }
    Setup { commands, done: 0, error: None, cleaned: false }
}

impl Setup {
    /// The command to run next; none when the setup is over.
    pub fn next(&self) -> (r: Option<Command>)
        requires
            self@.wf(),
        ensures
            r.deep_view() == self@.next(),
    {
        if self.error.is_none() {
            if self.done < self.commands.len() {
                proof {
                    assert(self.commands.deep_view()[self.done as int]
                        == self.commands@[self.done as int]@);
                }
                Some(self.commands[self.done].copy())
            } else {
                None
            }
        } else if !self.cleaned {
            Some(cleanup_netns())
        } else {
            None
        }
    }

    /// Takes the outcome of the command that `next` gave.
    pub fn ran(&mut self, reply: Result<String, String>)
        requires
            old(self)@.wf(),
            old(self)@.next() is Some,
        ensures
            final(self)@.wf(),
            final(self)@ == old(self)@.after(command::reply_model(reply)),
    {
        if self.error.is_some() {
            self.cleaned = true;
        } else {
            match reply {
                Ok(_) => {
                    proof {
                        assert(self.commands.deep_view().len() == self.commands.len());
                    }
                    self.done += 1;
                },
                Err(e) => {
                    self.error = Some(e);
                },
            }
        }
    }

    /// What the setup came to.
    pub fn outcome(self) -> (r: Result<(), String>)
        requires
            self@.wf(),
            self@.next() is None,
        ensures
            r is Ok <==> self@.outcome() is Ok,
            r matches Err(e) ==> self@.outcome() == Err::<(), Seq<char>>(e@),
    {
        match self.error {
            Some(e) => Err(e),
            None => Ok(()),
        }
    }
}

/// A setup whose commands all succeed runs them in order and nothing else, and
/// succeeds.
pub proof fn law_setup_succeeds(start: SetupModel, replies: Seq<Result<Seq<char>, Seq<char>>>)
    requires
        start.wf(),
        start.error is None,
        replies.len() == start.commands.len() - start.done,
        forall|i: int| 0 <= i < replies.len() ==> (#[trigger] replies[i]) is Ok,
    ensures
        start.trace(replies) == start.commands.skip(start.done as int),
        start.run(replies).next() is None,
        start.run(replies).outcome() is Ok,
    decreases replies.len(),
{
    if replies.len() > 0 {
        let rest = replies.drop_first();
        assert(replies[0] is Ok);
        assert forall|i: int| 0 <= i < rest.len() implies (#[trigger] rest[i]) is Ok by {
            assert(rest[i] == replies[i + 1]);
        }
        law_setup_succeeds(start.after(replies[0]), rest);
    }
    assert(start.trace(replies) =~= start.commands.skip(start.done as int));
}

/// When a command of a setup fails, the only command that still runs is the
/// one that deletes the namespace, and the setup fails with the reason of the
/// command that failed.
pub proof fn law_setup_fails_clean(
    start: SetupModel,
    replies: Seq<Result<Seq<char>, Seq<char>>>,
    k: int,
)
    requires
        start.wf(),
        start.error is None,
        !start.cleaned,
        0 <= k < start.commands.len() - start.done,
        replies.len() == k + 2,
        forall|i: int| 0 <= i < k ==> (#[trigger] replies[i]) is Ok,
        replies[k] is Err,
    ensures
        start.trace(replies) == start.commands.subrange(
            start.done as int,
            start.done + k + 1,
        ).push(cleanup_command()),
        start.run(replies).next() is None,
        start.run(replies).outcome() == Err::<(), Seq<char>>(replies[k]->Err_0),
    decreases k,
{
    let rest = replies.drop_first();
    let next = start.after(replies[0]);
    if k > 0 {
        assert(replies[0] is Ok);
        assert forall|i: int| 0 <= i < k - 1 implies (#[trigger] rest[i]) is Ok by {
            assert(rest[i] == replies[i + 1]);
        }
        law_setup_fails_clean(next, rest, k - 1);
    } else {
        let last = rest.drop_first();
        assert(next.next() == Some(cleanup_command()));
        assert(next.after(rest[0]).trace(last) =~= Seq::<CommandModel>::empty());
        assert(next.after(rest[0]).run(last) == next.after(rest[0]));
        assert(next.trace(rest) =~= seq![cleanup_command()]);
        assert(next.run(rest) == next.after(rest[0]));
    }
    assert(start.trace(replies) =~= start.commands.subrange(
        start.done as int,
        start.done + k + 1,
    ).push(cleanup_command()));
}

} // verus!
