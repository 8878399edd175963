//! What is promised of the routes: the host keeps its own, and the namespace
//! has none but the one through the tunnel.
use vstd::prelude::*;

use crate::command::CommandModel;
use crate::config;
use crate::netns;
use crate::routes;
use crate::routes::RuleChange;
use crate::supervisor::SupervisorModel;
use crate::tun::MoveTunModel;

verus! {

/// Whether a command changes or shows routes of the host.
pub open spec fn on_host_routes(c: CommandModel) -> bool {
    c.args.len() > 0 && c.args[0] == "route"@
}

/// Whether a command changes or shows routes of the namespace.
pub open spec fn on_namespace_routes(c: CommandModel) -> bool {
    c.args.len() > 4 && c.args[0] == "netns"@ && c.args[1] == "exec"@
        && c.args[4] == "route"@
}

/// The command that removes what routes go through the tunnel device.
pub open spec fn flushes_tunnel(c: CommandModel) -> bool {
    c.args == seq!["route"@, "flush"@, "dev"@, config::TUN_DEV@]
}

/// Setting up the namespace gives neither the host nor the namespace a route:
/// until the tunnel is up, nothing gets out of the namespace.
pub proof fn law_setup_adds_no_route(host: Seq<char>, ns: Seq<char>, prefix: u8, i: int)
    requires
        0 <= i < netns::setup_commands(host, ns, prefix).len(),
    ensures
        !on_host_routes(netns::setup_commands(host, ns, prefix)[i]),
        !on_namespace_routes(netns::setup_commands(host, ns, prefix)[i]),
{
    lemma_words();
    let commands = netns::setup_commands(host, ns, prefix);
    assert(i == 0 || i == 1 || i == 2 || i == 3 || i == 4 || i == 5 || i == 6 || i == 7);
    assert(commands[0].args[0] == "netns"@ && commands[0].args.len() == 3);
    assert(commands[5].args[4] == "link"@);
    assert(commands[6].args[4] == "addr"@);
    assert(commands[7].args[4] == "link"@);
}

/// Moving the tunnel device touches the routes of the host only to remove
/// those through the device, and not those of the namespace.
pub proof fn law_move_keeps_routes(m: MoveTunModel)
    requires
        m.wf(),
        m.next() is Some,
    ensures
        on_host_routes(m.next()->0) ==> flushes_tunnel(m.next()->0),
        !on_namespace_routes(m.next()->0),
{
    lemma_words();
    let c = m.next()->0;
    if c.args.len() > 4 && c.args[0] == "netns"@ {
        assert(c.args[4] == "link"@ || c.args[4] == "-4"@ || c.args[4] == "addr"@);
    }
}

/// The supervisor never touches the routes of the host, and the one route that
/// it gives the namespace is the default one through the tunnel device.
pub proof fn law_supervisor_keeps_host_routes(s: SupervisorModel)
    requires
        s.next() is Run,
    ensures
        !on_host_routes(s.next()->Run_0),
        on_namespace_routes(s.next()->Run_0) ==> s.next()->Run_0
            == netns::default_route_command(),
        netns::default_route_command().args.last() == config::TUN_DEV@,
{
    lemma_words();
    let c = s.next()->Run_0;
    assert(netns::ns_tun_command().args[4] == "link"@);
    assert(netns::ns_tun_command().args[0] == "netns"@);
    assert(netns::default_route_command().args[0] == "netns"@);
    assert(netns::cleanup_command().args[0] == "netns"@);
    assert(netns::host_tun_command().args[0] == "-4"@);
    assert(netns::cleanup_command().args.len() == 3);
    assert(c == netns::host_tun_command() || c == netns::ns_tun_command() || c
        == netns::default_route_command() || c == netns::cleanup_command());
}

/// The rules for the servers are policy rules, not routes.
pub proof fn law_rules_are_no_routes(change: RuleChange, ip: Seq<char>)
    ensures
        !on_host_routes(routes::rule_command(change, ip)),
        !on_namespace_routes(routes::rule_command(change, ip)),
{
    lemma_words();
}

/// The words that tell the commands apart.
proof fn lemma_words()
    ensures
        "route"@ != "netns"@,
        "route"@ != "link"@,
        "route"@ != "addr"@,
        "route"@ != "rule"@,
        "route"@ != "-4"@,
        "netns"@ != "link"@,
        "netns"@ != "addr"@,
        "netns"@ != "rule"@,
        "netns"@ != "-4"@,
{
    reveal_strlit("route");
    reveal_strlit("netns");
    reveal_strlit("link");
    reveal_strlit("addr");
    reveal_strlit("rule");
    reveal_strlit("-4");
    assert("route"@[0] == 'r' && "netns"@[0] == 'n');
    assert("route"@.len() == 5 && "netns"@.len() == 5 && "link"@.len() == 4 && "addr"@.len() == 4
        && "rule"@.len() == 4 && "-4"@.len() == 2);
}

} // verus!
