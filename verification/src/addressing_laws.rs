//! What holds of the addresses, the rules and the ports that are used.
use vstd::prelude::*;

use crate::config;
use crate::ipv4;
use crate::ipv4::Ipv4Addr;
use crate::netns;
use crate::netns::SetupModel;
use crate::number;
use crate::relay;
use crate::relay::PortScanModel;
use crate::routes;
use crate::routes::{HostLookupModel, RemoteScanModel, RuleChange};
use crate::subnet;
use crate::subnet::SubnetScanModel;
use crate::text;
use crate::text_laws;
use crate::tun_laws;

verus! {

// ---- the subnet ----

/// Whether a text is a number written out, with a sign or zeros in front.
pub open spec fn reads_as(t: Seq<char>, n: nat) -> bool {
    exists|plus: bool, zeros: nat| t == #[trigger] text_laws::written(plus, zeros, n)
}

/// Four numbers of at most 255 between dots are the four parts of an address,
/// in their order, and nothing else is an address.
pub proof fn law_four_numbers_are_an_address(parts: Seq<Seq<char>>, ip: Ipv4Addr)
    requires
        parts.len() > 0,
        forall|i: int, j: int|
            0 <= i < parts.len() && 0 <= j < parts[i].len() ==> (#[trigger] parts[i][j]) != '.',
    ensures
        subnet::four_octets(text::join(parts, seq!['.'])) == Some(ip) <==> parts.len() == 4
            && reads_as(parts[0], ip.a as nat) && reads_as(parts[1], ip.b as nat) && reads_as(
            parts[2],
            ip.c as nat,
        ) && reads_as(parts[3], ip.d as nat),
{
    text::law_join_splits_back(parts, '.');
    if parts.len() == 4 {
        text_laws::law_reading_numbers(parts[0], ip.a as nat, 255);
        text_laws::law_reading_numbers(parts[1], ip.b as nat, 255);
        text_laws::law_reading_numbers(parts[2], ip.c as nat, 255);
        text_laws::law_reading_numbers(parts[3], ip.d as nat, 255);
        let s = text::join(parts, seq!['.']);
        if subnet::four_octets(s) == Some(ip) {
            assert(number::unsigned(parts[0], 255) is Some);
            assert(number::unsigned(parts[1], 255) is Some);
            assert(number::unsigned(parts[2], 255) is Some);
            assert(number::unsigned(parts[3], 255) is Some);
            lemma_small(parts[0]);
            lemma_small(parts[1]);
            lemma_small(parts[2]);
            lemma_small(parts[3]);
        }
        if reads_as(parts[0], ip.a as nat) && reads_as(parts[1], ip.b as nat) && reads_as(
            parts[2],
            ip.c as nat,
        ) && reads_as(parts[3], ip.d as nat) {
            assert forall|i: int| 0 <= i < 4 implies number::unsigned(#[trigger] parts[i], 255)
                is Some by {
                assert(i == 0 || i == 1 || i == 2 || i == 3);
            }
        }
    }
}

proof fn lemma_small(t: Seq<char>)
    ensures
        number::unsigned(t, 255) matches Some(n) ==> n <= 255,
{
    if let Some(n) = number::unsigned(t, 255) {
        text_laws::law_reading_numbers(t, n, 255);
    }
}

/// The subnet of an address with a prefix of at least 30 is the one of four
/// addresses that the address lies in; a shorter prefix is refused.
pub proof fn law_configured_subnet(ip: Ipv4Addr, prefix: Seq<char>, p: nat)
    requires
        reads_as(prefix, p),
        p <= 255,
    ensures
        ({
            let r = subnet::subnet(ip.text() + seq!['/'] + prefix);
            &&& p >= 30 ==> {
                let base = r->Ok_0;
                &&& r is Ok
                &&& base.a == ip.a && base.b == ip.b && base.c == ip.c
                &&& base.d % 4 == 0 && base.d <= ip.d < base.d + 4
            }
            &&& p < 30 ==> r == Err::<Ipv4Addr, Seq<char>>(
                "subnet prefix must be >= 30 (got "@ + number::decimal(p) + ")"@,
            )
        }),
{
    let s = ip.text() + seq!['/'] + prefix;
    let n = ip.text().len();
    tun_laws::lemma_no_slash(ip, p);
    assert forall|j: int| 0 <= j < n implies s[j] != '/' by {
        assert(s[j] == ip.text()[j]);
    }
    text::lemma_before_is(s, '/', n);
    assert(s.take(n as int) =~= ip.text());
    assert(s.skip(n as int + 1) =~= prefix);
    text_laws::law_reading_numbers(prefix, p, 255);
    lemma_address_is_four_numbers(ip);
}

proof fn lemma_address_is_four_numbers(ip: Ipv4Addr)
    ensures
        subnet::four_octets(ip.text()) == Some(ip),
{
    let parts = seq![
        number::decimal(ip.a as nat),
        number::decimal(ip.b as nat),
        number::decimal(ip.c as nat),
        number::decimal(ip.d as nat),
    ];
    text_laws::law_dotted_texts(ip.text(), ip);
    assert forall|i: int, j: int| 0 <= i < parts.len() && 0 <= j < parts[i].len() implies (
    #[trigger] parts[i][j]) != '.' by {
        number::law_decimal_reads_back(ip.a as nat);
        number::law_decimal_reads_back(ip.b as nat);
        number::law_decimal_reads_back(ip.c as nat);
        number::law_decimal_reads_back(ip.d as nat);
        assert(number::is_digit(parts[i][j]));
    }
    lemma_plain(ip.a as nat);
    lemma_plain(ip.b as nat);
    lemma_plain(ip.c as nat);
    lemma_plain(ip.d as nat);
    law_four_numbers_are_an_address(parts, ip);
}

proof fn lemma_plain(n: nat)
    ensures
        reads_as(number::decimal(n), n),
{
    assert(text_laws::written(false, 0, n) =~= number::decimal(n));
}

/// What is no subnet is refused, with the reason: a text without a slash, one
/// whose part behind the first slash is no number of at most 255, and one
/// whose part in front of it is no address.
pub proof fn law_refused_subnets(net: Seq<char>, prefix: Seq<char>, p: nat)
    requires
        forall|i: int| 0 <= i < net.len() ==> net[i] != '/',
        30 <= p <= 255,
    ensures
        subnet::subnet(net) == Err::<Ipv4Addr, Seq<char>>("subnet must be a.b.c.d/30"@),
        (forall|n: nat| n <= 255 ==> !#[trigger] reads_as(prefix, n)) ==> subnet::subnet(
            net + seq!['/'] + prefix,
        ) == Err::<Ipv4Addr, Seq<char>>("bad subnet prefix in "@ + (net + seq!['/'] + prefix)),
        reads_as(prefix, p) && subnet::four_octets(net) is None ==> subnet::subnet(
            net + seq!['/'] + prefix,
        ) == Err::<Ipv4Addr, Seq<char>>("bad subnet "@ + (net + seq!['/'] + prefix)),
{
    text::lemma_before_is(net, '/', net.len());
    let s = net + seq!['/'] + prefix;
    text::lemma_before_is(s, '/', net.len());
    assert(s.take(net.len() as int) =~= net);
    assert(s.skip(net.len() as int + 1) =~= prefix);
    text_laws::law_reading_numbers(prefix, p, 255);
    if let Some(n) = number::unsigned(prefix, 255) {
        text_laws::law_reading_numbers(prefix, n, 255);
        assert(reads_as(prefix, n));
    }
}

/// The subnets that are tried: the configured one, and then 10.200.x.0 for
/// every x, each once, from 200 on and round the end.
pub proof fn law_subnets_tried(configured: Ipv4Addr, i: int, j: int)
    ensures
        ({
            let all = subnet::bases(configured);
            &&& all.len() == 257
            &&& all[0] == configured
            &&& all[1].c == 200
            &&& 1 <= i < 257 ==> all[i].a == 10 && all[i].b == 200 && all[i].d == 0
            &&& 1 <= i < 256 ==> all[i + 1].c == (all[i].c + 1) % 256
            &&& 1 <= i < j < 257 ==> all[i] != all[j]
        }),
{
}

/// Of each subnet the first address behind its base is asked about. One that
/// is in use is passed over; a free one ends the search, and then the host gets
/// that address and the namespace the one behind it.
pub proof fn law_subnet_is_searched(s: SubnetScanModel)
    requires
        s.wf(),
    ensures
        s.probe() is Some <==> !s.free && s.tried < s.bases.len(),
        s.probe() matches Some(ip) ==> {
            let base = s.bases[s.tried as int];
            ip.a == base.a && ip.b == base.b && ip.c == base.c && ip.d == base.d + 1
        },
        s.after(true) == (SubnetScanModel { tried: s.tried + 1, ..s }),
        s.after(false) == (SubnetScanModel { free: true, ..s }),
        s.free ==> {
            let base = s.bases[s.tried as int];
            s.choice() == Ok::<(Seq<char>, Seq<char>, u8), Seq<char>>(
                (
                    Ipv4Addr { a: base.a, b: base.b, c: base.c, d: (base.d + 1) as u8 }.text(),
                    Ipv4Addr { a: base.a, b: base.b, c: base.c, d: (base.d + 2) as u8 }.text(),
                    30u8,
                ),
            )
        },
        !s.free ==> s.choice() == Err::<(Seq<char>, Seq<char>, u8), Seq<char>>(
            "no free subnet found (10.200.0.0/16 busy?)"@,
        ),
{
    if s.probe() is Some || s.free {
        assert(s.bases[s.tried as int].d % 4 == 0);
    }
}

/// Whether an address is in use is asked of `ip` for that address alone. It is
/// in use if the reply says anything, or if there is none.
pub proof fn law_address_in_use(addr: Seq<char>, reply: Result<Seq<char>, Seq<char>>)
    ensures
        subnet::probe_command(addr).args == seq![
            "-4"@,
            "addr"@,
            "show"@,
            "to"@,
            addr + seq!['/', '3', '2'],
        ],
        reply is Err ==> subnet::in_use(reply),
        reply matches Ok(out) ==> (subnet::in_use(reply) <==> exists|i: int|
            0 <= i < out.len() && !text::white_space(#[trigger] out[i])),
{
    reveal_strlit("/32");
    assert("/32"@ =~= seq!['/', '3', '2']);
    if let Ok(out) = reply {
        lemma_trimmed_to_nothing(out);
    }
}

proof fn lemma_trimmed_to_nothing(s: Seq<char>)
    ensures
        text::trim(s).len() > 0 <==> exists|i: int|
            0 <= i < s.len() && !text::white_space(#[trigger] s[i]),
    decreases s.len(),
{
    if s.len() > 0 && text::white_space(s[0]) {
        let rest = s.drop_first();
        lemma_trimmed_to_nothing(rest);
        if exists|i: int| 0 <= i < s.len() && !text::white_space(#[trigger] s[i]) {
            let i = choose|i: int| 0 <= i < s.len() && !text::white_space(#[trigger] s[i]);
            assert(rest[i - 1] == s[i]);
        }
        if exists|i: int| 0 <= i < rest.len() && !text::white_space(#[trigger] rest[i]) {
            let i = choose|i: int| 0 <= i < rest.len() && !text::white_space(#[trigger] rest[i]);
            assert(s[i + 1] == rest[i]);
        }
    } else if s.len() > 0 {
        assert(!text::white_space(s[0]));
        lemma_trim_end_keeps(s);
    }
}

proof fn lemma_trim_end_keeps(s: Seq<char>)
    requires
        s.len() > 0,
        !text::white_space(s[0]),
    ensures
        text::trim_end(s).len() > 0,
    decreases s.len(),
{
    if text::white_space(s.last()) {
        assert(s.drop_last()[0] == s[0]);
        lemma_trim_end_keeps(s.drop_last());
    }
}

// ---- the namespace ----

/// The commands that set up the namespace: the namespace, the veth pair, one
/// end of which is moved, and the addresses with their prefix; and each end is
/// brought up.
pub proof fn law_setup_commands(host: Ipv4Addr, ns: Ipv4Addr, prefix: u8)
    ensures
        ({
            let all = netns::setup_commands(host.text(), ns.text(), prefix);
            let inside = seq!["netns"@, "exec"@, "kitvpn"@, "ip"@];
            let p = seq!['/'] + number::decimal(prefix as nat);
            &&& all.len() == 8
            &&& all[0].args == seq!["netns"@, "add"@, "kitvpn"@]
            &&& all[1].args == seq![
                "link"@, "add"@, "kitvpn0"@, "type"@, "veth"@, "peer"@, "name"@, "kitvpn1"@
            ]
            &&& all[2].args == seq!["link"@, "set"@, "kitvpn1"@, "netns"@, "kitvpn"@]
            &&& all[3].args == seq!["addr"@, "add"@, host.text() + p, "dev"@, "kitvpn0"@]
            &&& all[4].args == seq!["link"@, "set"@, "kitvpn0"@, "up"@]
            &&& all[5].args == inside + seq!["link"@, "set"@, "lo"@, "up"@]
            &&& all[6].args == inside + seq!["addr"@, "add"@, ns.text() + p, "dev"@, "kitvpn1"@]
            &&& all[7].args == inside + seq!["link"@, "set"@, "kitvpn1"@, "up"@]
        }),
{
    reveal_strlit("/");
    let p = seq!['/'] + number::decimal(prefix as nat);
    assert(netns::cidr(host.text(), prefix) =~= host.text() + p);
    assert(netns::cidr(ns.text(), prefix) =~= ns.text() + p);
}

/// The steps of a setup: each command in its turn while all succeed; after the
/// first failure, once, the command that deletes the namespace. The outcome is
/// the reason of that failure, if there was one.
pub proof fn law_setup_steps(s: SetupModel, reply: Result<Seq<char>, Seq<char>>)
    requires
        s.wf(),
    ensures
        s.error is None && s.done < s.commands.len() ==> s.next() == Some(
            s.commands[s.done as int],
        ),
        s.error is None && s.done == s.commands.len() ==> s.next() is None,
        s.error is Some && !s.cleaned ==> s.next() is Some && (s.next()->0).args == seq![
            "netns"@,
            "del"@,
            "kitvpn"@,
        ],
        s.error is Some && s.cleaned ==> s.next() is None,
        s.error is None && reply is Ok ==> s.after(reply) == (SetupModel {
            done: s.done + 1,
            ..s
        }),
        s.error is None && reply is Err ==> s.after(reply) == (SetupModel {
            error: Some(reply->Err_0),
            ..s
        }),
        s.error is Some ==> s.after(reply) == (SetupModel { cleaned: true, ..s }),
        s.outcome() is Err <==> s.error is Some,
        s.error matches Some(e) ==> s.outcome() == Err::<(), Seq<char>>(e),
{
}

/// The single commands on the namespace and the tunnel device.
pub proof fn law_single_commands()
    ensures
        netns::cleanup_command().args == seq!["netns"@, "del"@, "kitvpn"@],
        netns::default_route_command().args == seq![
            "netns"@, "exec"@, "kitvpn"@, "ip"@, "route"@, "replace"@, "default"@, "dev"@,
            "kitvpn-tun"@
        ],
        netns::host_tun_command().args == seq!["-4"@, "addr"@, "show"@, "dev"@, "kitvpn-tun"@],
        netns::ns_tun_addr_command().args == seq![
            "netns"@, "exec"@, "kitvpn"@, "ip"@, "-4"@, "addr"@, "show"@, "dev"@, "kitvpn-tun"@
        ],
        netns::ns_tun_command().args == seq![
            "netns"@, "exec"@, "kitvpn"@, "ip"@, "link"@, "show"@, "kitvpn-tun"@
        ],
        netns::ns_path_model() == "/var/run/netns/"@ + "kitvpn"@,
{
    assert(netns::default_route_command().args =~= seq![
        "netns"@, "exec"@, "kitvpn"@, "ip"@, "route"@, "replace"@, "default"@, "dev"@,
        "kitvpn-tun"@
    ]);
    assert(netns::ns_tun_addr_command().args =~= seq![
        "netns"@, "exec"@, "kitvpn"@, "ip"@, "-4"@, "addr"@, "show"@, "dev"@, "kitvpn-tun"@
    ]);
    assert(netns::ns_tun_command().args =~= seq![
        "netns"@, "exec"@, "kitvpn"@, "ip"@, "link"@, "show"@, "kitvpn-tun"@
    ]);
}

// ---- the rules ----

/// How the address of a server is found: a dotted address is known as it
/// stands; of any other text with a colon there is none; and for every other
/// name the resolver is asked.
pub proof fn law_how_a_host_is_found(host: Seq<char>, ip: Ipv4Addr)
    ensures
        routes::lookup_of(ip.text()) == HostLookupModel::Known(ip.text()),
        (forall|other: Ipv4Addr| host != #[trigger] other.text()) ==> routes::lookup_of(host) == (
        if exists|i: int| 0 <= i < host.len() && #[trigger] host[i] == ':' {
            HostLookupModel::Nothing
        } else {
            HostLookupModel::Ask(host)
        }),
{
    ipv4::law_address_reads_back(ip);
    if forall|other: Ipv4Addr| host != #[trigger] other.text() {
        if let Some(other) = ipv4::dotted(host) {
            text_laws::law_dotted_texts(host, other);
        }
        reveal_strlit(":");
        if text::contains(host, ":"@) {
            let i = choose|i: int| text::occurs_at(host, ":"@, i);
            assert(host.subrange(i, i + 1)[0] == ':');
            assert(host[i] == ':');
        }
        if exists|i: int| 0 <= i < host.len() && #[trigger] host[i] == ':' {
            let i = choose|i: int| 0 <= i < host.len() && #[trigger] host[i] == ':';
            assert(host.subrange(i, i + 1) =~= ":"@);
            assert(text::occurs_at(host, ":"@, i));
        }
    }
}

/// The addresses of several servers are found one after the other, in their
/// order; an address is noted at the end unless it is among those noted.
pub proof fn law_servers_are_found(s: RemoteScanModel, ip: Option<Seq<char>>)
    requires
        s.wf(),
    ensures
        s.done < s.hosts.len() ==> s.next() == Some(routes::lookup_of(s.hosts[s.done as int])),
        s.done == s.hosts.len() ==> s.next() is None,
        s.after(ip).hosts == s.hosts,
        s.after(ip).done == s.done + 1,
        ip is None ==> s.after(ip).ips == s.ips,
        ip is Some && s.ips.contains(ip->0) ==> s.after(ip).ips == s.ips,
        ip is Some && !s.ips.contains(ip->0) ==> s.after(ip).ips == s.ips + seq![ip->0],
{
    if ip is Some && !s.ips.contains(ip->0) {
        assert(s.ips.push(ip->0) =~= s.ips + seq![ip->0]);
    }
}

/// The hosts of servers are their names, in their order.
pub proof fn law_hosts_of_servers(remotes: Seq<(Seq<char>, u16)>)
    ensures
        routes::hosts_of(remotes).len() == remotes.len(),
        forall|i: int|
            0 <= i < remotes.len() ==> #[trigger] routes::hosts_of(remotes)[i] == remotes[i].0,
{
}

/// The rule for a server sends what goes to its address alone through the main
/// table, and there is one for each server, in their order.
pub proof fn law_rules(change: RuleChange, ips: Seq<Seq<char>>, i: int)
    requires
        0 <= i < ips.len(),
    ensures
        routes::rule_commands(change, ips).len() == ips.len(),
        routes::rule_commands(change, ips)[i].args == seq![
            "rule"@,
            if change is Add {
                "add"@
            } else {
                "del"@
            },
            "pref"@,
            "5000"@,
            "to"@,
            ips[i] + seq!['/', '3', '2'],
            "lookup"@,
            "main"@,
        ],
{
    reveal_strlit("/32");
    assert("/32"@ =~= seq!['/', '3', '2']);
}

// ---- the port ----

/// The ports that are tried: twenty from the given one on, each the one behind
/// the one before, as far as there are so many.
pub proof fn law_ports_tried(port: u16, i: int)
    ensures
        ({
            let all = relay::ports_from(port);
            &&& all.len() > 0 && all[0] == port
            &&& all.len() <= 20
            &&& all.len() < 20 ==> all.last() == 65535
            &&& 0 <= i < all.len() ==> all[i] == port + i
        }),
{
}

/// Each port is tried in its turn; one that is taken is passed over, and the
/// first free one is the one that was found.
pub proof fn law_port_is_searched(s: PortScanModel)
    requires
        s.wf(),
    ensures
        !s.free && s.tried < s.ports.len() ==> s.next() == Some(s.ports[s.tried as int]),
        s.free || s.tried == s.ports.len() ==> s.next() is None,
        s.after(false) == (PortScanModel { tried: s.tried + 1, ..s }),
        s.after(true) == (PortScanModel { free: true, ..s }),
        s.free ==> s.found() == Some(s.ports[s.tried as int]),
        !s.free ==> s.found() is None,
{
}

/// The address that something listens on is a host, a colon and a port.
pub proof fn law_listening_address(host: Seq<char>, port: u16)
    ensures
        relay::address_model(host, port) == host + seq![':'] + number::decimal(port as nat),
{
    reveal_strlit(":");
    assert(":"@ =~= seq![':']);
}

// ---- the starts ----

/// Every search and the setup begin with nothing tried and nothing found: with
/// the subnets, the servers of the OpenVPN file, the ports and the commands
/// that they are given.
pub proof fn law_starts(
    configured: Ipv4Addr,
    ovpn: Seq<char>,
    port: u16,
    host: Seq<char>,
    ns: Seq<char>,
    prefix: u8,
)
    ensures
        subnet::scan_from(configured) == (SubnetScanModel {
            bases: subnet::bases(configured),
            tried: 0,
            free: false,
        }),
        routes::scan_for(ovpn) == (RemoteScanModel {
            hosts: routes::hosts_of(config::remotes_on(text::lines(ovpn))),
            done: 0,
            ips: Seq::<Seq<char>>::empty(),
        }),
        relay::scan_from(port) == (PortScanModel {
            ports: relay::ports_from(port),
            tried: 0,
            free: false,
        }),
        netns::setup_start(host, ns, prefix) == (SetupModel {
            commands: netns::setup_commands(host, ns, prefix),
            done: 0,
            error: None,
            cleaned: false,
        }),
{
}

/// A device has an address if the reply holds `inet `, and is up if it holds
/// `LOWER_UP`; a command that failed tells of neither.
pub proof fn law_what_replies_say(out: Seq<char>, e: Seq<char>)
    ensures
        netns::addressed(Ok(out)) <==> text::contains(out, "inet "@),
        netns::up(Ok(out)) <==> text::contains(out, "LOWER_UP"@),
        !netns::addressed(Err(e)),
        !netns::up(Err(e)),
{
}

} // verus!
