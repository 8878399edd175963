//! Routing the connection to the OpenVPN servers around any other VPN of the
//! host: a rule for each server address that consults the `main` table.
use vstd::prelude::*;

use crate::command;
use crate::command::{Command, CommandModel};
use crate::config;
use crate::ipv4;
use crate::ipv4::Ipv4Addr;
use crate::text;

verus! {

/// How the address of a host is found.
#[derive(Debug)]
pub enum HostLookup {
    /// The host is an address.
    Known(String),
    /// The host cannot have an IPv4 address: it is an IPv6 address.
    Nothing,
    /// The resolver of the host has to be asked for this name.
    Ask(String),
}

/// What a lookup amounts to.
pub enum HostLookupModel {
    Known(Seq<char>),
    Nothing,
    Ask(Seq<char>),
}

impl View for HostLookup {
    type V = HostLookupModel;

    open spec fn view(&self) -> HostLookupModel {
        match self {
            HostLookup::Known(ip) => HostLookupModel::Known(ip@),
            HostLookup::Nothing => HostLookupModel::Nothing,
            HostLookup::Ask(name) => HostLookupModel::Ask(name@),
        }
    }
}

impl DeepView for HostLookup {
    type V = HostLookupModel;

    open spec fn deep_view(&self) -> HostLookupModel {
        self@
    }
}

/// How the address of `host` is found.
pub open spec fn lookup_of(host: Seq<char>) -> HostLookupModel {
    match ipv4::dotted(host) {
        Some(ip) => HostLookupModel::Known(ip.text()),
        None => if text::contains(host, ":"@) {
            HostLookupModel::Nothing
        } else {
            HostLookupModel::Ask(host)
        },
    }
}

/// The first IPv4 address among the addresses that the resolver gave.
pub open spec fn resolved(addrs: Seq<Seq<char>>) -> Option<Seq<char>>
    decreases addrs.len(),
{
    if addrs.len() == 0 {
        None
    } else {
        match ipv4::dotted(addrs[0]) {
            Some(ip) => Some(ip.text()),
            None => resolved(addrs.drop_first()),
        }
    }
}

/// How one IPv4 address of `host` is found.
pub fn host_to_ip(host: &str) -> (r: HostLookup)
    ensures
        r@ == lookup_of(host@),
{
    if let Some(ip) = Ipv4Addr::from_text(host) {
        return HostLookup::Known(ip.to_text());
    }
    if text::has(host, ":") {
        return HostLookup::Nothing;
    }
    HostLookup::Ask(host.to_owned())
}

/// The first IPv4 address among the addresses that the resolver gave; none for
/// a name that has no address, or none but IPv6 ones.
pub fn resolved_ip(addrs: &Vec<String>) -> (r: Option<String>)
    ensures
        r.deep_view() == resolved(addrs.deep_view()),
{
    let ghost all = addrs.deep_view();
    let mut i: usize = 0;
    proof {
        assert(all.skip(0) =~= all);
    }
    while i < addrs.len()
        invariant
            i <= addrs@.len(),
            all == addrs.deep_view(),
            resolved(all) == resolved(all.skip(i as int)),
        decreases addrs@.len() - i,
    {
        proof {
            assert(all.skip(i as int)[0] == addrs@[i as int]@);
            assert(all.skip(i as int).drop_first() =~= all.skip(i + 1));
        }
        if let Some(ip) = Ipv4Addr::from_text(addrs[i].as_str()) {
            return Some(ip.to_text());
        }
        i += 1;
    }
    None
}

/// The addresses with one more, unless it is there already.
pub open spec fn with_ip(ips: Seq<Seq<char>>, ip: Option<Seq<char>>) -> Seq<Seq<char>> {
    match ip {
        Some(ip) => if ips.contains(ip) {
            ips
        } else {
            ips.push(ip)
        },
        None => ips,
    }
}

/// The addresses that were found, each once, in the order in which they were
/// found first.
pub open spec fn distinct(found: Seq<Option<Seq<char>>>) -> Seq<Seq<char>>
    decreases found.len(),
{
    if found.len() == 0 {
        seq![]
    } else {
        with_ip(distinct(found.drop_last()), found.last())
    }
}

/// Finding the addresses of the servers that an OpenVPN file names: the hosts,
/// how many of them have been looked up, and what was found.
pub struct RemoteScan {
    hosts: Vec<String>,
    done: usize,
    ips: Vec<String>,
}

/// What a scan amounts to.
pub struct RemoteScanModel {
    pub hosts: Seq<Seq<char>>,
    pub done: nat,
    pub ips: Seq<Seq<char>>,
}

impl View for RemoteScan {
    type V = RemoteScanModel;

    closed spec fn view(&self) -> RemoteScanModel {
        RemoteScanModel {
            hosts: self.hosts.deep_view(),
            done: self.done as nat,
            ips: self.ips.deep_view(),
        }
    }
}

impl RemoteScanModel {
    pub open spec fn wf(self) -> bool {
        self.done <= self.hosts.len()
    }

    /// How the address of the next host is found.
    pub open spec fn next(self) -> Option<HostLookupModel> {
        if self.done < self.hosts.len() {
            Some(lookup_of(self.hosts[self.done as int]))
        } else {
            None
        }
    }

    /// The scan after the next host was looked up.
    pub open spec fn after(self, ip: Option<Seq<char>>) -> RemoteScanModel {
        RemoteScanModel { done: self.done + 1, ips: with_ip(self.ips, ip), ..self }
    }

    /// The scan after as many lookups as there are results.
    pub open spec fn run(self, found: Seq<Option<Seq<char>>>) -> RemoteScanModel
        decreases found.len(),
    {
        if self.next() is None || found.len() == 0 {
            self
        } else {
            self.after(found[0]).run(found.drop_first())
        }
    }
}

/// The hosts of servers.
pub open spec fn hosts_of(remotes: Seq<(Seq<char>, u16)>) -> Seq<Seq<char>> {
    remotes.map_values(|remote: (Seq<char>, u16)| remote.0)
}

/// A search for the addresses of the servers of an OpenVPN file at its start.
pub open spec fn scan_for(ovpn: Seq<char>) -> RemoteScanModel {
    RemoteScanModel {
        hosts: hosts_of(config::remotes_on(text::lines(ovpn))),
        done: 0,
        ips: seq![],
    }
}

/// Starts finding the IPv4 addresses of the servers that an OpenVPN file
/// names.
pub fn remote_v4_ips(ovpn: &str) -> (r: RemoteScan)
    ensures
        r@.wf(),
        r@ == scan_for(ovpn@),
{
    let remotes = config::parse_remotes(ovpn);
    let ghost model = config::remotes_on(text::lines(ovpn@));
    let mut hosts: Vec<String> = Vec::new();
    let mut i: usize = 0;
    while i < remotes.len()
        invariant
            i <= remotes@.len(),
            remotes.deep_view() == model,
            hosts@.len() == i,
            forall|j: int| 0 <= j < i ==> (#[trigger] hosts@[j])@ == model[j].0,
        decreases remotes@.len() - i,
    {
        proof {
            assert(model[i as int] == remotes@[i as int].deep_view());
        }
        hosts.push(remotes[i].0.clone());
        i += 1;
    }
    let ips: Vec<String> = Vec::new();
    proof {
        assert(hosts.deep_view() =~= hosts_of(model));
        assert(ips.deep_view() =~= Seq::<Seq<char>>::empty());
    }
    RemoteScan { hosts, done: 0, ips }
}

impl RemoteScan {
    /// How the address of the next host is found; none when all hosts have
    /// been looked up.
    pub fn next(&self) -> (r: Option<HostLookup>)
        requires
            self@.wf(),
        ensures
            r.deep_view() == self@.next(),
    {
        if self.done < self.hosts.len() {
            proof {
                assert(self.hosts.deep_view()[self.done as int] == self.hosts@[self.done as int]@);
            }
            Some(host_to_ip(self.hosts[self.done].as_str()))
        } else {
            None
        }
    }

    /// Takes the address of the next host.
    pub fn record(&mut self, ip: Option<String>)
        requires
            old(self)@.wf(),
            old(self)@.next() is Some,
        ensures
            final(self)@.wf(),
            final(self)@ == old(self)@.after(ip.deep_view()),
    {
        proof {
            assert(self.hosts.deep_view().len() == self.hosts.len());
        }
        self.done += 1;
        if let Some(ip) = ip {
            if !text::among(&self.ips, ip.as_str()) {
                let ghost before = self.ips.deep_view();
                self.ips.push(ip);
                proof {
                    assert(self.ips.deep_view() =~= before.push(ip@));
                }
            }
        }
    }

    /// The addresses that were found.
    pub fn ips(self) -> (r: Vec<String>)
        requires
            self@.wf(),
            self@.next() is None,
        ensures
            r.deep_view() == self@.ips,
    {
        self.ips
    }
}

/// What is done to the rule for a server.
#[derive(Clone, Copy, Debug, PartialEq, Eq, Structural)]
pub enum RuleChange {
    Add,
    Del,
}

/// The command that adds or deletes the rule for a server.
pub open spec fn rule_command(change: RuleChange, ip: Seq<char>) -> CommandModel {
    let verb = match change {
        RuleChange::Add => "add"@,
        RuleChange::Del => "del"@,
    };
    command::ip_model(
        seq!["rule"@, verb, "pref"@, "5000"@, "to"@, ip + "/32"@, "lookup"@, "main"@],
    )
}

/// The commands that change the rules of these servers, one for each.
pub open spec fn rule_commands(change: RuleChange, ips: Seq<Seq<char>>) -> Seq<CommandModel> {
    ips.map_values(|ip: Seq<char>| rule_command(change, ip))
}

fn change_rules(change: RuleChange, ips: &Vec<String>) -> (r: Vec<Command>)
    ensures
        r.deep_view() == rule_commands(change, ips.deep_view()),
{
    let ghost all = ips.deep_view();
    let verb = match change {
        RuleChange::Add => "add",
        RuleChange::Del => "del",
    };
    let mut out: Vec<Command> = Vec::new();
    let mut i: usize = 0;
    while i < ips.len()
        invariant
            i <= ips@.len(),
            all == ips.deep_view(),
            verb@ == (match change {
                RuleChange::Add => "add"@,
                RuleChange::Del => "del"@,
            }),
            out@.len() == i,
            forall|j: int| 0 <= j < i ==> (#[trigger] out@[j])@ == rule_command(change, all[j]),
        decreases ips@.len() - i,
    {
        let addr = text::cat(ips[i].as_str(), "/32");
        let c = command::ip(
            &["rule", verb, "pref", "5000", "to", addr.as_str(), "lookup", "main"],
        );
        proof {
            assert(all[i as int] == ips@[i as int]@);
            assert(c@.args =~= rule_command(change, all[i as int]).args);
        }
        out.push(c);
        i += 1;
    }
    proof {
        assert(out.deep_view() =~= rule_commands(change, all));
    }
    out
}

/// Routes the connection to these servers directly. The outcomes of the
/// commands do not depend on each other.
pub fn add_direct_rules(ips: &Vec<String>) -> (r: Vec<Command>)
    ensures
        r.deep_view() == rule_commands(RuleChange::Add, ips.deep_view()),
{
    change_rules(RuleChange::Add, ips)
}

/// Removes the rules that `add_direct_rules` added.
pub fn remove_direct_rules(ips: &Vec<String>) -> (r: Vec<Command>)
    ensures
        r.deep_view() == rule_commands(RuleChange::Del, ips.deep_view()),
{
    change_rules(RuleChange::Del, ips)
}

/// Every rule that is added for some servers is deleted again for them, and no
/// other: the commands agree in everything but the verb.
pub proof fn law_rules_are_removed(ips: Seq<Seq<char>>)
    ensures
        ({
            let added = rule_commands(RuleChange::Add, ips);
            let removed = rule_commands(RuleChange::Del, ips);
            &&& added.len() == ips.len() && removed.len() == ips.len()
            &&& forall|i: int|
                0 <= i < ips.len() ==> (#[trigger] added[i]).args == removed[i].args.update(
                    1,
                    "add"@,
                ) && removed[i].args == added[i].args.update(1, "del"@)
        }),
{
    let added = rule_commands(RuleChange::Add, ips);
    let removed = rule_commands(RuleChange::Del, ips);
    assert forall|i: int| 0 <= i < ips.len() implies (#[trigger] added[i]).args
        == removed[i].args.update(1, "add"@) && removed[i].args == added[i].args.update(
        1,
        "del"@,
    ) by {
        assert(added[i].args =~= removed[i].args.update(1, "add"@));
        assert(removed[i].args =~= added[i].args.update(1, "del"@));
    }
}

/// A rule is for one address only, and consults the main table.
pub proof fn law_rule_is_for_one_address(change: RuleChange, ip: Seq<char>)
    ensures
        rule_command(change, ip).args[5] == ip + "/32"@,
        rule_command(change, ip).args[7] == "main"@,
{
}

/// Whatever addresses the resolver gives, the one that is taken is an IPv4
/// address, and the first of them that is.
pub proof fn law_resolved_is_the_first_ipv4(addrs: Seq<Seq<char>>, k: int)
    requires
        0 <= k < addrs.len(),
        ipv4::dotted(addrs[k]) is Some,
        forall|i: int| 0 <= i < k ==> ipv4::dotted(#[trigger] addrs[i]) is None,
    ensures
        resolved(addrs) == Some((ipv4::dotted(addrs[k])->0).text()),
        ipv4::dotted((ipv4::dotted(addrs[k])->0).text()) == ipv4::dotted(addrs[k]),
    decreases k,
{
    ipv4::law_address_reads_back(ipv4::dotted(addrs[k])->0);
    if k > 0 {
        let rest = addrs.drop_first();
        assert(ipv4::dotted(addrs[0]) is None);
        assert forall|i: int| 0 <= i < k - 1 implies ipv4::dotted(#[trigger] rest[i]) is None by {
            assert(rest[i] == addrs[i + 1]);
        }
        law_resolved_is_the_first_ipv4(rest, k - 1);
    }
}

/// A name that has no IPv4 address is not resolved.
pub proof fn law_no_ipv4_is_not_resolved(addrs: Seq<Seq<char>>)
    requires
        forall|i: int| 0 <= i < addrs.len() ==> ipv4::dotted(#[trigger] addrs[i]) is None,
    ensures
        resolved(addrs) is None,
    decreases addrs.len(),
{
    if addrs.len() > 0 {
        let rest = addrs.drop_first();
        assert(ipv4::dotted(addrs[0]) is None);
        assert forall|i: int| 0 <= i < rest.len() implies ipv4::dotted(#[trigger] rest[i]) is None by {
            assert(rest[i] == addrs[i + 1]);
        }
        law_no_ipv4_is_not_resolved(rest);
    }
}

/// The addresses of a scan are those that were found, each once.
pub proof fn law_remote_ips_are_distinct(found: Seq<Option<Seq<char>>>)
    ensures
        distinct(found).no_duplicates(),
        forall|ip: Seq<char>| #[trigger]
            distinct(found).contains(ip) <==> found.contains(Some(ip)),
    decreases found.len(),
{
    if found.len() > 0 {
        let rest = found.drop_last();
        law_remote_ips_are_distinct(rest);
        let before = distinct(rest);
        let all = distinct(found);
        assert forall|ip: Seq<char>| #[trigger] all.contains(ip) <==> found.contains(
            Some(ip),
        ) by {
            if found.contains(Some(ip)) {
                let k = choose|k: int| 0 <= k < found.len() && found[k] == Some(ip);
                if k < rest.len() {
                    assert(rest[k] == Some(ip));
                    assert(before.contains(ip));
                    let j = choose|j: int| 0 <= j < before.len() && before[j] == ip;
                    assert(all[j] == ip);
                } else if !before.contains(ip) {
                    assert(all[before.len() as int] == ip);
                }
            }
            if all.contains(ip) {
                let j = choose|j: int| 0 <= j < all.len() && all[j] == ip;
                if j < before.len() {
                    assert(before[j] == ip);
                    assert(before.contains(ip));
                    assert(rest.contains(Some(ip)));
                    let k = choose|k: int| 0 <= k < rest.len() && rest[k] == Some(ip);
                    assert(found[k] == Some(ip));
                } else {
                    assert(found[found.len() - 1] == Some(ip));
                }
            }
        }
        assert(all.no_duplicates()) by {
            if let Some(ip) = found.last() {
                if !before.contains(ip) {
                    assert forall|i: int, j: int|
                        0 <= i < all.len() && 0 <= j < all.len() && i != j implies all[i]
                        != all[j] by {
                        if i == before.len() {
                            assert(before.contains(before[j]));
                        } else if j == before.len() {
                            assert(before.contains(before[i]));
                        }
                    }
                }
            }
        }
    }
}

/// A scan that looked up all hosts has the distinct addresses that were found.
pub proof fn law_remote_scan_collects(scan: RemoteScanModel, found: Seq<Option<Seq<char>>>)
    requires
        scan.wf(),
        scan.done == 0,
        scan.ips.len() == 0,
        found.len() == scan.hosts.len(),
    ensures
        scan.run(found).next() is None,
        scan.run(found).ips == distinct(found),
{
    assert(found.take(0) =~= Seq::<Option<Seq<char>>>::empty());
    assert(scan.ips =~= distinct(found.take(0)));
    assert(found.skip(0) =~= found);
    lemma_remote_scan(scan, found, 0);
}

proof fn lemma_remote_scan(scan: RemoteScanModel, found: Seq<Option<Seq<char>>>, k: int)
    requires
        0 <= k <= found.len(),
        scan.done == k,
        found.len() == scan.hosts.len(),
        scan.ips == distinct(found.take(k)),
    ensures
        scan.run(found.skip(k)).next() is None,
        scan.run(found.skip(k)).ips == distinct(found),
    decreases found.len() - k,
{
    if k < found.len() {
        assert(found.take(k + 1).drop_last() =~= found.take(k));
        assert(found.skip(k).drop_first() =~= found.skip(k + 1));
        assert(found.skip(k)[0] == found[k]);
        lemma_remote_scan(scan.after(found[k]), found, k + 1);
    } else {
        assert(found.take(k) =~= found);
    }
}

} // verus!
