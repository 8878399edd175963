//! Choosing the private subnet of the veth pair.
use vstd::prelude::*;

use crate::command;
use crate::command::{Command, CommandModel};
use crate::ipv4::Ipv4Addr;
use crate::number;
use crate::text;

verus! {

/// What the parts of a dotted text read as, each a number of 8 bits.
pub open spec fn four_octets(s: Seq<char>) -> Option<Ipv4Addr> {
    let parts = text::split(s, '.');
    if parts.len() == 4 && (forall|i: int|
        0 <= i < 4 ==> number::unsigned(#[trigger] parts[i], 255) is Some) {
        Some(
            Ipv4Addr {
                a: number::unsigned(parts[0], 255)->0 as u8,
                b: number::unsigned(parts[1], 255)->0 as u8,
                c: number::unsigned(parts[2], 255)->0 as u8,
                d: number::unsigned(parts[3], 255)->0 as u8,
            },
        )
    } else {
        None
    }
}

/// The length of the prefix of the subnet: room for the two ends of the veth
/// pair between its first and its last address.
pub const PREFIX: u8 = 30;

/// The first address of the subnet that an address lies in.
pub open spec fn base_of(addr: Ipv4Addr) -> Ipv4Addr {
    Ipv4Addr { d: (addr.d - addr.d % 4) as u8, ..addr }
}

/// The base of the subnet that is configured, by an address, a slash and the
/// length of a prefix, which is at least 30: the subnet is the one of prefix
/// length 30 that the address lies in. Or why none is.
pub open spec fn subnet(configured: Seq<char>) -> Result<Ipv4Addr, Seq<char>> {
    let n = text::before(configured, '/') as int;
    let net = configured.take(n);
    let prefix = number::unsigned(configured.skip(n + 1), 255);
    if n >= configured.len() {
        Err("subnet must be a.b.c.d/30"@)
    } else if prefix is None {
        Err("bad subnet prefix in "@ + configured)
    } else if prefix->0 < 30 {
        Err("subnet prefix must be >= 30 (got "@ + number::decimal(prefix->0) + ")"@)
    } else if four_octets(net) is None {
        Err("bad subnet "@ + configured)
    } else {
        Ok(base_of(four_octets(net)->0))
    }
}

/// The base addresses that are tried behind the configured one: all of
/// 10.200.x.0, from x = 200 upward, then from x = 0.
pub open spec fn fallback(i: int) -> Ipv4Addr {
    Ipv4Addr {
        a: 10,
        b: 200,
        c: if i < 56 {
            (200 + i) as u8
        } else {
            (i - 56) as u8
        },
        d: 0,
    }
}

/// All base addresses in the order in which they are tried.
pub open spec fn bases(configured: Ipv4Addr) -> Seq<Ipv4Addr> {
    seq![configured] + Seq::new(256, |i: int| fallback(i))
}

/// The address `n` behind the base.
pub open spec fn offset(base: Ipv4Addr, n: int) -> Ipv4Addr {
    Ipv4Addr { d: (base.d + n) as u8, ..base }
}

/// Choosing a subnet: each base address in turn is asked about, until one is
/// free.
pub struct SubnetScan {
    bases: Vec<Ipv4Addr>,
    tried: usize,
    free: bool,
}

/// What a scan amounts to.
pub struct SubnetScanModel {
    pub bases: Seq<Ipv4Addr>,
    /// How many bases were found to be in use.
    pub tried: nat,
    /// Whether the base behind those was found to be free.
    pub free: bool,
}

impl View for SubnetScan {
    type V = SubnetScanModel;

    closed spec fn view(&self) -> SubnetScanModel {
        SubnetScanModel {
            bases: self.bases@,
            tried: self.tried as nat,
            free: self.free,
        }
    }
}

impl SubnetScanModel {
    pub open spec fn wf(self) -> bool {
        &&& self.tried <= self.bases.len()
        &&& self.free ==> self.tried < self.bases.len()
        &&& forall|i: int| 0 <= i < self.bases.len() ==> (#[trigger] self.bases[i]).d % 4 == 0
    }

    /// The address of the host's end that is to be asked about next.
    pub open spec fn probe(self) -> Option<Ipv4Addr> {
        if !self.free && self.tried < self.bases.len() {
            Some(offset(self.bases[self.tried as int], 1))
        } else {
            None
        }
    }

    /// The scan after it was learned whether that address is in use.
    pub open spec fn after(self, in_use: bool) -> SubnetScanModel {
        if in_use {
            SubnetScanModel { tried: self.tried + 1, ..self }
        } else {
            SubnetScanModel { free: true, ..self }
        }
    }

    /// The scan after the answers to as many probes as there are.
    pub open spec fn run(self, answers: Seq<bool>) -> SubnetScanModel
        decreases answers.len(),
    {
        if self.probe() is None || answers.len() == 0 {
            self
        } else {
            self.after(answers[0]).run(answers.drop_first())
        }
    }

    /// The host's address, that of the namespace and the length of the prefix.
    pub open spec fn choice(self) -> Result<(Seq<char>, Seq<char>, u8), Seq<char>> {
        if self.free {
            let base = self.bases[self.tried as int];
            Ok((offset(base, 1).text(), offset(base, 2).text(), PREFIX))
        } else {
            Err("no free subnet found (10.200.0.0/16 busy?)"@)
        }
    }
}

/// The texts in the outcome of a choice.
pub open spec fn choice_model(r: Result<(String, String, u8), String>) -> Result<
    (Seq<char>, Seq<char>, u8),
    Seq<char>,
> {
    match r {
        Ok((host, ns, prefix)) => Ok((host@, ns@, prefix)),
        Err(e) => Err(e@),
    }
}

fn read_four_octets(s: &str) -> (r: Option<Ipv4Addr>)
    ensures
        r == four_octets(s@),
{
    let parts = text::split_at(s, '.');
    let ghost model = text::split(s@, '.');
    proof {
        assert(model.len() == parts@.len());
        assert forall|i: int| 0 <= i < parts@.len() implies (#[trigger] parts@[i])@
            == model[i] by {
            assert(parts.deep_view()[i] == parts@[i]@);
        }
    }
    if parts.len() != 4 {
        return None;
    }
    match (
        number::read_u8(parts[0].as_str()),
        number::read_u8(parts[1].as_str()),
        number::read_u8(parts[2].as_str()),
        number::read_u8(parts[3].as_str()),
    ) {
        (Some(a), Some(b), Some(c), Some(d)) => {
            proof {
                assert(number::unsigned(model[0], 255) is Some);
                assert(number::unsigned(model[1], 255) is Some);
                assert(number::unsigned(model[2], 255) is Some);
                assert(number::unsigned(model[3], 255) is Some);
                assert forall|i: int| 0 <= i < 4 implies number::unsigned(
                    #[trigger] model[i],
                    255,
                ) is Some by {
                    assert(i == 0 || i == 1 || i == 2 || i == 3);
                }
            }
            Some(Ipv4Addr { a, b, c, d })
        },
        _ => {
            proof {
                assert(parts@[0]@ == model[0] && parts@[1]@ == model[1] && parts@[2]@ == model[2]
                    && parts@[3]@ == model[3]);
            }
            None
        },
    }
}

fn read_subnet(configured: &str) -> (r: Result<Ipv4Addr, String>)
    ensures
        r is Ok <==> subnet(configured@) is Ok,
        r matches Ok(base) ==> subnet(configured@) == Ok::<Ipv4Addr, Seq<char>>(base),
        r matches Err(e) ==> subnet(configured@) == Err::<Ipv4Addr, Seq<char>>(e@),
{
    let cs = text::chars(configured);
    let mut n: usize = 0;
    while n < cs.len() && cs[n] != '/'
        invariant
            n <= cs@.len(),
            forall|j: int| 0 <= j < n ==> cs@[j] != '/',
        decreases cs@.len() - n,
    {
        n += 1;
    }
    proof {
        text::lemma_before_is(configured@, '/', n as nat);
    }
    if n >= cs.len() {
        return Err("subnet must be a.b.c.d/30".to_owned());
    }
    let net = text::slice(&cs, 0, n);
    let tail = text::slice(&cs, n + 1, cs.len());
    proof {
        assert(net@ =~= configured@.take(n as int));
        assert(tail@ =~= configured@.skip(n + 1));
    }
    let prefix: u8 = match number::read_u8(tail.as_str()) {
        Some(prefix) => prefix,
        None => return Err(text::cat("bad subnet prefix in ", configured)),
    };
    if prefix < 30 {
        return Err(
            text::cat3(
                "subnet prefix must be >= 30 (got ",
                number::decimal_of(prefix as u64).as_str(),
                ")",
            ),
        );
    }
    match read_four_octets(net.as_str()) {
        Some(addr) => Ok(Ipv4Addr { a: addr.a, b: addr.b, c: addr.c, d: addr.d - addr.d % 4 }),
        None => Err(text::cat("bad subnet ", configured)),
    }
}

/// A choice of a subnet at its start.
pub open spec fn scan_from(configured: Ipv4Addr) -> SubnetScanModel {
    SubnetScanModel { bases: bases(configured), tried: 0, free: false }
}

/// Starts choosing a subnet of prefix length 30: the configured one is tried
/// first, then those of 10.200.x.0. The host's end of the veth pair gets the first address behind
/// the base, the end in the namespace the second.
pub fn pick_subnet(configured: &str) -> (r: Result<SubnetScan, String>)
    ensures
        r is Ok <==> subnet(configured@) is Ok,
        r matches Ok(scan) ==> scan@.wf() && scan@ == scan_from(subnet(configured@)->Ok_0),
        r matches Err(e) ==> subnet(configured@) == Err::<Ipv4Addr, Seq<char>>(e@),
{
    let base = match read_subnet(configured) {
        Ok(base) => base,
        Err(e) => return Err(e),
    };
    let mut all: Vec<Ipv4Addr> = Vec::new();
    all.push(base);
    let ghost head = all@;
    let mut i: u16 = 0;
    while i < 256
        invariant
            i <= 256,
            all@ == head + Seq::new(i as nat, |k: int| fallback(k)),
        decreases 256 - i,
    {
        let x: u8 = if i < 56 {
            (200 + i) as u8
        } else {
            (i - 56) as u8
        };
        all.push(Ipv4Addr { a: 10, b: 200, c: x, d: 0 });
        proof {
            assert(all@ =~= head + Seq::new((i + 1) as nat, |k: int| fallback(k)));
        }
        i += 1;
    }
    proof {
        assert(all@ =~= bases(base));
    }
    Ok(SubnetScan { bases: all, tried: 0, free: false })
}

impl SubnetScan {
    /// The address that is to be asked about next; none when the scan is over.
    pub fn probe(&self) -> (r: Option<Ipv4Addr>)
        requires
            self@.wf(),
        ensures
            r == self@.probe(),
    {
        if !self.free && self.tried < self.bases.len() {
            let base = self.bases[self.tried];
            proof {
                assert(self@.bases[self.tried as int].d % 4 == 0);
            }
            Some(Ipv4Addr { a: base.a, b: base.b, c: base.c, d: base.d + 1 })
        } else {
            None
        }
    }

    /// Takes the answer whether the address that `probe` gave is in use.
    pub fn answer(&mut self, in_use: bool)
        requires
            old(self)@.wf(),
            old(self)@.probe() is Some,
        ensures
            final(self)@.wf(),
            final(self)@ == old(self)@.after(in_use),
    {
        if in_use {
            proof {
                assert(self.bases@.len() == self.bases.len());
            }
            self.tried += 1;
        } else {
            self.free = true;
        }
    }

    /// The host's address, that of the namespace and the length of the prefix:
    /// the two addresses of one subnet that lie between its first and its last.
    pub fn choice(&self) -> (r: Result<(String, String, u8), String>)
        requires
            self@.wf(),
            self@.probe() is None,
        ensures
            choice_model(r) == self@.choice(),
            r matches Ok((host, ns, prefix)) ==> prefix == 30 && exists|base: Ipv4Addr|
                base.d % 4 == 0 && host@ == #[trigger] offset(base, 1).text() && ns@ == offset(
                    base,
                    2,
                ).text(),
    {
        if self.free {
            let base = self.bases[self.tried];
            proof {
                assert(self@.bases[self.tried as int].d % 4 == 0);
            }
            let host = Ipv4Addr { a: base.a, b: base.b, c: base.c, d: base.d + 1 };
            let ns = Ipv4Addr { a: base.a, b: base.b, c: base.c, d: base.d + 2 };
            Ok((host.to_text(), ns.to_text(), PREFIX))
        } else {
            Err("no free subnet found (10.200.0.0/16 busy?)".to_owned())
        }
    }
}

/// Asks whether the host has the address.
pub open spec fn probe_command(addr: Seq<char>) -> CommandModel {
    command::ip_model(seq!["-4"@, "addr"@, "show"@, "to"@, addr + "/32"@])
}

/// Asks whether the host has the address.
pub fn host_ip_query(addr: &str) -> (r: Command)
    ensures
        r@ == probe_command(addr@),
{
    let probe = text::cat(addr, "/32");
    let r = command::ip(&["-4", "addr", "show", "to", probe.as_str()]);
    proof {
        assert(r@.args =~= probe_command(addr@).args);
    }
    r
}

/// Whether the host has the address, by the reply to the question for it.
pub open spec fn in_use(reply: Result<Seq<char>, Seq<char>>) -> bool {
    match reply {
        Ok(out) => text::trim(out).len() > 0,
        Err(_) => true,
    }
}

/// Whether the host has the address, by the reply to `host_ip_query`. It
/// counts as in use when that cannot be learned.
pub fn host_ip_in_use(reply: &Result<String, String>) -> (r: bool)
    ensures
        r == in_use(command::reply_model(*reply)),
{
    match reply {
        Ok(out) => !text::trimmed(out.as_str()).as_str().is_empty(),
        Err(_) => true,
    }
}

/// The chosen base is the first one that was found to be free: all before it
/// were asked about and in use. Nothing is chosen only if all are in use.
pub proof fn law_first_free_subnet(scan: SubnetScanModel, answers: Seq<bool>)
    requires
        scan.wf(),
        !scan.free,
        answers.len() == scan.bases.len() - scan.tried,
    ensures
        ({
            let end = scan.run(answers);
            let k = end.tried - scan.tried;
            &&& end.wf() && end.probe() is None
            &&& end.bases == scan.bases
            &&& 0 <= k <= answers.len()
            &&& forall|i: int| 0 <= i < k ==> #[trigger] answers[i]
            &&& end.free ==> k < answers.len() && !answers[k]
            &&& !end.free ==> k == answers.len()
        }),
    decreases answers.len(),
{
    if answers.len() > 0 {
        let next = scan.after(answers[0]);
        let rest = answers.drop_first();
        if answers[0] {
            law_first_free_subnet(next, rest);
            let k = scan.run(answers).tried - scan.tried;
            assert forall|i: int| 0 <= i < k implies #[trigger] answers[i] by {
                if i > 0 {
                    assert(rest[i - 1] == answers[i]);
                }
            }
            if k < answers.len() && scan.run(answers).free {
                assert(rest[k - 1] == answers[k]);
            }
        } else {
            assert(next.run(rest) == next);
        }
    }
}

/// What is chosen is one subnet of prefix length 30, and the two ends of the
/// veth pair get its two addresses between the first and the last.
pub proof fn law_veth_addresses(scan: SubnetScanModel)
    requires
        scan.wf(),
        scan.choice() is Ok,
    ensures
        ({
            let base = scan.bases[scan.tried as int];
            let host = offset(base, 1);
            let ns = offset(base, 2);
            &&& scan.choice()->Ok_0 == (host.text(), ns.text(), 30u8)
            &&& base_of(base) == base && base_of(host) == base && base_of(ns) == base
            &&& host.d == base.d + 1 && ns.d == base.d + 2 && base.d + 3 <= 255
        }),
{
    assert(scan.bases[scan.tried as int].d % 4 == 0);
}

/// The subnet that the configured address lies in is tried before all others;
/// an address that is the first of its subnet is the base as it stands.
pub proof fn law_configured_subnet_comes_first(configured: Seq<char>)
    requires
        subnet(configured) is Ok,
    ensures
        ({
            let n = text::before(configured, '/') as int;
            let addr = four_octets(configured.take(n))->0;
            &&& bases(subnet(configured)->Ok_0)[0] == base_of(addr)
            &&& addr.d % 4 == 0 ==> base_of(addr) == addr
        }),
{
}

} // verus!
