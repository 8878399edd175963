//! The listener on the host, the only one that the browser talks to.
use vstd::prelude::*;

use crate::number;
use crate::text;

verus! {

/// The ports that are tried for the listener, in order: the wanted one and the
/// nineteen behind it, as far as there are so many.
pub open spec fn ports_from(port: u16) -> Seq<u16> {
    let n = if port + 20 <= 65536 {
        20int
    } else {
        65536 - port
    };
    Seq::new(n as nat, |i: int| (port + i) as u16)
}

/// Looking for a free port.
pub struct PortScan {
    port: u16,
    tried: u16,
    free: bool,
}

/// What a scan amounts to.
pub struct PortScanModel {
    pub ports: Seq<u16>,
    /// How many ports were found to be taken.
    pub tried: nat,
    /// Whether the port behind those was found to be free.
    pub free: bool,
}

impl View for PortScan {
    type V = PortScanModel;

    closed spec fn view(&self) -> PortScanModel {
        PortScanModel { ports: ports_from(self.port), tried: self.tried as nat, free: self.free }
    }
}

impl PortScanModel {
    pub open spec fn wf(self) -> bool {
        &&& self.tried <= self.ports.len()
        &&& self.free ==> self.tried < self.ports.len()
    }

    /// The port to try next.
    pub open spec fn next(self) -> Option<u16> {
        if !self.free && self.tried < self.ports.len() {
            Some(self.ports[self.tried as int])
        } else {
            None
        }
    }

    /// The scan after it was learned whether that port is free.
    pub open spec fn after(self, free: bool) -> PortScanModel {
        if free {
            PortScanModel { free: true, ..self }
        } else {
            PortScanModel { tried: self.tried + 1, ..self }
        }
    }

    /// The free port.
    pub open spec fn found(self) -> Option<u16> {
        if self.free {
            Some(self.ports[self.tried as int])
        } else {
            None
        }
    }

    /// The scan after as many ports were tried as there are answers.
    pub open spec fn run(self, answers: Seq<bool>) -> PortScanModel
        decreases answers.len(),
    {
        if self.next() is None || answers.len() == 0 {
            self
        } else {
            self.after(answers[0]).run(answers.drop_first())
        }
    }
}

/// A search for a free port at its start.
pub open spec fn scan_from(port: u16) -> PortScanModel {
    PortScanModel { ports: ports_from(port), tried: 0, free: false }
}

/// Starts looking for a free port, from `port` (inclusive) upward.
pub fn bind_free_port(port: u16) -> (r: PortScan)
    ensures
        r@.wf(),
        r@ == scan_from(port),
{
    PortScan { port, tried: 0, free: false }
}

impl PortScan {
    /// The port to try next; none when the scan is over.
    pub fn next(&self) -> (r: Option<u16>)
        requires
            self@.wf(),
        ensures
            r == self@.next(),
    {
        let left: u16 = 65535 - self.port;
        let count: u16 = if left >= 19 {
            20
        } else {
            left + 1
        };
        if !self.free && self.tried < count {
            Some(self.port + self.tried)
        } else {
            None
        }
    }

    /// Takes the answer whether the port that `next` gave is free.
    pub fn answer(&mut self, free: bool)
        requires
            old(self)@.wf(),
            old(self)@.next() is Some,
        ensures
            final(self)@.wf(),
            final(self)@ == old(self)@.after(free),
    {
        if free {
            self.free = true;
        } else {
            self.tried += 1;
        }
    }

    /// The free port.
    pub fn found(&self) -> (r: Option<u16>)
        requires
            self@.wf(),
        ensures
            r == self@.found(),
    {
        if self.free {
            Some(self.port + self.tried)
        } else {
            None
        }
    }
}

/// An address and a port as one text.
pub open spec fn address_model(ip: Seq<char>, port: u16) -> Seq<char> {
    ip + ":"@ + number::decimal(port as nat)
}

/// An address and a port as one text.
pub fn address(ip: &str, port: u16) -> (r: String)
    ensures
        r@ == address_model(ip@, port),
{
    text::cat3(ip, ":", number::decimal_of(port as u64).as_str())
}

/// The wanted port is always tried, and tried first; of the others, the
/// nineteen behind it are tried, up to the last port that there is.
pub proof fn law_wanted_port_is_tried_first(port: u16)
    ensures
        ports_from(port).len() > 0,
        ports_from(port)[0] == port,
        forall|p: u16| #[trigger] ports_from(port).contains(p) <==> port <= p < port + 20,
{
    assert forall|p: u16| #[trigger]
        ports_from(port).contains(p) <==> port <= p < port + 20 by {
        if port <= p < port + 20 {
            assert(ports_from(port)[p - port] == p);
        }
    }
}

/// The port that is found is the first free one among those that are tried.
pub proof fn law_first_free_port(scan: PortScanModel, answers: Seq<bool>)
    requires
        scan.wf(),
        !scan.free,
        answers.len() == scan.ports.len() - scan.tried,
    ensures
        ({
            let end = scan.run(answers);
            let k = end.tried - scan.tried;
            &&& end.wf() && end.next() is None && end.ports == scan.ports
            &&& 0 <= k <= answers.len()
            &&& forall|i: int| 0 <= i < k ==> !(#[trigger] answers[i])
            &&& end.free ==> k < answers.len() && answers[k]
            &&& !end.free ==> k == answers.len()
        }),
    decreases answers.len(),
{
    if answers.len() > 0 {
        let next = scan.after(answers[0]);
        let rest = answers.drop_first();
        if !answers[0] {
            law_first_free_port(next, rest);
            let k = scan.run(answers).tried - scan.tried;
            assert forall|i: int| 0 <= i < k implies !(#[trigger] answers[i]) by {
                if i > 0 {
                    assert(rest[i - 1] == answers[i]);
                }
            }
            if k < answers.len() && scan.run(answers).free {
                assert(rest[k - 1] == answers[k]);
            }
        } else {
            assert(next.run(rest) == next);
        }
    }
}

} // verus!
