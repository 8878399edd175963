//! Minimal DNS client used inside the network namespace, so that names are
//! resolved through the tunnel and never by the resolver of the host.
use vstd::prelude::*;
use vstd::utf8::*;

use crate::dns_laws;
use crate::ipv4::Ipv4Addr;
use crate::text;

verus! {

// ---- queries ----

/// Whether a label of a name can be sent: 1 to 63 bytes.
pub open spec fn label_ok(label: Seq<u8>) -> bool {
    0 < label.len() <= 63
}

/// Whether all labels can be sent.
pub open spec fn labels_ok(labels: Seq<Seq<u8>>) -> bool {
    forall|i: int| 0 <= i < labels.len() ==> label_ok(#[trigger] labels[i])
}

/// Labels as they are sent: each after a byte that holds its length.
pub open spec fn wire_labels(labels: Seq<Seq<u8>>) -> Seq<u8>
    decreases labels.len(),
{
    if labels.len() == 0 {
        seq![]
    } else {
        seq![labels[0].len() as u8] + labels[0] + wire_labels(labels.drop_first())
    }
}

/// The labels of a name: the bytes between its dots.
pub open spec fn labels_of(name: Seq<char>) -> Seq<Seq<u8>> {
    text::split(encode_utf8(name), 46u8)
}

/// A question for the IPv4 address of a name: the labels, the end of the name,
/// type A, class IN.
pub open spec fn question(name: Seq<char>) -> Seq<u8> {
    wire_labels(labels_of(name)) + seq![0u8, 0, 1, 0, 1]
}

/// The head of a message: identification, flags and the number of entries in
/// each section.
pub open spec fn header(id: u16, flags_hi: u8, flags_lo: u8, questions: u16, answers: u16) -> Seq<
    u8,
> {
    seq![
        (id / 256) as u8,
        (id % 256) as u8,
        flags_hi,
        flags_lo,
        (questions / 256) as u8,
        (questions % 256) as u8,
        (answers / 256) as u8,
        (answers % 256) as u8,
        0u8,
        0,
        0,
        0,
    ]
}

/// The query for a name: recursion desired, one question.
pub open spec fn query(id: u16, name: Seq<char>) -> Seq<u8> {
    header(id, 1, 0, 1, 0) + question(name)
}

/// The query for `name`, identified by the low 16 bits of the given
/// nanoseconds.
pub open spec fn query_for(name: Seq<char>, subsec_nanos: Option<u32>) -> Option<Seq<u8>> {
    if subsec_nanos is Some && labels_ok(labels_of(name)) {
        Some(query((subsec_nanos->0 % 65536) as u16, name))
    } else {
        None
    }
}

/// The query for `name`, identified by the low 16 bits of the given
/// nanoseconds. There is none without a clock, and none for a name with an
/// empty label or one of more than 63 bytes.
pub fn build_query(name: &str, subsec_nanos: Option<u32>) -> (r: Option<Vec<u8>>)
    ensures
        r.deep_view() == query_for(name@, subsec_nanos),
        r is Some <==> subsec_nanos is Some && labels_ok(labels_of(name@)),
        r matches Some(q) ==> q@ == query((subsec_nanos->0 % 65536) as u16, name@),
        r matches Some(q) ==> {
            let read = dns_laws::labels_at(q@, 12);
            &&& read is Some
            &&& text::join((read->0).0, seq![46u8]) == encode_utf8(name@)
            &&& (read->0).1 + 4 == q@.len()
            &&& q@.len() == 12 + encode_utf8(name@).len() + 2 + 4
        },
{
    let nanos: u32 = match subsec_nanos {
        Some(n) => n,
        None => return None,
    };
    let id: u16 = (nanos % 65536) as u16;
    let bytes = name.as_bytes();
    let mut q: Vec<u8> = Vec::with_capacity(64);
    q.push((id / 256) as u8);
    q.push((id % 256) as u8);
    q.push(1);
    q.push(0);
    q.push(0);
    q.push(1);
    q.push(0);
    q.push(0);
    q.push(0);
    q.push(0);
    q.push(0);
    q.push(0);
    let ghost all = labels_of(name@);
    let ghost head = header(id, 1, 0, 1, 0);
    let mut start: usize = 0;
    proof {
        assert(q@ =~= head);
        assert(bytes@.skip(0) =~= bytes@);
        assert(q@ + wire_labels(all) =~= head + wire_labels(all));
    }
    loop
        invariant_except_break
            start <= bytes@.len(),
            q@ + wire_labels(text::split(bytes@.skip(start as int), 46u8)) == head + wire_labels(
                all,
            ),
            labels_ok(all) <==> labels_ok(text::split(bytes@.skip(start as int), 46u8)),
        invariant
            bytes@ == encode_utf8(name@),
            all == labels_of(name@),
        ensures
            q@ == head + wire_labels(all),
            labels_ok(all),
        decreases bytes@.len() - start,
    {
        let ghost rest = bytes@.skip(start as int);
        let mut end: usize = start;
        while end < bytes.len() && bytes[end] != 46
            invariant
                start <= end <= bytes@.len(),
                forall|j: int| start <= j < end ==> bytes@[j] != 46,
            decreases bytes@.len() - end,
        {
            end += 1;
        }
        let ghost label = bytes@.subrange(start as int, end as int);
        let ghost pieces = text::split(rest, 46u8);
        proof {
            text::lemma_before_is(rest, 46u8, (end - start) as nat);
            assert(rest.take(end - start) =~= label);
            if end >= bytes@.len() {
                assert(rest =~= label);
            }
            assert(pieces[0] == label);
        }
        if end - start == 0 || end - start > 63 {
            proof {
                assert(!label_ok(pieces[0]));
            }
            return None;
        }
        let ghost before_label = q@;
        q.push((end - start) as u8);
        let mut i: usize = start;
        while i < end
            invariant
                start <= i <= end <= bytes@.len(),
                q@ == before_label + seq![(end - start) as u8] + bytes@.subrange(
                    start as int,
                    i as int,
                ),
            decreases end - i,
        {
            q.push(bytes[i]);
            proof {
                assert(bytes@.subrange(start as int, i + 1) =~= bytes@.subrange(
                    start as int,
                    i as int,
                ).push(bytes@[i as int]));
                assert(q@ =~= before_label + seq![(end - start) as u8] + bytes@.subrange(
                    start as int,
                    i + 1,
                ));
            }
            i += 1;
        }
        if end >= bytes.len() {
            proof {
                assert(pieces =~= seq![label]);
                assert(wire_labels(pieces.drop_first()) =~= Seq::<u8>::empty());
                assert(q@ =~= before_label + wire_labels(pieces));
                assert(labels_ok(pieces));
            }
            break;
        }
        proof {
            let next = text::split(bytes@.skip(end + 1), 46u8);
            assert(rest.skip(end - start + 1) =~= bytes@.skip(end + 1));
            assert(pieces =~= seq![label] + next);
            assert(pieces.drop_first() =~= next);
            assert(q@ + wire_labels(next) =~= before_label + wire_labels(pieces));
            assert(labels_ok(pieces) <==> labels_ok(next)) by {
                assert forall|k: int| 0 <= k < next.len() implies next[k] == #[trigger] pieces[k
                    + 1] by {}
                if labels_ok(pieces) {
                    assert forall|k: int| 0 <= k < next.len() implies label_ok(
                        #[trigger] next[k],
                    ) by {
                        assert(label_ok(pieces[k + 1]));
                    }
                }
                if labels_ok(next) {
                    assert forall|k: int| 0 <= k < pieces.len() implies label_ok(
                        #[trigger] pieces[k],
                    ) by {
                        if k > 0 {
                            assert(label_ok(next[k - 1]));
                        }
                    }
                }
            }
        }
        start = end + 1;
    }
    q.push(0);
    q.push(0);
    q.push(1);
    q.push(0);
    q.push(1);
    proof {
        assert(q@ =~= query(id, name@));
        dns_laws::law_query_asks_for_the_name(id, name@);
    }
    Some(q)
}

// ---- responses ----

/// The number in two bytes, the higher one first.
pub open spec fn be16(buf: Seq<u8>, off: int) -> int {
    buf[off] * 256 + buf[off + 1]
}

/// Where the name that starts at `off` ends: after the zero byte behind its
/// labels, or after a pointer of two bytes. `None` if the message ends first.
pub open spec fn name_end(buf: Seq<u8>, off: int) -> Option<int>
    decreases
            (if off < buf.len() {
                buf.len() - off
            } else {
                0
            }),
{
    if off < 0 || off >= buf.len() {
        None
    } else if buf[off] == 0 {
        Some(off + 1)
    } else if buf[off] >= 0xC0 {
        Some(off + 2)
    } else {
        name_end(buf, off + 1 + buf[off])
    }
}

/// Where the `n` questions that start at `off` end: each is a name, a type and
/// a class.
pub open spec fn questions_end(buf: Seq<u8>, off: int, n: nat) -> Option<int>
    decreases n,
{
    if n == 0 {
        Some(off)
    } else {
        match name_end(buf, off) {
            Some(end) => questions_end(buf, end + 4, (n - 1) as nat),
            None => None,
        }
    }
}

/// A resource record in a message.
pub struct Record {
    pub rtype: int,
    pub rclass: int,
    pub data: Seq<u8>,
    pub end: int,
}

/// The resource record that starts at `off`, if it is complete: a name, type,
/// class, time to live, length and data.
pub open spec fn record_at(buf: Seq<u8>, off: int) -> Option<Record> {
    match name_end(buf, off) {
        Some(p) => if p + 10 <= buf.len() && p + 10 + be16(buf, p + 8) <= buf.len() {
            let end = p + 10 + be16(buf, p + 8);
            Some(
                Record {
                    rtype: be16(buf, p),
                    rclass: be16(buf, p + 2),
                    data: buf.subrange(p + 10, end),
                    end,
                },
            )
        } else {
            None
        },
        None => None,
    }
}

/// The address in a record of type A and class IN.
pub open spec fn address_in(rtype: int, rclass: int, data: Seq<u8>) -> Option<Ipv4Addr> {
    if rtype == 1 && rclass == 1 && data.len() == 4 {
        Some(Ipv4Addr { a: data[0], b: data[1], c: data[2], d: data[3] })
    } else {
        None
    }
}

/// The first address among the `n` records that start at `off`. Nothing is
/// found behind an incomplete record.
pub open spec fn first_address(buf: Seq<u8>, off: int, n: nat) -> Option<Ipv4Addr>
    decreases n,
{
    if n == 0 {
        None
    } else {
        match record_at(buf, off) {
            Some(r) => match address_in(r.rtype, r.rclass, r.data) {
                Some(ip) => Some(ip),
                None => first_address(buf, r.end, (n - 1) as nat),
            },
            None => None,
        }
    }
}

/// Whether `buf` starts as a successful response to `query` that has a
/// question and an answer.
pub open spec fn accepted(buf: Seq<u8>, query: Seq<u8>) -> bool {
    &&& buf.len() >= 12
    &&& buf[0] == query[0] && buf[1] == query[1]
    &&& buf[2] >= 0x80
    &&& buf[3] % 16 == 0
    &&& be16(buf, 4) > 0
    &&& be16(buf, 6) > 0
}

/// The address that a response to `query` gives.
pub open spec fn response(buf: Seq<u8>, query: Seq<u8>) -> Option<Ipv4Addr> {
    if accepted(buf, query) {
        match questions_end(buf, 12, be16(buf, 4) as nat) {
            Some(off) => first_address(buf, off, be16(buf, 6) as nat),
            None => None,
        }
    } else {
        None
    }
}

/// Where the name at `off` ends.
pub fn skip_name(buf: &[u8], off: usize) -> (r: Option<usize>)
    ensures
        r matches Some(end) ==> name_end(buf@, off as int) == Some(end as int),
        r is None ==> (name_end(buf@, off as int) matches Some(end) ==> end > usize::MAX),
{
    let mut at: usize = off;
    loop
        invariant
            name_end(buf@, off as int) == name_end(buf@, at as int),
        decreases usize::MAX - at,
    {
        if at >= buf.len() {
            return None;
        }
        let l = buf[at];
        if l == 0 {
            return at.checked_add(1);
        }
        if l >= 0xC0 {
            return at.checked_add(2);
        }
        match at.checked_add(1 + l as usize) {
            Some(next) => {
                at = next;
            },
            None => {
                proof {
                    assert(buf.len() <= usize::MAX);
                    assert(name_end(buf@, at + 1 + l) is None);
                }
                return None;
            },
        }
    }
}

/// Behind the end of the message there is neither a question nor an answer.
proof fn lemma_past_end(buf: Seq<u8>, off: int, n: nat, answers: nat)
    requires
        off >= buf.len(),
    ensures
        questions_end(buf, off, n) matches Some(o) ==> first_address(buf, o, answers) is None,
{
}

fn read_be16(buf: &[u8], off: usize) -> (r: u16)
    requires
        off + 1 < buf@.len(),
    ensures
        r == be16(buf@, off as int),
{
    buf[off] as u16 * 256 + buf[off + 1] as u16
}

/// The address that the response `buf` to `query` gives. A response counts if
/// it carries the identification of the query, is marked as a response without
/// error, and has an answer of type A.
pub fn parse_response(buf: &[u8], query: &[u8]) -> (r: Option<Ipv4Addr>)
    requires
        query@.len() >= 2,
    ensures
        r == response(buf@, query@),
{
    if buf.len() < 12 {
        return None;
    }
    if buf[0] != query[0] || buf[1] != query[1] {
        return None;
    }
    if buf[2] < 0x80 || buf[3] % 16 != 0 {
        return None;
    }
    let qd: u16 = read_be16(buf, 4);
    let an: u16 = read_be16(buf, 6);
    if qd == 0 || an == 0 {
        return None;
    }
    let mut off: usize = 12;
    let mut k: u16 = 0;
    while k < qd
        invariant
            k <= qd,
            qd == be16(buf@, 4),
            an == be16(buf@, 6),
            accepted(buf@, query@),
            buf@.len() == buf.len(),
            questions_end(buf@, 12, qd as nat) == questions_end(
                buf@,
                off as int,
                (qd - k) as nat,
            ),
        decreases qd - k,
    {
        off = match skip_name(buf, off) {
            Some(end) => match end.checked_add(4) {
                Some(next) => next,
                None => {
                    proof {
                        lemma_past_end(buf@, end + 4, (qd - k - 1) as nat, an as nat);
                    }
                    return None;
                },
            },
            None => {
                proof {
                    if let Some(end) = name_end(buf@, off as int) {
                        lemma_past_end(buf@, end + 4, (qd - k - 1) as nat, an as nat);
                    }
                }
                return None;
            },
        };
        k += 1;
    }
    let ghost start = off as int;
    let mut j: u16 = 0;
    while j < an
        invariant
            j <= an,
            buf@.len() == buf.len(),
            first_address(buf@, start, an as nat) == first_address(
                buf@,
                off as int,
                (an - j) as nat,
            ),
            response(buf@, query@) == first_address(buf@, start, an as nat),
        decreases an - j,
    {
        let at: usize = match skip_name(buf, off) {
            Some(end) => end,
            None => return None,
        };
        if at > buf.len() || buf.len() - at < 10 {
            return None;
        }
        let rtype: u16 = read_be16(buf, at);
        let rclass: u16 = read_be16(buf, at + 2);
        let rdlen: usize = read_be16(buf, at + 8) as usize;
        let data: usize = at + 10;
        if buf.len() - data < rdlen {
            return None;
        }
        if rtype == 1 && rclass == 1 && rdlen == 4 {
            return Some(Ipv4Addr::new(buf[data], buf[data + 1], buf[data + 2], buf[data + 3]));
        }
        off = data + rdlen;
        j += 1;
    }
    None
}

// ---- asking the servers ----

/// The outcome of asking one server: nothing usable came back (the address is
/// malformed, nothing could be sent or received), or a message did.
pub enum Answer {
    Nothing,
    Message(Vec<u8>),
}

impl Answer {
    /// The address that the answer gives to `query`.
    pub open spec fn address(self, query: Seq<u8>) -> Option<Ipv4Addr> {
        match self {
            Answer::Nothing => None,
            Answer::Message(bytes) => response(bytes@, query),
        }
    }
}

/// A lookup of one name: the query, the servers, how many of them have been
/// asked, and what was found.
pub struct Lookup {
    query: Vec<u8>,
    servers: Vec<String>,
    asked: usize,
    found: Option<Ipv4Addr>,
}

/// What a lookup amounts to.
pub struct LookupModel {
    pub query: Seq<u8>,
    pub servers: Seq<Seq<char>>,
    pub asked: nat,
    pub found: Option<Ipv4Addr>,
}

impl View for Lookup {
    type V = LookupModel;

    closed spec fn view(&self) -> LookupModel {
        LookupModel {
            query: self.query@,
            servers: self.servers.deep_view(),
            asked: self.asked as nat,
            found: self.found,
        }
    }
}

impl LookupModel {
    /// What every lookup keeps.
    pub open spec fn wf(self) -> bool {
        self.query.len() >= 2 && self.asked <= self.servers.len()
    }

    /// The server to ask next: none once an address was found or all servers
    /// have been asked.
    pub open spec fn next(self) -> Option<Seq<char>> {
        if self.found is None && self.asked < self.servers.len() {
            Some(self.servers[self.asked as int])
        } else {
            None
        }
    }

    /// The address and port of the server to ask next.
    pub open spec fn asks(self) -> Option<Seq<char>> {
        match self.next() {
            Some(server) => Some(server + ":53"@),
            None => None,
        }
    }

    /// The lookup after the next server answered.
    pub open spec fn answered(self, answer: Answer) -> LookupModel {
        LookupModel { asked: self.asked + 1, found: answer.address(self.query), ..self }
    }

    /// The lookup after the servers from the next one on answered in turn,
    /// until there is nothing more to ask.
    pub open spec fn run(self, answers: Seq<Answer>) -> LookupModel
        decreases answers.len(),
    {
        if self.next() is None || answers.len() == 0 {
            self
        } else {
            self.answered(answers[0]).run(answers.drop_first())
        }
    }
}

/// The lookup of `name` at the given servers, in order.
pub open spec fn lookup_for(
    name: Seq<char>,
    servers: Seq<Seq<char>>,
    subsec_nanos: Option<u32>,
) -> Option<LookupModel> {
    if servers.len() > 0 && query_for(name, subsec_nanos) is Some {
        Some(
            LookupModel { query: query_for(name, subsec_nanos)->0, servers, asked: 0, found: None },
        )
    } else {
        None
    }
}

/// Starts the lookup of `name` at the given servers, in order. There is none
/// without servers or without a query for the name.
pub fn resolve_a(name: &str, servers: &Vec<String>, subsec_nanos: Option<u32>) -> (r: Option<Lookup>)
    ensures
        r is Some <==> lookup_for(name@, servers.deep_view(), subsec_nanos) is Some,
        r matches Some(l) ==> Some(l@) == lookup_for(name@, servers.deep_view(), subsec_nanos),
        r is Some <==> servers@.len() > 0 && subsec_nanos is Some && labels_ok(labels_of(name@)),
        r matches Some(l) ==> l@.wf() && l@ == (LookupModel {
            query: query((subsec_nanos->0 % 65536) as u16, name@),
            servers: servers.deep_view(),
            asked: 0,
            found: None,
        }),
{
    if servers.len() == 0 {
        return None;
    }
    match build_query(name, subsec_nanos) {
        Some(query) => Some(
            Lookup { query, servers: text::copied(servers), asked: 0, found: None },
        ),
        None => None,
    }
}

impl Lookup {
    /// The address and port of the server to ask next.
    pub fn ask(&self) -> (r: Option<String>)
        requires
            self@.wf(),
        ensures
            r.deep_view() == self@.asks(),
            r is Some <==> self@.next() is Some,
            r matches Some(address) ==> address@ == self@.next()->0 + ":53"@,
    {
        if self.found.is_none() && self.asked < self.servers.len() {
            proof {
                assert(self.servers.deep_view()[self.asked as int]
                    == self.servers@[self.asked as int]@);
            }
            Some(text::cat(self.servers[self.asked].as_str(), ":53"))
        } else {
            None
        }
    }

    /// The bytes to send to each server.
    pub fn query(&self) -> (r: &Vec<u8>)
        ensures
            r@ == self@.query,
    {
        &self.query
    }

    /// Takes the outcome of asking the next server.
    pub fn answer(&mut self, answer: Answer)
        requires
            old(self)@.wf(),
            old(self)@.next() is Some,
        ensures
            final(self)@.wf(),
            final(self)@ == old(self)@.answered(answer),
    {
        self.found = match answer {
            Answer::Nothing => None,
            Answer::Message(bytes) => parse_response(bytes.as_slice(), self.query.as_slice()),
        };
        proof {
            assert(self.servers.deep_view().len() == self.servers.len());
        }
        self.asked += 1;
    }

    /// The address that was found.
    pub fn found(&self) -> (r: Option<Ipv4Addr>)
        ensures
            r == self@.found,
    {
        self.found
    }
}

} // verus!
