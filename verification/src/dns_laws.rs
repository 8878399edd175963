//! What holds of queries, responses and lookups as a whole.
use vstd::prelude::*;
use vstd::utf8::*;

use crate::dns;
use crate::ipv4::Ipv4Addr;
use crate::text;
use crate::text_laws;

verus! {

/// A resource record as a server sends it.
pub struct WireRecord {
    pub name: Seq<u8>,
    pub rtype: u16,
    pub rclass: u16,
    pub ttl: Seq<u8>,
    pub data: Seq<u8>,
}

impl WireRecord {
    /// The name is complete in itself (labels and a zero byte, or labels and a
    /// pointer), and the lengths fit their fields.
    pub open spec fn valid(self) -> bool {
        &&& dns::name_end(self.name, 0) == Some(self.name.len() as int)
        &&& self.ttl.len() == 4
        &&& self.data.len() <= 65535
    }

    /// The bytes of the record.
    pub open spec fn bytes(self) -> Seq<u8> {
        self.name + two_bytes(self.rtype) + two_bytes(self.rclass) + self.ttl + two_bytes(
            self.data.len() as u16,
        ) + self.data
    }

    /// The address in the record.
    pub open spec fn address(self) -> Option<Ipv4Addr> {
        dns::address_in(self.rtype as int, self.rclass as int, self.data)
    }
}

/// A number in two bytes, the higher one first.
pub open spec fn two_bytes(n: u16) -> Seq<u8> {
    seq![(n / 256) as u8, (n % 256) as u8]
}

/// The bytes of several records in a row.
pub open spec fn records_bytes(records: Seq<WireRecord>) -> Seq<u8>
    decreases records.len(),
{
    if records.len() == 0 {
        seq![]
    } else {
        records[0].bytes() + records_bytes(records.drop_first())
    }
}

/// The address in the first record that holds one.
pub open spec fn first_of(records: Seq<WireRecord>) -> Option<Ipv4Addr>
    decreases records.len(),
{
    if records.len() == 0 {
        None
    } else {
        match records[0].address() {
            Some(ip) => Some(ip),
            None => first_of(records.drop_first()),
        }
    }
}

/// A response that echoes the question for `name` and carries `records`.
pub open spec fn reply(
    id: u16,
    flags_hi: u8,
    flags_lo: u8,
    name: Seq<char>,
    records: Seq<WireRecord>,
    more: Seq<u8>,
) -> Seq<u8> {
    dns::header(id, flags_hi, flags_lo, 1, records.len() as u16) + dns::question(name)
        + records_bytes(records) + more
}

/// A complete name ends at the same place wherever it stands.
proof fn lemma_name_moves(name: Seq<u8>, k: int, buf: Seq<u8>, off: int)
    requires
        0 <= k,
        0 <= off,
        off + name.len() <= buf.len(),
        buf.subrange(off, off + name.len()) == name,
        dns::name_end(name, k) is Some,
    ensures
        dns::name_end(buf, off + k) == Some(off + dns::name_end(name, k)->0),
    decreases name.len() - k,
{
    assert(buf[off + k] == name[k]);
    if 0 < name[k] < 0xC0 {
        assert(dns::name_end(name, k + 1 + name[k]) is Some);
        lemma_name_moves(name, k + 1 + name[k], buf, off);
    }
}

/// Labels behind which a zero byte stands are skipped as a whole.
proof fn lemma_labels_skipped(labels: Seq<Seq<u8>>, buf: Seq<u8>, off: int)
    requires
        dns::labels_ok(labels),
        0 <= off,
        off + dns::wire_labels(labels).len() < buf.len(),
        buf.subrange(off, off + dns::wire_labels(labels).len()) == dns::wire_labels(labels),
        buf[off + dns::wire_labels(labels).len()] == 0,
    ensures
        dns::name_end(buf, off) == Some(off + dns::wire_labels(labels).len() + 1),
    decreases labels.len(),
{
    let wire = dns::wire_labels(labels);
    if labels.len() > 0 {
        let label = labels[0];
        let rest = labels.drop_first();
        assert(dns::label_ok(label));
        assert(buf[off] == wire[0]);
        let next = off + 1 + label.len();
        let tail = dns::wire_labels(rest);
        assert(wire =~= seq![label.len() as u8] + label + tail);
        assert(buf.subrange(next, next + tail.len()) =~= tail) by {
            assert forall|i: int| 0 <= i < tail.len() implies #[trigger] buf.subrange(
                next,
                next + tail.len(),
            )[i] == tail[i] by {
                assert(buf.subrange(off, off + wire.len())[1 + label.len() + i] == wire[1
                    + label.len() + i]);
            }
        }
        assert forall|i: int| 0 <= i < rest.len() implies dns::label_ok(#[trigger] rest[i]) by {
            assert(rest[i] == labels[i + 1]);
        }
        lemma_labels_skipped(rest, buf, next);
    }
}

/// One record is read back as it was sent.
proof fn lemma_record_read(record: WireRecord, buf: Seq<u8>, off: int)
    requires
        record.valid(),
        0 <= off,
        off + record.bytes().len() <= buf.len(),
        buf.subrange(off, off + record.bytes().len()) == record.bytes(),
    ensures
        dns::record_at(buf, off) == Some(
            dns::Record {
                rtype: record.rtype as int,
                rclass: record.rclass as int,
                data: record.data,
                end: off + record.bytes().len(),
            },
        ),
{
    let bytes = record.bytes();
    let n = record.name.len() as int;
    let part = buf.subrange(off, off + bytes.len());
    assert forall|i: int| 0 <= i < bytes.len() implies #[trigger] buf[off + i] == bytes[i] by {
        assert(part[i] == buf[off + i]);
    }
    assert(buf.subrange(off, off + n) =~= record.name) by {
        assert forall|i: int| 0 <= i < n implies buf[off + i] == record.name[i] by {
            assert(bytes[i] == record.name[i]);
        }
    }
    lemma_name_moves(record.name, 0, buf, off);
    let p = off + n;
    assert(buf[off + n] == bytes[n]);
    assert(buf[off + (n + 1)] == bytes[n + 1]);
    assert(buf[off + (n + 2)] == bytes[n + 2]);
    assert(buf[off + (n + 3)] == bytes[n + 3]);
    assert(buf[off + (n + 8)] == bytes[n + 8]);
    assert(buf[off + (n + 9)] == bytes[n + 9]);
    assert(dns::be16(buf, p) == record.rtype);
    assert(dns::be16(buf, p + 2) == record.rclass);
    assert(dns::be16(buf, p + 8) == record.data.len());
    assert(buf.subrange(p + 10, p + 10 + record.data.len()) =~= record.data) by {
        assert forall|i: int| 0 <= i < record.data.len() implies #[trigger] buf.subrange(
            p + 10,
            p + 10 + record.data.len(),
        )[i] == record.data[i] by {
            assert(buf[off + (n + 10 + i)] == bytes[n + 10 + i]);
        }
    }
}

/// The records of a message are searched in order.
proof fn lemma_records_read(records: Seq<WireRecord>, buf: Seq<u8>, off: int)
    requires
        forall|i: int| 0 <= i < records.len() ==> (#[trigger] records[i]).valid(),
        0 <= off,
        off + records_bytes(records).len() <= buf.len(),
        buf.subrange(off, off + records_bytes(records).len()) == records_bytes(records),
    ensures
        dns::first_address(buf, off, records.len()) == first_of(records),
    decreases records.len(),
{
    if records.len() > 0 {
        let first = records[0];
        let rest = records.drop_first();
        let all = records_bytes(records);
        let head = first.bytes();
        let tail = records_bytes(rest);
        assert(all =~= head + tail);
        let part = buf.subrange(off, off + all.len());
        assert(buf.subrange(off, off + head.len()) =~= head) by {
            assert forall|i: int| 0 <= i < head.len() implies buf[off + i] == head[i] by {
                assert(part[i] == all[i]);
            }
        }
        lemma_record_read(first, buf, off);
        let next = off + head.len();
        assert(buf.subrange(next, next + tail.len()) =~= tail) by {
            assert forall|i: int| 0 <= i < tail.len() implies #[trigger] buf.subrange(
                next,
                next + tail.len(),
            )[i] == tail[i] by {
                assert(part[head.len() + i] == all[head.len() + i]);
            }
        }
        assert forall|i: int| 0 <= i < rest.len() implies (#[trigger] rest[i]).valid() by {
            assert(rest[i] == records[i + 1]);
        }
        lemma_records_read(rest, buf, next);
    }
}

/// A successful reply to a query gives the address in the first of its answer
/// records that holds one, whatever other records stand around it and whatever
/// bytes follow.
pub proof fn law_reply_gives_first_address(
    id: u16,
    flags_hi: u8,
    flags_lo: u8,
    name: Seq<char>,
    records: Seq<WireRecord>,
    more: Seq<u8>,
)
    requires
        dns::labels_ok(dns::labels_of(name)),
        flags_hi >= 0x80,
        flags_lo % 16 == 0,
        0 < records.len() <= 65535,
        forall|i: int| 0 <= i < records.len() ==> (#[trigger] records[i]).valid(),
    ensures
        dns::response(reply(id, flags_hi, flags_lo, name, records, more), dns::query(id, name))
            == first_of(records),
{
    let labels = dns::labels_of(name);
    let wire = dns::wire_labels(labels);
    let head = dns::header(id, flags_hi, flags_lo, 1, records.len() as u16);
    let buf = reply(id, flags_hi, flags_lo, name, records, more);
    assert(head.len() == 12);
    assert forall|i: int| 0 <= i < 12 implies buf[i] == #[trigger] head[i] by {}
    assert(buf[0] == head[0] && buf[1] == head[1] && buf[2] == head[2] && buf[3] == head[3]);
    assert(buf[4] == head[4] && buf[5] == head[5] && buf[6] == head[6] && buf[7] == head[7]);
    assert(dns::query(id, name)[0] == dns::header(id, 1, 0, 1, 0)[0]);
    assert(dns::query(id, name)[1] == dns::header(id, 1, 0, 1, 0)[1]);
    assert(dns::be16(buf, 4) == 1);
    assert(dns::be16(buf, 6) == records.len());
    assert(buf.subrange(12, 12int + wire.len()) =~= wire);
    lemma_labels_skipped(labels, buf, 12);
    let off: int = 12int + wire.len() + 5;
    assert(dns::questions_end(buf, 12, 1) == dns::questions_end(buf, off, 0));
    let body = records_bytes(records);
    assert(buf.subrange(off, off + body.len()) =~= body);
    lemma_records_read(records, buf, off);
}

/// No address is taken from a message that carries another identification, is
/// not marked as a response, reports an error, or has no answer.
pub proof fn law_other_messages_give_nothing(buf: Seq<u8>, query: Seq<u8>)
    requires
        buf.len() < 12 || buf[0] != query[0] || buf[1] != query[1] || buf[2] < 0x80 || buf[3] % 16
            != 0 || (buf[6] == 0 && buf[7] == 0),
    ensures
        dns::response(buf, query) is None,
{
}

/// A lookup gives the address from the first answer that holds one, after
/// asking exactly the servers up to that one, in the order in which they were
/// given; if no answer holds one, it has asked as many servers as answered.
pub proof fn law_first_server_with_an_address(lookup: dns::LookupModel, answers: Seq<dns::Answer>)
    requires
        lookup.wf(),
        lookup.found is None,
        lookup.asked + answers.len() <= lookup.servers.len(),
    ensures
        ({
            let end = lookup.run(answers);
            let used = end.asked - lookup.asked;
            &&& 0 <= used <= answers.len()
            &&& end.servers == lookup.servers && end.query == lookup.query
            &&& forall|i: int|
                0 <= i < used - 1 ==> (#[trigger] answers[i]).address(lookup.query) is None
            &&& end.found is None ==> used == answers.len()
            &&& used == 0 ==> end.found is None
            &&& used > 0 ==> end.found == answers[used - 1].address(lookup.query)
        }),
    decreases answers.len(),
{
    if answers.len() > 0 {
        let next = lookup.answered(answers[0]);
        let rest = answers.drop_first();
        let end = lookup.run(answers);
        if next.found is None {
            law_first_server_with_an_address(next, rest);
            let used = end.asked - lookup.asked;
            assert forall|i: int| 0 <= i < used - 1 implies (#[trigger] answers[i]).address(
                lookup.query,
            ) is None by {
                if i > 0 {
                    assert(rest[i - 1] == answers[i]);
                }
            }
            if used > 1 {
                assert(rest[used - 2] == answers[used - 1]);
            }
        } else {
            assert(next.run(rest) == next);
        }
    }
}

// ---- what a query and a reply say, byte by byte ----

/// The labels that stand from `off` on, up to a zero byte: each is a byte that
/// holds its length, at most 63, and then so many bytes. Also where they end.
pub open spec fn labels_at(buf: Seq<u8>, off: int) -> Option<(Seq<Seq<u8>>, int)>
    decreases buf.len() - off,
{
    if off < 0 || off >= buf.len() {
        None
    } else if buf[off] == 0 {
        Some((seq![], off + 1))
    } else if buf[off] > 63 || off + 1 + buf[off] > buf.len() {
        None
    } else {
        match labels_at(buf, off + 1 + buf[off]) {
            Some((rest, end)) => Some(
                (seq![buf.subrange(off + 1, off + 1 + buf[off])] + rest, end),
            ),
            None => None,
        }
    }
}

proof fn lemma_labels_at(labels: Seq<Seq<u8>>, buf: Seq<u8>, off: int)
    requires
        dns::labels_ok(labels),
        0 <= off,
        off + dns::wire_labels(labels).len() < buf.len(),
        buf.subrange(off, off + dns::wire_labels(labels).len()) == dns::wire_labels(labels),
        buf[off + dns::wire_labels(labels).len()] == 0,
    ensures
        labels_at(buf, off) == Some((labels, off + dns::wire_labels(labels).len() + 1)),
    decreases labels.len(),
{
    let wire = dns::wire_labels(labels);
    let part = buf.subrange(off, off + wire.len());
    if labels.len() > 0 {
        let label = labels[0];
        let rest = labels.drop_first();
        assert(dns::label_ok(label));
        let tail = dns::wire_labels(rest);
        assert(wire =~= seq![label.len() as u8] + label + tail);
        assert(buf[off] == part[0]);
        let next = off + 1 + label.len();
        assert(buf.subrange(off + 1, next) =~= label) by {
            assert forall|i: int| 0 <= i < label.len() implies buf[off + 1 + i] == label[i] by {
                assert(part[1 + i] == wire[1 + i]);
            }
        }
        assert(buf.subrange(next, next + tail.len()) =~= tail) by {
            assert forall|i: int| 0 <= i < tail.len() implies buf[next + i] == tail[i] by {
                assert(part[1 + label.len() + i] == wire[1 + label.len() + i]);
            }
        }
        assert forall|i: int| 0 <= i < rest.len() implies dns::label_ok(#[trigger] rest[i]) by {
            assert(rest[i] == labels[i + 1]);
        }
        lemma_labels_at(rest, buf, next);
        assert(seq![label] + rest =~= labels);
    } else {
        assert(labels =~= seq![]);
    }
}

proof fn lemma_wire_length(labels: Seq<Seq<u8>>, sep: u8)
    requires
        labels.len() > 0,
    ensures
        dns::wire_labels(labels).len() == text::join(labels, seq![sep]).len() + 1,
    decreases labels.len(),
{
    if labels.len() > 1 {
        lemma_wire_length(labels.drop_first(), sep);
        text::lemma_join_front(labels, seq![sep]);
    } else {
        assert(dns::wire_labels(labels.drop_first()).len() == 0);
    }
}

/// What a query asks: behind twelve bytes of head, with the identification, a
/// wish for recursion and one question, stand the parts of the name between
/// its dots, each after its length, then a zero, type A and class IN; and there
/// is nothing else in it.
pub proof fn law_query_asks_for_the_name(id: u16, name: Seq<char>)
    requires
        dns::labels_ok(dns::labels_of(name)),
    ensures
        ({
            let q = dns::query(id, name);
            let read = labels_at(q, 12);
            &&& q.take(12) == seq![(id / 256) as u8, (id % 256) as u8, 1, 0, 0, 1, 0, 0, 0, 0, 0, 0]
            &&& read is Some
            &&& text::join((read->0).0, seq![46u8]) == encode_utf8(name)
            &&& forall|i: int, j: int|
                0 <= i < (read->0).0.len() && 0 <= j < (read->0).0[i].len()
                    ==> #[trigger] (read->0).0[i][j] != 46
            &&& (read->0).1 + 4 == q.len()
            &&& q.skip((read->0).1) == seq![0u8, 1, 0, 1]
            &&& q.len() == 12 + encode_utf8(name).len() + 2 + 4
        }),
{
    let q = dns::query(id, name);
    let labels = dns::labels_of(name);
    let wire = dns::wire_labels(labels);
    text_laws::law_pieces_make_up_the_text(encode_utf8(name), 46u8);
    lemma_wire_length(labels, 46u8);
    assert(q.take(12) =~= seq![(id / 256) as u8, (id % 256) as u8, 1, 0, 0, 1, 0, 0, 0, 0, 0, 0]);
    assert(q.subrange(12, 12int + wire.len()) =~= wire);
    assert(q[12int + wire.len()] == 0);
    lemma_labels_at(labels, q, 12);
    assert(q.skip(12int + wire.len() + 1) =~= seq![0u8, 1, 0, 1]);
}

/// Which names can be asked for: those whose parts between the dots all have
/// one to 63 bytes.
pub proof fn law_names_that_can_be_asked(name: Seq<char>, parts: Seq<Seq<u8>>)
    requires
        parts.len() > 0,
        forall|i: int, j: int|
            0 <= i < parts.len() && 0 <= j < parts[i].len() ==> #[trigger] parts[i][j] != 46,
        text::join(parts, seq![46u8]) == encode_utf8(name),
    ensures
        dns::labels_ok(dns::labels_of(name)) <==> forall|i: int|
            0 <= i < parts.len() ==> 1 <= (#[trigger] parts[i]).len() <= 63,
{
    text::law_join_splits_back(parts, 46u8);
    let labels = dns::labels_of(name);
    assert(labels == parts);
    if forall|i: int| 0 <= i < parts.len() ==> 1 <= (#[trigger] parts[i]).len() <= 63 {
        assert forall|i: int| 0 <= i < labels.len() implies dns::label_ok(#[trigger] labels[i]) by {
            assert(1 <= parts[i].len() <= 63);
        }
    }
    if dns::labels_ok(labels) {
        assert forall|i: int| 0 <= i < parts.len() implies 1 <= (#[trigger] parts[i]).len()
            <= 63 by {
            assert(dns::label_ok(labels[i]));
        }
    }
}

/// A record of an answer: the labels of its name, each short enough not to be
/// taken for a pointer, and, unless the name ends there, a pointer to the rest
/// of it.
pub struct AnswerRecord {
    pub labels: Seq<Seq<u8>>,
    pub pointer: Option<(u8, u8)>,
    pub rtype: u16,
    pub rclass: u16,
    pub ttl: Seq<u8>,
    pub data: Seq<u8>,
}

/// Labels, each after its length.
pub open spec fn label_bytes(labels: Seq<Seq<u8>>) -> Seq<u8>
    decreases labels.len(),
{
    if labels.len() == 0 {
        seq![]
    } else {
        seq![labels[0].len() as u8] + labels[0] + label_bytes(labels.drop_first())
    }
}

impl AnswerRecord {
    pub open spec fn valid(self) -> bool {
        &&& forall|i: int|
            0 <= i < self.labels.len() ==> 1 <= (#[trigger] self.labels[i]).len() <= 191
        &&& self.pointer is Some ==> (self.pointer->0).0 >= 0xC0
        &&& self.ttl.len() == 4
        &&& self.data.len() <= 65535
    }

    /// The bytes of the name.
    pub open spec fn name(self) -> Seq<u8> {
        label_bytes(self.labels) + match self.pointer {
            Some((high, low)) => seq![high, low],
            None => seq![0u8],
        }
    }

    /// The bytes of the record.
    pub open spec fn bytes(self) -> Seq<u8> {
        self.name() + seq![
            (self.rtype / 256) as u8,
            (self.rtype % 256) as u8,
            (self.rclass / 256) as u8,
            (self.rclass % 256) as u8,
        ] + self.ttl + seq![
            (self.data.len() / 256) as u8,
            (self.data.len() % 256) as u8,
        ] + self.data
    }

    /// Whether the record holds an address: type A, class IN, four bytes.
    pub open spec fn is_address(self) -> bool {
        self.rtype == 1 && self.rclass == 1 && self.data.len() == 4
    }

    spec fn wire(self) -> WireRecord {
        WireRecord {
            name: self.name(),
            rtype: self.rtype,
            rclass: self.rclass,
            ttl: self.ttl,
            data: self.data,
        }
    }
}

/// The bytes of several records in a row.
pub open spec fn answer_bytes(records: Seq<AnswerRecord>) -> Seq<u8>
    decreases records.len(),
{
    if records.len() == 0 {
        seq![]
    } else {
        records[0].bytes() + answer_bytes(records.drop_first())
    }
}

proof fn lemma_name_ends(labels: Seq<Seq<u8>>, tail: Seq<u8>)
    requires
        forall|i: int| 0 <= i < labels.len() ==> 1 <= (#[trigger] labels[i]).len() <= 191,
        tail == seq![0u8] || (tail.len() == 2 && tail[0] >= 0xC0),
    ensures
        dns::name_end(label_bytes(labels) + tail, 0) == Some(
            (label_bytes(labels) + tail).len() as int,
        ),
    decreases labels.len(),
{
    let all = label_bytes(labels) + tail;
    if labels.len() == 0 {
        assert(all =~= tail);
    } else {
        let label = labels[0];
        let rest = labels.drop_first();
        assert forall|i: int| 0 <= i < rest.len() implies 1 <= (#[trigger] rest[i]).len()
            <= 191 by {
            assert(rest[i] == labels[i + 1]);
        }
        lemma_name_ends(rest, tail);
        let name = label_bytes(rest) + tail;
        let off = 1 + label.len() as int;
        assert(1 <= labels[0].len() <= 191);
        assert(all[0] == label.len());
        assert(all.subrange(off, off + name.len()) =~= name);
        lemma_name_moves(name, 0, all, off);
    }
}

proof fn lemma_wire_records(records: Seq<AnswerRecord>) -> (wires: Seq<WireRecord>)
    requires
        forall|i: int| 0 <= i < records.len() ==> (#[trigger] records[i]).valid(),
    ensures
        wires.len() == records.len(),
        forall|i: int| 0 <= i < wires.len() ==> #[trigger] wires[i] == records[i].wire(),
        forall|i: int| 0 <= i < wires.len() ==> (#[trigger] wires[i]).valid(),
        records_bytes(wires) == answer_bytes(records),
    decreases records.len(),
{
    if records.len() == 0 {
        seq![]
    } else {
        let r = records[0];
        let rest = records.drop_first();
        assert forall|i: int| 0 <= i < rest.len() implies (#[trigger] rest[i]).valid() by {
            assert(rest[i] == records[i + 1]);
        }
        let more = lemma_wire_records(rest);
        let wires = seq![r.wire()] + more;
        assert(wires.drop_first() =~= more);
        assert(records[0].valid());
        lemma_name_ends(
            r.labels,
            match r.pointer {
                Some((high, low)) => seq![high, low],
                None => seq![0u8],
            },
        );
        assert(r.wire().bytes() =~= r.bytes());
        assert forall|i: int| 0 <= i < wires.len() implies #[trigger] wires[i]
            == records[i].wire() && wires[i].valid() by {
            if i > 0 {
                assert(wires[i] == more[i - 1]);
                assert(rest[i - 1] == records[i]);
            }
        }
        wires
    }
}

proof fn lemma_first_of(wires: Seq<WireRecord>, k: int)
    requires
        0 <= k <= wires.len(),
        forall|i: int|
            0 <= i < k ==> !((#[trigger] wires[i]).rtype == 1 && wires[i].rclass == 1
                && wires[i].data.len() == 4),
        k < wires.len() ==> wires[k].rtype == 1 && wires[k].rclass == 1 && wires[k].data.len() == 4,
    ensures
        k == wires.len() ==> first_of(wires) is None,
        k < wires.len() ==> first_of(wires) == Some(
            Ipv4Addr {
                a: wires[k].data[0],
                b: wires[k].data[1],
                c: wires[k].data[2],
                d: wires[k].data[3],
            },
        ),
    decreases wires.len(),
{
    if k > 0 {
        let rest = wires.drop_first();
        assert(!(wires[0].rtype == 1 && wires[0].rclass == 1 && wires[0].data.len() == 4));
        assert forall|i: int| 0 <= i < k - 1 implies !((#[trigger] rest[i]).rtype == 1
            && rest[i].rclass == 1 && rest[i].data.len() == 4) by {
            assert(rest[i] == wires[i + 1]);
        }
        lemma_first_of(rest, k - 1);
    }
}

/// What a reply means: a message with the identification of the query, marked
/// as a response without an error, that repeats the question and carries some
/// records gives the four bytes of the first record of type A and class IN, or
/// nothing if there is none, whatever follows.
pub proof fn law_reply_means_its_first_address(
    id: u16,
    name: Seq<char>,
    head: Seq<u8>,
    records: Seq<AnswerRecord>,
    more: Seq<u8>,
    k: int,
)
    requires
        dns::labels_ok(dns::labels_of(name)),
        head.len() == 12,
        head[0] == id / 256 && head[1] == id % 256,
        head[2] >= 128,
        head[3] % 16 == 0,
        head[4] == 0 && head[5] == 1,
        head[6] * 256 + head[7] == records.len(),
        records.len() > 0,
        forall|i: int| 0 <= i < records.len() ==> (#[trigger] records[i]).valid(),
        0 <= k <= records.len(),
        forall|i: int| 0 <= i < k ==> !(#[trigger] records[i]).is_address(),
        k < records.len() ==> records[k].is_address(),
    ensures
        ({
            let q = dns::query(id, name);
            let r = dns::response(head + q.skip(12) + answer_bytes(records) + more, q);
            &&& k == records.len() ==> r is None
            &&& k < records.len() ==> r == Some(
                Ipv4Addr {
                    a: records[k].data[0],
                    b: records[k].data[1],
                    c: records[k].data[2],
                    d: records[k].data[3],
                },
            )
        }),
{
    let q = dns::query(id, name);
    let labels = dns::labels_of(name);
    let wire = dns::wire_labels(labels);
    let body = answer_bytes(records);
    let buf = head + q.skip(12) + body + more;
    assert(q.skip(12) =~= dns::question(name));
    assert(q[0] == head[0] && q[1] == head[1]);
    assert(buf[0] == head[0] && buf[1] == head[1] && buf[2] == head[2] && buf[3] == head[3]);
    assert(buf[4] == head[4] && buf[5] == head[5] && buf[6] == head[6] && buf[7] == head[7]);
    assert(dns::be16(buf, 4) == 1);
    assert(dns::be16(buf, 6) == records.len());
    assert(buf.subrange(12, 12int + wire.len()) =~= wire);
    lemma_labels_skipped(labels, buf, 12);
    let off: int = 12int + wire.len() + 5;
    assert(dns::questions_end(buf, 12, 1) == dns::questions_end(buf, off, 0));
    let wires = lemma_wire_records(records);
    assert(buf.subrange(off, off + body.len()) =~= body);
    lemma_records_read(wires, buf, off);
    assert forall|i: int| 0 <= i < k implies !((#[trigger] wires[i]).rtype == 1
        && wires[i].rclass == 1 && wires[i].data.len() == 4) by {
        assert(!records[i].is_address());
    }
    if k < records.len() {
        assert(wires[k] == records[k].wire());
    }
    lemma_first_of(wires, k);
}

/// Whether a record of an address, of type A and class IN, stands in a message
/// from its type on.
pub open spec fn address_stands_at(buf: Seq<u8>, p: int, ip: Ipv4Addr) -> bool {
    &&& 12 <= p
    &&& p + 14 <= buf.len()
    &&& buf[p] == 0 && buf[p + 1] == 1 && buf[p + 2] == 0 && buf[p + 3] == 1
    &&& buf[p + 8] == 0 && buf[p + 9] == 4
    &&& buf[p + 10] == ip.a && buf[p + 11] == ip.b && buf[p + 12] == ip.c && buf[p + 13] == ip.d
}

proof fn lemma_name_end_grows(buf: Seq<u8>, off: int)
    ensures
        dns::name_end(buf, off) matches Some(end) ==> end > off,
    decreases buf.len() - off,
{
    reveal_with_fuel(dns::name_end, 2);
    if 0 <= off < buf.len() && 0 < buf[off] < 0xC0 && off + 1 + buf[off] < buf.len() {
        lemma_name_end_grows(buf, off + 1 + buf[off]);
    }
}

proof fn lemma_questions_end_grows(buf: Seq<u8>, off: int, n: nat)
    ensures
        dns::questions_end(buf, off, n) matches Some(end) ==> end >= off,
    decreases n,
{
    if n > 0 {
        lemma_name_end_grows(buf, off);
        if let Some(end) = dns::name_end(buf, off) {
            lemma_questions_end_grows(buf, end + 4, (n - 1) as nat);
        }
    }
}

proof fn lemma_address_stands(buf: Seq<u8>, off: int, n: nat)
    requires
        off >= 12,
    ensures
        dns::first_address(buf, off, n) matches Some(ip) ==> exists|p: int|
            #[trigger] address_stands_at(buf, p, ip),
    decreases n,
{
    if n > 0 {
        lemma_name_end_grows(buf, off);
        if let Some(r) = dns::record_at(buf, off) {
            let p = dns::name_end(buf, off)->0;
            match dns::address_in(r.rtype, r.rclass, r.data) {
                Some(ip) => {
                    assert(r.data[0] == buf[p + 10] && r.data[1] == buf[p + 11] && r.data[2]
                        == buf[p + 12] && r.data[3] == buf[p + 13]);
                    assert(address_stands_at(buf, p, ip));
                },
                None => {
                    lemma_address_stands(buf, r.end, (n - 1) as nat);
                },
            }
        }
    }
}

/// An address is never made up: what a message gives stands in it, in a record
/// of type A and class IN. And it is taken from no message but one of at least
/// twelve bytes with the identification of the query, marked as a response
/// without an error, with a question and an answer.
pub proof fn law_address_is_from_the_message(buf: Seq<u8>, query: Seq<u8>)
    ensures
        dns::response(buf, query) matches Some(ip) ==> exists|p: int|
            #[trigger] address_stands_at(buf, p, ip),
        dns::response(buf, query) is Some ==> buf.len() >= 12 && buf[0] == query[0] && buf[1]
            == query[1] && buf[2] >= 128 && buf[3] % 16 == 0 && (buf[4] > 0 || buf[5] > 0) && (
        buf[6] > 0 || buf[7] > 0),
{
    if dns::accepted(buf, query) {
        let qd = dns::be16(buf, 4) as nat;
        lemma_questions_end_grows(buf, 12, qd);
        if let Some(off) = dns::questions_end(buf, 12, qd) {
            lemma_address_stands(buf, off, dns::be16(buf, 6) as nat);
        }
    }
}

/// A name is skipped to its end, wherever in a message it stands: over its
/// labels and the zero or the pointer behind them. Behind the end of a message
/// there is no name.
pub proof fn law_names_are_skipped(front: Seq<u8>, record: AnswerRecord, more: Seq<u8>)
    requires
        record.valid(),
    ensures
        dns::name_end(front + record.name() + more, front.len() as int) == Some(
            (front.len() + record.name().len()) as int,
        ),
        dns::name_end(front, front.len() as int) is None,
{
    let name = record.name();
    let buf = front + name + more;
    let off = front.len() as int;
    lemma_name_ends(
        record.labels,
        match record.pointer {
            Some((high, low)) => seq![high, low],
            None => seq![0u8],
        },
    );
    assert(buf.subrange(off, off + name.len()) =~= name);
    lemma_name_moves(name, 0, buf, off);
}

/// A query is made for every name that can be asked for, if there is a clock;
/// its identification is the low 16 bits of the nanoseconds. Nothing else has
/// one.
pub proof fn law_when_there_is_a_query(name: Seq<char>, nanos: u32)
    ensures
        dns::query_for(name, None) is None,
        dns::query_for(name, Some(nanos)) is Some <==> dns::labels_ok(dns::labels_of(name)),
        dns::query_for(name, Some(nanos)) matches Some(q) ==> q == dns::query(
            (nanos % 65536) as u16,
            name,
        ) && q[0] * 256 + q[1] == nanos % 65536,
{
    if dns::labels_ok(dns::labels_of(name)) {
        let id = (nanos % 65536) as u16;
        law_query_asks_for_the_name(id, name);
        let q = dns::query(id, name);
        assert(q[0] == q.take(12)[0] && q[1] == q.take(12)[1]);
    }
}

/// A lookup begins with nothing asked and nothing found, and there is one if
/// there is a query and a server. It asks its servers in their order, each at
/// port 53, with the same query, until one gives an address.
pub proof fn law_lookup_steps(
    name: Seq<char>,
    servers: Seq<Seq<char>>,
    nanos: Option<u32>,
    l: dns::LookupModel,
    bytes: Vec<u8>,
)
    ensures
        dns::lookup_for(name, servers, nanos) is Some <==> servers.len() > 0 && dns::query_for(
            name,
            nanos,
        ) is Some,
        dns::lookup_for(name, servers, nanos) matches Some(start) ==> start == (
        dns::LookupModel {
            query: dns::query_for(name, nanos)->0,
            servers,
            asked: 0,
            found: None,
        }),
        l.found is None && l.asked < l.servers.len() ==> l.asks() == Some(
            l.servers[l.asked as int] + seq![':', '5', '3'],
        ),
        l.found is Some || l.asked >= l.servers.len() ==> l.asks() is None,
        l.answered(dns::Answer::Nothing) == (dns::LookupModel {
            asked: l.asked + 1,
            found: None,
            ..l
        }),
        l.answered(dns::Answer::Message(bytes)) == (dns::LookupModel {
            asked: l.asked + 1,
            found: dns::response(bytes@, l.query),
            ..l
        }),
{
    reveal_strlit(":53");
    assert(":53"@ =~= seq![':', '5', '3']);
}

/// Questions in a row: of each its name and the four bytes of its type and
/// class, which stand here for the time to live of a record.
pub open spec fn question_bytes(questions: Seq<AnswerRecord>) -> Seq<u8>
    decreases questions.len(),
{
    if questions.len() == 0 {
        seq![]
    } else {
        questions[0].name() + questions[0].ttl + question_bytes(questions.drop_first())
    }
}

proof fn lemma_questions_end(questions: Seq<AnswerRecord>, buf: Seq<u8>, off: int)
    requires
        forall|i: int| 0 <= i < questions.len() ==> (#[trigger] questions[i]).valid(),
        0 <= off,
        off + question_bytes(questions).len() <= buf.len(),
        buf.subrange(off, off + question_bytes(questions).len()) == question_bytes(questions),
    ensures
        dns::questions_end(buf, off, questions.len()) == Some(
            off + question_bytes(questions).len(),
        ),
    decreases questions.len(),
{
    if questions.len() > 0 {
        let first = questions[0];
        let rest = questions.drop_first();
        let all = question_bytes(questions);
        let part = buf.subrange(off, off + all.len());
        assert(first.valid());
        assert forall|i: int| 0 <= i < rest.len() implies (#[trigger] rest[i]).valid() by {
            assert(rest[i] == questions[i + 1]);
        }
        lemma_name_ends(
            first.labels,
            match first.pointer {
                Some((high, low)) => seq![high, low],
                None => seq![0u8],
            },
        );
        let name = first.name();
        assert(buf.subrange(off, off + name.len()) =~= name) by {
            assert forall|i: int| 0 <= i < name.len() implies buf[off + i] == name[i] by {
                assert(part[i] == all[i]);
            }
        }
        lemma_name_moves(name, 0, buf, off);
        let next = off + name.len() + 4;
        let tail = question_bytes(rest);
        assert(buf.subrange(next, next + tail.len()) =~= tail) by {
            assert forall|i: int| 0 <= i < tail.len() implies buf[next + i] == tail[i] by {
                assert(part[name.len() + 4 + i] == all[name.len() + 4 + i]);
            }
        }
        lemma_questions_end(rest, buf, next);
    }
}

/// What a reply means does not depend on its questions: whatever they are, the
/// four bytes of the first record of type A and class IN behind them are the
/// address.
pub proof fn law_questions_do_not_matter(
    query: Seq<u8>,
    head: Seq<u8>,
    questions: Seq<AnswerRecord>,
    records: Seq<AnswerRecord>,
    more: Seq<u8>,
    k: int,
)
    requires
        head.len() == 12,
        head[0] == query[0] && head[1] == query[1],
        head[2] >= 128,
        head[3] % 16 == 0,
        head[4] * 256 + head[5] == questions.len(),
        head[6] * 256 + head[7] == records.len(),
        questions.len() > 0,
        records.len() > 0,
        forall|i: int| 0 <= i < questions.len() ==> (#[trigger] questions[i]).valid(),
        forall|i: int| 0 <= i < records.len() ==> (#[trigger] records[i]).valid(),
        0 <= k <= records.len(),
        forall|i: int| 0 <= i < k ==> !(#[trigger] records[i]).is_address(),
        k < records.len() ==> records[k].is_address(),
    ensures
        ({
            let r = dns::response(
                head + question_bytes(questions) + answer_bytes(records) + more,
                query,
            );
            &&& k == records.len() ==> r is None
            &&& k < records.len() ==> r == Some(
                Ipv4Addr {
                    a: records[k].data[0],
                    b: records[k].data[1],
                    c: records[k].data[2],
                    d: records[k].data[3],
                },
            )
        }),
{
    let asked = question_bytes(questions);
    let body = answer_bytes(records);
    let buf = head + asked + body + more;
    assert(buf[0] == head[0] && buf[1] == head[1] && buf[2] == head[2] && buf[3] == head[3]);
    assert(buf[4] == head[4] && buf[5] == head[5] && buf[6] == head[6] && buf[7] == head[7]);
    assert(dns::be16(buf, 4) == questions.len());
    assert(dns::be16(buf, 6) == records.len());
    assert(buf.subrange(12, 12 + asked.len() as int) =~= asked);
    lemma_questions_end(questions, buf, 12);
    let off: int = 12 + asked.len() as int;
    let wires = lemma_wire_records(records);
    assert(buf.subrange(off, off + body.len()) =~= body);
    lemma_records_read(wires, buf, off);
    assert forall|i: int| 0 <= i < k implies !((#[trigger] wires[i]).rtype == 1
        && wires[i].rclass == 1 && wires[i].data.len() == 4) by {
        assert(!records[i].is_address());
    }
    if k < records.len() {
        assert(wires[k] == records[k].wire());
    }
    lemma_first_of(wires, k);
}

// ---- replies that are cut off ----

/// Whether a message is the front of another one.
pub open spec fn front_of(part: Seq<u8>, buf: Seq<u8>) -> bool {
    part.len() <= buf.len() && forall|i: int|
        0 <= i < part.len() ==> #[trigger] buf[i] == part[i]
}

/// Where the record ends that gives the first address.
spec fn address_end(buf: Seq<u8>, off: int, n: nat) -> int
    decreases n,
{
    if n == 0 {
        0
    } else {
        match dns::record_at(buf, off) {
            Some(r) => if dns::address_in(r.rtype, r.rclass, r.data) is Some {
                r.end
            } else {
                address_end(buf, r.end, (n - 1) as nat)
            },
            None => 0,
        }
    }
}

proof fn lemma_name_extends(part: Seq<u8>, buf: Seq<u8>, off: int)
    requires
        front_of(part, buf),
    ensures
        dns::name_end(part, off) is Some ==> dns::name_end(buf, off) == dns::name_end(part, off),
    decreases part.len() - off,
{
    reveal_with_fuel(dns::name_end, 2);
    if 0 <= off < part.len() {
        assert(buf[off] == part[off]);
        if 0 < part[off] < 0xC0 && off + 1 + part[off] < part.len() {
            lemma_name_extends(part, buf, off + 1 + part[off]);
        }
    }
}

proof fn lemma_questions_extend(part: Seq<u8>, buf: Seq<u8>, off: int, n: nat)
    requires
        front_of(part, buf),
    ensures
        dns::questions_end(part, off, n) is Some ==> dns::questions_end(buf, off, n)
            == dns::questions_end(part, off, n),
    decreases n,
{
    if n > 0 {
        lemma_name_extends(part, buf, off);
        if let Some(end) = dns::name_end(part, off) {
            lemma_questions_extend(part, buf, end + 4, (n - 1) as nat);
        }
    }
}

proof fn lemma_address_extends(part: Seq<u8>, buf: Seq<u8>, off: int, n: nat)
    requires
        front_of(part, buf),
        off >= 0,
    ensures
        dns::first_address(part, off, n) is Some ==> address_end(buf, off, n) <= part.len(),
    decreases n,
{
    if n > 0 {
        lemma_name_extends(part, buf, off);
        lemma_name_end_grows(part, off);
        if let Some(r) = dns::record_at(part, off) {
            let p = dns::name_end(part, off)->0;
            assert(buf[p] == part[p] && buf[p + 1] == part[p + 1] && buf[p + 2] == part[p + 2]
                && buf[p + 3] == part[p + 3] && buf[p + 8] == part[p + 8] && buf[p + 9] == part[p
                + 9]);
            assert(buf.subrange(p + 10, r.end) =~= part.subrange(p + 10, r.end));
            assert(dns::record_at(buf, off) == Some(r));
            lemma_address_extends(part, buf, r.end, (n - 1) as nat);
        }
    }
}

proof fn lemma_address_end(records: Seq<AnswerRecord>, buf: Seq<u8>, off: int, k: int)
    requires
        forall|i: int| 0 <= i < records.len() ==> (#[trigger] records[i]).valid(),
        0 <= off,
        off + answer_bytes(records).len() <= buf.len(),
        buf.subrange(off, off + answer_bytes(records).len()) == answer_bytes(records),
        0 <= k < records.len(),
        forall|i: int| 0 <= i < k ==> !(#[trigger] records[i]).is_address(),
        records[k].is_address(),
    ensures
        address_end(buf, off, records.len()) == off + answer_bytes(records.take(k + 1)).len(),
    decreases k,
{
    let first = records[0];
    let rest = records.drop_first();
    let all = answer_bytes(records);
    let head = first.bytes();
    let tail = answer_bytes(rest);
    let part = buf.subrange(off, off + all.len());
    assert(records[0].valid());
    let wires = lemma_wire_records(seq![first]);
    assert(wires[0] == seq![first][0].wire());
    assert(first.wire().bytes() =~= head);
    assert(buf.subrange(off, off + head.len()) =~= head) by {
        assert forall|i: int| 0 <= i < head.len() implies buf[off + i] == head[i] by {
            assert(part[i] == all[i]);
        }
    }
    lemma_record_read(first.wire(), buf, off);
    let some = records.take(k + 1);
    assert(some[0] == first);
    if k == 0 {
        assert(some.drop_first() =~= Seq::<AnswerRecord>::empty());
        assert(answer_bytes(some.drop_first()).len() == 0);
        assert(answer_bytes(some).len() == head.len());
    } else {
        assert(!records[0].is_address());
        let next = off + head.len();
        assert(buf.subrange(next, next + tail.len()) =~= tail) by {
            assert forall|i: int| 0 <= i < tail.len() implies buf[next + i] == tail[i] by {
                assert(part[head.len() + i] == all[head.len() + i]);
            }
        }
        assert forall|i: int| 0 <= i < rest.len() implies (#[trigger] rest[i]).valid() by {
            assert(rest[i] == records[i + 1]);
        }
        assert forall|i: int| 0 <= i < k - 1 implies !(#[trigger] rest[i]).is_address() by {
            assert(rest[i] == records[i + 1]);
        }
        lemma_address_end(rest, buf, next, k - 1);
        assert(some.drop_first() =~= rest.take(k));
        assert(answer_bytes(some).len() == head.len() + answer_bytes(rest.take(k)).len());
        assert(address_end(buf, off, records.len()) == address_end(
            buf,
            next,
            (records.len() - 1) as nat,
        ));
    }
}

/// A reply that is cut off before the end of the record with its first address
/// gives no address: neither that one nor another.
pub proof fn law_cut_off_reply_gives_nothing(
    query: Seq<u8>,
    head: Seq<u8>,
    questions: Seq<AnswerRecord>,
    records: Seq<AnswerRecord>,
    k: int,
    m: int,
)
    requires
        head.len() == 12,
        head[4] * 256 + head[5] == questions.len(),
        head[6] * 256 + head[7] == records.len(),
        forall|i: int| 0 <= i < questions.len() ==> (#[trigger] questions[i]).valid(),
        forall|i: int| 0 <= i < records.len() ==> (#[trigger] records[i]).valid(),
        0 <= k < records.len(),
        forall|i: int| 0 <= i < k ==> !(#[trigger] records[i]).is_address(),
        records[k].is_address(),
        0 <= m < 12 + question_bytes(questions).len() + answer_bytes(records.take(k + 1)).len(),
        m <= 12 + question_bytes(questions).len() + answer_bytes(records).len(),
    ensures
        dns::response(
            (head + question_bytes(questions) + answer_bytes(records)).take(m),
            query,
        ) is None,
{
    let asked = question_bytes(questions);
    let body = answer_bytes(records);
    let buf = head + asked + body;
    let part = buf.take(m);
    let off: int = 12 + asked.len() as int;
    assert(buf[4] == head[4] && buf[5] == head[5] && buf[6] == head[6] && buf[7] == head[7]);
    assert(buf.subrange(12, off) =~= asked);
    lemma_questions_end(questions, buf, 12);
    assert(buf.subrange(off, off + body.len()) =~= body);
    lemma_address_end(records, buf, off, k);
    assert(front_of(part, buf));
    if dns::accepted(part, query) {
        assert(part[4] == buf[4] && part[5] == buf[5] && part[6] == buf[6] && part[7] == buf[7]);
        assert(dns::be16(part, 4) == questions.len());
        assert(dns::be16(part, 6) == records.len());
        lemma_questions_extend(part, buf, 12, questions.len());
        if dns::questions_end(part, 12, questions.len()) is Some {
            lemma_address_extends(part, buf, off, records.len());
        }
    }
}

} // verus!
