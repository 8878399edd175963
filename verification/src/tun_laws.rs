//! What holds of moving the tunnel device: which address it has, and which
//! commands run in which order.
use vstd::prelude::*;

use crate::ipv4::Ipv4Addr;
use crate::number;
use crate::text;
use crate::text_laws;
use crate::tun;
use crate::tun::{MovePhase, MoveTunModel};

verus! {

// ---- the address of the device ----

/// Only digits and dots stand in a dotted address, and only digits in a number.
pub proof fn lemma_no_slash(ip: Ipv4Addr, n: nat)
    ensures
        forall|i: int| 0 <= i < number::decimal(n).len() ==> #[trigger] number::decimal(n)[i] != '/',
        forall|i: int| 0 <= i < ip.text().len() ==> #[trigger] ip.text()[i] != '/',
{
    number::law_decimal_reads_back(n);
    assert forall|i: int| 0 <= i < number::decimal(n).len() implies #[trigger] number::decimal(n)[i]
        != '/' by {
        assert(number::is_digit(number::decimal(n)[i]));
    }
    let (a, b, c, d) = (
        number::decimal(ip.a as nat),
        number::decimal(ip.b as nat),
        number::decimal(ip.c as nat),
        number::decimal(ip.d as nat),
    );
    number::law_decimal_reads_back(ip.a as nat);
    number::law_decimal_reads_back(ip.b as nat);
    number::law_decimal_reads_back(ip.c as nat);
    number::law_decimal_reads_back(ip.d as nat);
    reveal_strlit(".");
    let t = ip.text();
    assert forall|i: int| 0 <= i < t.len() implies #[trigger] t[i] != '/' by {
        let (n1, n2, n3) = (
            a.len() as int,
            a.len() + 1 + b.len() as int,
            a.len() + 1 + b.len() + 1 + c.len() as int,
        );
        if i < n1 {
            assert(t[i] == a[i]);
            assert(number::is_digit(a[i]));
        } else if i == n1 || i == n2 || i == n3 {
            assert(t[i] == '.');
        } else if i < n2 {
            assert(t[i] == b[i - n1 - 1]);
            assert(number::is_digit(b[i - n1 - 1]));
        } else if i < n3 {
            assert(t[i] == c[i - n2 - 1]);
            assert(number::is_digit(c[i - n2 - 1]));
        } else {
            assert(t[i] == d[i - n3 - 1]);
            assert(number::is_digit(d[i - n3 - 1]));
        }
    }
}

proof fn lemma_has_slash(s: Seq<char>)
    ensures
        text::contains(s, "/"@) <==> exists|i: int| 0 <= i < s.len() && #[trigger] s[i] == '/',
{
    reveal_strlit("/");
    if text::contains(s, "/"@) {
        let i = choose|i: int| text::occurs_at(s, "/"@, i);
        assert(s.subrange(i, i + 1)[0] == '/');
        assert(s[i] == '/');
    }
    if exists|i: int| 0 <= i < s.len() && #[trigger] s[i] == '/' {
        let i = choose|i: int| 0 <= i < s.len() && #[trigger] s[i] == '/';
        assert(s.subrange(i, i + 1) =~= "/"@);
        assert(text::occurs_at(s, "/"@, i));
    }
}

/// Whether a text has exactly one slash.
pub open spec fn one_slash(s: Seq<char>) -> bool {
    exists|k: int|
        0 <= k < s.len() && #[trigger] s[k] == '/' && forall|i: int|
            0 <= i < s.len() && i != k ==> #[trigger] s[i] != '/'
}

/// When a line tells an address: there is a word `inet` and a word behind the
/// first of them.
pub proof fn law_line_tells_an_address(line: Seq<char>, k: int)
    ensures
        tun::addr_on(line) is Some ==> exists|i: int|
            0 <= i < text::words(line).len() - 1 && #[trigger] text::words(line)[i] == "inet"@,
        0 <= k < text::words(line).len() - 1 && text::words(line)[k] == "inet"@
            ==> tun::addr_on(line) is Some,
{
    let w = text::words(line);
    text::lemma_before(w, "inet"@);
    if tun::addr_on(line) is Some {
        assert(w[text::before(w, "inet"@) as int] == "inet"@);
    }
    if 0 <= k < w.len() - 1 && w[k] == "inet"@ {
        if text::before(w, "inet"@) > k {
            assert(w[k] != "inet"@);
        }
    }
}

/// The local address of the device is the word behind the first `inet`: just
/// as it stands if it has a slash, else with `/32` behind it.
pub proof fn law_local_address(line: Seq<char>, k: int)
    requires
        0 <= k < text::words(line).len() - 1,
        text::words(line)[k] == "inet"@,
        forall|i: int| 0 <= i < k ==> #[trigger] text::words(line)[i] != "inet"@,
    ensures
        ({
            let word = text::words(line)[k + 1];
            let local = (tun::addr_on(line)->0).0;
            &&& tun::addr_on(line) is Some
            &&& (exists|i: int| 0 <= i < word.len() && #[trigger] word[i] == '/') ==> local == word
            &&& (forall|i: int| 0 <= i < word.len() ==> #[trigger] word[i] != '/') ==> local == word
                + seq!['/', '3', '2']
        }),
{
    let w = text::words(line);
    text::lemma_before_is(w, "inet"@, k as nat);
    let word = w[k + 1];
    lemma_has_slash(word);
    reveal_strlit("/32");
    assert("/32"@ =~= seq!['/', '3', '2']);
}

/// The local address of a line whose word behind `inet` is a dotted address, a
/// slash and the length of a prefix is that word; where the word is a dotted
/// address alone it is that address with `/32`. Either way it has exactly one
/// slash.
pub proof fn law_local_address_has_a_prefix(line: Seq<char>, k: int, ip: Ipv4Addr, prefix: nat)
    requires
        0 <= k < text::words(line).len() - 1,
        text::words(line)[k] == "inet"@,
        forall|i: int| 0 <= i < k ==> #[trigger] text::words(line)[i] != "inet"@,
        prefix <= 32,
    ensures
        ({
            let word = text::words(line)[k + 1];
            let local = (tun::addr_on(line)->0).0;
            &&& tun::addr_on(line) is Some
            &&& word == ip.text() + seq!['/'] + number::decimal(prefix) ==> local == word
                && one_slash(local)
            &&& word == ip.text() ==> local == ip.text() + seq!['/'] + number::decimal(32)
                && one_slash(local)
        }),
{
    law_local_address(line, k);
    lemma_no_slash(ip, prefix);
    lemma_no_slash(ip, 32);
    let word = text::words(line)[k + 1];
    let local = (tun::addr_on(line)->0).0;
    let n = ip.text().len() as int;
    assert(number::decimal(32) =~= seq!['3', '2']) by {
        text_laws::law_decimal_digits(32);
        text_laws::law_decimal_digits(3);
        let d = number::decimal(32);
        assert(d.drop_last() == number::decimal(3));
        assert(d[0] == d.drop_last()[0]);
        assert(d.drop_last()[0] == number::decimal(3).last());
        assert(d[1] == d.last());
    }
    if word == ip.text() + seq!['/'] + number::decimal(prefix) {
        assert(word[n] == '/');
        assert forall|i: int| 0 <= i < word.len() && i != n implies #[trigger] word[i] != '/' by {
            if i < n {
                assert(word[i] == ip.text()[i]);
            } else {
                assert(word[i] == number::decimal(prefix)[i - n - 1]);
            }
        }
    }
    if word == ip.text() {
        assert(local =~= ip.text() + seq!['/'] + number::decimal(32));
        assert(local[n] == '/');
        assert forall|i: int| 0 <= i < local.len() && i != n implies #[trigger] local[i] != '/' by {
            if i < n {
                assert(local[i] == ip.text()[i]);
            }
        }
    }
}

/// The far side of the device is told by the word `peer` behind the local
/// address: the word behind it, up to its first slash.
pub proof fn law_far_address(
    line: Seq<char>,
    k: int,
    peer: Seq<char>,
    rest: Seq<char>,
)
    requires
        0 <= k < text::words(line).len() - 1,
        text::words(line)[k] == "inet"@,
        forall|i: int| 0 <= i < k ==> #[trigger] text::words(line)[i] != "inet"@,
        forall|i: int| 0 <= i < peer.len() ==> peer[i] != '/',
    ensures
        ({
            let w = text::words(line);
            let far = (tun::addr_on(line)->0).1;
            &&& tun::addr_on(line) is Some
            &&& k + 3 < w.len() && w[k + 2] == "peer"@ && (w[k + 3] == peer || w[k + 3] == peer
                + seq!['/'] + rest) ==> far == Some(peer)
            &&& k + 3 >= w.len() || w[k + 2] != "peer"@ ==> far is None
        }),
{
    let w = text::words(line);
    text::lemma_before_is(w, "inet"@, k as nat);
    text::lemma_split_head(peer, '/', rest);
    text::lemma_split_single(peer, '/');
}

// ---- the commands ----

/// The address that a host reply tells of the device.
pub open spec fn noted(reply: Result<Seq<char>, Seq<char>>) -> Option<
    (Seq<char>, Option<Seq<char>>),
> {
    match reply {
        Ok(line) => tun::addr_on(line),
        Err(_) => None,
    }
}

/// A move asks for the address of the device on the host first, then deletes a
/// device of that name in the namespace, then moves the device there, and only
/// then, if the device could be moved, flushes its routes on the host.
pub proof fn law_move_begins(
    shown: Result<Seq<char>, Seq<char>>,
    dropped: Result<Seq<char>, Seq<char>>,
    moved: Result<Seq<char>, Seq<char>>,
)
    ensures
        ({
            let start = MoveTunModel { phase: MovePhase::ShowAddr, addr: None };
            let s1 = start.after(shown);
            let s2 = s1.after(dropped);
            let s3 = s2.after(moved);
            &&& start.next() is Some && (start.next()->0).args == seq![
                "-4"@, "-o"@, "addr"@, "show"@, "dev"@, "kitvpn-tun"@
            ]
            &&& s1.next() is Some && (s1.next()->0).args == seq![
                "netns"@, "exec"@, "kitvpn"@, "ip"@, "link"@, "del"@, "kitvpn-tun"@
            ]
            &&& s2.next() is Some && (s2.next()->0).args == seq![
                "link"@, "set"@, "kitvpn-tun"@, "netns"@, "kitvpn"@
            ]
            &&& moved is Err ==> s3.next() is None
            &&& moved is Ok ==> s3.phase is Flush && s3.next() is Some && (s3.next()->0).args
                == seq!["route"@, "flush"@, "dev"@, "kitvpn-tun"@]
            &&& s3.addr == noted(shown)
        }),
{
    let start = MoveTunModel { phase: MovePhase::ShowAddr, addr: None };
    let s1 = start.after(shown);
    assert((s1.next()->0).args =~= seq![
        "netns"@, "exec"@, "kitvpn"@, "ip"@, "link"@, "del"@, "kitvpn-tun"@
    ]);
}

/// A device that was moved, whose address was noted, is asked for its address
/// in the namespace; if it has none it is given the noted one, with the far
/// side where there is one. Last, it is brought up, and the move is over. A
/// device without a noted address is brought up at once.
pub proof fn law_move_ends(
    addr: Option<(Seq<char>, Option<Seq<char>>)>,
    flushed: Result<Seq<char>, Seq<char>>,
    asked: Result<Seq<char>, Seq<char>>,
    added: Result<Seq<char>, Seq<char>>,
    raised: Result<Seq<char>, Seq<char>>,
)
    ensures
        ({
            let s = MoveTunModel { phase: MovePhase::Flush, addr };
            let inside = seq!["netns"@, "exec"@, "kitvpn"@, "ip"@];
            let up = inside + seq!["link"@, "set"@, "kitvpn-tun"@, "up"@];
            let there = asked is Ok && text::contains(asked->Ok_0, "inet "@);
            let s1 = s.after(flushed);
            let s2 = s1.after(asked);
            let s3 = s2.after(added);
            &&& addr is None ==> s1.next() is Some && (s1.next()->0).args == up && s1.after(
                raised,
            ).next() is None
            &&& addr is Some ==> s1.next() is Some && (s1.next()->0).args == inside + seq![
                "-4"@, "addr"@, "show"@, "dev"@, "kitvpn-tun"@
            ]
            &&& addr is Some && there ==> s2.next() is Some && (s2.next()->0).args == up && s2.after(
                raised,
            ).next() is None
            &&& addr is Some && !there ==> s2.next() is Some && (s2.next()->0).args == inside + (
            match (addr->0).1 {
                Some(peer) => seq![
                    "addr"@, "add"@, (addr->0).0, "peer"@, peer, "dev"@, "kitvpn-tun"@
                ],
                None => seq!["addr"@, "add"@, (addr->0).0, "dev"@, "kitvpn-tun"@],
            }) && s3.next() is Some && (s3.next()->0).args == up && s3.after(raised).next() is None
        }),
{
}

} // verus!
