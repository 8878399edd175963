//! What is written as JSON can be told apart again.
use vstd::prelude::*;

use crate::json;
use crate::nm;
use crate::number;
use crate::status::StatusModel;
use crate::text;

verus! {

/// Whether a text goes on behind a value of a member, or behind the last one.
pub open spec fn goes_on(rest: Seq<char>) -> bool {
    rest.len() > 0 && (rest[0] == ',' || rest[0] == '}')
}

/// Whether two values cannot be taken for each other, whatever follows them.
pub open spec fn distinct_values(v: Seq<char>, w: Seq<char>) -> bool {
    forall|r: Seq<char>, q: Seq<char>|
        goes_on(r) && goes_on(q) && #[trigger] (v + r) == #[trigger] (w + q) ==> v == w && r == q
}

proof fn lemma_escaped_char(c: char, d: char, r: Seq<char>, q: Seq<char>)
    requires
        json::escaped_char(c) + r == json::escaped_char(d) + q,
    ensures
        c == d,
{
    let e = json::escaped_char(c);
    let f = json::escaped_char(d);
    assert(e[0] == (e + r)[0] && f[0] == (f + q)[0]);
    if e.len() > 1 {
        assert(e[1] == (e + r)[1]);
    }
    if f.len() > 1 {
        assert(f[1] == (f + q)[1]);
    }
    if e.len() == 6 && f.len() == 6 {
        assert(e[4] == (e + r)[4] && f[4] == (f + q)[4]);
        assert(e[5] == (e + r)[5] && f[5] == (f + q)[5]);
        lemma_hex_digit(c as int / 16, d as int / 16);
        lemma_hex_digit(c as int % 16, d as int % 16);
    }
}

proof fn lemma_hex_digit(m: int, n: int)
    requires
        0 <= m < 16,
        0 <= n < 16,
        json::hex_digit(m) == json::hex_digit(n),
    ensures
        m == n,
{
}

proof fn lemma_escaped(s: Seq<char>, t: Seq<char>, r: Seq<char>, q: Seq<char>)
    requires
        json::escaped(s) + seq!['"'] + r == json::escaped(t) + seq!['"'] + q,
    ensures
        s == t,
        r == q,
    decreases s.len(),
{
    let all = json::escaped(s) + seq!['"'] + r;
    let other = json::escaped(t) + seq!['"'] + q;
    if s.len() == 0 && t.len() == 0 {
        assert(s =~= t);
        assert(all =~= seq!['"'] + r);
        assert(other =~= seq!['"'] + q);
        text::lemma_same_front(seq!['"'], r, q);
    } else if s.len() == 0 {
        assert(all[0] == '"');
        assert(other[0] == json::escaped_char(t[0])[0]);
    } else if t.len() == 0 {
        assert(other[0] == '"');
        assert(all[0] == json::escaped_char(s[0])[0]);
    } else {
        let s1 = s.drop_first();
        let t1 = t.drop_first();
        let rest = json::escaped(s1) + seq!['"'] + r;
        let more = json::escaped(t1) + seq!['"'] + q;
        assert(all =~= json::escaped_char(s[0]) + rest);
        assert(other =~= json::escaped_char(t[0]) + more);
        lemma_escaped_char(s[0], t[0], rest, more);
        text::lemma_same_front(json::escaped_char(s[0]), rest, more);
        lemma_escaped(s1, t1, r, q);
        assert(s =~= seq![s[0]] + s1);
        assert(t =~= seq![t[0]] + t1);
    }
}

/// Two texts that are the same as JSON strings are the same, and a JSON string
/// cannot be taken for the front of another one.
pub proof fn law_json_strings_are_unambiguous(
    s: Seq<char>,
    t: Seq<char>,
    r: Seq<char>,
    q: Seq<char>,
)
    requires
        json::quoted(s) + r == json::quoted(t) + q,
    ensures
        s == t,
        r == q,
{
    let rest = json::escaped(s) + seq!['"'] + r;
    let more = json::escaped(t) + seq!['"'] + q;
    assert(json::quoted(s) + r =~= seq!['"'] + rest);
    assert(json::quoted(t) + q =~= seq!['"'] + more);
    text::lemma_same_front(seq!['"'], rest, more);
    lemma_escaped(s, t, r, q);
}

proof fn lemma_quoted(s: Seq<char>, t: Seq<char>)
    ensures
        distinct_values(json::quoted(s), json::quoted(t)),
        json::quoted(s) == json::quoted(t) ==> s == t,
{
    assert forall|r: Seq<char>, q: Seq<char>|
        goes_on(r) && goes_on(q) && #[trigger] (json::quoted(s) + r) == #[trigger] (json::quoted(t)
            + q) implies json::quoted(s) == json::quoted(t) && r == q by {
        law_json_strings_are_unambiguous(s, t, r, q);
    }
    if json::quoted(s) == json::quoted(t) {
        law_json_strings_are_unambiguous(s, t, seq![], seq![]);
    }
}

proof fn lemma_quoted_or_null(s: Option<Seq<char>>, t: Option<Seq<char>>)
    ensures
        distinct_values(json::quoted_or_null(s), json::quoted_or_null(t)),
        json::quoted_or_null(s) == json::quoted_or_null(t) ==> s == t,
{
    reveal_strlit("null");
    let v = json::quoted_or_null(s);
    let w = json::quoted_or_null(t);
    match (s, t) {
        (Some(s), Some(t)) => {
            lemma_quoted(s, t);
        },
        (None, None) => {
            assert forall|r: Seq<char>, q: Seq<char>|
                goes_on(r) && goes_on(q) && #[trigger] (v + r) == #[trigger] (w + q) implies v == w
                && r == q by {
                text::lemma_same_front(v, r, q);
            }
        },
        _ => {
            assert(v[0] != w[0]);
            assert forall|r: Seq<char>, q: Seq<char>|
                goes_on(r) && goes_on(q) && #[trigger] (v + r) == #[trigger] (w + q) implies v == w
                && r == q by {
                assert((v + r)[0] == v[0] && (w + q)[0] == w[0]);
            }
        },
    }
}

proof fn lemma_decimal(m: nat, n: nat)
    ensures
        distinct_values(number::decimal(m), number::decimal(n)),
        number::decimal(m) == number::decimal(n) ==> m == n,
{
    let v = number::decimal(m);
    let w = number::decimal(n);
    number::law_decimal_reads_back(m);
    number::law_decimal_reads_back(n);
    assert forall|r: Seq<char>, q: Seq<char>|
        goes_on(r) && goes_on(q) && #[trigger] (v + r) == #[trigger] (w + q) implies v == w && r
        == q by {
        if v.len() < w.len() {
            assert((v + r)[v.len() as int] == r[0]);
            assert((w + q)[v.len() as int] == w[v.len() as int]);
            assert(number::is_digit(w[v.len() as int]));
        } else if w.len() < v.len() {
            assert((w + q)[w.len() as int] == q[0]);
            assert((v + r)[w.len() as int] == v[w.len() as int]);
            assert(number::is_digit(v[w.len() as int]));
        }
        assert((v + r).take(v.len() as int) =~= v);
        assert((w + q).take(w.len() as int) =~= w);
        text::lemma_same_front(v, r, q);
    }
}

proof fn lemma_member(key: Seq<char>, v: Seq<char>, w: Seq<char>)
    requires
        distinct_values(v, w),
    ensures
        distinct_values(json::member_text((key, v)), json::member_text((key, w))),
        json::member_text((key, v)) == json::member_text((key, w)) ==> v == w,
{
    let front = json::quoted(key) + ":"@;
    let a = json::member_text((key, v));
    let b = json::member_text((key, w));
    assert forall|r: Seq<char>, q: Seq<char>|
        goes_on(r) && goes_on(q) && #[trigger] (a + r) == #[trigger] (b + q) implies a == b && r
        == q by {
        assert(a + r =~= front + (v + r));
        assert(b + q =~= front + (w + q));
        text::lemma_same_front(front, v + r, w + q);
    }
    if a == b {
        text::lemma_same_front(front, v, w);
    }
}

proof fn lemma_joined(a: Seq<Seq<char>>, b: Seq<Seq<char>>, r: Seq<char>, q: Seq<char>)
    requires
        a.len() == b.len(),
        a.len() > 0,
        forall|i: int| 0 <= i < a.len() ==> distinct_values(#[trigger] a[i], b[i]),
        goes_on(r),
        goes_on(q),
        text::join(a, ","@) + r == text::join(b, ","@) + q,
    ensures
        a == b,
        r == q,
    decreases a.len(),
{
    assert(distinct_values(a[0], b[0]));
    if a.len() == 1 {
        assert(a[0] + r == b[0] + q);
        assert(a =~= b);
    } else {
        reveal_strlit(",");
        let a1 = a.drop_first();
        let b1 = b.drop_first();
        let rest = ","@ + (text::join(a1, ","@) + r);
        let more = ","@ + (text::join(b1, ","@) + q);
        text::lemma_join_front(a, ","@);
        text::lemma_join_front(b, ","@);
        assert(a[0] + rest =~= text::join(a, ","@) + r);
        assert(b[0] + more =~= text::join(b, ","@) + q);
        assert(goes_on(rest) && goes_on(more));
        assert(a[0] == b[0] && rest == more);
        text::lemma_same_front(","@, text::join(a1, ","@) + r, text::join(b1, ","@) + q);
        assert forall|i: int| 0 <= i < a1.len() implies distinct_values(#[trigger] a1[i], b1[i]) by {
            assert(distinct_values(a[i + 1], b[i + 1]));
        }
        lemma_joined(a1, b1, r, q);
        assert(a =~= seq![a[0]] + a1);
        assert(b =~= seq![b[0]] + b1);
    }
}

/// Two objects with the same names, in the same order, and values that cannot
/// be taken for each other are the same text only if the values are the same.
proof fn lemma_objects(a: Seq<(Seq<char>, Seq<char>)>, b: Seq<(Seq<char>, Seq<char>)>)
    requires
        a.len() == b.len(),
        a.len() > 0,
        forall|i: int| 0 <= i < a.len() ==> (#[trigger] a[i]).0 == b[i].0,
        forall|i: int| 0 <= i < a.len() ==> distinct_values((#[trigger] a[i]).1, b[i].1),
        json::object(a) == json::object(b),
    ensures
        forall|i: int| 0 <= i < a.len() ==> (#[trigger] a[i]).1 == b[i].1,
{
    let x = json::member_texts(a);
    let y = json::member_texts(b);
    reveal_strlit("}");
    assert forall|i: int| 0 <= i < x.len() implies distinct_values(#[trigger] x[i], y[i]) by {
        assert(x[i] == json::member_text(a[i]) && y[i] == json::member_text(b[i]));
        lemma_member(a[i].0, a[i].1, b[i].1);
        assert(a[i] == (a[i].0, a[i].1) && b[i] == (a[i].0, b[i].1));
    }
    let jx = text::join(x, ","@) + "}"@;
    let jy = text::join(y, ","@) + "}"@;
    assert(json::object(a) =~= "{"@ + jx);
    assert(json::object(b) =~= "{"@ + jy);
    text::lemma_same_front("{"@, jx, jy);
    lemma_joined(x, y, "}"@, "}"@);
    assert forall|i: int| 0 <= i < a.len() implies (#[trigger] a[i]).1 == b[i].1 by {
        assert(x[i] == json::member_text(a[i]) && y[i] == json::member_text(b[i]));
        lemma_member(a[i].0, a[i].1, b[i].1);
        assert(a[i] == (a[i].0, a[i].1) && b[i] == (a[i].0, b[i].1));
    }
}

/// A status can be told from its JSON: two that are the same as JSON are the
/// same.
pub proof fn law_json_tells_the_status(s: StatusModel, t: StatusModel)
    requires
        s.json() == t.json(),
    ensures
        s == t,
{
    let a = s.members();
    let b = t.members();
    lemma_quoted(s.state, t.state);
    lemma_quoted(s.detail, t.detail);
    lemma_decimal(s.socks_port as nat, t.socks_port as nat);
    lemma_decimal(s.pid as nat, t.pid as nat);
    lemma_decimal(s.since as nat, t.since as nat);
    lemma_quoted_or_null(s.error, t.error);
    lemma_objects(a, b);
    assert(a[0].1 == b[0].1 && a[1].1 == b[1].1 && a[2].1 == b[2].1 && a[3].1 == b[3].1 && a[4].1
        == b[4].1 && a[5].1 == b[5].1);
}

/// A status can be told from the reply that reports it.
pub proof fn law_reply_tells_the_status(s: StatusModel, t: StatusModel)
    requires
        json::object(nm::reply_members(s)) == json::object(nm::reply_members(t)),
    ensures
        s == t,
{
    let a = nm::reply_members(s);
    let b = nm::reply_members(t);
    lemma_quoted(s.state, t.state);
    lemma_quoted(s.detail, t.detail);
    lemma_quoted("status"@, "status"@);
    lemma_decimal(s.socks_port as nat, t.socks_port as nat);
    lemma_decimal(s.pid as nat, t.pid as nat);
    lemma_decimal(s.since as nat, t.since as nat);
    lemma_quoted_or_null(s.error, t.error);
    lemma_objects(a, b);
    assert(a[0].1 == b[0].1 && a[1].1 == b[1].1 && a[2].1 == b[2].1 && a[3].1 == b[3].1 && a[4].1
        == b[4].1 && a[5].1 == b[5].1);
}

} // verus!
