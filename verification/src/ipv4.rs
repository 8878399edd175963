//! IPv4 addresses and their dotted text.
use vstd::prelude::*;

use crate::number;
use crate::text;

verus! {

/// An IPv4 address.
#[derive(Clone, Copy, Debug, PartialEq, Eq, Structural)]
pub struct Ipv4Addr {
    pub a: u8,
    pub b: u8,
    pub c: u8,
    pub d: u8,
}

/// What one part of a dotted address reads as: at most three digits without a
/// superfluous zero in front, worth at most 255.
pub open spec fn octet(s: Seq<char>) -> Option<u8> {
    if number::all_digits(s) && s.len() <= 3 && (s[0] == '0' ==> s.len() == 1) && number::digits_value(s) <= 255 {
        Some(number::digits_value(s) as u8)
    } else {
        None
    }
}

/// What a dotted text reads as: four parts between dots.
pub open spec fn dotted(s: Seq<char>) -> Option<Ipv4Addr> {
    let parts = text::split(s, '.');
    if parts.len() == 4 && octet(parts[0]) is Some && octet(parts[1]) is Some && octet(
        parts[2],
    ) is Some && octet(parts[3]) is Some {
        Some(
            Ipv4Addr {
                a: octet(parts[0])->0,
                b: octet(parts[1])->0,
                c: octet(parts[2])->0,
                d: octet(parts[3])->0,
            },
        )
    } else {
        None
    }
}

impl Ipv4Addr {
    /// The dotted text of the address.
    pub open spec fn text(self) -> Seq<char> {
        number::decimal(self.a as nat) + "."@ + number::decimal(self.b as nat) + "."@ + number::decimal(self.c as nat)
            + "."@ + number::decimal(self.d as nat)
    }

    /// The address with the given parts.
    pub fn new(a: u8, b: u8, c: u8, d: u8) -> (r: Ipv4Addr)
        ensures
            r == (Ipv4Addr { a, b, c, d }),
    {
        Ipv4Addr { a, b, c, d }
    }

    /// The dotted text of the address.
    pub fn to_text(&self) -> (r: String)
        ensures
            r@ == self.text(),
    {
        let mut out = number::decimal_of(self.a as u64);
        out.append(".");
        out.append(number::decimal_of(self.b as u64).as_str());
        out.append(".");
        out.append(number::decimal_of(self.c as u64).as_str());
        out.append(".");
        out.append(number::decimal_of(self.d as u64).as_str());
        out
    }

    /// The address that `s` spells, if it spells one.
    pub fn from_text(s: &str) -> (r: Option<Ipv4Addr>)
        ensures
            r == dotted(s@),
    {
        let parts = text::split_at(s, '.');
        proof {
            assert(parts.deep_view().len() == parts@.len());
            assert forall|i: int| 0 <= i < parts@.len() implies (#[trigger] parts@[i])@ == text::split(
                s@,
                '.',
            )[i] by {
                assert(parts.deep_view()[i] == parts@[i]@);
            }
        }
        if parts.len() != 4 {
            return None;
        }
        match (
            read_octet(parts[0].as_str()),
            read_octet(parts[1].as_str()),
            read_octet(parts[2].as_str()),
            read_octet(parts[3].as_str()),
        ) {
            (Some(a), Some(b), Some(c), Some(d)) => Some(Ipv4Addr { a, b, c, d }),
            _ => None,
        }
    }
}

fn read_octet(s: &str) -> (r: Option<u8>)
    ensures
        r == octet(s@),
{
    let cs = text::chars(s);
    if cs.len() == 0 || cs.len() > 3 || (cs[0] == '0' && cs.len() > 1) || cs[0] == '+' {
        return None;
    }
    number::read_u8(s)
}

/// Among the texts of one number only the shortest has no zero in front.
proof fn lemma_decimal_shape(n: nat)
    ensures
        number::decimal(n).len() > 0,
        n > 0 ==> number::decimal(n)[0] != '0',
        n == 0 ==> number::decimal(n) == seq!['0'],
        n < 10 ==> number::decimal(n).len() == 1,
        10 <= n < 100 ==> number::decimal(n).len() == 2,
        100 <= n < 1000 ==> number::decimal(n).len() == 3,
    decreases n,
{
    if n >= 10 {
        lemma_decimal_shape(n / 10);
    }
}

proof fn lemma_decimal_octet(n: u8)
    ensures
        octet(number::decimal(n as nat)) == Some(n),
        forall|i: int| 0 <= i < number::decimal(n as nat).len() ==> number::decimal(n as nat)[i] != '.',
{
    number::law_decimal_reads_back(n as nat);
    lemma_decimal_shape(n as nat);
    let s = number::decimal(n as nat);
    assert forall|i: int| 0 <= i < s.len() implies s[i] != '.' by {
        assert(number::is_digit(s[i]));
    }
}

/// The dotted text of an address spells that address.
pub proof fn law_address_reads_back(ip: Ipv4Addr)
    ensures
        dotted(ip.text()) == Some(ip),
{
    reveal_strlit(".");
    let (a, b, c, d) = (
        number::decimal(ip.a as nat),
        number::decimal(ip.b as nat),
        number::decimal(ip.c as nat),
        number::decimal(ip.d as nat),
    );
    lemma_decimal_octet(ip.a);
    lemma_decimal_octet(ip.b);
    lemma_decimal_octet(ip.c);
    lemma_decimal_octet(ip.d);
    assert("."@ =~= seq!['.']);
    let rest2 = c + seq!['.'] + d;
    let rest1 = b + seq!['.'] + rest2;
    assert(ip.text() =~= a + seq!['.'] + rest1);
    text::lemma_split_head(a, '.', rest1);
    text::lemma_split_head(b, '.', rest2);
    text::lemma_split_head(c, '.', d);
    text::lemma_split_single(d, '.');
    assert(text::split(ip.text(), '.') =~= seq![a, b, c, d]);
}

} // verus!
