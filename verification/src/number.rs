//! Decimal numbers as text.
use vstd::prelude::*;

use crate::text;

verus! {

/// The character of a digit below ten.
pub open spec fn digit_char(d: nat) -> char {
    if d == 0 {
        '0'
    } else if d == 1 {
        '1'
    } else if d == 2 {
        '2'
    } else if d == 3 {
        '3'
    } else if d == 4 {
        '4'
    } else if d == 5 {
        '5'
    } else if d == 6 {
        '6'
    } else if d == 7 {
        '7'
    } else if d == 8 {
        '8'
    } else {
        '9'
    }
}

/// Whether `c` is one of the ten digits.
pub open spec fn is_digit(c: char) -> bool {
    '0' <= c <= '9'
}

/// The value of a digit.
pub open spec fn digit_value(c: char) -> nat {
    (c as int - '0' as int) as nat
}

/// The shortest decimal text of a number.
pub open spec fn decimal(n: nat) -> Seq<char>
    decreases n,
{
    if n < 10 {
        seq![digit_char(n)]
    } else {
        decimal(n / 10).push(digit_char(n % 10))
    }
}

/// Whether all characters are digits, of which there is at least one.
pub open spec fn all_digits(s: Seq<char>) -> bool {
    s.len() > 0 && forall|i: int| 0 <= i < s.len() ==> is_digit(#[trigger] s[i])
}

/// The number that a row of digits stands for.
pub open spec fn digits_value(s: Seq<char>) -> nat
    decreases s.len(),
{
    if s.len() == 0 {
        0
    } else {
        digits_value(s.drop_last()) * 10 + digit_value(s.last())
    }
}

/// What `s` reads as where numbers from 0 to `max` are allowed: an optional
/// `+` and then digits only.
pub open spec fn unsigned(s: Seq<char>, max: nat) -> Option<nat> {
    let digits = if s.len() > 0 && s[0] == '+' {
        s.drop_first()
    } else {
        s
    };
    if all_digits(digits) && digits_value(digits) <= max {
        Some(digits_value(digits))
    } else {
        None
    }
}

/// What `s` reads as where 32-bit signed numbers are allowed: an optional sign
/// and then digits only.
pub open spec fn signed32(s: Seq<char>) -> Option<int> {
    if s.len() > 0 && s[0] == '-' {
        let digits = s.drop_first();
        if all_digits(digits) && digits_value(digits) <= 0x8000_0000 {
            Some(-(digits_value(digits) as int))
        } else {
            None
        }
    } else {
        match unsigned(s, 0x7fff_ffff) {
            Some(n) => Some(n as int),
            None => None,
        }
    }
}

/// The decimal text of a number consists of digits and stands for the number.
pub proof fn law_decimal_reads_back(n: nat)
    ensures
        all_digits(decimal(n)),
        digits_value(decimal(n)) == n,
    decreases n,
{
    if n >= 10 {
        law_decimal_reads_back(n / 10);
        let text = decimal(n);
        assert(text.drop_last() =~= decimal(n / 10));
        assert forall|i: int| 0 <= i < text.len() implies is_digit(#[trigger] text[i]) by {
            if i < text.len() - 1 {
                assert(text[i] == decimal(n / 10)[i]);
            }
        }
    } else {
        let text = decimal(n);
        assert(text.drop_last() =~= Seq::<char>::empty());
        assert(digits_value(text.drop_last()) == 0);
    }
}

/// A number that is written out and read again comes back unchanged.
pub proof fn law_unsigned_of_decimal(n: nat, max: nat)
    requires
        n <= max,
    ensures
        unsigned(decimal(n), max) == Some(n),
{
    law_decimal_reads_back(n);
    assert(is_digit(decimal(n)[0]));
}

/// A number that is written out and read again with a sign comes back
/// unchanged, if it fits.
pub proof fn law_signed32_of_decimal(n: nat)
    requires
        n <= i32::MAX,
    ensures
        signed32(decimal(n)) == Some(n as int),
{
    law_unsigned_of_decimal(n, 0x7fff_ffff);
    law_decimal_reads_back(n);
    assert(is_digit(decimal(n)[0]));
}

fn char_of_digit(d: u64) -> (r: char)
    requires
        d < 10,
    ensures
        r == digit_char(d as nat),
{
    match d {
        0 => '0',
        1 => '1',
        2 => '2',
        3 => '3',
        4 => '4',
        5 => '5',
        6 => '6',
        7 => '7',
        8 => '8',
        _ => '9',
    }
}

/// The decimal text of `n`.
pub fn decimal_of(n: u64) -> (r: String)
    ensures
        r@ == decimal(n as nat),
    decreases n,
{
    if n < 10 {
        let mut out = String::new();
        out.push(char_of_digit(n));
        proof {
            assert(out@ =~= decimal(n as nat));
        }
        out
    } else {
        let mut out = decimal_of(n / 10);
        out.push(char_of_digit(n % 10));
        out
    }
}

/// The value of the characters of `cs` from `from` on, if they are digits
/// and their value is at most `max`.
fn digits_from(cs: &Vec<char>, from: usize, max: u32) -> (r: Option<u32>)
    requires
        from <= cs@.len(),
    ensures
        r == (if all_digits(cs@.skip(from as int)) && digits_value(cs@.skip(from as int)) <= max {
            Some(digits_value(cs@.skip(from as int)) as u32)
        } else {
            None::<u32>
        }),
{
    if from == cs.len() {
        return None;
    }
    let ghost digits = cs@.skip(from as int);
    let mut value: u64 = 0;
    let mut over: bool = false;
    let mut i: usize = from;
    proof {
        assert(digits.take(0) =~= Seq::<char>::empty());
    }
    while i < cs.len()
        invariant
            from <= i <= cs@.len(),
            digits == cs@.skip(from as int),
            forall|j: int| 0 <= j < i - from ==> is_digit(#[trigger] digits[j]),
            value <= max,
            !over ==> value == digits_value(digits.take(i - from)),
            over ==> digits_value(digits.take(i - from)) > max,
        decreases cs@.len() - i,
    {
        let c = cs[i];
        proof {
            assert(digits[i - from] == c);
        }
        if !('0' <= c && c <= '9') {
            return None;
        }
        let d: u64 = (c as u32 - '0' as u32) as u64;
        proof {
            let longer = digits.take(i - from + 1);
            assert(longer.drop_last() =~= digits.take(i - from));
            assert(longer.last() == c);
        }
        let next: u64 = value * 10 + d;
        if over || next > max as u64 {
            over = true;
        } else {
            value = next;
        }
        i += 1;
    }
    proof {
        assert(digits.take(i - from) =~= digits);
    }
    if over {
        None
    } else {
        Some(value as u32)
    }
}

fn read_unsigned(s: &str, max: u32) -> (r: Option<u32>)
    ensures
        r == (match unsigned(s@, max as nat) {
            Some(n) => Some(n as u32),
            None => None::<u32>,
        }),
        unsigned(s@, max as nat) matches Some(n) ==> n <= max,
{
    let cs = text::chars(s);
    let from: usize = if cs.len() > 0 && cs[0] == '+' {
        1
    } else {
        0
    };
    proof {
        if from == 0 {
            assert(cs@.skip(0) =~= s@);
        } else {
            assert(cs@.skip(1) =~= s@.drop_first());
        }
    }
    digits_from(&cs, from, max)
}

/// `s` read as a number of 8 bits.
pub fn read_u8(s: &str) -> (r: Option<u8>)
    ensures
        r == (match unsigned(s@, 255) {
            Some(n) => Some(n as u8),
            None => None::<u8>,
        }),
        unsigned(s@, 255) matches Some(n) ==> n <= 255,
{
    match read_unsigned(s, 255) {
        Some(n) => Some(n as u8),
        None => None,
    }
}

/// `s` read as a number of 16 bits.
pub fn read_u16(s: &str) -> (r: Option<u16>)
    ensures
        r == (match unsigned(s@, 65535) {
            Some(n) => Some(n as u16),
            None => None::<u16>,
        }),
        unsigned(s@, 65535) matches Some(n) ==> n <= 65535,
{
    match read_unsigned(s, 65535) {
        Some(n) => Some(n as u16),
        None => None,
    }
}

/// `s` read as a signed number of 32 bits.
pub fn read_i32(s: &str) -> (r: Option<i32>)
    ensures
        r == (match signed32(s@) {
            Some(n) => Some(n as i32),
            None => None::<i32>,
        }),
        signed32(s@) matches Some(n) ==> i32::MIN <= n <= i32::MAX,
{
    let cs = text::chars(s);
    if cs.len() > 0 && cs[0] == '-' {
        proof {
            assert(cs@.skip(1) =~= s@.drop_first());
        }
        match digits_from(&cs, 1, 0x8000_0000) {
            Some(n) => Some((-(n as i64)) as i32),
            None => None,
        }
    } else {
        match read_unsigned(s, 0x7fff_ffff) {
            Some(n) => Some(n as i32),
            None => None,
        }
    }
}

} // verus!
