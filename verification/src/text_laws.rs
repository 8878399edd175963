//! What taking texts and numbers apart means: how the parts make up the whole.
use vstd::prelude::*;

use crate::ipv4;
use crate::ipv4::Ipv4Addr;
use crate::number;
use crate::text;

verus! {

// ---- texts ----

/// The pieces between separators have no separator in them, and put together
/// again with the separator they are the text. There is always one.
pub proof fn law_pieces_make_up_the_text<T>(s: Seq<T>, sep: T)
    ensures
        text::split(s, sep).len() > 0,
        forall|i: int, j: int|
            0 <= i < text::split(s, sep).len() && 0 <= j < text::split(s, sep)[i].len()
                ==> #[trigger] text::split(s, sep)[i][j] != sep,
        text::join(text::split(s, sep), seq![sep]) == s,
    decreases s.len(),
{
    let n = text::before(s, sep) as int;
    text::lemma_before(s, sep);
    if n < s.len() {
        let head = s.take(n);
        let rest = s.skip(n + 1);
        law_pieces_make_up_the_text(rest, sep);
        let pieces = text::split(s, sep);
        assert(pieces.drop_first() =~= text::split(rest, sep));
        text::lemma_join_front(pieces, seq![sep]);
        assert(pieces[0] == head);
        assert(head + seq![sep] + rest =~= s);
        assert forall|i: int, j: int| 0 <= i < pieces.len() && 0 <= j < pieces[i].len() implies
            #[trigger] pieces[i][j] != sep by {
            if i == 0 {
                assert(head[j] == s[j]);
            } else {
                assert(pieces[i] == text::split(rest, sep)[i - 1]);
                assert(text::split(rest, sep)[i - 1][j] != sep);
            }
        }
    }
}

/// How texts are joined: one text is itself, none is nothing, and one more in
/// front stands before the separator.
pub proof fn law_joining(first: Seq<char>, rest: Seq<Seq<char>>, sep: Seq<char>)
    ensures
        text::join(Seq::<Seq<char>>::empty(), sep) == Seq::<char>::empty(),
        text::join(seq![first], sep) == first,
        rest.len() > 0 ==> text::join(seq![first] + rest, sep) == first + sep + text::join(
            rest,
            sep,
        ),
{
    if rest.len() > 0 {
        let all = seq![first] + rest;
        text::lemma_join_front(all, sep);
        assert(all.drop_first() =~= rest);
    }
}

/// What counts as white space, by the numbers of the characters, and that
/// nothing else does.
pub proof fn law_white_space(c: char)
    ensures
        ({
            let n = c as int;
            text::white_space(c) <==> 9 <= n <= 13 || n == 32 || n == 133 || n == 160 || n == 5760
                || 8192 <= n <= 8202 || n == 8232 || n == 8233 || n == 8239 || n == 8287 || n
                == 12288
        }),
{
}

/// What the words of a text are: a text without white space is one word, and
/// white space separates the words in front of it from those behind.
pub proof fn law_words(a: Seq<char>, gap: char, b: Seq<char>)
    requires
        text::white_space(gap),
    ensures
        text::words(Seq::<char>::empty()) == Seq::<Seq<char>>::empty(),
        a.len() > 0 && (forall|i: int| 0 <= i < a.len() ==> !text::white_space(a[i]))
            ==> text::words(a) == seq![a],
        text::words(a + seq![gap] + b) == text::words(a) + text::words(b),
    decreases a.len(),
{
    let s = a + seq![gap] + b;
    if a.len() == 0 {
        assert(s.drop_first() =~= b);
        assert(text::words(a) + text::words(b) =~= text::words(b));
    } else if text::white_space(a[0]) {
        law_words(a.drop_first(), gap, b);
        assert(s.drop_first() =~= a.drop_first() + seq![gap] + b);
    } else {
        text::lemma_word_len_bound(a);
        let n = text::word_len(a);
        assert forall|j: int| 0 <= j < n implies !text::white_space(s[j]) by {
            assert(s[j] == a[j]);
        }
        if n < a.len() {
            assert(s[n as int] == a[n as int]);
        } else {
            assert(s[n as int] == gap);
        }
        text::lemma_word_len(s, n);
        assert(s.take(n as int) =~= a.take(n as int));
        let a1 = a.skip(n as int);
        assert(s.skip(n as int) =~= a1 + seq![gap] + b);
        law_words(a1, gap, b);
        assert(text::words(s) =~= text::words(a) + text::words(b));
        if forall|i: int| 0 <= i < a.len() ==> !text::white_space(a[i]) {
            assert(n == a.len());
            assert(a.take(n as int) =~= a);
            assert(text::words(a1) =~= seq![]);
            assert(text::words(a) =~= seq![a]);
        }
    }
}

/// What the lines of a text are: each ends at a line feed, in front of which a
/// carriage return does not count; what stands behind the last line feed is a
/// line if there is anything.
pub proof fn law_lines(line: Seq<char>, rest: Seq<char>)
    requires
        forall|i: int| 0 <= i < line.len() ==> line[i] != '\n',
    ensures
        text::lines(Seq::<char>::empty()) == Seq::<Seq<char>>::empty(),
        line.len() > 0 ==> text::lines(line) == seq![line],
        line.len() == 0 || line.last() != '\r' ==> text::lines(line + seq!['\n'] + rest) == seq![
            line,
        ] + text::lines(rest),
        text::lines(line + seq!['\r', '\n'] + rest) == seq![line] + text::lines(rest),
{
    if line.len() > 0 {
        text::lemma_before_is(line, '\n', line.len());
    }
    let s = line + seq!['\n'] + rest;
    text::lemma_before_is(s, '\n', line.len());
    assert(s.take(line.len() as int) =~= line);
    assert(s.skip(line.len() as int + 1) =~= rest);
    let t = line + seq!['\r', '\n'] + rest;
    let marked = line.push('\r');
    assert forall|i: int| 0 <= i < marked.len() implies t[i] != '\n' by {
        assert(t[i] == marked[i]);
    }
    text::lemma_before_is(t, '\n', marked.len());
    assert(t.take(marked.len() as int) =~= marked);
    assert(t.skip(marked.len() as int + 1) =~= rest);
    assert(marked.drop_last() =~= line);
}

/// What trimming leaves: the text without the white space around it, and
/// nothing less.
pub proof fn law_trimming(left: Seq<char>, t: Seq<char>, right: Seq<char>)
    requires
        forall|i: int| 0 <= i < left.len() ==> text::white_space(left[i]),
        forall|i: int| 0 <= i < right.len() ==> text::white_space(right[i]),
        t.len() > 0 ==> !text::white_space(t[0]) && !text::white_space(t.last()),
    ensures
        text::trim(left + t + right) == t,
        t.len() > 0 ==> text::trim_start(left + t + right) == t + right,
{
    let s = left + t + right;
    if t.len() > 0 {
        assert forall|j: int| 0 <= j < left.len() implies text::white_space(s[j]) by {
            assert(s[j] == left[j]);
        }
        assert(s[left.len() as int] == t[0]);
        text::lemma_trim_start(s, left.len());
        let u = t + right;
        assert(s.skip(left.len() as int) =~= u);
        assert forall|j: int| t.len() <= j < u.len() implies text::white_space(u[j]) by {
            assert(u[j] == right[j - t.len()]);
        }
        assert(u[t.len() - 1] == t.last());
        text::lemma_trim_end(u, t.len());
        assert(u.take(t.len() as int) =~= t);
    } else {
        assert forall|j: int| 0 <= j < s.len() implies text::white_space(s[j]) by {
            if j < left.len() {
                assert(s[j] == left[j]);
            } else {
                assert(s[j] == right[j - left.len()]);
            }
        }
        text::lemma_trim_start(s, s.len());
        assert(s.skip(s.len() as int) =~= seq![]);
        assert(text::trim_end(Seq::<char>::empty()) =~= seq![]);
        assert(t =~= seq![]);
    }
}

/// A text holds another one if and only if it is something, that one, and
/// something.
pub proof fn law_holding(s: Seq<char>, p: Seq<char>)
    ensures
        text::contains(s, p) <==> exists|a: Seq<char>, b: Seq<char>| s == #[trigger] (a + p + b),
        text::starts_with(s, p) <==> exists|b: Seq<char>| s == #[trigger] (p + b),
{
    if text::contains(s, p) {
        let i = choose|i: int| text::occurs_at(s, p, i);
        let a = s.take(i);
        let b = s.skip(i + p.len());
        assert(s =~= a + p + b);
    }
    if exists|a: Seq<char>, b: Seq<char>| s == #[trigger] (a + p + b) {
        let (a, b) = choose|a: Seq<char>, b: Seq<char>| s == #[trigger] (a + p + b);
        assert(s.subrange(a.len() as int, (a.len() + p.len()) as int) =~= p);
        assert(text::occurs_at(s, p, a.len() as int));
    }
    if text::starts_with(s, p) {
        let b = s.skip(p.len() as int);
        assert(s =~= p + b);
    }
    if exists|b: Seq<char>| s == #[trigger] (p + b) {
        let b = choose|b: Seq<char>| s == #[trigger] (p + b);
        assert(s.subrange(0, 0 + p.len() as int) =~= p);
    }
}

// ---- numbers ----

/// What the decimal text of a number is: its last character is the last digit,
/// and what stands in front is the text of the number without that digit.
pub proof fn law_decimal_digits(n: nat)
    ensures
        number::decimal(n).len() > 0,
        number::decimal(n).last() as int == '0' as int + n % 10,
        n < 10 ==> number::decimal(n).len() == 1,
        n >= 10 ==> number::decimal(n).drop_last() == number::decimal(n / 10),
{
    if n >= 10 {
        assert(number::decimal(n).drop_last() =~= number::decimal(n / 10));
    }
}

/// A number written out, after a sign or none and some zeros.
pub open spec fn written(plus: bool, zeros: nat, n: nat) -> Seq<char> {
    (if plus {
        seq!['+']
    } else {
        seq![]
    }) + Seq::new(zeros, |i: int| '0') + number::decimal(n)
}

proof fn lemma_zeros(zeros: nat, n: nat)
    ensures
        number::all_digits(Seq::new(zeros, |i: int| '0') + number::decimal(n)),
        number::digits_value(Seq::new(zeros, |i: int| '0') + number::decimal(n)) == n,
    decreases n,
{
    let z = Seq::new(zeros, |i: int| '0');
    number::law_decimal_reads_back(n);
    let s = z + number::decimal(n);
    assert forall|i: int| 0 <= i < s.len() implies number::is_digit(#[trigger] s[i]) by {
        if i >= z.len() {
            assert(s[i] == number::decimal(n)[i - z.len()]);
        }
    }
    assert(s.last() == number::decimal(n).last());
    if n >= 10 {
        lemma_zeros(zeros, n / 10);
        assert(s.drop_last() =~= z + number::decimal(n / 10));
    } else {
        assert(s.drop_last() =~= z);
        lemma_zeros_value(zeros);
    }
}

proof fn lemma_zeros_value(zeros: nat)
    ensures
        number::digits_value(Seq::new(zeros, |i: int| '0')) == 0,
    decreases zeros,
{
    let z = Seq::new(zeros, |i: int| '0');
    if zeros > 0 {
        lemma_zeros_value((zeros - 1) as nat);
        assert(z.drop_last() =~= Seq::new((zeros - 1) as nat, |i: int| '0'));
    }
}

/// A row of digits is some zeros and a number written out.
proof fn lemma_digits_are_written(s: Seq<char>) -> (zeros: nat)
    requires
        number::all_digits(s),
    ensures
        s == written(false, zeros, number::digits_value(s)),
    decreases s.len(),
{
    let v = number::digits_value(s);
    let front = s.drop_last();
    let d = number::digit_value(s.last());
    assert(number::is_digit(s.last()));
    if s.len() == 1 {
        assert(number::digits_value(front) == 0);
        law_decimal_digits(v);
        assert(s =~= written(false, 0, v));
        0
    } else {
        assert forall|i: int| 0 <= i < front.len() implies number::is_digit(#[trigger] front[i]) by {
            assert(front[i] == s[i]);
        }
        let zeros = lemma_digits_are_written(front);
        let w = number::digits_value(front);
        law_decimal_digits(v);
        assert(v == w * 10 + d);
        if w > 0 {
            assert(v / 10 == w && v % 10 == d);
            assert(s =~= written(false, zeros, w).push(s.last()));
            assert(s =~= written(false, zeros, v));
            zeros
        } else {
            law_decimal_digits(0);
            assert(number::decimal(0) =~= seq!['0']);
            assert(s =~= front.push(s.last()));
            assert(s =~= written(false, zeros + 1, v));
            zeros + 1
        }
    }
}

/// What reads as a number is that number written out, perhaps after a plus
/// sign and zeros, and nothing else; and all of that does, up to the limit.
pub proof fn law_reading_numbers(s: Seq<char>, n: nat, max: nat)
    ensures
        number::unsigned(s, max) == Some(n) <==> n <= max && exists|plus: bool, zeros: nat|
            s == #[trigger] written(plus, zeros, n),
{
    if number::unsigned(s, max) == Some(n) {
        if s.len() > 0 && s[0] == '+' {
            let zeros = lemma_digits_are_written(s.drop_first());
            assert(s =~= seq!['+'] + s.drop_first());
            assert(s =~= written(true, zeros, n));
        } else {
            let zeros = lemma_digits_are_written(s);
            assert(s == written(false, zeros, n));
        }
    }
    if n <= max && exists|plus: bool, zeros: nat| s == #[trigger] written(plus, zeros, n) {
        let (plus, zeros) = choose|plus: bool, zeros: nat| s == #[trigger] written(plus, zeros, n);
        let digits = Seq::new(zeros, |i: int| '0') + number::decimal(n);
        lemma_zeros(zeros, n);
        assert(number::is_digit(digits[0]));
        if plus {
            assert(s =~= seq!['+'] + digits);
            assert(s.drop_first() =~= digits);
        } else {
            assert(s =~= digits);
        }
    }
}

/// What reads as a number with a sign is a number written out after its sign,
/// in the range of 32 bits, and nothing else.
pub proof fn law_reading_signed_numbers(s: Seq<char>, n: int)
    ensures
        number::signed32(s) == Some(n) <==> i32::MIN <= n <= i32::MAX && ((n >= 0 && exists|
            plus: bool,
            zeros: nat,
        |
            s == #[trigger] written(plus, zeros, n as nat)) || (n <= 0 && exists|zeros: nat|
            s == seq!['-'] + #[trigger] written(false, zeros, (-n) as nat))),
{
    if number::signed32(s) == Some(n) {
        if s.len() > 0 && s[0] == '-' {
            let zeros = lemma_digits_are_written(s.drop_first());
            assert(s =~= seq!['-'] + s.drop_first());
            assert(s == seq!['-'] + written(false, zeros, (-n) as nat));
        } else {
            law_reading_numbers(s, n as nat, 0x7fff_ffff);
        }
    }
    if n >= 0 && n <= i32::MAX && (exists|plus: bool, zeros: nat|
        s == #[trigger] written(plus, zeros, n as nat)) {
        let (plus, zeros) = choose|plus: bool, zeros: nat|
            s == #[trigger] written(plus, zeros, n as nat);
        law_reading_numbers(s, n as nat, 0x7fff_ffff);
        lemma_zeros(zeros, n as nat);
        let digits = Seq::new(zeros, |i: int| '0') + number::decimal(n as nat);
        assert(number::is_digit(digits[0]));
        if plus {
            assert(s[0] == '+');
        } else {
            assert(s =~= digits);
        }
    }
    if n <= 0 && n >= i32::MIN && (exists|zeros: nat|
        s == seq!['-'] + #[trigger] written(false, zeros, (-n) as nat)) {
        let zeros = choose|zeros: nat|
            s == seq!['-'] + #[trigger] written(false, zeros, (-n) as nat);
        lemma_zeros(zeros, (-n) as nat);
        let digits = Seq::new(zeros, |i: int| '0') + number::decimal((-n) as nat);
        assert(s.drop_first() =~= digits);
    }
}

// ---- addresses ----

/// What a dotted text spells, and that nothing else is read as an address: a
/// text reads as an address if and only if it is the four numbers with dots
/// between them.
pub proof fn law_dotted_texts(s: Seq<char>, ip: Ipv4Addr)
    ensures
        ip.text() == text::join(
            seq![
                number::decimal(ip.a as nat),
                number::decimal(ip.b as nat),
                number::decimal(ip.c as nat),
                number::decimal(ip.d as nat),
            ],
            seq!['.'],
        ),
        ipv4::dotted(s) == Some(ip) <==> s == ip.text(),
{
    let all = seq![
        number::decimal(ip.a as nat),
        number::decimal(ip.b as nat),
        number::decimal(ip.c as nat),
        number::decimal(ip.d as nat),
    ];
    lemma_join4(all, seq!['.']);
    reveal_strlit(".");
    assert("."@ =~= seq!['.']);
    assert(ip.text() =~= text::join(all, seq!['.']));
    ipv4::law_address_reads_back(ip);
    if ipv4::dotted(s) == Some(ip) {
        let parts = text::split(s, '.');
        lemma_octet(parts[0], ip.a);
        lemma_octet(parts[1], ip.b);
        lemma_octet(parts[2], ip.c);
        lemma_octet(parts[3], ip.d);
        assert(parts =~= all);
        law_pieces_make_up_the_text(s, '.');
    }
}

proof fn lemma_join4(all: Seq<Seq<char>>, sep: Seq<char>)
    requires
        all.len() == 4,
    ensures
        text::join(all, sep) == all[0] + sep + all[1] + sep + all[2] + sep + all[3],
{
    let p3 = all.drop_last();
    let p2 = p3.drop_last();
    let p1 = p2.drop_last();
    assert(p1[0] == all[0] && p2.last() == all[1] && p3.last() == all[2]);
    assert(text::join(p1, sep) == all[0]);
    assert(text::join(p2, sep) == all[0] + sep + all[1]);
    assert(text::join(p3, sep) == all[0] + sep + all[1] + sep + all[2]);
}

proof fn lemma_octet(s: Seq<char>, n: u8)
    requires
        ipv4::octet(s) == Some(n),
    ensures
        s == number::decimal(n as nat),
{
    let zeros = lemma_digits_are_written(s);
    if zeros > 0 {
        law_decimal_digits(n as nat);
        assert(s[0] == '0');
        assert(s.len() >= 2);
    }
    assert(written(false, 0, n as nat) =~= number::decimal(n as nat));
}

} // verus!
