//! Text as a sequence of characters: lines, words, fields, trimming,
//! searching and joining.
use vstd::prelude::*;
use vstd::utf8::*;

verus! {

/// `String::push` appends one character to the end of the string.
pub assume_specification[ String::push ](s: &mut String, c: char)
    ensures
        final(s)@ == old(s)@.push(c),
;

/// The text that `String::from_utf8_lossy` makes of bytes.
pub uninterp spec fn lossy_text(bytes: Seq<u8>) -> Seq<char>;

/// `String::from_utf8_lossy`, as an owned string. Bytes that are valid UTF-8
/// become the text that they encode; what malformed parts are replaced with is
/// left to the name `lossy_text`.
#[verifier::external_body]
pub(crate) fn from_utf8_lossy(bytes: &[u8]) -> (r: String)
    ensures
        r@ == lossy_text(bytes@),
        valid_utf8(bytes@) ==> r@ == decode_utf8(bytes@),
{
    String::from_utf8_lossy(bytes).into_owned()
}

// ---- what the functions of this module compute ----

/// The characters with the Unicode property `White_Space`.
pub open spec fn white_space(c: char) -> bool {
    ||| '\u{9}' <= c <= '\u{d}'
    ||| c == ' '
    ||| c == '\u{85}'
    ||| c == '\u{a0}'
    ||| c == '\u{1680}'
    ||| '\u{2000}' <= c <= '\u{200a}'
    ||| c == '\u{2028}'
    ||| c == '\u{2029}'
    ||| c == '\u{202f}'
    ||| c == '\u{205f}'
    ||| c == '\u{3000}'
}

/// How many items stand before the first `sep`; all of them if there is none.
pub open spec fn before<T>(s: Seq<T>, sep: T) -> nat
    decreases s.len(),
{
    if s.len() == 0 || s[0] == sep {
        0
    } else {
        1 + before(s.drop_first(), sep)
    }
}

/// The pieces between the separators. There is always one more piece than
/// there are separators, and pieces may be empty.
pub open spec fn split<T>(s: Seq<T>, sep: T) -> Seq<Seq<T>>
    decreases s.len(),
{
    let n = before(s, sep);
    if n >= s.len() {
        seq![s]
    } else {
        seq![s.take(n as int)] + split(s.skip((n + 1) as int), sep)
    }
}

/// The items joined with `sep` between neighbours.
pub open spec fn join<T>(parts: Seq<Seq<T>>, sep: Seq<T>) -> Seq<T>
    decreases parts.len(),
{
    if parts.len() == 0 {
        seq![]
    } else if parts.len() == 1 {
        parts[0]
    } else {
        join(parts.drop_last(), sep) + sep + parts.last()
    }
}

/// A line without the carriage return that belongs to its line ending.
pub open spec fn without_cr(line: Seq<char>) -> Seq<char> {
    if line.len() > 0 && line.last() == '\r' {
        line.drop_last()
    } else {
        line
    }
}

/// The lines of a text. A line ends with `\n` or `\r\n`; the last line ending
/// is optional.
pub open spec fn lines(s: Seq<char>) -> Seq<Seq<char>>
    decreases s.len(),
{
    let n = before(s, '\n');
    if s.len() == 0 {
        seq![]
    } else if n >= s.len() {
        seq![s]
    } else {
        seq![without_cr(s.take(n as int))] + lines(s.skip((n + 1) as int))
    }
}

/// The length of the run of characters before the first white space.
pub open spec fn word_len(s: Seq<char>) -> nat
    decreases s.len(),
{
    if s.len() == 0 || white_space(s[0]) {
        0
    } else {
        1 + word_len(s.drop_first())
    }
}

/// The longest runs of characters that are not white space.
pub open spec fn words(s: Seq<char>) -> Seq<Seq<char>>
    decreases s.len(),
{
    if s.len() == 0 {
        seq![]
    } else if white_space(s[0]) {
        words(s.drop_first())
    } else {
        let n = word_len(s);
        proof {
            lemma_word_len_bound(s);
        }
        seq![s.take(n as int)] + words(s.skip(n as int))
    }
}

/// The text without the white space in front.
pub open spec fn trim_start(s: Seq<char>) -> Seq<char>
    decreases s.len(),
{
    if s.len() > 0 && white_space(s[0]) {
        trim_start(s.drop_first())
    } else {
        s
    }
}

/// The text without the white space at its end.
pub open spec fn trim_end(s: Seq<char>) -> Seq<char>
    decreases s.len(),
{
    if s.len() > 0 && white_space(s.last()) {
        trim_end(s.drop_last())
    } else {
        s
    }
}

/// The text without the white space around it.
pub open spec fn trim(s: Seq<char>) -> Seq<char> {
    trim_end(trim_start(s))
}

/// Whether `p` stands somewhere in `s` without a gap.
pub open spec fn contains(s: Seq<char>, p: Seq<char>) -> bool {
    exists|i: int| #[trigger] occurs_at(s, p, i)
}

/// Whether `p` stands in `s` from position `i` on.
pub open spec fn occurs_at(s: Seq<char>, p: Seq<char>, i: int) -> bool {
    0 <= i && i + p.len() <= s.len() && s.subrange(i, i + p.len()) == p
}

/// Whether `s` begins with `p`.
pub open spec fn starts_with(s: Seq<char>, p: Seq<char>) -> bool {
    occurs_at(s, p, 0)
}

// ---- facts about them ----

/// `before` finds the first separator, and only that.
pub proof fn lemma_before<T>(s: Seq<T>, sep: T)
    ensures
        before(s, sep) <= s.len(),
        forall|j: int| 0 <= j < before(s, sep) ==> s[j] != sep,
        before(s, sep) < s.len() ==> s[before(s, sep) as int] == sep,
    decreases s.len(),
{
    if s.len() > 0 && s[0] != sep {
        let rest = s.drop_first();
        lemma_before(rest, sep);
        assert forall|j: int| 0 <= j < before(s, sep) implies s[j] != sep by {
            if j > 0 {
                assert(rest[j - 1] == s[j]);
            }
        }
        if before(s, sep) < s.len() {
            assert(rest[before(rest, sep) as int] == s[before(s, sep) as int]);
        }
    }
}

/// A position with no separator in front of it, at a separator or at the end,
/// is the one that `before` gives.
pub proof fn lemma_before_is<T>(s: Seq<T>, sep: T, n: nat)
    requires
        n <= s.len(),
        forall|j: int| 0 <= j < n ==> s[j] != sep,
        n < s.len() ==> s[n as int] == sep,
    ensures
        before(s, sep) == n,
{
    lemma_before(s, sep);
    let b = before(s, sep);
    if b < n {
        assert(s[b as int] == sep);
    } else if n < b {
        assert(s[n as int] != sep);
    }
}

/// Splitting at a separator that stands first after `head`.
pub proof fn lemma_split_head<T>(head: Seq<T>, sep: T, tail: Seq<T>)
    requires
        forall|i: int| 0 <= i < head.len() ==> head[i] != sep,
    ensures
        split(head + seq![sep] + tail, sep) == seq![head] + split(tail, sep),
{
    let s = head + seq![sep] + tail;
    lemma_before_is(s, sep, head.len());
    assert(s.take(head.len() as int) =~= head);
    assert(s.skip(head.len() as int + 1) =~= tail);
}

/// Splitting where there is no separator.
pub proof fn lemma_split_single<T>(s: Seq<T>, sep: T)
    requires
        forall|i: int| 0 <= i < s.len() ==> s[i] != sep,
    ensures
        split(s, sep) == seq![s],
{
    lemma_before_is(s, sep, s.len());
}

/// A last piece without a separator in it is split off unchanged.
proof fn lemma_split_last<T>(s: Seq<T>, sep: T, last: Seq<T>)
    requires
        forall|i: int| 0 <= i < last.len() ==> last[i] != sep,
    ensures
        split(s + seq![sep] + last, sep) == split(s, sep).push(last),
    decreases s.len(),
{
    let n = before(s, sep) as int;
    lemma_before(s, sep);
    if n >= s.len() {
        lemma_split_head(s, sep, last);
        lemma_split_single(last, sep);
        assert(seq![s] + seq![last] =~= seq![s].push(last));
    } else {
        let rest = s.skip(n + 1);
        lemma_split_last(rest, sep, last);
        let head = s.take(n);
        assert(head + seq![sep] + (rest + seq![sep] + last) =~= s + seq![sep] + last);
        assert forall|i: int| 0 <= i < head.len() implies head[i] != sep by {
            assert(head[i] == s[i]);
        }
        lemma_split_head(head, sep, rest + seq![sep] + last);
        assert(seq![head] + split(rest, sep).push(last) =~= (seq![head] + split(rest, sep)).push(
            last,
        ));
    }
}

/// Texts that are joined with a separator that none of them holds come back
/// when the result is split.
pub proof fn law_join_splits_back<T>(parts: Seq<Seq<T>>, sep: T)
    requires
        parts.len() > 0,
        forall|i: int, j: int|
            0 <= i < parts.len() && 0 <= j < parts[i].len() ==> (#[trigger] parts[i][j]) != sep,
    ensures
        split(join(parts, seq![sep]), sep) == parts,
    decreases parts.len(),
{
    let last = parts.last();
    assert forall|j: int| 0 <= j < last.len() implies last[j] != sep by {
        assert(parts[parts.len() - 1][j] != sep);
    }
    if parts.len() == 1 {
        lemma_split_single(parts[0], sep);
        assert(seq![parts[0]] =~= parts);
    } else {
        let rest = parts.drop_last();
        assert forall|i: int, j: int| 0 <= i < rest.len() && 0 <= j < rest[i].len() implies (
        #[trigger] rest[i][j]) != sep by {
            assert(parts[i][j] != sep);
        }
        law_join_splits_back(rest, sep);
        lemma_split_last(join(rest, seq![sep]), sep, last);
        assert(rest.push(last) =~= parts);
    }
}

/// What follows the same front is the same.
pub proof fn lemma_same_front<T>(p: Seq<T>, r: Seq<T>, q: Seq<T>)
    requires
        p + r == p + q,
    ensures
        r == q,
{
    assert((p + r).skip(p.len() as int) =~= r);
    assert((p + q).skip(p.len() as int) =~= q);
}

/// What is joined begins with the first text.
pub proof fn lemma_join_front<T>(parts: Seq<Seq<T>>, sep: Seq<T>)
    requires
        parts.len() > 1,
    ensures
        join(parts, sep) == parts[0] + sep + join(parts.drop_first(), sep),
    decreases parts.len(),
{
    let front = parts.drop_last();
    if parts.len() == 2 {
        assert(join(front, sep) == parts[0]);
        assert(join(parts.drop_first(), sep) == parts[1]);
    } else {
        lemma_join_front(front, sep);
        let rest = parts.drop_first();
        assert(rest.drop_last() =~= front.drop_first());
        assert(rest.last() == parts.last());
        assert(join(parts, sep) =~= parts[0] + sep + join(rest, sep));
    }
}

pub proof fn lemma_word_len_bound(s: Seq<char>)
    ensures
        word_len(s) <= s.len(),
        forall|j: int| 0 <= j < word_len(s) ==> !white_space(s[j]),
        word_len(s) < s.len() ==> white_space(s[word_len(s) as int]),
    decreases s.len(),
{
    if s.len() > 0 && !white_space(s[0]) {
        let rest = s.drop_first();
        lemma_word_len_bound(rest);
        assert forall|j: int| 0 <= j < word_len(s) implies !white_space(s[j]) by {
            if j > 0 {
                assert(rest[j - 1] == s[j]);
            }
        }
        if word_len(s) < s.len() {
            assert(rest[word_len(rest) as int] == s[word_len(s) as int]);
        }
    }
}

pub proof fn lemma_word_len(s: Seq<char>, n: nat)
    requires
        n <= s.len(),
        forall|j: int| 0 <= j < n ==> !white_space(s[j]),
        n < s.len() ==> white_space(s[n as int]),
    ensures
        word_len(s) == n,
    decreases s.len(),
{
    if n > 0 {
        let rest = s.drop_first();
        assert forall|j: int| 0 <= j < n - 1 implies !white_space(rest[j]) by {
            assert(rest[j] == s[j + 1]);
        }
        if n < s.len() {
            assert(rest[n - 1] == s[n as int]);
        }
        lemma_word_len(rest, (n - 1) as nat);
    }
}

pub proof fn lemma_trim_start(s: Seq<char>, n: nat)
    requires
        n <= s.len(),
        forall|j: int| 0 <= j < n ==> white_space(s[j]),
        n < s.len() ==> !white_space(s[n as int]),
    ensures
        trim_start(s) == s.skip(n as int),
    decreases s.len(),
{
    if n == 0 {
        assert(s.skip(0) == s);
    } else {
        let rest = s.drop_first();
        assert forall|j: int| 0 <= j < n - 1 implies white_space(rest[j]) by {
            assert(rest[j] == s[j + 1]);
        }
        if n < s.len() {
            assert(rest[n - 1] == s[n as int]);
        }
        lemma_trim_start(rest, (n - 1) as nat);
        assert(rest.skip(n - 1) == s.skip(n as int));
    }
}

pub proof fn lemma_trim_end(s: Seq<char>, n: nat)
    requires
        n <= s.len(),
        forall|j: int| n <= j < s.len() ==> white_space(s[j]),
        n > 0 ==> !white_space(s[n - 1]),
    ensures
        trim_end(s) == s.take(n as int),
    decreases s.len(),
{
    if n == s.len() {
        assert(s.take(n as int) == s);
    } else {
        let rest = s.drop_last();
        assert(white_space(s.last()));
        lemma_trim_end(rest, n);
        assert(rest.take(n as int) == s.take(n as int));
    }
}

// ---- building and taking apart strings ----

/// Whether `c` is white space.
pub fn is_white_space(c: char) -> (r: bool)
    ensures
        r == white_space(c),
{
    ('\u{9}' <= c && c <= '\u{d}') || c == ' ' || c == '\u{85}' || c == '\u{a0}' || c == '\u{1680}'
        || ('\u{2000}' <= c && c <= '\u{200a}') || c == '\u{2028}' || c == '\u{2029}' || c
        == '\u{202f}' || c == '\u{205f}' || c == '\u{3000}'
}

/// The characters of a text.
pub fn chars(s: &str) -> (r: Vec<char>)
    ensures
        r@ == s@,
{
    let mut out: Vec<char> = Vec::new();
    for c in it: s.chars()
        invariant
            out@ == it.seq().take(it.index() as int),
            it.seq() == s@,
    {
        out.push(c);
    }
    out
}

/// The text made of the characters from `from` to before `to`.
pub fn slice(cs: &Vec<char>, from: usize, to: usize) -> (r: String)
    requires
        from <= to <= cs@.len(),
    ensures
        r@ == cs@.subrange(from as int, to as int),
{
    let mut out = String::new();
    let mut i: usize = from;
    while i < to
        invariant
            from <= i <= to <= cs@.len(),
            out@ == cs@.subrange(from as int, i as int),
        decreases to - i,
    {
        out.push(cs[i]);
        i += 1;
    }
    out
}

/// `a` followed by `b`.
pub fn cat(a: &str, b: &str) -> (r: String)
    ensures
        r@ == a@ + b@,
{
    let mut out = a.to_owned();
    out.append(b);
    out
}

/// `a`, `b` and `c` in a row.
pub fn cat3(a: &str, b: &str, c: &str) -> (r: String)
    ensures
        r@ == a@ + b@ + c@,
{
    let mut out = a.to_owned();
    out.append(b);
    out.append(c);
    out
}

/// Whether two texts are the same.
pub fn same(a: &str, b: &str) -> (r: bool)
    ensures
        r == (a@ == b@),
{
    a.to_owned() == b.to_owned()
}

proof fn lemma_deep_push(v: Vec<String>, old_v: Vec<String>, s: String)
    requires
        v@ == old_v@.push(s),
    ensures
        v.deep_view() == old_v.deep_view().push(s@),
{
    assert(v.deep_view() =~= old_v.deep_view().push(s@));
}

/// The lines of `s`.
pub fn split_lines(s: &str) -> (r: Vec<String>)
    ensures
        r.deep_view() == lines(s@),
{
    let cs = chars(s);
    let mut out: Vec<String> = Vec::new();
    let mut start: usize = 0;
    proof {
        assert(s@.skip(0) == s@);
        assert(out.deep_view() =~= Seq::<Seq<char>>::empty());
    }
    while start < cs.len()
        invariant
            start <= cs@.len(),
            cs@ == s@,
            out.deep_view() + lines(s@.skip(start as int)) == lines(s@),
        decreases cs@.len() - start,
    {
        let ghost rest = s@.skip(start as int);
        let mut end: usize = start;
        while end < cs.len() && cs[end] != '\n'
            invariant
                start <= end <= cs@.len(),
                cs@ == s@,
                forall|j: int| start <= j < end ==> cs@[j] != '\n',
            decreases cs@.len() - end,
        {
            end += 1;
        }
        proof {
            lemma_before_is(rest, '\n', (end - start) as nat);
        }
        let ghost before_push = out;
        if end < cs.len() {
            let stop: usize = if end > start && cs[end - 1] == '\r' {
                end - 1
            } else {
                end
            };
            let line = slice(&cs, start, stop);
            out.push(line);
            proof {
                let n = end - start;
                assert(rest.take(n) =~= s@.subrange(start as int, end as int));
                assert(line@ =~= without_cr(rest.take(n)));
                assert(rest.skip(n + 1) =~= s@.skip(end + 1));
                lemma_deep_push(out, before_push, line);
                assert(out.deep_view() + lines(s@.skip(end + 1)) =~= before_push.deep_view()
                    + lines(rest));
            }
            start = end + 1;
        } else {
            let line = slice(&cs, start, end);
            out.push(line);
            proof {
                assert(line@ =~= rest);
                lemma_deep_push(out, before_push, line);
                assert(s@.skip(end as int).len() == 0);
                assert(out.deep_view() + lines(s@.skip(end as int)) =~= before_push.deep_view()
                    + lines(rest));
            }
            start = end;
        }
    }
    proof {
        assert(s@.skip(start as int).len() == 0);
        assert(out.deep_view() =~= lines(s@));
    }
    out
}

/// The words of `s`.
pub fn split_words(s: &str) -> (r: Vec<String>)
    ensures
        r.deep_view() == words(s@),
{
    let cs = chars(s);
    let mut out: Vec<String> = Vec::new();
    let mut start: usize = 0;
    proof {
        assert(s@.skip(0) == s@);
        assert(out.deep_view() =~= Seq::<Seq<char>>::empty());
    }
    while start < cs.len()
        invariant
            start <= cs@.len(),
            cs@ == s@,
            out.deep_view() + words(s@.skip(start as int)) == words(s@),
        decreases cs@.len() - start,
    {
        let ghost rest = s@.skip(start as int);
        if is_white_space(cs[start]) {
            proof {
                assert(rest.drop_first() =~= s@.skip(start + 1));
            }
            start += 1;
        } else {
            let mut end: usize = start + 1;
            while end < cs.len() && !is_white_space(cs[end])
                invariant
                    start < end <= cs@.len(),
                    cs@ == s@,
                    forall|j: int| start <= j < end ==> !white_space(cs@[j]),
                decreases cs@.len() - end,
            {
                end += 1;
            }
            let ghost before_push = out;
            let word = slice(&cs, start, end);
            out.push(word);
            proof {
                let n = end - start;
                lemma_word_len(rest, n as nat);
                assert(rest.take(n) =~= word@);
                assert(rest.skip(n) =~= s@.skip(end as int));
                lemma_deep_push(out, before_push, word);
                assert(out.deep_view() + words(s@.skip(end as int)) =~= before_push.deep_view()
                    + words(rest));
            }
            start = end;
        }
    }
    proof {
        assert(s@.skip(start as int).len() == 0);
        assert(out.deep_view() =~= words(s@));
    }
    out
}

/// The pieces of `s` between the characters `sep`.
pub fn split_at(s: &str, sep: char) -> (r: Vec<String>)
    ensures
        r.deep_view() == split(s@, sep),
{
    let cs = chars(s);
    let mut out: Vec<String> = Vec::new();
    let mut start: usize = 0;
    proof {
        assert(s@.skip(0) == s@);
        assert(out.deep_view() =~= Seq::<Seq<char>>::empty());
    }
    loop
        invariant
            start <= cs@.len(),
            cs@ == s@,
            out.deep_view() + split(s@.skip(start as int), sep) == split(s@, sep),
        decreases cs@.len() - start,
    {
        let ghost rest = s@.skip(start as int);
        let mut end: usize = start;
        while end < cs.len() && cs[end] != sep
            invariant
                start <= end <= cs@.len(),
                cs@ == s@,
                forall|j: int| start <= j < end ==> cs@[j] != sep,
            decreases cs@.len() - end,
        {
            end += 1;
        }
        let ghost before_push = out;
        let piece = slice(&cs, start, end);
        out.push(piece);
        proof {
            lemma_before_is(rest, sep, (end - start) as nat);
            assert(rest.take(end - start) =~= piece@);
            lemma_deep_push(out, before_push, piece);
        }
        if end >= cs.len() {
            proof {
                assert(rest =~= piece@);
                assert(out.deep_view() =~= before_push.deep_view() + split(rest, sep));
            }
            return out;
        }
        proof {
            assert(rest.skip(end - start + 1) =~= s@.skip(end + 1));
            assert(out.deep_view() + split(s@.skip(end + 1), sep) =~= before_push.deep_view()
                + split(rest, sep));
        }
        start = end + 1;
    }
}

/// Where the text without the white space in front begins.
fn text_start(cs: &Vec<char>) -> (from: usize)
    ensures
        from <= cs@.len(),
        forall|j: int| 0 <= j < from ==> white_space(cs@[j]),
        from < cs@.len() ==> !white_space(cs@[from as int]),
        trim_start(cs@) == cs@.skip(from as int),
{
    let mut from: usize = 0;
    while from < cs.len() && is_white_space(cs[from])
        invariant
            from <= cs@.len(),
            forall|j: int| 0 <= j < from ==> white_space(cs@[j]),
        decreases cs@.len() - from,
    {
        from += 1;
    }
    proof {
        lemma_trim_start(cs@, from as nat);
    }
    from
}

/// `s` without the white space in front.
pub fn trimmed_start(s: &str) -> (r: String)
    ensures
        r@ == trim_start(s@),
{
    let cs = chars(s);
    let from: usize = text_start(&cs);
    proof {
        assert(cs@.skip(from as int) =~= cs@.subrange(from as int, cs@.len() as int));
    }
    slice(&cs, from, cs.len())
}

/// `s` without the white space around it.
pub fn trimmed(s: &str) -> (r: String)
    ensures
        r@ == trim(s@),
{
    let cs = chars(s);
    let from: usize = text_start(&cs);
    let mut to: usize = cs.len();
    while to > from && is_white_space(cs[to - 1])
        invariant
            from <= to <= cs@.len(),
            forall|j: int| to <= j < cs@.len() ==> white_space(cs@[j]),
        decreases to,
    {
        to -= 1;
    }
    proof {
        let rest = s@.skip(from as int);
        lemma_trim_end(rest, (to - from) as nat);
        assert(rest.take(to - from) =~= s@.subrange(from as int, to as int));
    }
    slice(&cs, from, to)
}

/// Whether `p` stands in `cs` from position `i` on.
fn occurs(cs: &Vec<char>, p: &Vec<char>, i: usize) -> (r: bool)
    requires
        i <= cs@.len(),
    ensures
        r == occurs_at(cs@, p@, i as int),
{
    if p.len() > cs.len() - i {
        return false;
    }
    let mut k: usize = 0;
    while k < p.len()
        invariant
            k <= p@.len(),
            i + p.len() <= cs.len(),
            forall|j: int| 0 <= j < k ==> cs@[i + j] == p@[j],
        decreases p@.len() - k,
    {
        if cs[i + k] != p[k] {
            proof {
                assert(cs@.subrange(i as int, i + p@.len())[k as int] != p@[k as int]);
            }
            return false;
        }
        k += 1;
    }
    proof {
        assert(cs@.subrange(i as int, i + p@.len()) =~= p@);
    }
    true
}

/// Whether `s` begins with `p`.
pub fn has_prefix(s: &str, p: &str) -> (r: bool)
    ensures
        r == starts_with(s@, p@),
{
    occurs(&chars(s), &chars(p), 0)
}

/// Whether `p` stands somewhere in `s`.
pub fn has(s: &str, p: &str) -> (r: bool)
    ensures
        r == contains(s@, p@),
{
    let cs = chars(s);
    let ps = chars(p);
    let mut i: usize = 0;
    while i < cs.len()
        invariant
            i <= cs@.len(),
            cs@ == s@,
            ps@ == p@,
            forall|j: int| 0 <= j < i ==> !occurs_at(s@, p@, j),
        decreases cs@.len() - i,
    {
        if occurs(&cs, &ps, i) {
            return true;
        }
        i += 1;
    }
    occurs(&cs, &ps, i)
}

/// The texts joined with `sep` between neighbours.
pub fn joined(parts: &Vec<String>, sep: &str) -> (r: String)
    ensures
        r@ == join(parts.deep_view(), sep@),
{
    let mut out = String::new();
    let ghost texts = parts.deep_view();
    let mut i: usize = 0;
    while i < parts.len()
        invariant
            i <= parts@.len(),
            texts == parts.deep_view(),
            out@ == join(texts.take(i as int), sep@),
        decreases parts@.len() - i,
    {
        proof {
            assert(texts.take(i + 1).drop_last() =~= texts.take(i as int));
            assert(texts.take(i + 1).last() == parts@[i as int]@);
        }
        if i > 0 {
            out.append(sep);
        }
        out.append(parts[i].as_str());
        proof {
            if i == 0 {
                assert(out@ =~= join(texts.take(1), sep@));
            }
        }
        i += 1;
    }
    proof {
        assert(texts.take(i as int) =~= texts);
    }
    out
}

/// Whether `t` is one of the texts.
pub fn among(parts: &Vec<String>, t: &str) -> (r: bool)
    ensures
        r == parts.deep_view().contains(t@),
{
    let ghost texts = parts.deep_view();
    let mut i: usize = 0;
    while i < parts.len()
        invariant
            i <= parts@.len(),
            texts == parts.deep_view(),
            forall|j: int| 0 <= j < i ==> texts[j] != t@,
        decreases parts@.len() - i,
    {
        proof {
            assert(texts[i as int] == parts@[i as int]@);
        }
        if same(parts[i].as_str(), t) {
            return true;
        }
        i += 1;
    }
    false
}

/// A copy of a list of texts.
pub fn copied(parts: &Vec<String>) -> (r: Vec<String>)
    ensures
        r.deep_view() == parts.deep_view(),
{
    let r = parts.clone();
    proof {
        assert(r.deep_view() =~= parts.deep_view());
    }
    r
}

/// The list of the texts `parts`.
pub fn owned(parts: &[&str]) -> (r: Vec<String>)
    ensures
        r.deep_view() == parts.deep_view(),
{
    let mut out: Vec<String> = Vec::new();
    let mut i: usize = 0;
    while i < parts.len()
        invariant
            i <= parts@.len(),
            out@.len() == i,
            forall|j: int| 0 <= j < i ==> (#[trigger] out@[j])@ == parts@[j]@,
        decreases parts@.len() - i,
    {
        out.push(parts[i].to_owned());
        i += 1;
    }
    proof {
        assert(out.deep_view() =~= parts.deep_view());
    }
    out
}

} // verus!
