//! The JSON that the companion reads and writes.
use vstd::prelude::*;
use vstd::utf8::*;

use crate::text;

verus! {

/// A hexadecimal digit.
pub open spec fn hex_digit(n: int) -> char {
    if n == 0 {
        '0'
    } else if n == 1 {
        '1'
    } else if n == 2 {
        '2'
    } else if n == 3 {
        '3'
    } else if n == 4 {
        '4'
    } else if n == 5 {
        '5'
    } else if n == 6 {
        '6'
    } else if n == 7 {
        '7'
    } else if n == 8 {
        '8'
    } else if n == 9 {
        '9'
    } else if n == 10 {
        'a'
    } else if n == 11 {
        'b'
    } else if n == 12 {
        'c'
    } else if n == 13 {
        'd'
    } else if n == 14 {
        'e'
    } else {
        'f'
    }
}

/// How one character stands inside a JSON string.
pub open spec fn escaped_char(c: char) -> Seq<char> {
    if c == '"' {
        seq!['\\', '"']
    } else if c == '\\' {
        seq!['\\', '\\']
    } else if c == '\u{8}' {
        seq!['\\', 'b']
    } else if c == '\t' {
        seq!['\\', 't']
    } else if c == '\n' {
        seq!['\\', 'n']
    } else if c == '\u{c}' {
        seq!['\\', 'f']
    } else if c == '\r' {
        seq!['\\', 'r']
    } else if (c as int) < 32 {
        seq!['\\', 'u', '0', '0', hex_digit(c as int / 16), hex_digit(c as int % 16)]
    } else {
        seq![c]
    }
}

/// How a text stands inside a JSON string.
pub open spec fn escaped(s: Seq<char>) -> Seq<char>
    decreases s.len(),
{
    if s.len() == 0 {
        seq![]
    } else {
        escaped_char(s[0]) + escaped(s.drop_first())
    }
}

/// A text as a JSON string.
pub open spec fn quoted(s: Seq<char>) -> Seq<char> {
    seq!['"'] + escaped(s) + seq!['"']
}

/// A text, if there is one, as JSON: `null` if there is none.
pub open spec fn quoted_or_null(s: Option<Seq<char>>) -> Seq<char> {
    match s {
        Some(t) => quoted(t),
        None => "null"@,
    }
}

/// A member of an object: its name and its value, which is JSON.
pub open spec fn member_text(member: (Seq<char>, Seq<char>)) -> Seq<char> {
    quoted(member.0) + ":"@ + member.1
}

/// The texts of several members.
pub open spec fn member_texts(members: Seq<(Seq<char>, Seq<char>)>) -> Seq<Seq<char>> {
    members.map_values(|member: (Seq<char>, Seq<char>)| member_text(member))
}

/// An object with these members, in this order, without white space.
pub open spec fn object(members: Seq<(Seq<char>, Seq<char>)>) -> Seq<char> {
    "{"@ + text::join(member_texts(members), ","@) + "}"@
}

/// `serde_json::to_string` on a `str`. It puts the text between double quotes,
/// writes a backslash before quotes and backslashes, gives control characters
/// their short escapes or `\u00XX`, and leaves all other characters as they
/// are. Writing a `str` into memory does not fail.
#[verifier::external_body]
fn serialize_str(s: &str) -> (r: Option<String>)
    ensures
        r is Some,
        r->0@ == quoted(s@),
{
    serde_json::to_string(s).ok()
}

/// What reading a JSON document and asking for a member gives: the message of
/// the error if `doc` is not a JSON document, else the text of the member
/// `key` if the document is an object that has this member and it is a string.
pub uninterp spec fn text_member(doc: Seq<u8>, key: Seq<char>) -> Result<
    Option<Seq<char>>,
    Seq<char>,
>;

/// The texts in the outcome of reading a member.
pub open spec fn member_model(r: Result<Option<String>, String>) -> Result<
    Option<Seq<char>>,
    Seq<char>,
> {
    match r {
        Ok(t) => Ok(t.deep_view()),
        Err(e) => Err(e@),
    }
}

/// The bytes of an object whose one member is a string.
pub open spec fn one_member(key: Seq<char>, t: Seq<char>) -> Seq<u8> {
    encode_utf8(object(seq![(key, quoted(t))]))
}

/// Whether the member was read, and is this text.
pub open spec fn is_text(r: Result<Option<String>, String>, t: Seq<char>) -> bool {
    r is Ok && r->Ok_0 is Some && r->Ok_0->0@ == t
}

/// `serde_json::from_slice` into a `serde_json::Value`, then `Value::get` and
/// `Value::as_str`. The outcome depends on the bytes and the key alone; it is
/// named `text_member`. Of an object whose one member is a string under this
/// key, that string is read. What other bytes read as is left to the name.
#[verifier::external_body]
pub(crate) fn read_text_member(doc: &[u8], key: &str) -> (r: Result<Option<String>, String>)
    ensures
        member_model(r) == text_member(doc@, key@),
        forall|t: Seq<char>| doc@ == #[trigger] one_member(key@, t) ==> is_text(r, t),
{
    match serde_json::from_slice::<serde_json::Value>(doc) {
        Ok(v) => Ok(v.get(key).and_then(|m| m.as_str()).map(|t| t.to_string())),
        Err(e) => Err(e.to_string()),
    }
}

/// `s` as a JSON string.
pub fn quote(s: &str) -> (r: String)
    ensures
        r@ == quoted(s@),
{
    match serialize_str(s) {
        Some(t) => t,
        None => String::new(),
    }
}

/// `s` as a JSON string, or `null`.
pub fn quote_or_null(s: &Option<String>) -> (r: String)
    ensures
        r@ == quoted_or_null(s.deep_view()),
{
    match s {
        Some(t) => quote(t.as_str()),
        None => "null".to_owned(),
    }
}

/// A member of an object.
pub fn member(key: &str, value: String) -> (r: (String, String))
    ensures
        r.deep_view() == (key@, value@),
{
    (key.to_owned(), value)
}

/// The object with these members.
pub fn render(members: &Vec<(String, String)>) -> (r: String)
    ensures
        r@ == object(members.deep_view()),
{
    let ghost model = members.deep_view();
    let mut parts: Vec<String> = Vec::new();
    let mut i: usize = 0;
    while i < members.len()
        invariant
            i <= members@.len(),
            model == members.deep_view(),
            parts@.len() == i,
            forall|j: int| 0 <= j < i ==> (#[trigger] parts@[j])@ == member_text(model[j]),
        decreases members@.len() - i,
    {
        proof {
            assert(model[i as int] == members@[i as int].deep_view());
        }
        let m = &members[i];
        parts.push(text::cat3(quote(m.0.as_str()).as_str(), ":", m.1.as_str()));
        i += 1;
    }
    proof {
        assert(parts.deep_view() =~= member_texts(model));
    }
    text::cat3("{", text::joined(&parts, ",").as_str(), "}")
}

} // verus!
