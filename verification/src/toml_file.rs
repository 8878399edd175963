//! The TOML of the configuration file.
use vstd::prelude::*;

use crate::number;
use crate::text;

verus! {

// ---- writing ----

/// A text between quotation marks.
pub open spec fn marked(t: Seq<char>) -> Seq<char> {
    "\""@ + t + "\""@
}

/// The texts of a list between quotation marks, separated by commas.
pub open spec fn listed(texts: Seq<Seq<char>>) -> Seq<char> {
    text::join(texts.map_values(|t: Seq<char>| marked(t)), ", "@)
}

/// A text between quotation marks.
pub fn mark(t: &str) -> (r: String)
    ensures
        r@ == marked(t@),
{
    text::cat3("\"", t, "\"")
}

/// The texts of a list between quotation marks, separated by commas.
pub fn list(texts: &Vec<String>) -> (r: String)
    ensures
        r@ == listed(texts.deep_view()),
{
    let mut out: Vec<String> = Vec::new();
    let mut i: usize = 0;
    while i < texts.len()
        invariant
            i <= texts@.len(),
            out@.len() == i,
            forall|j: int| 0 <= j < i ==> (#[trigger] out@[j])@ == marked(texts@[j]@),
        decreases texts@.len() - i,
    {
        out.push(mark(texts[i].as_str()));
        i += 1;
    }
    proof {
        assert(out.deep_view() =~= texts.deep_view().map_values(|t: Seq<char>| marked(t)));
    }
    text::joined(&out, ", ")
}

/// A value that is written.
pub enum Written {
    Text(Seq<char>),
    Number(nat),
    Texts(Seq<Seq<char>>),
}

impl Written {
    /// The value as it stands in the file.
    pub open spec fn text(self) -> Seq<char> {
        match self {
            Written::Text(t) => marked(t),
            Written::Number(n) => number::decimal(n),
            Written::Texts(texts) => "["@ + listed(texts) + "]"@,
        }
    }
}

/// The line with which the file begins: a comment.
pub const COMMENT: &'static str = "# /etc/kit-vpn/config.toml — written by kit-vpn-companion config\n";

/// The line of a key and its value.
pub open spec fn line(key: Seq<char>, value: Seq<char>) -> Seq<char> {
    key + " = "@ + value + "\n"@
}

/// The line of a key and its value.
pub fn write_line(key: &str, value: &str) -> (r: String)
    ensures
        r@ == line(key@, value@),
{
    let mut r = text::cat3(key, " = ", value);
    r.append("\n");
    r
}

/// The lines of some entries, each a key and a value.
pub open spec fn entry_lines(entries: Seq<(Seq<char>, Written)>) -> Seq<char>
    decreases entries.len(),
{
    if entries.len() == 0 {
        seq![]
    } else {
        line(entries[0].0, entries[0].1.text()) + entry_lines(entries.drop_first())
    }
}

/// A file with these entries.
pub open spec fn document(entries: Seq<(Seq<char>, Written)>) -> Seq<char> {
    COMMENT@ + entry_lines(entries)
}

// ---- reading ----

/// Whether a character stands for itself between quotation marks: it is
/// neither a quotation mark nor a backslash nor a control character.
pub open spec fn plain_char(c: char) -> bool {
    c != '"' && c != '\\' && (c as int) >= 32 && (c as int) != 127
}

/// Whether all characters stand for themselves between quotation marks.
pub open spec fn plain(t: Seq<char>) -> bool {
    forall|i: int| 0 <= i < t.len() ==> plain_char(#[trigger] t[i])
}

/// Whether all texts are plain.
pub open spec fn all_plain(texts: Seq<Seq<char>>) -> bool {
    forall|i: int| 0 <= i < texts.len() ==> plain(#[trigger] texts[i])
}

/// The keys of the configuration.
pub open spec fn known_key(key: Seq<char>) -> bool {
    key == "ovpn_path"@ || key == "socks_port"@ || key == "dns_servers"@ || key == "subnet"@ || key
        == "auth_user_pass"@
}

/// Whether the entries are read back as they are written: the keys are known
/// and differ from each other, the texts are plain, and the numbers fit.
pub open spec fn readable(entries: Seq<(Seq<char>, Written)>) -> bool {
    &&& forall|i: int| 0 <= i < entries.len() ==> known_key((#[trigger] entries[i]).0)
    &&& forall|i: int, j: int|
        0 <= i < j < entries.len() ==> (#[trigger] entries[i]).0 != (#[trigger] entries[j]).0
    &&& forall|i: int|
        0 <= i < entries.len() ==> match (#[trigger] entries[i]).1 {
            Written::Text(t) => plain(t),
            Written::Number(n) => n <= i64::MAX,
            Written::Texts(texts) => all_plain(texts),
        }
}

/// The value under a key.
pub open spec fn under(entries: Seq<(Seq<char>, Written)>, key: Seq<char>) -> Option<Written>
    decreases entries.len(),
{
    if entries.len() == 0 {
        None
    } else if entries[0].0 == key {
        Some(entries[0].1)
    } else {
        under(entries.drop_first(), key)
    }
}

/// A value that was read.
#[derive(Debug)]
pub enum Entry {
    Text(String),
    Integer(i64),
    /// A list; what is no text in it is `None`.
    List(Vec<Option<String>>),
    /// Something else.
    Other,
}

/// A value that was read.
pub enum EntryModel {
    Text(Seq<char>),
    Integer(int),
    List(Seq<Option<Seq<char>>>),
    Other,
}

impl View for Entry {
    type V = EntryModel;

    open spec fn view(&self) -> EntryModel {
        match self {
            Entry::Text(t) => EntryModel::Text(t@),
            Entry::Integer(n) => EntryModel::Integer(*n as int),
            Entry::List(items) => EntryModel::List(items.deep_view()),
            Entry::Other => EntryModel::Other,
        }
    }
}

impl DeepView for Entry {
    type V = EntryModel;

    open spec fn deep_view(&self) -> EntryModel {
        self@
    }
}

/// What was read under a key, or why the file is no TOML.
pub open spec fn entry_model(r: Result<Option<Entry>, String>) -> Result<
    Option<EntryModel>,
    Seq<char>,
> {
    match r {
        Ok(entry) => Ok(entry.deep_view()),
        Err(e) => Err(e@),
    }
}

/// What a value that was written reads as.
pub open spec fn read_as(written: Option<Written>) -> Option<EntryModel> {
    match written {
        Some(Written::Text(t)) => Some(EntryModel::Text(t)),
        Some(Written::Number(n)) => Some(EntryModel::Integer(n as int)),
        Some(Written::Texts(texts)) => Some(
            EntryModel::List(texts.map_values(|t: Seq<char>| Some(t))),
        ),
        None => None,
    }
}

/// What reading a TOML file and asking for the value under a key of its root
/// table gives: the message of the error if it is no TOML, else the value if
/// there is one.
pub uninterp spec fn toml_entry(doc: Seq<char>, key: Seq<char>) -> Result<
    Option<EntryModel>,
    Seq<char>,
>;

/// Whether reading succeeded and gave this.
pub open spec fn gave(r: Result<Option<Entry>, String>, entry: Option<EntryModel>) -> bool {
    r is Ok && r->Ok_0.deep_view() == entry
}

/// `toml::from_str` into a `toml::Table`, then `Table::get`. A string, an
/// integer and an array become plain values; of the items of an array only
/// strings are kept. The outcome depends on the text and the key alone; it is
/// named `toml_entry`. Of a file that begins with the comment and goes on with
/// lines of known keys, each once, and values that are plain strings, numbers
/// or lists of plain strings, the value under the key is read as it was
/// written, and nothing under a key that is not there. What other texts read as
/// is left to the name.
#[verifier::external_body]
pub(crate) fn read_entry(doc: &str, key: &str) -> (r: Result<Option<Entry>, String>)
    ensures
        entry_model(r) == toml_entry(doc@, key@),
        forall|entries: Seq<(Seq<char>, Written)>|
            doc@ == #[trigger] document(entries) && readable(entries) ==> gave(
                r,
                read_as(under(entries, key@)),
            ),
{
    let table = match toml::from_str::<toml::Table>(doc) {
        Ok(table) => table,
        Err(e) => return Err(e.to_string()),
    };
    Ok(match table.get(key) {
        None => None,
        Some(toml::Value::String(s)) => Some(Entry::Text(s.clone())),
        Some(toml::Value::Integer(n)) => Some(Entry::Integer(*n)),
        Some(toml::Value::Array(a)) => Some(
            Entry::List(a.iter().map(|v| v.as_str().map(|s| s.to_string())).collect()),
        ),
        Some(_) => Some(Entry::Other),
    })
}

} // verus!
