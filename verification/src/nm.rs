//! Native Messaging: the browser starts the companion without privileges and
//! talks to it over its standard input and output.
//!
//! A message is JSON behind its length in four bytes, the lowest first. The
//! browser sends `{"type":"status"}`, `{"type":"enable"}` or
//! `{"type":"disable"}`; each message is answered with a status.
use vstd::prelude::*;
use vstd::utf8::*;

use crate::command;
use crate::command::{Invocation, InvocationModel, Ran};
use crate::config;
use crate::json;
use crate::number;
use crate::status;
use crate::status::{Stamp, Status, StatusModel};
use crate::text;

verus! {

// ---- framing ----

/// The longest message that is accepted.
pub const MAX_MESSAGE: usize = 4194304;

/// A number in four bytes, the lowest first.
pub open spec fn le32(b: Seq<u8>) -> int {
    b[0] + b[1] * 256 + b[2] * 65536 + b[3] * 16777216
}

/// The four bytes of a number, the lowest first.
pub open spec fn le_bytes(n: int) -> Seq<u8> {
    seq![
        (n % 256) as u8,
        (n / 256 % 256) as u8,
        (n / 65536 % 256) as u8,
        (n / 16777216 % 256) as u8,
    ]
}

/// What the bytes that came so far amount to.
#[derive(Debug)]
pub enum Incoming {
    /// At least one more byte is needed, and at most this many.
    More(usize),
    /// A whole message came.
    Message(Vec<u8>),
    /// No further message comes.
    End,
    /// The browser does not keep to the format, or reading failed.
    Fault(String),
}

/// What the bytes that came so far amount to.
pub enum IncomingModel {
    More(int),
    Message(Seq<u8>),
    End,
    Fault(Seq<char>),
}

impl View for Incoming {
    type V = IncomingModel;

    open spec fn view(&self) -> IncomingModel {
        match self {
            Incoming::More(n) => IncomingModel::More(*n as int),
            Incoming::Message(payload) => IncomingModel::Message(payload@),
            Incoming::End => IncomingModel::End,
            Incoming::Fault(e) => IncomingModel::Fault(e@),
        }
    }
}

/// What the bytes `got` from the start of a message amount to.
pub open spec fn incoming(got: Seq<u8>) -> IncomingModel {
    let n = le32(got);
    if got.len() < 4 {
        IncomingModel::More(4 - got.len())
    } else if n == 0 {
        IncomingModel::End
    } else if n > MAX_MESSAGE {
        IncomingModel::Fault("message too large: "@ + number::decimal(n as nat) + " bytes"@)
    } else if got.len() < 4 + n {
        IncomingModel::More(4 + n - got.len())
    } else {
        IncomingModel::Message(got.subrange(4, 4 + n))
    }
}

/// What the bytes that came so far amount to, when nothing more can be read:
/// the input ended, or reading failed for the given reason.
pub open spec fn cut_off(got: Seq<u8>, error: Option<Seq<char>>) -> IncomingModel {
    if got.len() >= 4 {
        IncomingModel::Fault(
            "read payload: "@ + config::text_or(error, "failed to fill whole buffer"@),
        )
    } else {
        match error {
            Some(e) => IncomingModel::Fault("read: "@ + e),
            None => if got.len() == 0 {
                IncomingModel::End
            } else {
                IncomingModel::Fault("EOF mid-header"@)
            },
        }
    }
}

/// A message as it is sent: its length, then the message.
pub open spec fn framed(payload: Seq<u8>) -> Seq<u8> {
    le_bytes(payload.len() as int) + payload
}

/// What the bytes that came so far amount to.
pub fn read_message(got: &Vec<u8>) -> (r: Incoming)
    ensures
        r@ == incoming(got@),
{
    if got.len() < 4 {
        return Incoming::More(4 - got.len());
    }
    let n: u64 = got[0] as u64 + got[1] as u64 * 256 + got[2] as u64 * 65536 + got[3] as u64
        * 16777216;
    if n == 0 {
        return Incoming::End;
    }
    if n > MAX_MESSAGE as u64 {
        return Incoming::Fault(
            text::cat3("message too large: ", number::decimal_of(n).as_str(), " bytes"),
        );
    }
    let len: usize = n as usize;
    if got.len() - 4 < len {
        return Incoming::More(4 + len - got.len());
    }
    let mut payload: Vec<u8> = Vec::new();
    let mut i: usize = 0;
    while i < len
        invariant
            i <= len,
            4 + len <= got.len(),
            payload@ == got@.subrange(4, 4 + i),
        decreases len - i,
    {
        payload.push(got[4 + i]);
        i += 1;
    }
    Incoming::Message(payload)
}

/// What the bytes that came so far amount to when nothing more can be read:
/// the input ended, or reading failed for the given reason.
pub fn read_failed(got: &Vec<u8>, error: Option<String>) -> (r: Incoming)
    ensures
        r@ == cut_off(got@, error.deep_view()),
{
    if got.len() >= 4 {
        match error {
            Some(e) => Incoming::Fault(text::cat("read payload: ", e.as_str())),
            None => Incoming::Fault(text::cat("read payload: ", "failed to fill whole buffer")),
        }
    } else {
        match error {
            Some(e) => Incoming::Fault(text::cat("read: ", e.as_str())),
            None => if got.len() == 0 {
                Incoming::End
            } else {
                Incoming::Fault("EOF mid-header".to_owned())
            },
        }
    }
}

/// The bytes to send for a message.
pub fn write_message(payload: &Vec<u8>) -> (r: Vec<u8>)
    ensures
        r@ == framed(payload@),
{
    let n: usize = payload.len();
    let mut out: Vec<u8> = Vec::new();
    out.push((n % 256) as u8);
    out.push((n / 256 % 256) as u8);
    out.push((n / 65536 % 256) as u8);
    out.push((n / 16777216 % 256) as u8);
    let mut i: usize = 0;
    proof {
        assert(out@ =~= le_bytes(n as int) + payload@.take(0));
    }
    while i < n
        invariant
            i <= n,
            n == payload.len(),
            out@ == le_bytes(n as int) + payload@.take(i as int),
        decreases n - i,
    {
        out.push(payload[i]);
        proof {
            assert(payload@.take(i + 1) =~= payload@.take(i as int).push(payload@[i as int]));
            assert(out@ =~= le_bytes(n as int) + payload@.take(i + 1));
        }
        i += 1;
    }
    proof {
        assert(payload@.take(n as int) =~= payload@);
    }
    out
}

proof fn lemma_le_bytes(n: int)
    requires
        0 <= n < 0x1_0000_0000,
    ensures
        le32(le_bytes(n)) == n,
{
    let b0 = n % 256;
    let b1 = n / 256 % 256;
    let b2 = n / 65536 % 256;
    let b3 = n / 16777216 % 256;
    assert(n / 65536 == n / 256 / 256);
    assert(n / 16777216 == n / 256 / 256 / 256);
    assert(le_bytes(n)[0] == b0 && le_bytes(n)[1] == b1 && le_bytes(n)[2] == b2 && le_bytes(n)[3]
        == b3);
}

/// A message that was sent is read back unchanged, whatever follows it.
pub proof fn law_message_reads_back(payload: Seq<u8>, more: Seq<u8>)
    requires
        0 < payload.len() <= MAX_MESSAGE,
    ensures
        incoming(framed(payload) + more) == IncomingModel::Message(payload),
{
    let n = payload.len() as int;
    lemma_le_bytes(n);
    let got = framed(payload) + more;
    assert(got[0] == le_bytes(n)[0] && got[1] == le_bytes(n)[1] && got[2] == le_bytes(n)[2]
        && got[3] == le_bytes(n)[3]);
    assert(got.subrange(4, 4 + n) =~= payload);
}

/// In whatever pieces a message arrives: while it is incomplete more bytes are
/// asked for, at least one, and never so many that a byte of the next message
/// would be taken.
pub proof fn law_incomplete_message_asks_for_more(payload: Seq<u8>, k: int)
    requires
        0 < payload.len() <= MAX_MESSAGE,
        0 <= k < framed(payload).len(),
    ensures
        ({
            let more = incoming(framed(payload).take(k));
            more is More && 0 < more->More_0 <= framed(payload).len() - k
        }),
{
    let n = payload.len() as int;
    lemma_le_bytes(n);
    let all = framed(payload);
    let got = all.take(k);
    if k >= 4 {
        assert(got[0] == le_bytes(n)[0] && got[1] == le_bytes(n)[1] && got[2] == le_bytes(n)[2]
            && got[3] == le_bytes(n)[3]);
    }
}

/// No message is longer than the limit, whatever bytes come.
pub proof fn law_messages_are_bounded(got: Seq<u8>)
    requires
        incoming(got) is Message,
    ensures
        0 < incoming(got)->Message_0.len() <= MAX_MESSAGE,
{
}

// ---- messages ----

/// What the privileged helper can be asked to do. There is nothing else.
#[derive(Clone, Copy, Debug, PartialEq, Eq, Structural)]
pub enum Operation {
    Enable,
    Disable,
}

impl Operation {
    pub open spec fn name_model(self) -> Seq<char> {
        match self {
            Operation::Enable => "enable"@,
            Operation::Disable => "disable"@,
        }
    }

    /// The word for the operation.
    pub fn name(&self) -> (r: &'static str)
        ensures
            r@ == self.name_model(),
    {
        match self {
            Operation::Enable => "enable",
            Operation::Disable => "disable",
        }
    }
}

/// What a message asks for.
#[derive(Debug)]
pub enum Request {
    /// The current status is wanted.
    Status,
    /// The helper is to be run.
    Helper(Operation),
    /// The message is refused with this status.
    Refuse(Status),
}

/// What a message asks for.
pub enum RequestModel {
    Status,
    Helper(Operation),
    Refuse(StatusModel),
}

impl View for Request {
    type V = RequestModel;

    open spec fn view(&self) -> RequestModel {
        match self {
            Request::Status => RequestModel::Status,
            Request::Helper(operation) => RequestModel::Helper(*operation),
            Request::Refuse(status) => RequestModel::Refuse(status@),
        }
    }
}

/// The status that reports an error.
pub open spec fn error_model(detail: Seq<char>, stamp: Stamp) -> StatusModel {
    status::failed(detail, detail, 0, stamp)
}

/// The status that reports an error.
pub fn error_status(detail: &str, stamp: Stamp) -> (r: Status)
    ensures
        r@ == error_model(detail@, stamp),
{
    Status::failure(detail, detail, 0, stamp)
}

/// What a message asks for, by what its member `type` reads as. A message
/// without such a text is taken for one with an empty text.
pub open spec fn request_of(kind: Result<Option<Seq<char>>, Seq<char>>, stamp: Stamp) -> RequestModel {
    match kind {
        Err(e) => RequestModel::Refuse(error_model("invalid JSON: "@ + e, stamp)),
        Ok(kind) => {
            let word = config::text_or(kind, seq![]);
            if word == "status"@ {
                RequestModel::Status
            } else if word == "enable"@ {
                RequestModel::Helper(Operation::Enable)
            } else if word == "disable"@ {
                RequestModel::Helper(Operation::Disable)
            } else {
                RequestModel::Refuse(error_model("unknown message type: "@ + word, stamp))
            }
        },
    }
}

/// What a message asks for, by what its member `type` reads as.
pub fn request_for(kind: Result<Option<String>, String>, stamp: Stamp) -> (r: Request)
    ensures
        r@ == request_of(json::member_model(kind), stamp),
{
    match kind {
        Err(e) => Request::Refuse(
            error_status(text::cat("invalid JSON: ", e.as_str()).as_str(), stamp),
        ),
        Ok(kind) => {
            let word = match kind {
                Some(word) => word,
                None => String::new(),
            };
            if text::same(word.as_str(), "status") {
                Request::Status
            } else if text::same(word.as_str(), "enable") {
                Request::Helper(Operation::Enable)
            } else if text::same(word.as_str(), "disable") {
                Request::Helper(Operation::Disable)
            } else {
                Request::Refuse(
                    error_status(
                        text::cat("unknown message type: ", word.as_str()).as_str(),
                        stamp,
                    ),
                )
            }
        },
    }
}

/// The bytes of a message whose one member is its type.
pub open spec fn message(kind: Seq<char>) -> Seq<u8> {
    json::one_member("type"@, kind)
}

/// What the message `payload` asks for.
pub fn handle(payload: &Vec<u8>, stamp: Stamp) -> (r: Request)
    ensures
        r@ == request_of(json::text_member(payload@, "type"@), stamp),
        forall|kind: Seq<char>|
            payload@ == #[trigger] message(kind) ==> r@ == request_of(Ok(Some(kind)), stamp),
{
    request_for(json::read_text_member(payload.as_slice(), "type"), stamp)
}

/// The status to report: the published one, else that the tunnel is stopped.
pub open spec fn current_model(published: Option<StatusModel>, stamp: Stamp) -> StatusModel {
    match published {
        Some(status) => status,
        None => status::fresh("stopped"@, "tunnel not running"@, 0, stamp),
    }
}

/// The status to report: the published one, else that the tunnel is stopped.
pub fn current_status(published: Option<Status>, stamp: Stamp) -> (r: Status)
    ensures
        r@ == current_model(published.deep_view(), stamp),
{
    match published {
        Some(status) => status,
        None => Status::new("stopped", "tunnel not running", 0, stamp),
    }
}

/// The status to report after the helper ran, by what it printed.
pub open spec fn helper_status_model(
    printed: Result<Option<Status>, String>,
    stamp: Stamp,
) -> StatusModel {
    match printed {
        Ok(Some(status)) => status@,
        Ok(None) => error_model("companion returned an invalid response"@, stamp),
        Err(e) => error_model(e@, stamp),
    }
}

/// The status to report after the helper ran: what it printed, or why that is
/// no status. `printed` is the status that its output reads as.
pub fn helper_status(printed: Result<Option<Status>, String>, stamp: Stamp) -> (r: Status)
    ensures
        r@ == helper_status_model(printed, stamp),
{
    match printed {
        Ok(Some(status)) => status,
        Ok(None) => error_status("companion returned an invalid response", stamp),
        Err(e) => error_status(e.as_str(), stamp),
    }
}

/// The members of the reply with a status: those of the status and the type of
/// the message, sorted by their names.
pub open spec fn reply_members(s: StatusModel) -> Seq<(Seq<char>, Seq<char>)> {
    seq![
        ("detail"@, json::quoted(s.detail)),
        ("error"@, json::quoted_or_null(s.error)),
        ("pid"@, number::decimal(s.pid as nat)),
        ("since"@, number::decimal(s.since as nat)),
        ("socks_port"@, number::decimal(s.socks_port as nat)),
        ("state"@, json::quoted(s.state)),
        ("type"@, json::quoted("status"@)),
    ]
}

/// The reply with a status.
pub open spec fn reply_model(s: StatusModel) -> Seq<u8> {
    encode_utf8(json::object(reply_members(s)))
}

/// The reply with a status.
pub fn json_reply(s: &Status) -> (r: Vec<u8>)
    ensures
        r@ == reply_model(s@),
{
    let members: Vec<(String, String)> = vec![
        json::member("detail", json::quote(s.detail.as_str())),
        json::member("error", json::quote_or_null(&s.error)),
        json::member("pid", number::decimal_of(s.pid as u64)),
        json::member("since", number::decimal_of(s.since)),
        json::member("socks_port", number::decimal_of(s.socks_port as u64)),
        json::member("state", json::quote(s.state.as_str())),
        json::member("type", json::quote("status")),
    ];
    proof {
        assert(members.deep_view() =~= reply_members(s@));
    }
    vstd::slice::slice_to_vec(json::render(&members).as_str().as_bytes())
}

/// A reply has exactly the members of the status that it reports, and the
/// member `type`, which is `status`.
pub proof fn law_reply_is_a_status(s: StatusModel)
    ensures
        forall|m: (Seq<char>, Seq<char>)| #[trigger]
            reply_members(s).contains(m) <==> s.members().contains(m) || m == (
                "type"@,
                json::quoted("status"@),
            ),
{
    let reply = reply_members(s);
    let members = s.members();
    let kind = ("type"@, json::quoted("status"@));
    assert(reply[0] == members[1] && reply[1] == members[5] && reply[2] == members[3] && reply[3]
        == members[4] && reply[4] == members[2] && reply[5] == members[0] && reply[6] == kind);
    assert forall|m: (Seq<char>, Seq<char>)| #[trigger] reply.contains(m) <==> members.contains(m)
        || m == kind by {
        if reply.contains(m) {
            let i = choose|i: int| 0 <= i < reply.len() && reply[i] == m;
            assert(i == 0 || i == 1 || i == 2 || i == 3 || i == 4 || i == 5 || i == 6);
        }
        if members.contains(m) {
            let i = choose|i: int| 0 <= i < members.len() && members[i] == m;
            assert(i == 0 || i == 1 || i == 2 || i == 3 || i == 4 || i == 5);
        }
    }
}

proof fn lemma_message_text(kind: Seq<char>)
    ensures
        json::object(seq![("type"@, json::quoted(kind))]) == "{"@ + (json::quoted("type"@) + ":"@
            + json::quoted(kind)) + "}"@,
{
    let members = seq![("type"@, json::quoted(kind))];
    assert(json::member_texts(members) =~= seq![json::member_text(members[0])]);
}

/// The messages that the extension sends, as text.
pub proof fn law_messages_of_the_extension()
    ensures
        message("status"@) == encode_utf8("{\"type\":\"status\"}"@),
        message("enable"@) == encode_utf8("{\"type\":\"enable\"}"@),
        message("disable"@) == encode_utf8("{\"type\":\"disable\"}"@),
{
    reveal_with_fuel(json::escaped, 8);
    reveal_strlit("{");
    reveal_strlit(":");
    reveal_strlit("}");
    reveal_strlit("type");
    reveal_strlit("status");
    reveal_strlit("enable");
    reveal_strlit("disable");
    reveal_strlit("{\"type\":\"status\"}");
    reveal_strlit("{\"type\":\"enable\"}");
    reveal_strlit("{\"type\":\"disable\"}");
    lemma_message_text("status"@);
    lemma_message_text("enable"@);
    lemma_message_text("disable"@);
    assert(json::quoted("type"@) =~= seq!['"', 't', 'y', 'p', 'e', '"']);
    assert(json::quoted("status"@) =~= seq!['"', 's', 't', 'a', 't', 'u', 's', '"']);
    assert(json::quoted("enable"@) =~= seq!['"', 'e', 'n', 'a', 'b', 'l', 'e', '"']);
    assert(json::quoted("disable"@) =~= seq!['"', 'd', 'i', 's', 'a', 'b', 'l', 'e', '"']);
    assert(json::object(seq![("type"@, json::quoted("status"@))])
        =~= "{\"type\":\"status\"}"@);
    assert(json::object(seq![("type"@, json::quoted("enable"@))])
        =~= "{\"type\":\"enable\"}"@);
    assert(json::object(seq![("type"@, json::quoted("disable"@))])
        =~= "{\"type\":\"disable\"}"@);
}

/// The types of message that are answered.
pub open spec fn known(word: Seq<char>) -> bool {
    word == "status"@ || word == "enable"@ || word == "disable"@
}

/// A message makes the helper run in no other case than that its type is
/// `enable` or `disable`, and then with that operation and nothing else of the
/// message; every message of another type, and everything that is not JSON, is
/// refused with an error.
pub proof fn law_only_known_messages_run_the_helper(
    kind: Result<Option<Seq<char>>, Seq<char>>,
    stamp: Stamp,
)
    ensures
        request_of(kind, stamp) is Helper ==> kind == Ok::<Option<Seq<char>>, Seq<char>>(
            Some((request_of(kind, stamp)->Helper_0).name_model()),
        ),
        kind is Err || !known(config::text_or(kind->Ok_0, seq![])) ==> {
            let refusal = request_of(kind, stamp);
            refusal is Refuse && (refusal->Refuse_0).state == "error"@ && (refusal->Refuse_0).error
                == Some((refusal->Refuse_0).detail)
        },
{
    reveal_strlit("status");
    reveal_strlit("enable");
    reveal_strlit("disable");
    assert("status"@.len() == 6);
    assert("enable"@.len() == 6);
    assert("disable"@.len() == 7);
}

// ---- the helper ----

/// The privileged helper, run directly by root and else through `sudo`.
pub open spec fn helper_command(
    exe: Seq<char>,
    is_root: bool,
    sudo: Option<Seq<char>>,
    operation: Operation,
) -> InvocationModel {
    if is_root {
        InvocationModel { program: exe, args: seq!["helper"@, operation.name_model()] }
    } else {
        InvocationModel {
            program: config::text_or(sudo, "sudo"@),
            args: seq!["-n"@, exe, "helper"@, operation.name_model()],
        }
    }
}

/// The privileged helper, run directly by root and else through `sudo`, which
/// does not ask for a password.
pub fn helper_invocation(
    exe: &str,
    is_root: bool,
    sudo: Option<String>,
    operation: Operation,
) -> (r: Invocation)
    ensures
        r@ == helper_command(exe@, is_root, sudo.deep_view(), operation),
{
    if is_root {
        let args = text::owned(&["helper", operation.name()]);
        proof {
            assert(args.deep_view() =~= seq!["helper"@, operation.name_model()]);
        }
        Invocation { program: exe.to_owned(), args }
    } else {
        let args = text::owned(&["-n", exe, "helper", operation.name()]);
        proof {
            assert(args.deep_view() =~= seq!["-n"@, exe@, "helper"@, operation.name_model()]);
        }
        Invocation { program: command::bin("sudo", sudo), args }
    }
}

/// What the helper came to: what it printed if it succeeded, else what went
/// wrong.
pub open spec fn helper_outcome(
    success: bool,
    status: Seq<char>,
    stdout: Seq<char>,
    stderr: Seq<char>,
) -> Result<Seq<char>, Seq<char>> {
    let complaint = text::trim(stderr);
    if success {
        Ok(stdout)
    } else if text::contains(complaint, "password"@) || text::contains(
        complaint,
        "not allowed"@,
    ) {
        Err(
            "passwordless sudo is not configured for the KIT VPN helper — re-run scripts/install.sh (it grants the helper NOPASSWD access)"@,
        )
    } else if complaint.len() > 0 {
        Err("helper failed: "@ + complaint)
    } else if text::trim(stdout).len() > 0 {
        Err("helper failed: "@ + text::trim(stdout))
    } else {
        Err("helper exited with "@ + status)
    }
}

/// What the helper that ended with these texts came to.
pub fn helper_ended(success: bool, status: &str, stdout: &str, stderr: &str) -> (r: Result<
    String,
    String,
>)
    ensures
        command::reply_model(r) == helper_outcome(success, status@, stdout@, stderr@),
{
    if success {
        return Ok(stdout.to_owned());
    }
    let complaint = text::trimmed(stderr);
    if text::has(complaint.as_str(), "password") || text::has(complaint.as_str(), "not allowed") {
        return Err(
            "passwordless sudo is not configured for the KIT VPN helper — re-run scripts/install.sh (it grants the helper NOPASSWD access)".to_owned(),
        );
    }
    if !complaint.as_str().is_empty() {
        return Err(text::cat("helper failed: ", complaint.as_str()));
    }
    let printed = text::trimmed(stdout);
    if !printed.as_str().is_empty() {
        return Err(text::cat("helper failed: ", printed.as_str()));
    }
    Err(text::cat("helper exited with ", status))
}

/// What running the helper came to.
pub open spec fn helper_ran(ran: Ran) -> Result<Seq<char>, Seq<char>> {
    match ran {
        Ran::NotStarted(e) => Err("failed to run privileged helper: "@ + e@),
        Ran::Finished { success, status, stdout, stderr } => helper_outcome(
            success,
            status@,
            text::lossy_text(stdout@),
            text::lossy_text(stderr@),
        ),
    }
}

/// What running the helper came to.
pub fn run_helper(ran: Ran) -> (r: Result<String, String>)
    ensures
        command::reply_model(r) == helper_ran(ran),
{
    match ran {
        Ran::NotStarted(e) => Err(text::cat("failed to run privileged helper: ", e.as_str())),
        Ran::Finished { success, status, stdout, stderr } => helper_ended(
            success,
            status.as_str(),
            text::from_utf8_lossy(stdout.as_slice()).as_str(),
            text::from_utf8_lossy(stderr.as_slice()).as_str(),
        ),
    }
}

/// Why the helper cannot be run when the path of this program is not known.
pub open spec fn no_helper(e: Seq<char>) -> Seq<char> {
    "cannot locate companion binary: "@ + e
}

/// Why the helper cannot be run when the path of this program is not known.
pub fn no_program(e: &str) -> (r: String)
    ensures
        r@ == no_helper(e@),
{
    text::cat("cannot locate companion binary: ", e)
}

/// Where the process that talks to the browser writes its log.
pub open spec fn log_file(home: Option<Seq<char>>) -> Seq<char> {
    match home {
        Some(home) => home + "/.cache/kit-vpn/nm.log"@,
        None => "/tmp/kit-vpn-nm.log"@,
    }
}

/// Where the process that talks to the browser writes its log.
pub fn log_path(home: Option<String>) -> (r: String)
    ensures
        r@ == log_file(home.deep_view()),
{
    match home {
        Some(home) => text::cat(home.as_str(), "/.cache/kit-vpn/nm.log"),
        None => "/tmp/kit-vpn-nm.log".to_owned(),
    }
}

} // verus!
