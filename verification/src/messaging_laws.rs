//! What holds of the messages that are exchanged with the browser, of the
//! status that they report and of how the helper is run.
use vstd::prelude::*;
use vstd::utf8::*;

use crate::command::Ran;
use crate::json;
use crate::nm;
use crate::nm::{IncomingModel, Operation, RequestModel};
use crate::number;
use crate::status;
use crate::status::{Stamp, Status, StatusModel};
use crate::text;
use crate::text_laws;

verus! {

// ---- the status ----

/// A fresh status says what it is given, who made it and when, and no error; a
/// failed one says that it is an error, and why.
pub proof fn law_statuses(
    state: Seq<char>,
    detail: Seq<char>,
    error: Seq<char>,
    port: u16,
    stamp: Stamp,
)
    ensures
        status::fresh(state, detail, port, stamp) == (StatusModel {
            state,
            detail,
            socks_port: port,
            pid: stamp.pid,
            since: stamp.now,
            error: None,
        }),
        status::failed(detail, error, port, stamp) == (StatusModel {
            state: "error"@,
            detail,
            socks_port: port,
            pid: stamp.pid,
            since: stamp.now,
            error: Some(error),
        }),
        status::healthy(state) <==> state == "running"@ || state == "starting"@ || state
            == "reconnecting"@,
{
}

/// One member of a JSON object.
pub open spec fn names(key: Seq<char>, value: Seq<char>) -> Seq<char> {
    seq!['"'] + key + seq!['"', ':'] + value
}

/// A text, or `null`, as JSON.
pub open spec fn text_or_null(t: Option<Seq<char>>) -> Seq<char> {
    match t {
        Some(t) => json::quoted(t),
        None => seq!['n', 'u', 'l', 'l'],
    }
}

proof fn lemma_member(key: Seq<char>, value: Seq<char>)
    requires
        forall|i: int|
            0 <= i < key.len() ==> 32 <= (#[trigger] key[i] as int) < 128 && key[i] != '"' && key[i]
                != '\\',
    ensures
        json::member_text((key, value)) == names(key, value),
{
    lemma_plain_key(key);
    reveal_strlit(":");
    assert(json::member_text((key, value)) =~= names(key, value));
}

proof fn lemma_plain_key(key: Seq<char>)
    requires
        forall|i: int|
            0 <= i < key.len() ==> 32 <= (#[trigger] key[i] as int) < 128 && key[i] != '"' && key[i]
                != '\\',
    ensures
        json::escaped(key) == key,
    decreases key.len(),
{
    if key.len() > 0 {
        let rest = key.drop_first();
        assert forall|i: int| 0 <= i < rest.len() implies 32 <= (#[trigger] rest[i] as int) < 128
            && rest[i] != '"' && rest[i] != '\\' by {
            assert(rest[i] == key[i + 1]);
        }
        assert(32 <= (key[0] as int) < 128);
        lemma_plain_key(rest);
        assert(seq![key[0]] + rest =~= key);
    }
}

proof fn lemma_keys(value: Seq<char>)
    ensures
        json::member_text(("state"@, value)) == names("state"@, value),
        json::member_text(("detail"@, value)) == names("detail"@, value),
        json::member_text(("socks_port"@, value)) == names("socks_port"@, value),
        json::member_text(("pid"@, value)) == names("pid"@, value),
        json::member_text(("since"@, value)) == names("since"@, value),
        json::member_text(("error"@, value)) == names("error"@, value),
        json::member_text(("type"@, value)) == names("type"@, value),
{
    reveal_strlit("state");
    reveal_strlit("detail");
    reveal_strlit("socks_port");
    reveal_strlit("pid");
    reveal_strlit("since");
    reveal_strlit("error");
    reveal_strlit("type");
    lemma_member("state"@, value);
    lemma_member("detail"@, value);
    lemma_member("socks_port"@, value);
    lemma_member("pid"@, value);
    lemma_member("since"@, value);
    lemma_member("error"@, value);
    lemma_member("type"@, value);
}

proof fn lemma_brackets()
    ensures
        "{"@ == seq!['{'],
        "}"@ == seq!['}'],
        ","@ == seq![','],
        "null"@ == seq!['n', 'u', 'l', 'l'],
{
    reveal_strlit("{");
    reveal_strlit("}");
    reveal_strlit(",");
    reveal_strlit("null");
    assert("{"@ =~= seq!['{']);
    assert("}"@ =~= seq!['}']);
    assert(","@ =~= seq![',']);
    assert("null"@ =~= seq!['n', 'u', 'l', 'l']);
}

/// A status as JSON: an object of its six members, in this order and without
/// white space, the texts as strings and the numbers in decimal.
pub proof fn law_status_as_json(s: StatusModel)
    ensures
        s.json() == seq!['{'] + text::join(
            seq![
                names("state"@, json::quoted(s.state)),
                names("detail"@, json::quoted(s.detail)),
                names("socks_port"@, number::decimal(s.socks_port as nat)),
                names("pid"@, number::decimal(s.pid as nat)),
                names("since"@, number::decimal(s.since as nat)),
                names("error"@, text_or_null(s.error)),
            ],
            seq![','],
        ) + seq!['}'],
{
    lemma_brackets();
    lemma_keys(json::quoted(s.state));
    lemma_keys(json::quoted(s.detail));
    lemma_keys(number::decimal(s.socks_port as nat));
    lemma_keys(number::decimal(s.pid as nat));
    lemma_keys(number::decimal(s.since as nat));
    lemma_keys(text_or_null(s.error));
    assert(json::member_texts(s.members()) =~= seq![
        names("state"@, json::quoted(s.state)),
        names("detail"@, json::quoted(s.detail)),
        names("socks_port"@, number::decimal(s.socks_port as nat)),
        names("pid"@, number::decimal(s.pid as nat)),
        names("since"@, number::decimal(s.since as nat)),
        names("error"@, text_or_null(s.error)),
    ]);
}

/// A reply is the bytes of the status as JSON, its members sorted by their
/// names, and with the type `status` at their end.
pub proof fn law_reply_as_json(s: StatusModel)
    ensures
        nm::reply_model(s) == encode_utf8(
            seq!['{'] + text::join(
                seq![
                    names("detail"@, json::quoted(s.detail)),
                    names("error"@, text_or_null(s.error)),
                    names("pid"@, number::decimal(s.pid as nat)),
                    names("since"@, number::decimal(s.since as nat)),
                    names("socks_port"@, number::decimal(s.socks_port as nat)),
                    names("state"@, json::quoted(s.state)),
                    names("type"@, json::quoted("status"@)),
                ],
                seq![','],
            ) + seq!['}'],
        ),
{
    lemma_brackets();
    lemma_keys(json::quoted(s.state));
    lemma_keys(json::quoted(s.detail));
    lemma_keys(number::decimal(s.socks_port as nat));
    lemma_keys(number::decimal(s.pid as nat));
    lemma_keys(number::decimal(s.since as nat));
    lemma_keys(text_or_null(s.error));
    lemma_keys(json::quoted("status"@));
    assert(json::member_texts(nm::reply_members(s)) =~= seq![
        names("detail"@, json::quoted(s.detail)),
        names("error"@, text_or_null(s.error)),
        names("pid"@, number::decimal(s.pid as nat)),
        names("since"@, number::decimal(s.since as nat)),
        names("socks_port"@, number::decimal(s.socks_port as nat)),
        names("state"@, json::quoted(s.state)),
        names("type"@, json::quoted("status"@)),
    ]);
}

/// A file is replaced by way of a file beside it, which has another name; the
/// status goes to its own file.
pub proof fn law_files_are_replaced(path: Seq<char>, content: Seq<char>, s: StatusModel)
    ensures
        status::replacing(path, content).path == path,
        status::replacing(path, content).content == content,
        status::replacing(path, content).temp == path + seq!['.', 't', 'm', 'p'],
        status::publishing(s) == status::replacing("/run/kit-vpn/status.json"@, s.json()),
{
    reveal_strlit(".tmp");
    assert(".tmp"@ =~= seq!['.', 't', 'm', 'p']);
}

// ---- framing ----

/// A message is sent behind four bytes that are its length, the lowest first.
pub proof fn law_message_as_sent(payload: Seq<u8>)
    requires
        payload.len() < 0x1_0000_0000,
    ensures
        ({
            let sent = nm::framed(payload);
            &&& sent.len() == 4 + payload.len()
            &&& sent[0] + sent[1] * 256 + sent[2] * 65536 + sent[3] * 16777216 == payload.len()
            &&& sent.skip(4) == payload
        }),
{
    let n = payload.len() as int;
    let sent = nm::framed(payload);
    assert(sent.skip(4) =~= payload);
    assert(sent[0] == n % 256 && sent[1] == n / 256 % 256 && sent[2] == n / 65536 % 256 && sent[3]
        == n / 16777216 % 256);
}

/// What bytes amount to: the first four are the length of a message, the lowest
/// first. A length of 0 is the end; one over four mebibytes is refused; and
/// behind any other come so many bytes of message.
pub proof fn law_bytes_as_read(got: Seq<u8>)
    ensures
        ({
            let n = got[0] + got[1] * 256 + got[2] * 65536 + got[3] * 16777216;
            &&& got.len() < 4 ==> nm::incoming(got) == IncomingModel::More(4 - got.len())
            &&& got.len() >= 4 && n == 0 ==> nm::incoming(got) is End
            &&& got.len() >= 4 && n > 4194304 ==> nm::incoming(got) == IncomingModel::Fault(
                "message too large: "@ + number::decimal(n as nat) + " bytes"@,
            )
            &&& got.len() >= 4 && 0 < n <= 4194304 && got.len() < 4 + n ==> nm::incoming(got)
                == IncomingModel::More(4 + n - got.len())
            &&& got.len() >= 4 && 0 < n <= 4194304 && got.len() >= 4 + n ==> nm::incoming(got)
                == IncomingModel::Message(got.skip(4).take(n))
        }),
{
    let n = got[0] + got[1] * 256 + got[2] * 65536 + got[3] * 16777216;
    if got.len() >= 4 && 0 < n <= 4194304 && got.len() >= 4 + n {
        assert(got.subrange(4, 4 + n) =~= got.skip(4).take(n));
    }
}

/// What it means that no more bytes come: the end if none came at all, and a
/// fault if some did or if reading failed.
pub proof fn law_input_cut_off(got: Seq<u8>, error: Option<Seq<char>>)
    ensures
        got.len() == 0 && error is None ==> nm::cut_off(got, error) is End,
        0 < got.len() < 4 && error is None ==> nm::cut_off(got, error) == IncomingModel::Fault(
            "EOF mid-header"@,
        ),
        got.len() < 4 && error is Some ==> nm::cut_off(got, error) == IncomingModel::Fault(
            "read: "@ + error->0,
        ),
        got.len() >= 4 && error is None ==> nm::cut_off(got, error) == IncomingModel::Fault(
            "read payload: "@ + "failed to fill whole buffer"@,
        ),
        got.len() >= 4 && error is Some ==> nm::cut_off(got, error) == IncomingModel::Fault(
            "read payload: "@ + error->0,
        ),
{
}

// ---- requests ----

/// A status that reports an error, with the error for its detail and its
/// explanation.
pub open spec fn says_error(e: Seq<char>, stamp: Stamp) -> StatusModel {
    StatusModel {
        state: "error"@,
        detail: e,
        socks_port: 0,
        pid: stamp.pid,
        since: stamp.now,
        error: Some(e),
    }
}

/// What a message asks for: `status`, `enable` and `disable` mean what they
/// say; every other type is refused by its name, and what cannot be read is
/// refused with the reason.
pub proof fn law_requests(word: Seq<char>, e: Seq<char>, stamp: Stamp)
    ensures
        nm::request_of(Ok(Some("status"@)), stamp) is Status,
        nm::request_of(Ok(Some("enable"@)), stamp) == RequestModel::Helper(Operation::Enable),
        nm::request_of(Ok(Some("disable"@)), stamp) == RequestModel::Helper(Operation::Disable),
        word != "status"@ && word != "enable"@ && word != "disable"@ ==> nm::request_of(
            Ok(Some(word)),
            stamp,
        ) == RequestModel::Refuse(says_error("unknown message type: "@ + word, stamp)),
        nm::request_of(Ok(None), stamp) == RequestModel::Refuse(
            says_error("unknown message type: "@, stamp),
        ),
        nm::request_of(Err(e), stamp) == RequestModel::Refuse(
            says_error("invalid JSON: "@ + e, stamp),
        ),
        Operation::Enable.name_model() == "enable"@,
        Operation::Disable.name_model() == "disable"@,
{
    reveal_strlit("status");
    reveal_strlit("enable");
    reveal_strlit("disable");
    assert("status"@[0] == 's' && "enable"@[0] == 'e' && "disable"@[0] == 'd');
    let none = Seq::<char>::empty();
    assert(none.len() == 0);
    assert("unknown message type: "@ + none =~= "unknown message type: "@);
}

/// The status that is reported is the published one, and if there is none that
/// the tunnel does not run.
pub proof fn law_status_reported(published: Option<StatusModel>, stamp: Stamp)
    ensures
        published matches Some(s) ==> nm::current_model(published, stamp) == s,
        published is None ==> nm::current_model(published, stamp) == (StatusModel {
            state: "stopped"@,
            detail: "tunnel not running"@,
            socks_port: 0,
            pid: stamp.pid,
            since: stamp.now,
            error: None,
        }),
{
}

/// After the helper ran, the status that it printed is reported; if it printed
/// none, or failed, an error is.
pub proof fn law_status_after_the_helper(printed: Result<Option<Status>, String>, stamp: Stamp)
    ensures
        printed is Ok && printed->Ok_0 is Some ==> nm::helper_status_model(printed, stamp)
            == printed->Ok_0->0@,
        printed is Ok && printed->Ok_0 is None ==> nm::helper_status_model(printed, stamp)
            == says_error("companion returned an invalid response"@, stamp),
        printed matches Err(e) ==> nm::helper_status_model(printed, stamp) == says_error(
            e@,
            stamp,
        ),
{
}

// ---- the helper ----

/// Root runs this program itself as the helper, with the operation; anyone else
/// runs it through `sudo`, which may not ask for a password.
pub proof fn law_helper_is_run(
    exe: Seq<char>,
    sudo: Option<Seq<char>>,
    operation: Operation,
)
    ensures
        ({
            let word = if operation is Enable {
                "enable"@
            } else {
                "disable"@
            };
            let direct = nm::helper_command(exe, true, sudo, operation);
            let through = nm::helper_command(exe, false, sudo, operation);
            &&& direct.program == exe
            &&& direct.args == seq!["helper"@, word]
            &&& sudo matches Some(file) ==> through.program == file
            &&& sudo is None ==> through.program == "sudo"@
            &&& through.args == seq!["-n"@, exe, "helper"@, word]
        }),
{
}

/// A helper that succeeds gives what it printed, unchanged; one that fails
/// gives no output.
pub proof fn law_helper_succeeds(
    status: Seq<char>,
    stdout: Seq<char>,
    stderr: Seq<char>,
)
    ensures
        nm::helper_outcome(true, status, stdout, stderr) == Ok::<Seq<char>, Seq<char>>(stdout),
        nm::helper_outcome(false, status, stdout, stderr) is Err,
{
}

/// Why a helper failed: that `sudo` may not be used, if it complained of a
/// password or of what is not allowed; else its complaint; else, if it had
/// none, what it printed; else how it ended.
pub proof fn law_helper_fails(
    status: Seq<char>,
    left: Seq<char>,
    complaint: Seq<char>,
    right: Seq<char>,
    before: Seq<char>,
    printed: Seq<char>,
    behind: Seq<char>,
)
    requires
        forall|i: int| 0 <= i < left.len() ==> text::white_space(left[i]),
        forall|i: int| 0 <= i < right.len() ==> text::white_space(right[i]),
        forall|i: int| 0 <= i < before.len() ==> text::white_space(before[i]),
        forall|i: int| 0 <= i < behind.len() ==> text::white_space(behind[i]),
        complaint.len() > 0 ==> !text::white_space(complaint[0]) && !text::white_space(
            complaint.last(),
        ),
        printed.len() > 0 ==> !text::white_space(printed[0]) && !text::white_space(
            printed.last(),
        ),
    ensures
        ({
            let r = nm::helper_outcome(
                false,
                status,
                before + printed + behind,
                left + complaint + right,
            );
            let sudo = text::contains(complaint, "password"@) || text::contains(
                complaint,
                "not allowed"@,
            );
            &&& sudo ==> r == Err::<Seq<char>, Seq<char>>(
                "passwordless sudo is not configured for the KIT VPN helper — re-run scripts/install.sh (it grants the helper NOPASSWD access)"@,
            )
            &&& !sudo && complaint.len() > 0 ==> r == Err::<Seq<char>, Seq<char>>(
                "helper failed: "@ + complaint,
            )
            &&& complaint.len() == 0 && printed.len() > 0 ==> r == Err::<Seq<char>, Seq<char>>(
                "helper failed: "@ + printed,
            )
            &&& complaint.len() == 0 && printed.len() == 0 ==> r == Err::<Seq<char>, Seq<char>>(
                "helper exited with "@ + status,
            )
        }),
{
    text_laws::law_trimming(left, complaint, right);
    text_laws::law_trimming(before, printed, behind);
    reveal_strlit("password");
    reveal_strlit("not allowed");
}

/// A helper that cannot be started gives the reason; one that ended is judged
/// by what it wrote.
pub proof fn law_running_the_helper(ran: Ran)
    ensures
        ran matches Ran::NotStarted(e) ==> nm::helper_ran(ran) == Err::<Seq<char>, Seq<char>>(
            "failed to run privileged helper: "@ + e@,
        ),
        ran matches Ran::Finished { success, status, stdout, stderr } ==> nm::helper_ran(ran)
            == nm::helper_outcome(
            success,
            status@,
            text::lossy_text(stdout@),
            text::lossy_text(stderr@),
        ),
{
}

/// Without the path of this program the helper cannot be run, for the reason
/// that is given.
pub proof fn law_no_helper(e: Seq<char>)
    ensures
        nm::no_helper(e) == "cannot locate companion binary: "@ + e,
{
}

/// The log of the process that talks to the browser lies under the home
/// directory, or under `/tmp` if there is none.
pub proof fn law_log_file(home: Seq<char>)
    ensures
        nm::log_file(Some(home)) == home + "/.cache/kit-vpn/nm.log"@,
        nm::log_file(None) == "/tmp/kit-vpn-nm.log"@,
{
}

} // verus!
