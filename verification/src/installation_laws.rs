//! What the installer checks, writes and reports.
use vstd::prelude::*;

use crate::config;
use crate::install;
use crate::install::{ActionModel, EventModel, InstallModel, InstallPhase};
use crate::number;
use crate::text;
use crate::text_laws;
use crate::toml_file;

verus! {

// ---- what is written ----

/// A text looks like an OpenVPN file if it holds `remote ` or `<ca>` anywhere,
/// or begins with `client` behind white space or none, and only then.
pub proof fn law_what_looks_like_a_file(content: Seq<char>)
    ensures
        install::looks_like_ovpn(content) <==> (exists|a: Seq<char>, b: Seq<char>|
            content == #[trigger] (a + "remote "@ + b)) || (exists|a: Seq<char>, b: Seq<char>|
            content == #[trigger] (a + "<ca>"@ + b)) || (exists|b: Seq<char>|
            text::trim_start(content) == #[trigger] ("client"@ + b)),
{
    text_laws::law_holding(content, "remote "@);
    text_laws::law_holding(content, "<ca>"@);
    text_laws::law_holding(text::trim_start(content), "client"@);
}

/// The DNS servers that are configured are those that the OpenVPN file names,
/// and the usual ones only if it names none.
pub proof fn law_servers_configured(ovpn: Seq<char>)
    ensures
        ({
            let named = config::dhcp_dns_in(text::lines(ovpn));
            &&& named.len() > 0 ==> install::dns_for(ovpn) == named
            &&& named.len() == 0 ==> install::dns_for(ovpn) == seq![
                "141.3.175.71"@,
                "129.13.10.90"@,
                "129.13.10.91"@,
            ]
        }),
{
}

/// A text between quotation marks.
pub open spec fn in_marks(t: Seq<char>) -> Seq<char> {
    seq!['"'] + t + seq!['"']
}

/// A line of the configuration.
pub open spec fn says(key: Seq<char>, value: Seq<char>) -> Seq<char> {
    key + seq![' ', '=', ' '] + value + seq!['\n']
}

/// The configuration that is written: behind a comment, a line for each entry,
/// with the DNS servers in their order, and with a line for the credentials if
/// there are any.
pub proof fn law_configuration_written(dns: Seq<Seq<char>>, auth: bool)
    ensures
        install::config_toml(dns, auth)
            == "# /etc/kit-vpn/config.toml — written by kit-vpn-companion config\n"@ + says(
            "ovpn_path"@,
            in_marks("/etc/kit-vpn/kit.ovpn"@),
        ) + says("socks_port"@, seq!['1', '0', '8', '0']) + says(
            "dns_servers"@,
            seq!['['] + text::join(
                Seq::new(dns.len(), |i: int| in_marks(dns[i])),
                seq![',', ' '],
            ) + seq![']'],
        ) + says("subnet"@, in_marks("10.200.200.0/30"@)) + (if auth {
            says("auth_user_pass"@, in_marks("/etc/kit-vpn/auth.txt"@))
        } else {
            Seq::<char>::empty()
        }),
{
    install::lemma_config_lines(dns, auth);
    lemma_line("ovpn_path"@, toml_file::marked("/etc/kit-vpn/kit.ovpn"@));
    lemma_line("socks_port"@, number::decimal(1080));
    lemma_line("dns_servers"@, "["@ + toml_file::listed(dns) + "]"@);
    lemma_line("subnet"@, toml_file::marked("10.200.200.0/30"@));
    lemma_line("auth_user_pass"@, toml_file::marked("/etc/kit-vpn/auth.txt"@));
    lemma_marks("/etc/kit-vpn/kit.ovpn"@);
    lemma_marks("10.200.200.0/30"@);
    lemma_marks("/etc/kit-vpn/auth.txt"@);
    lemma_port();
    lemma_list(dns);
}

proof fn lemma_line(key: Seq<char>, value: Seq<char>)
    ensures
        toml_file::line(key, value) == says(key, value),
{
    reveal_strlit(" = ");
    reveal_strlit("\n");
    assert(" = "@ =~= seq![' ', '=', ' ']);
    assert("\n"@ =~= seq!['\n']);
}

proof fn lemma_marks(t: Seq<char>)
    ensures
        toml_file::marked(t) == in_marks(t),
{
    reveal_strlit("\"");
    assert("\""@ =~= seq!['"']);
}

proof fn lemma_port()
    ensures
        number::decimal(1080) == seq!['1', '0', '8', '0'],
{
    reveal_with_fuel(number::decimal, 5);
    assert(number::decimal(1080) =~= seq!['1', '0', '8', '0']);
}

proof fn lemma_list(dns: Seq<Seq<char>>)
    ensures
        "["@ + toml_file::listed(dns) + "]"@ == seq!['['] + text::join(
            Seq::new(dns.len(), |i: int| in_marks(dns[i])),
            seq![',', ' '],
        ) + seq![']'],
{
    reveal_strlit("[");
    reveal_strlit("]");
    reveal_strlit(", ");
    assert("["@ =~= seq!['[']);
    assert("]"@ =~= seq![']']);
    assert(", "@ =~= seq![',', ' ']);
    let a = dns.map_values(|t: Seq<char>| toml_file::marked(t));
    let b = Seq::new(dns.len(), |i: int| in_marks(dns[i]));
    assert forall|i: int| 0 <= i < dns.len() implies a[i] == b[i] by {
        lemma_marks(dns[i]);
    }
    assert(a =~= b);
}

/// What is reported of an installation: from where to where, whether there are
/// credentials, and the DNS servers.
pub proof fn law_report(src: Seq<char>, dns: Seq<Seq<char>>)
    ensures
        install::report(src, false, dns) == "installed "@ + src + " -> "@ + "/etc/kit-vpn/kit.ovpn"@
            + " (DNS: "@ + text::join(dns, ", "@) + ")"@,
        install::report(src, true, dns) == "installed "@ + src + " -> "@ + "/etc/kit-vpn/kit.ovpn"@
            + (" (+ credentials -> "@ + "/etc/kit-vpn/auth.txt"@ + ")"@) + " (DNS: "@ + text::join(
            dns,
            ", "@,
        ) + ")"@,
{
    let head = "installed "@ + src + " -> "@ + "/etc/kit-vpn/kit.ovpn"@;
    assert(head + Seq::<char>::empty() =~= head);
}

// ---- the steps ----

/// Whether an installation is over with this error.
pub open spec fn fails(s: InstallModel, e: Seq<char>) -> bool {
    s.next() == ActionModel::Finish(Err(e))
}

/// Whether an installation differs from another one only in what it is at.
pub open spec fn else_unchanged(s: InstallModel, t: InstallModel) -> bool {
    t == InstallModel { phase: t.phase, ..s }
}

/// The installer first sees whether it is given a regular file, and then reads
/// it and sees whether it looks like an OpenVPN file; if not, it is over, and
/// nothing was written.
pub proof fn law_install_checks_the_file(
    src: Seq<char>,
    auth: Option<Seq<char>>,
    regular: Result<bool, Seq<char>>,
    content: Result<Seq<char>, Seq<char>>,
)
    ensures
        ({
            let s = install::install_start(src, auth);
            let t = s.after(EventModel::Stat(regular));
            let u = t.after(EventModel::Text(content));
            &&& s.next() == ActionModel::Stat(src)
            &&& regular matches Err(e) ==> fails(
                t,
                "cannot "@ + "stat"@ + " "@ + src + ": "@ + e,
            )
            &&& regular is Ok && !regular->Ok_0 ==> fails(t, src + " is not a regular file"@)
            &&& regular is Ok && regular->Ok_0 ==> {
                &&& t.next() == ActionModel::ReadFile(src)
                &&& content matches Err(e) ==> fails(
                    u,
                    "cannot "@ + "read"@ + " "@ + src + ": "@ + e,
                )
                &&& content matches Ok(ovpn) ==> (if install::looks_like_ovpn(ovpn) {
                    u.next() == ActionModel::CreateDir("/etc/kit-vpn"@) && u == (InstallModel {
                        phase: InstallPhase::CreateDir,
                        ovpn,
                        ..s
                    })
                } else {
                    fails(
                        u,
                        src
                            + " does not look like an OpenVPN configuration (no 'remote'/'client'/'<ca>')"@,
                    )
                })
            }
        }),
{
}

/// The OpenVPN file is written as it was read, for its owner alone. Then the
/// credentials are read, if there are any, else the configuration is written.
pub proof fn law_install_writes_the_file(
    s: InstallModel,
    made: Result<(), Seq<char>>,
    written: Result<(), Seq<char>>,
)
    requires
        s.phase is CreateDir,
    ensures
        ({
            let t = s.after(EventModel::Stored(made));
            let u = t.after(EventModel::Stored(written));
            &&& made matches Err(e) ==> fails(
                t,
                "cannot "@ + "create"@ + " "@ + "/etc/kit-vpn"@ + ": "@ + e,
            )
            &&& made is Ok ==> t.next() == (ActionModel::WriteFile {
                path: "/etc/kit-vpn/kit.ovpn"@,
                content: s.ovpn,
                mode: 0o600,
            })
            &&& made is Ok && written is Err ==> fails(
                u,
                "cannot "@ + "write"@ + " "@ + "/etc/kit-vpn/kit.ovpn"@ + ": "@ + written->Err_0,
            )
            &&& made is Ok && written is Ok && s.auth is Some ==> u.next() == ActionModel::ReadFile(
                s.auth->0,
            ) && u.phase is ReadAuth && else_unchanged(s, u)
            &&& made is Ok && written is Ok && s.auth is None ==> u.phase is WriteConfig
                && else_unchanged(s, u)
        }),
{
}

/// The credentials must have two lines at least; they are written as they were
/// read, for their owner alone, and then the configuration is written.
pub proof fn law_install_writes_the_credentials(
    s: InstallModel,
    content: Result<Seq<char>, Seq<char>>,
    written: Result<(), Seq<char>>,
)
    requires
        s.phase is ReadAuth,
        s.auth is Some,
    ensures
        ({
            let t = s.after(EventModel::Text(content));
            let u = t.after(EventModel::Stored(written));
            &&& content matches Err(e) ==> fails(
                t,
                "cannot "@ + "read"@ + " "@ + s.auth->0 + ": "@ + e,
            )
            &&& content matches Ok(text) ==> {
                &&& text::lines(text).len() < 2 ==> fails(
                    t,
                    s.auth->0 + " should contain the username on line 1 and password on line 2"@,
                )
                &&& text::lines(text).len() >= 2 ==> {
                    &&& t.next() == (ActionModel::WriteFile {
                        path: "/etc/kit-vpn/auth.txt"@,
                        content: text,
                        mode: 0o600,
                    })
                    &&& written matches Err(e) ==> fails(
                        u,
                        "cannot "@ + "write"@ + " "@ + "/etc/kit-vpn/auth.txt"@ + ": "@ + e,
                    )
                    &&& written is Ok ==> u.phase is WriteConfig && u == (InstallModel {
                        phase: u.phase,
                        credentials: text,
                        ..s
                    })
                }
            }
        }),
{
}

/// Last the configuration is written, for everybody to read, with the DNS
/// servers of the OpenVPN file and with credentials if there are any, and then
/// what was done is reported.
pub proof fn law_install_ends(s: InstallModel, written: Result<(), Seq<char>>)
    requires
        s.phase is WriteConfig,
    ensures
        s.next() == (ActionModel::WriteFile {
            path: "/etc/kit-vpn/config.toml"@,
            content: install::config_toml(install::dns_for(s.ovpn), s.auth is Some),
            mode: 0o644,
        }),
        written is Ok ==> s.after(EventModel::Stored(written)).next() == ActionModel::Finish(
            Ok(install::report(s.src, s.auth is Some, install::dns_for(s.ovpn))),
        ),
        written matches Err(e) ==> fails(
            s.after(EventModel::Stored(written)),
            "cannot "@ + "write"@ + " "@ + "/etc/kit-vpn/config.toml"@ + ": "@ + e,
        ),
{
}

/// Whether an event can come of an action.
pub open spec fn answers(action: ActionModel, event: EventModel) -> bool {
    match action {
        ActionModel::Stat(_) => event is Stat,
        ActionModel::ReadFile(_) => event is Text,
        ActionModel::CreateDir(_) => event is Stored,
        ActionModel::WriteFile { path: _, content: _, mode: _ } => event is Stored,
        ActionModel::Finish(_) => false,
    }
}

/// An event that cannot come of the action at hand changes nothing, and what is
/// installed never changes on the way.
pub proof fn law_other_events_change_nothing(s: InstallModel, event: EventModel)
    ensures
        !answers(s.next(), event) ==> s.after(event) == s,
        s.after(event).src == s.src,
        s.after(event).auth == s.auth,
        !(s.phase is ReadOvpn) ==> s.after(event).ovpn == s.ovpn,
{
}

} // verus!
