//! The command line: which mode the program is started in, and with what.
use vstd::prelude::*;

use crate::children;
use crate::command;
use crate::json;
use crate::nm::Operation;
use crate::number;
use crate::status;
use crate::status::Stamp;
use crate::text;

verus! {

// ---- modes ----

/// What the program is started to do.
#[derive(Debug)]
pub enum Mode {
    /// Talk to the browser.
    NativeMessaging,
    /// Run an operation as root.
    Helper(Operation),
    /// There is no such operation.
    UnknownOperation(Option<String>),
    /// Run the SOCKS5 server.
    ChildSocks(SocksOptions),
    /// Install an OpenVPN file, and a file with credentials if there is one.
    Install { ovpn: String, auth: Option<String> },
    /// The installer is not used like that.
    InstallUsage,
    Version,
    Help,
    /// There is no such mode.
    Unknown(String),
}

/// What the program is started to do.
pub enum ModeModel {
    NativeMessaging,
    Helper(Operation),
    UnknownOperation(Option<Seq<char>>),
    ChildSocks(SocksModel),
    Install { ovpn: Seq<char>, auth: Option<Seq<char>> },
    InstallUsage,
    Version,
    Help,
    Unknown(Seq<char>),
}

impl View for Mode {
    type V = ModeModel;

    open spec fn view(&self) -> ModeModel {
        match self {
            Mode::NativeMessaging => ModeModel::NativeMessaging,
            Mode::Helper(operation) => ModeModel::Helper(*operation),
            Mode::UnknownOperation(word) => ModeModel::UnknownOperation(word.deep_view()),
            Mode::ChildSocks(options) => ModeModel::ChildSocks(options@),
            Mode::Install { ovpn, auth } => ModeModel::Install {
                ovpn: ovpn@,
                auth: auth.deep_view(),
            },
            Mode::InstallUsage => ModeModel::InstallUsage,
            Mode::Version => ModeModel::Version,
            Mode::Help => ModeModel::Help,
            Mode::Unknown(word) => ModeModel::Unknown(word@),
        }
    }
}

/// The text at a position, if there is one.
pub open spec fn at(args: Seq<Seq<char>>, i: int) -> Option<Seq<char>> {
    if 0 <= i < args.len() {
        Some(args[i])
    } else {
        None
    }
}

/// The mode that the arguments, without the program's own name, ask for. A
/// browser starts the program with the path of its manifest.
pub open spec fn mode_for(args: Seq<Seq<char>>) -> ModeModel {
    match at(args, 0) {
        None => ModeModel::NativeMessaging,
        Some(first) => if first == "nm"@ || text::starts_with(first, "/"@) {
            ModeModel::NativeMessaging
        } else if first == "helper"@ {
            if at(args, 1) == Some("enable"@) {
                ModeModel::Helper(Operation::Enable)
            } else if at(args, 1) == Some("disable"@) {
                ModeModel::Helper(Operation::Disable)
            } else {
                ModeModel::UnknownOperation(at(args, 1))
            }
        } else if first == "child-socks"@ {
            ModeModel::ChildSocks(child_socks(args.drop_first(), no_options()))
        } else if first == "config"@ {
            if at(args, 1) == Some("--ovpn"@) && args.len() > 2 {
                ModeModel::Install {
                    ovpn: args[2],
                    auth: if at(args, 3) == Some("--auth-user-pass"@) {
                        at(args, 4)
                    } else {
                        None
                    },
                }
            } else {
                ModeModel::InstallUsage
            }
        } else if first == "--version"@ {
            ModeModel::Version
        } else if first == "--help"@ || first == "-h"@ {
            ModeModel::Help
        } else {
            ModeModel::Unknown(first)
        },
    }
}

/// Whether the text at a position is `t`.
fn is_at(args: &Vec<String>, i: usize, t: &str) -> (r: bool)
    ensures
        r == (at(args.deep_view(), i as int) == Some(t@)),
{
    if i < args.len() {
        proof {
            assert(args.deep_view()[i as int] == args@[i as int]@);
        }
        text::same(args[i].as_str(), t)
    } else {
        proof {
            assert(args.deep_view().len() == args@.len());
        }
        false
    }
}

/// The text at a position, if there is one.
fn text_at(args: &Vec<String>, i: usize) -> (r: Option<String>)
    ensures
        r.deep_view() == at(args.deep_view(), i as int),
{
    if i < args.len() {
        proof {
            assert(args.deep_view()[i as int] == args@[i as int]@);
        }
        Some(args[i].clone())
    } else {
        proof {
            assert(args.deep_view().len() == args@.len());
        }
        None
    }
}

/// The mode that the arguments, without the program's own name, ask for.
pub fn mode(args: &Vec<String>) -> (r: Mode)
    ensures
        r@ == mode_for(args.deep_view()),
{
    proof {
        assert(args.deep_view().len() == args@.len());
    }
    if args.len() == 0 {
        return Mode::NativeMessaging;
    }
    proof {
        assert(args.deep_view()[0] == args@[0]@);
    }
    if is_at(args, 0, "nm") || text::has_prefix(args[0].as_str(), "/") {
        Mode::NativeMessaging
    } else if is_at(args, 0, "helper") {
        if is_at(args, 1, "enable") {
            Mode::Helper(Operation::Enable)
        } else if is_at(args, 1, "disable") {
            Mode::Helper(Operation::Disable)
        } else {
            Mode::UnknownOperation(text_at(args, 1))
        }
    } else if is_at(args, 0, "child-socks") {
        Mode::ChildSocks(parse_child_socks(args, 1))
    } else if is_at(args, 0, "config") {
        if is_at(args, 1, "--ovpn") && args.len() > 2 {
            proof {
                assert(args.deep_view()[2] == args@[2]@);
            }
            let auth = if is_at(args, 3, "--auth-user-pass") {
                text_at(args, 4)
            } else {
                None
            };
            Mode::Install { ovpn: args[2].clone(), auth }
        } else {
            Mode::InstallUsage
        }
    } else if is_at(args, 0, "--version") {
        Mode::Version
    } else if is_at(args, 0, "--help") || is_at(args, 0, "-h") {
        Mode::Help
    } else {
        Mode::Unknown(args[0].clone())
    }
}

// ---- the SOCKS5 server ----

/// What the SOCKS5 server is started with.
#[derive(Debug)]
pub struct SocksOptions {
    pub bind_ip: String,
    pub port: u16,
    pub dns: Vec<String>,
    pub log: String,
}

/// What the SOCKS5 server is started with.
pub struct SocksModel {
    pub bind_ip: Seq<char>,
    pub port: u16,
    pub dns: Seq<Seq<char>>,
    pub log: Seq<char>,
}

impl View for SocksOptions {
    type V = SocksModel;

    open spec fn view(&self) -> SocksModel {
        SocksModel {
            bind_ip: self.bind_ip@,
            port: self.port,
            dns: self.dns.deep_view(),
            log: self.log@,
        }
    }
}

/// What holds where no option is given.
pub open spec fn no_options() -> SocksModel {
    SocksModel { bind_ip: seq![], port: 0, dns: seq![], log: children::SOCKS_LOG@ }
}

/// Whether a text names an option that takes a value.
pub open spec fn takes_value(name: Seq<char>) -> bool {
    name == "--bind-ip"@ || name == "--port"@ || name == "--dns"@ || name == "--log"@
}

impl SocksModel {
    /// The options with one more. A port that is no number of a port is 0.
    pub open spec fn with(self, name: Seq<char>, value: Seq<char>) -> SocksModel {
        if name == "--bind-ip"@ {
            SocksModel { bind_ip: value, ..self }
        } else if name == "--port"@ {
            SocksModel {
                port: match number::unsigned(value, 65535) {
                    Some(port) => port as u16,
                    None => 0,
                },
                ..self
            }
        } else if name == "--dns"@ {
            SocksModel { dns: text::split(value, ','), ..self }
        } else {
            SocksModel { log: value, ..self }
        }
    }
}

/// The options after the arguments; what is no option is skipped, and an
/// option without a value changes nothing.
pub open spec fn child_socks(args: Seq<Seq<char>>, options: SocksModel) -> SocksModel
    decreases args.len(),
{
    if args.len() == 0 {
        options
    } else if !takes_value(args[0]) {
        child_socks(args.skip(1), options)
    } else if args.len() == 1 {
        options
    } else {
        child_socks(args.skip(2), options.with(args[0], args[1]))
    }
}

/// The options in the arguments from the position `from` on.
pub fn parse_child_socks(args: &Vec<String>, from: usize) -> (r: SocksOptions)
    requires
        from <= args@.len(),
    ensures
        r@ == child_socks(args.deep_view().skip(from as int), no_options()),
{
    let mut options = SocksOptions {
        bind_ip: String::new(),
        port: 0,
        dns: Vec::new(),
        log: children::SOCKS_LOG.to_owned(),
    };
    let ghost all = args.deep_view();
    let mut i: usize = from;
    proof {
        assert(options.dns.deep_view() =~= Seq::<Seq<char>>::empty());
    }
    while i < args.len()
        invariant
            i <= args@.len(),
            all == args.deep_view(),
            child_socks(all.skip(from as int), no_options()) == child_socks(
                all.skip(i as int),
                options@,
            ),
        decreases args@.len() - i,
    {
        let name = args[i].as_str();
        let ghost rest = all.skip(i as int);
        let ghost before = options@;
        proof {
            assert(all.len() == args@.len());
            assert(rest[0] == args@[i as int]@);
        }
        let known = text::same(name, "--bind-ip") || text::same(name, "--port") || text::same(
            name,
            "--dns",
        ) || text::same(name, "--log");
        if !known {
            proof {
                assert(rest.skip(1) =~= all.skip(i + 1));
            }
            i += 1;
        } else if args.len() - i < 2 {
            return options;
        } else {
            proof {
                assert(rest[1] == args@[i + 1]@);
                assert(rest.skip(2) =~= all.skip(i + 2));
            }
            let value = args[i + 1].as_str();
            if text::same(name, "--bind-ip") {
                options.bind_ip = value.to_owned();
            } else if text::same(name, "--port") {
                options.port = match number::read_u16(value) {
                    Some(port) => port,
                    None => 0,
                };
            } else if text::same(name, "--dns") {
                options.dns = text::split_at(value, ',');
            } else {
                options.log = value.to_owned();
            }
            proof {
                assert(options@ == before.with(rest[0], rest[1]));
            }
            i += 2;
        }
    }
    options
}

/// The SOCKS5 server that the supervisor starts gets from its arguments what
/// the supervisor put there, if there is a DNS server and the name of none
/// has a comma in it.
pub proof fn law_socks_options_arrive(ns_ip: Seq<char>, port: u16, dns: Seq<Seq<char>>)
    requires
        dns.len() > 0,
        forall|i: int, j: int|
            0 <= i < dns.len() && 0 <= j < dns[i].len() ==> (#[trigger] dns[i][j]) != ',',
    ensures
        mode_for(children::socks_args(ns_ip, port, dns)) == ModeModel::ChildSocks(
            SocksModel { bind_ip: ns_ip, port, dns, log: children::SOCKS_LOG@ },
        ),
{
    let args = children::socks_args(ns_ip, port, dns);
    reveal_strlit("child-socks");
    reveal_strlit("nm");
    reveal_strlit("helper");
    reveal_strlit("/");
    reveal_strlit("--bind-ip");
    reveal_strlit("--port");
    reveal_strlit("--dns");
    reveal_strlit("--log");
    assert("child-socks"@.len() == 11);
    assert("nm"@.len() == 2);
    assert("helper"@.len() == 6);
    assert("child-socks"@.subrange(0, 1)[0] == 'c');
    assert("/"@[0] == '/');
    let rest = args.drop_first();
    let o1 = no_options().with("--bind-ip"@, ns_ip);
    let o2 = o1.with("--port"@, number::decimal(port as nat));
    let o3 = o2.with("--dns"@, text::join(dns, ","@));
    let o4 = o3.with("--log"@, children::SOCKS_LOG@);
    assert(rest.skip(2).skip(2) =~= rest.skip(4));
    assert(rest.skip(4).skip(2) =~= rest.skip(6));
    assert(rest.skip(6).skip(2) =~= rest.skip(8));
    assert(rest.skip(8).len() == 0);
    assert(child_socks(rest.skip(8), o4) == o4);
    assert(child_socks(rest.skip(6), o3) == o4);
    assert(child_socks(rest.skip(4), o2) == o4);
    assert(child_socks(rest.skip(2), o1) == o4);
    assert(child_socks(rest, no_options()) == o4);
    assert("--bind-ip"@.len() == 9 && "--port"@.len() == 6 && "--dns"@.len() == 5 && "--log"@.len()
        == 5);
    assert("--dns"@[2] == 'd' && "--log"@[2] == 'l');
    number::law_unsigned_of_decimal(port as nat, 65535);
    reveal_strlit(",");
    assert(","@ =~= seq![',']);
    text::law_join_splits_back(dns, ',');
}

// ---- the helper ----

/// What the helper prints, and the code that it exits with.
pub struct Printed {
    pub line: String,
    pub code: u8,
}

/// The members of what the helper prints when it fails, sorted by their names.
pub open spec fn failure_members(e: Seq<char>) -> Seq<(Seq<char>, Seq<char>)> {
    seq![
        ("detail"@, json::quoted(e)),
        ("error"@, json::quoted(e)),
        ("pid"@, number::decimal(0)),
        ("since"@, number::decimal(0)),
        ("socks_port"@, number::decimal(0)),
        ("state"@, json::quoted("error"@)),
    ]
}

/// What the helper prints, and the code that it exits with.
pub open spec fn printed_model(result: Result<Seq<char>, Seq<char>>) -> (Seq<char>, u8) {
    match result {
        Ok(json) => (json, 0u8),
        Err(e) => (json::object(failure_members(e)), 1u8),
    }
}

/// What the helper prints, and the code that it exits with. It prints JSON
/// also when it fails.
pub fn helper_result(result: Result<String, String>) -> (r: Printed)
    ensures
        (r.line@, r.code) == printed_model(command::reply_model(result)),
        result matches Ok(json) ==> r.line@ == json@ && r.code == 0,
        result matches Err(e) ==> r.line@ == json::object(failure_members(e@)) && r.code == 1,
{
    match result {
        Ok(json) => Printed { line: json, code: 0 },
        Err(e) => {
            let members: Vec<(String, String)> = vec![
                json::member("detail", json::quote(e.as_str())),
                json::member("error", json::quote(e.as_str())),
                json::member("pid", number::decimal_of(0)),
                json::member("since", number::decimal_of(0)),
                json::member("socks_port", number::decimal_of(0)),
                json::member("state", json::quote("error")),
            ];
            proof {
                assert(members.deep_view() =~= failure_members(e@));
            }
            Printed { line: json::render(&members), code: 1 }
        },
    }
}

/// What the helper prints when it fails has exactly the members of a status
/// that reports the error.
pub proof fn law_failure_is_a_status(e: Seq<char>)
    ensures
        forall|m: (Seq<char>, Seq<char>)| #[trigger]
            failure_members(e).contains(m) <==> status::failed(
                e,
                e,
                0,
                Stamp { pid: 0, now: 0 },
            ).members().contains(m),
{
    let printed = failure_members(e);
    let members = status::failed(e, e, 0, Stamp { pid: 0, now: 0 }).members();
    assert(printed[0] == members[1] && printed[1] == members[5] && printed[2] == members[3]
        && printed[3] == members[4] && printed[4] == members[2] && printed[5] == members[0]);
    assert forall|m: (Seq<char>, Seq<char>)| #[trigger]
        printed.contains(m) <==> members.contains(m) by {
        if printed.contains(m) {
            let i = choose|i: int| 0 <= i < printed.len() && printed[i] == m;
            assert(i == 0 || i == 1 || i == 2 || i == 3 || i == 4 || i == 5);
        }
        if members.contains(m) {
            let i = choose|i: int| 0 <= i < members.len() && members[i] == m;
            assert(i == 0 || i == 1 || i == 2 || i == 3 || i == 4 || i == 5);
        }
    }
}

} // verus!
