//! What the values that are handed in and out amount to: each variant stands
//! for the variant of its name, with its texts and numbers as they are.
use vstd::prelude::*;

use crate::cli::{Mode, ModeModel, SocksOptions};
use crate::command;
use crate::command::{Command, Invocation};
use crate::config;
use crate::config::Config;
use crate::helper;
use crate::helper::{Lock, Side};
use crate::install;
use crate::ipv4::Ipv4Addr;
use crate::json;
use crate::nm::{Incoming, IncomingModel, Operation, Request, RequestModel};
use crate::routes::{HostLookup, HostLookupModel};
use crate::socks5;
use crate::status::{AtomicWrite, Status};
use crate::subnet;
use crate::supervisor;
use crate::toml_file;
use crate::toml_file::{Entry, EntryModel};

verus! {

/// A command is its arguments, and an invocation its program and its
/// arguments, in their order.
pub proof fn law_commands_amount_to(c: Command, i: Invocation, k: int)
    ensures
        c@.args.len() == c.args@.len(),
        0 <= k < c.args@.len() ==> c@.args[k] == c.args@[k]@,
        c.deep_view() == c@,
        i@.program == i.program@,
        i@.args.len() == i.args@.len(),
        0 <= k < i.args@.len() ==> i@.args[k] == i.args@[k]@,
{
}

/// The outcome of a command is its output or its message.
pub proof fn law_outcomes_amount_to(out: String, e: String)
    ensures
        command::reply_model(Ok(out)) == Ok::<Seq<char>, Seq<char>>(out@),
        command::reply_model(Err(e)) == Err::<Seq<char>, Seq<char>>(e@),
{
}

/// A status is its six fields, and an atomic write its three.
pub proof fn law_statuses_amount_to(s: Status, w: AtomicWrite)
    ensures
        s@.state == s.state@,
        s@.detail == s.detail@,
        s@.socks_port == s.socks_port,
        s@.pid == s.pid,
        s@.since == s.since,
        s.error is Some <==> s@.error is Some,
        s.error matches Some(e) ==> s@.error == Some(e@),
        s.deep_view() == s@,
        w@.temp == w.temp@,
        w@.path == w.path@,
        w@.content == w.content@,
{
}

/// A configuration is its five entries.
pub proof fn law_configurations_amount_to(c: Config, e: String, k: int)
    ensures
        c.ovpn_path is Some <==> c@.ovpn_path is Some,
        c.ovpn_path matches Some(t) ==> c@.ovpn_path == Some(t@),
        c@.socks_port == c.socks_port,
        c.dns_servers is Some <==> c@.dns_servers is Some,
        c.dns_servers matches Some(all) ==> c@.dns_servers->0.len() == all@.len() && (0 <= k
            < all@.len() ==> c@.dns_servers->0[k] == all@[k]@),
        c.subnet is Some <==> c@.subnet is Some,
        c.subnet matches Some(t) ==> c@.subnet == Some(t@),
        c.auth_user_pass is Some <==> c@.auth_user_pass is Some,
        c.auth_user_pass matches Some(t) ==> c@.auth_user_pass == Some(t@),
        config::config_model(Ok(c)) == Ok::<config::ConfigModel, Seq<char>>(c@),
        config::config_model(Err(e)) == Err::<config::ConfigModel, Seq<char>>(e@),
{
}

/// What was read from a file of entries.
pub proof fn law_entries_amount_to(entry: Entry, e: String, k: int)
    ensures
        entry matches Entry::Text(t) ==> entry@ == EntryModel::Text(t@),
        entry matches Entry::Integer(n) ==> entry@ == EntryModel::Integer(n as int),
        entry matches Entry::List(items) ==> entry@ is List && entry@->List_0.len() == items@.len()
            && (0 <= k < items@.len() ==> (match items@[k] {
            Some(t) => entry@->List_0[k] == Some(t@),
            None => entry@->List_0[k] is None,
        })),
        entry is Other ==> entry@ is Other,
        toml_file::entry_model(Ok(Some(entry))) == Ok::<Option<EntryModel>, Seq<char>>(
            Some(entry@),
        ),
        toml_file::entry_model(Ok(None)) == Ok::<Option<EntryModel>, Seq<char>>(None),
        toml_file::entry_model(Err(e)) == Err::<Option<EntryModel>, Seq<char>>(e@),
{
}

/// What the supervisor is to do.
pub proof fn law_supervisor_actions_amount_to(a: supervisor::Action, k: int)
    ensures
        (match a {
            supervisor::Action::Publish(s) => a@ == supervisor::ActionModel::Publish(s@),
            supervisor::Action::WriteFile { path, content } => a@ == (
            supervisor::ActionModel::WriteFile { path: path@, content: content@ }),
            supervisor::Action::FindPort(p) => a@ == supervisor::ActionModel::FindPort(p),
            supervisor::Action::StartRelay { listen, target } => a@ == (
            supervisor::ActionModel::StartRelay { listen: listen@, target: target@ }),
            supervisor::Action::StartOpenvpn => a@ is StartOpenvpn,
            supervisor::Action::StartSocks { ns_ip, port, dns } => a@ is StartSocks
                && a@->StartSocks_ns_ip == ns_ip@ && a@->StartSocks_port == port
                && a@->StartSocks_dns.len() == dns@.len() && (0 <= k < dns@.len()
                ==> a@->StartSocks_dns[k] == dns@[k]@),
            supervisor::Action::CheckStop => a@ is CheckStop,
            supervisor::Action::CheckNamespace => a@ is CheckNamespace,
            supervisor::Action::CheckOpenvpn => a@ is CheckOpenvpn,
            supervisor::Action::CheckSocks => a@ is CheckSocks,
            supervisor::Action::Run(c) => a@ == supervisor::ActionModel::Run(c@),
            supervisor::Action::MoveTun => a@ is MoveTun,
            supervisor::Action::Sleep(ms) => a@ == supervisor::ActionModel::Sleep(ms),
            supervisor::Action::RemoveFile(path) => a@ == supervisor::ActionModel::RemoveFile(
                path@,
            ),
            supervisor::Action::StopOpenvpn => a@ is StopOpenvpn,
            supervisor::Action::StopSocks => a@ is StopSocks,
            supervisor::Action::Exit => a@ is Exit,
        }),
{
}

/// What comes of what the supervisor does.
pub proof fn law_supervisor_events_amount_to(so: bool, port: Option<u16>, out: String, e: String)
    ensures
        supervisor::Event::Done@ is Done,
        supervisor::Event::Port(port)@ == supervisor::EventModel::Port(port),
        supervisor::Event::Spawned(Ok(()))@ == supervisor::EventModel::Spawned(Ok(())),
        supervisor::Event::Spawned(Err(e))@ == supervisor::EventModel::Spawned(Err(e@)),
        supervisor::Event::Seen(so)@ == supervisor::EventModel::Seen(so),
        supervisor::Event::Reply(Ok(out))@ == supervisor::EventModel::Reply(Ok(out@)),
        supervisor::Event::Reply(Err(e))@ == supervisor::EventModel::Reply(Err(e@)),
{
}

/// What the helper is to do.
pub proof fn law_helper_actions_amount_to(a: helper::Action)
    ensures
        (match a {
            helper::Action::LoadConfig => a@ is LoadConfig,
            helper::Action::SeeFile(path) => a@ == helper::ActionModel::SeeFile(path@),
            helper::Action::ReadFile(path) => a@ == helper::ActionModel::ReadFile(path@),
            helper::Action::RemoveFile(path) => a@ == helper::ActionModel::RemoveFile(path@),
            helper::Action::Probe(pid) => a@ == helper::ActionModel::Probe(pid),
            helper::Action::Terminate(pid) => a@ == helper::ActionModel::Terminate(pid),
            helper::Action::Kill(pid) => a@ == helper::ActionModel::Kill(pid),
            helper::Action::ReadStatus => a@ is ReadStatus,
            helper::Action::Publish(s) => a@ == helper::ActionModel::Publish(s@),
            helper::Action::Sleep(ms) => a@ == helper::ActionModel::Sleep(ms),
            helper::Action::TakeLock(path) => a@ == helper::ActionModel::TakeLock(path@),
            helper::Action::PickSubnet(t) => a@ == helper::ActionModel::PickSubnet(t@),
            helper::Action::SetUp { host, ns, prefix } => a@ == (helper::ActionModel::SetUp {
                host: host@,
                ns: ns@,
                prefix,
            }),
            helper::Action::AddRules(ovpn) => a@ == helper::ActionModel::AddRules(ovpn@),
            helper::Action::RemoveRules(ovpn) => a@ == helper::ActionModel::RemoveRules(ovpn@),
            helper::Action::Run(c) => a@ == helper::ActionModel::Run(c@),
            helper::Action::Fork => a@ is Fork,
            helper::Action::Supervise { cfg, ns_ip, port } => a@ == (
            helper::ActionModel::Supervise { cfg: cfg@, ns_ip: ns_ip@, port }),
            helper::Action::Finish(Ok(t)) => a@ == helper::ActionModel::Finish(Ok(t@)),
            helper::Action::Finish(Err(e)) => a@ == helper::ActionModel::Finish(Err(e@)),
        }),
{
}

/// What comes of what the helper does.
pub proof fn law_helper_events_amount_to(
    cfg: Config,
    s: Status,
    so: bool,
    out: String,
    e: String,
    prefix: u8,
    side: Side,
)
    ensures
        helper::Event::Done@ is Done,
        helper::Event::Config(Ok(cfg))@ == helper::EventModel::Config(Ok(cfg@)),
        helper::Event::Config(Err(e))@ == helper::EventModel::Config(Err(e@)),
        helper::Event::Seen(so)@ == helper::EventModel::Seen(so),
        helper::Event::Text(Some(out))@ == helper::EventModel::Text(Some(out@)),
        helper::Event::Text(None)@ == helper::EventModel::Text(None),
        helper::Event::Status(Some(s))@ == helper::EventModel::Status(Some(s@)),
        helper::Event::Status(None)@ == helper::EventModel::Status(None),
        helper::Event::Lock(Lock::Taken)@ is LockTaken,
        helper::Event::Lock(Lock::Held)@ is LockHeld,
        helper::Event::Lock(Lock::Unavailable(e))@ == helper::EventModel::LockUnavailable(e@),
        helper::Event::Subnet(Ok((out, e, prefix)))@ == helper::EventModel::Subnet(
            Ok((out@, e@, prefix)),
        ),
        helper::Event::Subnet(Err(e))@ == helper::EventModel::Subnet(Err(e@)),
        helper::Event::SetUp(Ok(()))@ == helper::EventModel::SetUp(Ok(())),
        helper::Event::SetUp(Err(e))@ == helper::EventModel::SetUp(Err(e@)),
        helper::Event::Reply(Ok(out))@ == helper::EventModel::Reply(Ok(out@)),
        helper::Event::Reply(Err(e))@ == helper::EventModel::Reply(Err(e@)),
        helper::Event::Forked(Ok(side))@ == helper::EventModel::Forked(Ok(side)),
        helper::Event::Forked(Err(e))@ == helper::EventModel::Forked(Err(e@)),
        subnet::choice_model(Ok((out, e, prefix))) == Ok::<(Seq<char>, Seq<char>, u8), Seq<char>>(
            (out@, e@, prefix),
        ),
        subnet::choice_model(Err(e)) == Err::<(Seq<char>, Seq<char>, u8), Seq<char>>(e@),
{
}

/// What the installer is to do, and what comes of it.
pub proof fn law_installer_amounts_to(
    path: String,
    content: String,
    mode: u32,
    e: String,
    regular: bool,
)
    ensures
        install::Action::Stat(path)@ == install::ActionModel::Stat(path@),
        install::Action::ReadFile(path)@ == install::ActionModel::ReadFile(path@),
        install::Action::CreateDir(path)@ == install::ActionModel::CreateDir(path@),
        (install::Action::WriteFile { path, content, mode })@ == (install::ActionModel::WriteFile {
            path: path@,
            content: content@,
            mode,
        }),
        install::Action::Finish(Ok(content))@ == install::ActionModel::Finish(Ok(content@)),
        install::Action::Finish(Err(e))@ == install::ActionModel::Finish(Err(e@)),
        install::Event::Stat(Ok(regular))@ == install::EventModel::Stat(Ok(regular)),
        install::Event::Stat(Err(e))@ == install::EventModel::Stat(Err(e@)),
        install::Event::Text(Ok(content))@ == install::EventModel::Text(Ok(content@)),
        install::Event::Text(Err(e))@ == install::EventModel::Text(Err(e@)),
        install::Event::Stored(Ok(()))@ == install::EventModel::Stored(Ok(())),
        install::Event::Stored(Err(e))@ == install::EventModel::Stored(Err(e@)),
{
}

/// What a session is to do.
pub proof fn law_session_actions_amount_to(n: usize, name: String, ip: Ipv4Addr, port: u16)
    ensures
        socks5::Action::Read(n)@ == socks5::ActionModel::Read(n as nat),
        socks5::Action::Resolve(name)@ == socks5::ActionModel::Resolve(name@),
        socks5::Action::Connect(ip, port)@ == socks5::ActionModel::Connect(ip, port),
        socks5::Action::Relay@ is Relay,
        socks5::Action::Close@ is Close,
{
}

/// What bytes from the browser amount to, and what they ask for.
pub proof fn law_messages_amount_to(
    n: usize,
    payload: Vec<u8>,
    e: String,
    operation: Operation,
    s: Status,
)
    ensures
        Incoming::More(n)@ == IncomingModel::More(n as int),
        Incoming::Message(payload)@ == IncomingModel::Message(payload@),
        Incoming::End@ is End,
        Incoming::Fault(e)@ == IncomingModel::Fault(e@),
        Request::Status@ is Status,
        Request::Helper(operation)@ == RequestModel::Helper(operation),
        Request::Refuse(s)@ == RequestModel::Refuse(s@),
        json::member_model(Ok(Some(e))) == Ok::<Option<Seq<char>>, Seq<char>>(Some(e@)),
        json::member_model(Ok(None)) == Ok::<Option<Seq<char>>, Seq<char>>(None),
        json::member_model(Err(e)) == Err::<Option<Seq<char>>, Seq<char>>(e@),
{
}

/// What the program is started to do.
pub proof fn law_modes_amount_to(
    operation: Operation,
    options: SocksOptions,
    word: String,
    other: String,
    k: int,
)
    ensures
        Mode::NativeMessaging@ is NativeMessaging,
        Mode::Helper(operation)@ == ModeModel::Helper(operation),
        Mode::UnknownOperation(Some(word))@ == ModeModel::UnknownOperation(Some(word@)),
        Mode::UnknownOperation(None)@ == ModeModel::UnknownOperation(None),
        Mode::ChildSocks(options)@ == ModeModel::ChildSocks(options@),
        (Mode::Install { ovpn: word, auth: Some(other) })@ == (ModeModel::Install {
            ovpn: word@,
            auth: Some(other@),
        }),
        (Mode::Install { ovpn: word, auth: None })@ == (ModeModel::Install {
            ovpn: word@,
            auth: None,
        }),
        Mode::InstallUsage@ is InstallUsage,
        Mode::Version@ is Version,
        Mode::Help@ is Help,
        Mode::Unknown(word)@ == ModeModel::Unknown(word@),
        options@.bind_ip == options.bind_ip@,
        options@.port == options.port,
        options@.log == options.log@,
        options@.dns.len() == options.dns@.len(),
        0 <= k < options.dns@.len() ==> options@.dns[k] == options.dns@[k]@,
{
}

/// How a host is found.
pub proof fn law_host_lookups_amount_to(host: String, l: HostLookup)
    ensures
        HostLookup::Known(host)@ == HostLookupModel::Known(host@),
        HostLookup::Nothing@ is Nothing,
        HostLookup::Ask(host)@ == HostLookupModel::Ask(host@),
        l.deep_view() == l@,
{
}

} // verus!
