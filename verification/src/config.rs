//! Paths, names and the configuration of the companion.
//!
//! The configuration is owned by root, and so is the OpenVPN file, which
//! holds private keys; the unprivileged process never reads either.
use vstd::prelude::*;

use crate::command;
use crate::install;
use crate::install_laws;
use crate::number;
use crate::text;
use crate::toml_file;
use crate::toml_file::{Entry, EntryModel};

verus! {

pub const DEFAULT_CONFIG_PATH: &'static str = "/etc/kit-vpn/config.toml";

pub const DEFAULT_OVPN_PATH: &'static str = "/etc/kit-vpn/kit.ovpn";

pub const CONFIG_DIR: &'static str = "/etc/kit-vpn";

pub const RUN_DIR: &'static str = "/run/kit-vpn";

pub const STATUS_PATH: &'static str = "/run/kit-vpn/status.json";

pub const PID_PATH: &'static str = "/run/kit-vpn/supervisor.pid";

pub const LOCK_PATH: &'static str = "/run/kit-vpn/lock";

/// The one network namespace; all of it is torn down on disable.
pub const NETNS: &'static str = "kitvpn";

/// The end of the veth pair on the host.
pub const VETH_HOST: &'static str = "kitvpn0";

/// The end of the veth pair in the namespace.
pub const VETH_NS: &'static str = "kitvpn1";

/// The device that OpenVPN creates on the host and that is moved into the
/// namespace.
pub const TUN_DEV: &'static str = "kitvpn-tun";

pub const DEFAULT_SUBNET: &'static str = "10.200.200.0/30";

pub const DEFAULT_SOCKS_PORT: u16 = 1080;

pub const DEFAULT_AUTH_FILE: &'static str = "/etc/kit-vpn/auth.txt";

/// The DNS servers that are asked unless others are configured, in order.
pub open spec fn default_dns_model() -> Seq<Seq<char>> {
    seq!["141.3.175.71"@, "129.13.10.90"@, "129.13.10.91"@]
}

/// The DNS servers that are asked unless others are configured: the one that
/// is currently pushed, then the two long-standing resolvers.
pub fn default_dns() -> (r: Vec<String>)
    ensures
        r.deep_view() == default_dns_model(),
{
    let r = text::owned(&["141.3.175.71", "129.13.10.90", "129.13.10.91"]);
    proof {
        assert(r.deep_view() =~= default_dns_model());
    }
    r
}

/// The configuration. What is not configured is `None`.
#[derive(Clone, Debug)]
pub struct Config {
    pub ovpn_path: Option<String>,
    pub socks_port: Option<u16>,
    pub dns_servers: Option<Vec<String>>,
    pub subnet: Option<String>,
    /// A file with a user name on its first line and a password on its second,
    /// for OpenVPN files that ask for them.
    pub auth_user_pass: Option<String>,
}

/// What a configuration amounts to.
pub struct ConfigModel {
    pub ovpn_path: Option<Seq<char>>,
    pub socks_port: Option<u16>,
    pub dns_servers: Option<Seq<Seq<char>>>,
    pub subnet: Option<Seq<char>>,
    pub auth_user_pass: Option<Seq<char>>,
}

impl View for Config {
    type V = ConfigModel;

    open spec fn view(&self) -> ConfigModel {
        ConfigModel {
            ovpn_path: self.ovpn_path.deep_view(),
            socks_port: self.socks_port,
            dns_servers: self.dns_servers.deep_view(),
            subnet: self.subnet.deep_view(),
            auth_user_pass: self.auth_user_pass.deep_view(),
        }
    }
}

/// The text that is configured, else the default.
pub open spec fn text_or(t: Option<Seq<char>>, default: Seq<char>) -> Seq<char> {
    match t {
        Some(t) => t,
        None => default,
    }
}

impl ConfigModel {
    pub open spec fn dns(self) -> Seq<Seq<char>> {
        match self.dns_servers {
            Some(servers) => servers,
            None => default_dns_model(),
        }
    }

    pub open spec fn port(self) -> u16 {
        match self.socks_port {
            Some(port) => port,
            None => DEFAULT_SOCKS_PORT,
        }
    }

    pub open spec fn ovpn(self) -> Seq<char> {
        text_or(self.ovpn_path, DEFAULT_OVPN_PATH@)
    }

    pub open spec fn subnet_text(self) -> Seq<char> {
        text_or(self.subnet, DEFAULT_SUBNET@)
    }
}

/// The configuration by default.
pub open spec fn default_model() -> ConfigModel {
    ConfigModel {
        ovpn_path: Some(DEFAULT_OVPN_PATH@),
        socks_port: Some(DEFAULT_SOCKS_PORT),
        dns_servers: Some(default_dns_model()),
        subnet: Some(DEFAULT_SUBNET@),
        auth_user_pass: None,
    }
}

impl Default for Config {
    fn default() -> (r: Config)
        ensures
            r@ == default_model(),
    {
        Config {
            ovpn_path: Some(DEFAULT_OVPN_PATH.to_owned()),
            socks_port: Some(DEFAULT_SOCKS_PORT),
            dns_servers: Some(default_dns()),
            subnet: Some(DEFAULT_SUBNET.to_owned()),
            auth_user_pass: None,
        }
    }
}

/// The configured text, else the default.
fn owned_or(t: &Option<String>, default: &str) -> (r: String)
    ensures
        r@ == text_or(t.deep_view(), default@),
{
    match t {
        Some(t) => t.clone(),
        None => default.to_owned(),
    }
}

impl Config {
    /// A copy of the configuration.
    pub fn copy(&self) -> (r: Config)
        ensures
            r@ == self@,
    {
        Config {
            ovpn_path: self.ovpn_path.clone(),
            socks_port: self.socks_port,
            dns_servers: match &self.dns_servers {
                Some(servers) => Some(text::copied(servers)),
                None => None,
            },
            subnet: self.subnet.clone(),
            auth_user_pass: self.auth_user_pass.clone(),
        }
    }

    /// The DNS servers to ask.
    pub fn dns(&self) -> (r: Vec<String>)
        ensures
            r.deep_view() == self@.dns(),
    {
        match &self.dns_servers {
            Some(servers) => text::copied(servers),
            None => default_dns(),
        }
    }

    /// The port of the proxy.
    pub fn socks_port(&self) -> (r: u16)
        ensures
            r == self@.port(),
    {
        match self.socks_port {
            Some(port) => port,
            None => DEFAULT_SOCKS_PORT,
        }
    }

    /// The OpenVPN file to use.
    pub fn ovpn(&self) -> (r: String)
        ensures
            r@ == self@.ovpn(),
    {
        owned_or(&self.ovpn_path, DEFAULT_OVPN_PATH)
    }

    /// The subnet to try first.
    pub fn subnet_text(&self) -> (r: String)
        ensures
            r@ == self@.subnet_text(),
    {
        owned_or(&self.subnet, DEFAULT_SUBNET)
    }
}

// ---- reading the configuration ----

/// A text of the configuration, by what was read under its key.
pub open spec fn text_field(
    entry: Result<Option<EntryModel>, Seq<char>>,
    key: Seq<char>,
    default: Option<Seq<char>>,
) -> Result<Option<Seq<char>>, Seq<char>> {
    match entry {
        Err(e) => Err(e),
        Ok(None) => Ok(default),
        Ok(Some(EntryModel::Text(t))) => Ok(Some(t)),
        Ok(Some(_)) => Err(key + ": expected a string"@),
    }
}

/// The port of the configuration, by what was read under its key.
pub open spec fn port_field(entry: Result<Option<EntryModel>, Seq<char>>) -> Result<
    Option<u16>,
    Seq<char>,
> {
    match entry {
        Err(e) => Err(e),
        Ok(None) => Ok(Some(DEFAULT_SOCKS_PORT)),
        Ok(Some(EntryModel::Integer(n))) => if 0 <= n <= 65535 {
            Ok(Some(n as u16))
        } else {
            Err("socks_port: expected a port"@)
        },
        Ok(Some(_)) => Err("socks_port: expected a port"@),
    }
}

/// The DNS servers of the configuration, by what was read under their key.
pub open spec fn dns_field(entry: Result<Option<EntryModel>, Seq<char>>) -> Result<
    Option<Seq<Seq<char>>>,
    Seq<char>,
> {
    match entry {
        Err(e) => Err(e),
        Ok(None) => Ok(Some(default_dns_model())),
        Ok(Some(EntryModel::List(items))) => if forall|i: int|
            0 <= i < items.len() ==> (#[trigger] items[i]) is Some {
            Ok(Some(items.map_values(|item: Option<Seq<char>>| item->0)))
        } else {
            Err("dns_servers: expected strings"@)
        },
        Ok(Some(_)) => Err("dns_servers: expected strings"@),
    }
}

/// The configuration, by what was read under each of its keys. What is missing
/// is as by default; there is none if anything is of another kind.
pub open spec fn config_of(
    ovpn_path: Result<Option<EntryModel>, Seq<char>>,
    socks_port: Result<Option<EntryModel>, Seq<char>>,
    dns_servers: Result<Option<EntryModel>, Seq<char>>,
    subnet: Result<Option<EntryModel>, Seq<char>>,
    auth_user_pass: Result<Option<EntryModel>, Seq<char>>,
) -> Result<ConfigModel, Seq<char>> {
    let ovpn_path = text_field(ovpn_path, "ovpn_path"@, Some(DEFAULT_OVPN_PATH@));
    let socks_port = port_field(socks_port);
    let dns_servers = dns_field(dns_servers);
    let subnet = text_field(subnet, "subnet"@, Some(DEFAULT_SUBNET@));
    let auth_user_pass = text_field(auth_user_pass, "auth_user_pass"@, None);
    if ovpn_path is Err {
        Err(ovpn_path->Err_0)
    } else if socks_port is Err {
        Err(socks_port->Err_0)
    } else if dns_servers is Err {
        Err(dns_servers->Err_0)
    } else if subnet is Err {
        Err(subnet->Err_0)
    } else if auth_user_pass is Err {
        Err(auth_user_pass->Err_0)
    } else {
        Ok(
            ConfigModel {
                ovpn_path: ovpn_path->Ok_0,
                socks_port: socks_port->Ok_0,
                dns_servers: dns_servers->Ok_0,
                subnet: subnet->Ok_0,
                auth_user_pass: auth_user_pass->Ok_0,
            },
        )
    }
}

/// The configuration that a text holds.
pub open spec fn config_in(text: Seq<char>) -> Result<ConfigModel, Seq<char>> {
    config_of(
        toml_file::toml_entry(text, "ovpn_path"@),
        toml_file::toml_entry(text, "socks_port"@),
        toml_file::toml_entry(text, "dns_servers"@),
        toml_file::toml_entry(text, "subnet"@),
        toml_file::toml_entry(text, "auth_user_pass"@),
    )
}

/// What a configuration, or the reason why there is none, amounts to.
pub open spec fn config_model(r: Result<Config, String>) -> Result<ConfigModel, Seq<char>> {
    match r {
        Ok(config) => Ok(config@),
        Err(e) => Err(e@),
    }
}

fn read_text(entry: Result<Option<Entry>, String>, key: &str, default: Option<String>) -> (r: Result<
    Option<String>,
    String,
>)
    ensures
        r is Ok <==> text_field(
            toml_file::entry_model(entry),
            key@,
            default.deep_view(),
        ) is Ok,
        r matches Ok(t) ==> text_field(
            toml_file::entry_model(entry),
            key@,
            default.deep_view(),
        )->Ok_0 == t.deep_view(),
        r matches Err(e) ==> text_field(
            toml_file::entry_model(entry),
            key@,
            default.deep_view(),
        )->Err_0 == e@,
{
    match entry {
        Err(e) => Err(e),
        Ok(None) => Ok(default),
        Ok(Some(Entry::Text(t))) => Ok(Some(t)),
        Ok(Some(_)) => Err(text::cat(key, ": expected a string")),
    }
}

fn read_port(entry: Result<Option<Entry>, String>) -> (r: Result<Option<u16>, String>)
    ensures
        r is Ok <==> port_field(toml_file::entry_model(entry)) is Ok,
        r matches Ok(port) ==> port_field(toml_file::entry_model(entry))->Ok_0 == port,
        r matches Err(e) ==> port_field(toml_file::entry_model(entry))->Err_0 == e@,
{
    match entry {
        Err(e) => Err(e),
        Ok(None) => Ok(Some(DEFAULT_SOCKS_PORT)),
        Ok(Some(Entry::Integer(n))) => if 0 <= n && n <= 65535 {
            Ok(Some(n as u16))
        } else {
            Err("socks_port: expected a port".to_owned())
        },
        Ok(Some(_)) => Err("socks_port: expected a port".to_owned()),
    }
}

fn read_dns(entry: Result<Option<Entry>, String>) -> (r: Result<Option<Vec<String>>, String>)
    ensures
        r is Ok <==> dns_field(toml_file::entry_model(entry)) is Ok,
        r matches Ok(dns) ==> dns_field(toml_file::entry_model(entry))->Ok_0 == dns.deep_view(),
        r matches Err(e) ==> dns_field(toml_file::entry_model(entry))->Err_0 == e@,
{
    let items = match entry {
        Err(e) => return Err(e),
        Ok(None) => return Ok(Some(default_dns())),
        Ok(Some(Entry::List(items))) => items,
        Ok(Some(_)) => return Err("dns_servers: expected strings".to_owned()),
    };
    let ghost all = items.deep_view();
    let mut out: Vec<String> = Vec::new();
    let mut i: usize = 0;
    while i < items.len()
        invariant
            i <= items@.len(),
            all == items.deep_view(),
            out@.len() == i,
            forall|j: int| 0 <= j < i ==> (#[trigger] all[j]) is Some && out@[j]@ == all[j]->0,
            toml_file::entry_model(entry) == Ok::<Option<EntryModel>, Seq<char>>(
                Some(EntryModel::List(all)),
            ),
        decreases items@.len() - i,
    {
        proof {
            assert(all[i as int] == items@[i as int].deep_view());
        }
        match &items[i] {
            Some(t) => out.push(t.clone()),
            None => {
                proof {
                    assert(!(all[i as int] is Some));
                }
                return Err("dns_servers: expected strings".to_owned());
            },
        }
        i += 1;
    }
    proof {
        assert(out.deep_view() =~= all.map_values(|item: Option<Seq<char>>| item->0));
    }
    Ok(Some(out))
}

/// The configuration, by what was read under each of its keys.
pub fn config_from(
    ovpn_path: Result<Option<Entry>, String>,
    socks_port: Result<Option<Entry>, String>,
    dns_servers: Result<Option<Entry>, String>,
    subnet: Result<Option<Entry>, String>,
    auth_user_pass: Result<Option<Entry>, String>,
) -> (r: Result<Config, String>)
    ensures
        config_model(r) == config_of(
            toml_file::entry_model(ovpn_path),
            toml_file::entry_model(socks_port),
            toml_file::entry_model(dns_servers),
            toml_file::entry_model(subnet),
            toml_file::entry_model(auth_user_pass),
        ),
{
    let ovpn_path = match read_text(ovpn_path, "ovpn_path", Some(DEFAULT_OVPN_PATH.to_owned())) {
        Ok(t) => t,
        Err(e) => return Err(e),
    };
    let socks_port: Option<u16> = match read_port(socks_port) {
        Ok(port) => port,
        Err(e) => return Err(e),
    };
    let dns_servers = match read_dns(dns_servers) {
        Ok(dns) => dns,
        Err(e) => return Err(e),
    };
    let subnet = match read_text(subnet, "subnet", Some(DEFAULT_SUBNET.to_owned())) {
        Ok(t) => t,
        Err(e) => return Err(e),
    };
    let auth_user_pass = match read_text(auth_user_pass, "auth_user_pass", None) {
        Ok(t) => t,
        Err(e) => return Err(e),
    };
    Ok(Config { ovpn_path, socks_port, dns_servers, subnet, auth_user_pass })
}

/// The configuration that was installed: with these DNS servers, and with
/// credentials or without.
pub open spec fn installed(dns: Seq<Seq<char>>, auth: bool) -> ConfigModel {
    ConfigModel {
        ovpn_path: Some(DEFAULT_OVPN_PATH@),
        socks_port: Some(DEFAULT_SOCKS_PORT),
        dns_servers: Some(dns),
        subnet: Some(DEFAULT_SUBNET@),
        auth_user_pass: if auth {
            Some(DEFAULT_AUTH_FILE@)
        } else {
            None
        },
    }
}

/// The configuration that a text holds, or why it holds none. The one that the
/// installer wrote is read back, if the names of its DNS servers are plain.
pub fn read_config(text: &str) -> (r: Result<Config, String>)
    ensures
        config_model(r) == config_in(text@),
        forall|dns: Seq<Seq<char>>, auth: bool|
            text@ == #[trigger] install::config_toml(dns, auth) && toml_file::all_plain(dns)
                ==> config_model(r) == Ok::<ConfigModel, Seq<char>>(installed(dns, auth)),
{
    let ovpn_path = toml_file::read_entry(text, "ovpn_path");
    let socks_port = toml_file::read_entry(text, "socks_port");
    let dns_servers = toml_file::read_entry(text, "dns_servers");
    let subnet = toml_file::read_entry(text, "subnet");
    let auth_user_pass = toml_file::read_entry(text, "auth_user_pass");
    proof {
        assert forall|dns: Seq<Seq<char>>, auth: bool|
            text@ == #[trigger] install::config_toml(dns, auth) && toml_file::all_plain(
                dns,
            ) implies config_in(text@) == Ok::<ConfigModel, Seq<char>>(installed(dns, auth)) by {
            let entries = install::config_entries(dns, auth);
            install_laws::lemma_config_entries(dns, auth);
            assert(text@ == toml_file::document(entries));
            let items = dns.map_values(|t: Seq<char>| Some(t));
            assert forall|i: int| 0 <= i < items.len() implies (#[trigger] items[i]) is Some by {}
            assert(items.map_values(|item: Option<Seq<char>>| item->0) =~= dns);
        }
    }
    config_from(ovpn_path, socks_port, dns_servers, subnet, auth_user_pass)
}

/// The configuration in the file whose text was read, or why there is none.
pub open spec fn loaded(read: Result<Seq<char>, Seq<char>>) -> Result<ConfigModel, Seq<char>> {
    match read {
        Err(e) => Err("cannot read "@ + DEFAULT_CONFIG_PATH@ + ": "@ + e),
        Ok(text) => match config_in(text) {
            Ok(config) => Ok(config),
            Err(e) => Err("invalid "@ + DEFAULT_CONFIG_PATH@ + ": "@ + e),
        },
    }
}

/// The configuration in the file whose text was read, or why there is none. If
/// it is the one that the installer wrote for an OpenVPN file, and the names of
/// the DNS servers in that file are plain, what was installed is given back.
pub fn load(read: Result<String, String>) -> (r: Result<Config, String>)
    ensures
        config_model(r) == loaded(command::reply_model(read)),
        forall|ovpn: Seq<char>, auth: bool|
            read is Ok && read->Ok_0@ == #[trigger] install::config_toml(
                install::dns_for(ovpn),
                auth,
            ) && toml_file::all_plain(dhcp_dns_in(text::lines(ovpn))) ==> config_model(r) == Ok::<
                ConfigModel,
                Seq<char>,
            >(installed(install::dns_for(ovpn), auth)),
{
    let text = match read {
        Ok(text) => text,
        Err(e) => {
            let mut message = text::cat3("cannot read ", DEFAULT_CONFIG_PATH, ": ");
            message.append(e.as_str());
            return Err(message);
        },
    };
    proof {
        assert forall|ovpn: Seq<char>| toml_file::all_plain(
            dhcp_dns_in(text::lines(ovpn)),
        ) implies toml_file::all_plain(#[trigger] install::dns_for(ovpn)) by {
            install_laws::law_installed_servers_are_plain(ovpn);
        }
    }
    match read_config(text.as_str()) {
        Ok(config) => Ok(config),
        Err(e) => {
            let mut message = text::cat3("invalid ", DEFAULT_CONFIG_PATH, ": ");
            message.append(e.as_str());
            Err(message)
        },
    }
}

// ---- reading an OpenVPN file ----

/// The server that a line of an OpenVPN file names: after the word `remote`
/// and a space, a host that is no comment, and a port, which is 1194 unless
/// the next word is one.
pub open spec fn remote_on(line: Seq<char>) -> Option<(Seq<char>, u16)> {
    let t = text::trim(line);
    let w = text::words(t);
    if text::starts_with(t, "remote "@) && w.len() >= 2 && !text::starts_with(w[1], "#"@) {
        let port = if w.len() >= 3 && number::unsigned(w[2], 65535) is Some {
            number::unsigned(w[2], 65535)->0 as u16
        } else {
            1194
        };
        Some((w[1], port))
    } else {
        None
    }
}

/// The servers that the lines of an OpenVPN file name, in order.
pub open spec fn remotes_on(lines: Seq<Seq<char>>) -> Seq<(Seq<char>, u16)>
    decreases lines.len(),
{
    if lines.len() == 0 {
        seq![]
    } else {
        match remote_on(lines.last()) {
            Some(remote) => remotes_on(lines.drop_last()).push(remote),
            None => remotes_on(lines.drop_last()),
        }
    }
}

/// The DNS server that a line of an OpenVPN file names: the word behind
/// `dhcp-option DNS`.
pub open spec fn dhcp_dns_on(line: Seq<char>) -> Option<Seq<char>> {
    let w = text::words(text::trim(line));
    if w.len() >= 3 && w[0] == "dhcp-option"@ && w[1] == "DNS"@ {
        Some(w[2])
    } else {
        None
    }
}

/// The DNS servers that the lines of an OpenVPN file name, in order.
pub open spec fn dhcp_dns_in(lines: Seq<Seq<char>>) -> Seq<Seq<char>>
    decreases lines.len(),
{
    if lines.len() == 0 {
        seq![]
    } else {
        match dhcp_dns_on(lines.last()) {
            Some(server) => dhcp_dns_in(lines.drop_last()).push(server),
            None => dhcp_dns_in(lines.drop_last()),
        }
    }
}

fn remote_of(line: &str) -> (r: Option<(String, u16)>)
    ensures
        r.deep_view() == remote_on(line@),
{
    let t = text::trimmed(line);
    if !text::has_prefix(t.as_str(), "remote ") {
        return None;
    }
    let w = text::split_words(t.as_str());
    proof {
        assert(w.deep_view().len() == w@.len());
        assert(forall|i: int|
            0 <= i < w@.len() ==> #[trigger] w.deep_view()[i] == w@[i]@);
    }
    if w.len() < 2 || text::has_prefix(w[1].as_str(), "#") {
        return None;
    }
    let port: u16 = if w.len() >= 3 {
        match number::read_u16(w[2].as_str()) {
            Some(port) => port,
            None => 1194,
        }
    } else {
        1194
    };
    Some((w[1].clone(), port))
}

/// The servers that an OpenVPN file names on its `remote` lines, those inside
/// `<connection>` blocks too, with their ports.
pub fn parse_remotes(ovpn: &str) -> (r: Vec<(String, u16)>)
    ensures
        r.deep_view() == remotes_on(text::lines(ovpn@)),
{
    let all = text::split_lines(ovpn);
    let ghost lines = text::lines(ovpn@);
    let mut out: Vec<(String, u16)> = Vec::new();
    let mut i: usize = 0;
    proof {
        assert(out.deep_view() =~= remotes_on(lines.take(0)));
    }
    while i < all.len()
        invariant
            i <= all@.len(),
            all.deep_view() == lines,
            lines.len() == all@.len(),
            out.deep_view() == remotes_on(lines.take(i as int)),
        decreases all@.len() - i,
    {
        proof {
            assert(lines.take(i + 1).drop_last() =~= lines.take(i as int));
            assert(lines[i as int] == all@[i as int]@);
            assert(lines.take(i + 1).last() == lines[i as int]);
        }
        let ghost before_push = out;
        if let Some(remote) = remote_of(all[i].as_str()) {
            out.push(remote);
            proof {
                assert(out.deep_view() =~= before_push.deep_view().push(remote.deep_view()));
            }
        }
        i += 1;
    }
    proof {
        assert(lines.take(i as int) =~= lines);
    }
    out
}

/// The DNS servers that an OpenVPN file names on its `dhcp-option DNS` lines.
pub fn parse_dhcp_dns(ovpn: &str) -> (r: Vec<String>)
    ensures
        r.deep_view() == dhcp_dns_in(text::lines(ovpn@)),
{
    let all = text::split_lines(ovpn);
    let ghost lines = text::lines(ovpn@);
    let mut out: Vec<String> = Vec::new();
    let mut i: usize = 0;
    proof {
        assert(out.deep_view() =~= dhcp_dns_in(lines.take(0)));
    }
    while i < all.len()
        invariant
            i <= all@.len(),
            all.deep_view() == lines,
            lines.len() == all@.len(),
            out.deep_view() == dhcp_dns_in(lines.take(i as int)),
        decreases all@.len() - i,
    {
        let line = text::trimmed(all[i].as_str());
        let w = text::split_words(line.as_str());
        proof {
            assert(lines.take(i + 1).drop_last() =~= lines.take(i as int));
            assert(lines[i as int] == all@[i as int]@);
            assert(lines.take(i + 1).last() == lines[i as int]);
            assert(w.deep_view().len() == w@.len());
            assert(forall|k: int|
                0 <= k < w@.len() ==> #[trigger] w.deep_view()[k] == w@[k]@);
        }
        let ghost before_push = out;
        if w.len() >= 3 && text::same(w[0].as_str(), "dhcp-option") && text::same(
            w[1].as_str(),
            "DNS",
        ) {
            let server = w[2].clone();
            out.push(server);
            proof {
                assert(out.deep_view() =~= before_push.deep_view().push(server@));
            }
        }
        i += 1;
    }
    proof {
        assert(lines.take(i as int) =~= lines);
    }
    out
}

} // verus!
