//! The installer: copies an OpenVPN file to where only root can read it, and
//! writes the configuration.
//!
//! The installation decides step by step: `next` says what is to be done, and
//! `took` takes what came of it.
use vstd::prelude::*;

use crate::command;
use crate::config;
use crate::number;
use crate::text;
use crate::toml_file;
use crate::toml_file::Written;

verus! {

/// Who may read a file that holds keys or credentials: its owner.
pub const PRIVATE: u32 = 0o600;

/// Who may read the configuration: everybody.
pub const PUBLIC: u32 = 0o644;

// ---- what is installed ----

/// Whether a text looks like an OpenVPN file: it names a server, holds a
/// certificate, or begins with `client`.
pub open spec fn looks_like_ovpn(content: Seq<char>) -> bool {
    text::contains(content, "remote "@) || text::contains(content, "<ca>"@) || text::starts_with(
        text::trim_start(content),
        "client"@,
    )
}

fn is_like_ovpn(content: &str) -> (r: bool)
    ensures
        r == looks_like_ovpn(content@),
{
    text::has(content, "remote ") || text::has(content, "<ca>") || text::has_prefix(
        text::trimmed_start(content).as_str(),
        "client",
    )
}

/// The DNS servers to configure: those of the OpenVPN file, or the default
/// ones if it names none.
pub open spec fn dns_for(ovpn: Seq<char>) -> Seq<Seq<char>> {
    let named = config::dhcp_dns_in(text::lines(ovpn));
    if named.len() == 0 {
        config::default_dns_model()
    } else {
        named
    }
}

fn choose_dns(ovpn: &str) -> (r: Vec<String>)
    ensures
        r.deep_view() == dns_for(ovpn@),
{
    let named = config::parse_dhcp_dns(ovpn);
    proof {
        assert(named.deep_view().len() == named@.len());
    }
    if named.len() == 0 {
        config::default_dns()
    } else {
        named
    }
}

/// The entries of the configuration that is written.
pub open spec fn config_entries(dns: Seq<Seq<char>>, auth: bool) -> Seq<(Seq<char>, Written)> {
    let entries = seq![
        ("ovpn_path"@, Written::Text(config::DEFAULT_OVPN_PATH@)),
        ("socks_port"@, Written::Number(config::DEFAULT_SOCKS_PORT as nat)),
        ("dns_servers"@, Written::Texts(dns)),
        ("subnet"@, Written::Text(config::DEFAULT_SUBNET@)),
    ];
    if auth {
        entries.push(("auth_user_pass"@, Written::Text(config::DEFAULT_AUTH_FILE@)))
    } else {
        entries
    }
}

/// The configuration that is written, as TOML.
pub open spec fn config_toml(dns: Seq<Seq<char>>, auth: bool) -> Seq<char> {
    toml_file::document(config_entries(dns, auth))
}

fn write_toml(dns: &Vec<String>, auth: bool) -> (r: String)
    ensures
        r@ == config_toml(dns.deep_view(), auth),
{
    let ovpn_path = toml_file::mark(config::DEFAULT_OVPN_PATH);
    let socks_port = number::decimal_of(config::DEFAULT_SOCKS_PORT as u64);
    let dns_servers = text::cat3("[", toml_file::list(dns).as_str(), "]");
    let subnet = toml_file::mark(config::DEFAULT_SUBNET);
    let mut out = toml_file::COMMENT.to_owned();
    out.append(toml_file::write_line("ovpn_path", ovpn_path.as_str()).as_str());
    out.append(toml_file::write_line("socks_port", socks_port.as_str()).as_str());
    out.append(toml_file::write_line("dns_servers", dns_servers.as_str()).as_str());
    out.append(toml_file::write_line("subnet", subnet.as_str()).as_str());
    let ghost head = out@;
    if auth {
        let file = toml_file::mark(config::DEFAULT_AUTH_FILE);
        out.append(toml_file::write_line("auth_user_pass", file.as_str()).as_str());
    } else {
        proof {
            assert(head + Seq::<char>::empty() =~= head);
        }
    }
    proof {
        lemma_config_lines(dns.deep_view(), auth);
    }
    out
}

/// The line with the credentials, if there are any.
pub open spec fn auth_line(auth: bool) -> Seq<char> {
    if auth {
        toml_file::line("auth_user_pass"@, toml_file::marked(config::DEFAULT_AUTH_FILE@))
    } else {
        seq![]
    }
}

/// The lines of the configuration, one after the other.
pub proof fn lemma_config_lines(dns: Seq<Seq<char>>, auth: bool)
    ensures
        config_toml(dns, auth) == toml_file::COMMENT@ + toml_file::line(
            "ovpn_path"@,
            toml_file::marked(config::DEFAULT_OVPN_PATH@),
        ) + toml_file::line("socks_port"@, number::decimal(config::DEFAULT_SOCKS_PORT as nat))
            + toml_file::line("dns_servers"@, "["@ + toml_file::listed(dns) + "]"@)
            + toml_file::line("subnet"@, toml_file::marked(config::DEFAULT_SUBNET@)) + auth_line(
            auth,
        ),
{
    let e0 = config_entries(dns, auth);
    let e1 = e0.drop_first();
    let e2 = e1.drop_first();
    let e3 = e2.drop_first();
    let e4 = e3.drop_first();
    let l0 = toml_file::line(e0[0].0, e0[0].1.text());
    let l1 = toml_file::line(e0[1].0, e0[1].1.text());
    let l2 = toml_file::line(e0[2].0, e0[2].1.text());
    let l3 = toml_file::line(e0[3].0, e0[3].1.text());
    assert(e1[0] == e0[1] && e2[0] == e0[2] && e3[0] == e0[3]);
    if auth {
        assert(e4[0] == e0[4]);
        assert(toml_file::entry_lines(e4.drop_first()) =~= seq![]);
        assert(auth_line(auth) + Seq::<char>::empty() =~= auth_line(auth));
    }
    assert(toml_file::entry_lines(e4) =~= auth_line(auth));
    assert(toml_file::entry_lines(e3) == l3 + auth_line(auth));
    assert(toml_file::entry_lines(e2) == l2 + (l3 + auth_line(auth)));
    assert(toml_file::entry_lines(e1) == l1 + (l2 + (l3 + auth_line(auth))));
    lemma_regroup(toml_file::COMMENT@, l0, l1, l2, l3, auth_line(auth));
}

/// It does not matter how texts in a row are grouped.
proof fn lemma_regroup(
    a: Seq<char>,
    b: Seq<char>,
    c: Seq<char>,
    d: Seq<char>,
    e: Seq<char>,
    f: Seq<char>,
)
    ensures
        a + (b + (c + (d + (e + f)))) == a + b + c + d + e + f,
{
    assert(a + (b + (c + (d + (e + f)))) =~= a + b + c + d + e + f);
}

/// What is reported of an installation.
pub open spec fn report(src: Seq<char>, auth: bool, dns: Seq<Seq<char>>) -> Seq<char> {
    "installed "@ + src + " -> "@ + config::DEFAULT_OVPN_PATH@ + (if auth {
        " (+ credentials -> "@ + config::DEFAULT_AUTH_FILE@ + ")"@
    } else {
        seq![]
    }) + " (DNS: "@ + text::join(dns, ", "@) + ")"@
}

fn write_report(src: &str, auth: bool, dns: &Vec<String>) -> (r: String)
    ensures
        r@ == report(src@, auth, dns.deep_view()),
{
    let mut out = text::cat3("installed ", src, " -> ");
    out.append(config::DEFAULT_OVPN_PATH);
    let ghost head = out@;
    if auth {
        out.append(
            text::cat3(" (+ credentials -> ", config::DEFAULT_AUTH_FILE, ")").as_str(),
        );
    } else {
        proof {
            assert(head + Seq::<char>::empty() =~= head);
        }
    }
    out.append(" (DNS: ");
    out.append(text::joined(dns, ", ").as_str());
    out.append(")");
    out
}

// ---- the installation ----

/// What is to be done next.
pub enum Action {
    /// See whether the path is one of a regular file.
    Stat(String),
    /// Read the file.
    ReadFile(String),
    /// Create the directory, with those above it.
    CreateDir(String),
    /// Write the file, and let only those read it that the mode allows.
    WriteFile { path: String, content: String, mode: u32 },
    /// The installation is over, with what to report or an error.
    Finish(Result<String, String>),
}

/// What is to be done next.
pub enum ActionModel {
    Stat(Seq<char>),
    ReadFile(Seq<char>),
    CreateDir(Seq<char>),
    WriteFile { path: Seq<char>, content: Seq<char>, mode: u32 },
    Finish(Result<Seq<char>, Seq<char>>),
}

impl View for Action {
    type V = ActionModel;

    open spec fn view(&self) -> ActionModel {
        match self {
            Action::Stat(path) => ActionModel::Stat(path@),
            Action::ReadFile(path) => ActionModel::ReadFile(path@),
            Action::CreateDir(path) => ActionModel::CreateDir(path@),
            Action::WriteFile { path, content, mode } => ActionModel::WriteFile {
                path: path@,
                content: content@,
                mode: *mode,
            },
            Action::Finish(result) => ActionModel::Finish(command::reply_model(*result)),
        }
    }
}

/// What came of an action.
pub enum Event {
    /// Whether the path is one of a regular file, or why that is not known.
    Stat(Result<bool, String>),
    /// The text of the file, or why it cannot be read.
    Text(Result<String, String>),
    /// The directory or file was created or written, or why not.
    Stored(Result<(), String>),
}

/// What came of an action.
pub enum EventModel {
    Stat(Result<bool, Seq<char>>),
    Text(Result<Seq<char>, Seq<char>>),
    Stored(Result<(), Seq<char>>),
}

impl View for Event {
    type V = EventModel;

    open spec fn view(&self) -> EventModel {
        match self {
            Event::Stat(Ok(regular)) => EventModel::Stat(Ok(*regular)),
            Event::Stat(Err(e)) => EventModel::Stat(Err(e@)),
            Event::Text(read) => EventModel::Text(command::reply_model(*read)),
            Event::Stored(Ok(_)) => EventModel::Stored(Ok(())),
            Event::Stored(Err(e)) => EventModel::Stored(Err(e@)),
        }
    }
}

/// What an installation is at.
#[derive(Clone, Copy, Debug, PartialEq, Eq, Structural)]
pub enum InstallPhase {
    Stat,
    ReadOvpn,
    CreateDir,
    WriteOvpn,
    ReadAuth,
    WriteAuth,
    WriteConfig,
    Over,
}

/// An installation.
pub struct Install {
    phase: InstallPhase,
    src: String,
    auth: Option<String>,
    ovpn: String,
    credentials: String,
    result: Result<String, String>,
}

/// What an installation amounts to.
pub struct InstallModel {
    pub phase: InstallPhase,
    /// The OpenVPN file to install.
    pub src: Seq<char>,
    /// The file with credentials to install, if there is one.
    pub auth: Option<Seq<char>>,
    /// The text of the OpenVPN file, once it is read.
    pub ovpn: Seq<char>,
    /// The text of the file with credentials, once it is read.
    pub credentials: Seq<char>,
    /// What the installation came to, once it is over.
    pub result: Result<Seq<char>, Seq<char>>,
}

impl View for Install {
    type V = InstallModel;

    closed spec fn view(&self) -> InstallModel {
        InstallModel {
            phase: self.phase,
            src: self.src@,
            auth: self.auth.deep_view(),
            ovpn: self.ovpn@,
            credentials: self.credentials@,
            result: command::reply_model(self.result),
        }
    }
}

/// That something cannot be done to a file, for a reason.
pub open spec fn cannot(verb: Seq<char>, path: Seq<char>, e: Seq<char>) -> Seq<char> {
    "cannot "@ + verb + " "@ + path + ": "@ + e
}

fn fault(verb: &str, path: &str, e: &str) -> (r: String)
    ensures
        r@ == cannot(verb@, path@, e@),
{
    let mut out = text::cat3("cannot ", verb, " ");
    out.append(path);
    out.append(": ");
    out.append(e);
    out
}

impl InstallModel {
    /// What holds of an installation at all times.
    pub open spec fn wf(self) -> bool {
        self.phase is ReadAuth || self.phase is WriteAuth ==> self.auth is Some
    }

    /// What is to be done next.
    pub open spec fn next(self) -> ActionModel {
        match self.phase {
            InstallPhase::Stat => ActionModel::Stat(self.src),
            InstallPhase::ReadOvpn => ActionModel::ReadFile(self.src),
            InstallPhase::CreateDir => ActionModel::CreateDir(config::CONFIG_DIR@),
            InstallPhase::WriteOvpn => ActionModel::WriteFile {
                path: config::DEFAULT_OVPN_PATH@,
                content: self.ovpn,
                mode: PRIVATE,
            },
            InstallPhase::ReadAuth => ActionModel::ReadFile(config::text_or(self.auth, seq![])),
            InstallPhase::WriteAuth => ActionModel::WriteFile {
                path: config::DEFAULT_AUTH_FILE@,
                content: self.credentials,
                mode: PRIVATE,
            },
            InstallPhase::WriteConfig => ActionModel::WriteFile {
                path: config::DEFAULT_CONFIG_PATH@,
                content: config_toml(dns_for(self.ovpn), self.auth is Some),
                mode: PUBLIC,
            },
            InstallPhase::Over => ActionModel::Finish(self.result),
        }
    }

    /// The installation that goes on with another phase.
    pub open spec fn at(self, phase: InstallPhase) -> InstallModel {
        InstallModel { phase, ..self }
    }

    /// The installation that is over.
    pub open spec fn finished(self, result: Result<Seq<char>, Seq<char>>) -> InstallModel {
        InstallModel { phase: InstallPhase::Over, result, ..self }
    }

    /// The installation after the action came to this. An event that does not
    /// belong to the action changes nothing.
    pub open spec fn after(self, event: EventModel) -> InstallModel {
        match (self.phase, event) {
            (InstallPhase::Stat, EventModel::Stat(Ok(true))) => self.at(InstallPhase::ReadOvpn),
            (InstallPhase::Stat, EventModel::Stat(Ok(false))) => self.finished(
                Err(self.src + " is not a regular file"@),
            ),
            (InstallPhase::Stat, EventModel::Stat(Err(e))) => self.finished(
                Err(cannot("stat"@, self.src, e)),
            ),
            (InstallPhase::ReadOvpn, EventModel::Text(Ok(content))) => if looks_like_ovpn(
                content,
            ) {
                InstallModel { phase: InstallPhase::CreateDir, ovpn: content, ..self }
            } else {
                self.finished(
                    Err(
                        self.src
                            + " does not look like an OpenVPN configuration (no 'remote'/'client'/'<ca>')"@,
                    ),
                )
            },
            (InstallPhase::ReadOvpn, EventModel::Text(Err(e))) => self.finished(
                Err(cannot("read"@, self.src, e)),
            ),
            (InstallPhase::CreateDir, EventModel::Stored(Ok(_))) => self.at(
                InstallPhase::WriteOvpn,
            ),
            (InstallPhase::CreateDir, EventModel::Stored(Err(e))) => self.finished(
                Err(cannot("create"@, config::CONFIG_DIR@, e)),
            ),
            (InstallPhase::WriteOvpn, EventModel::Stored(Ok(_))) => self.at(
                if self.auth is Some {
                    InstallPhase::ReadAuth
                } else {
                    InstallPhase::WriteConfig
                },
            ),
            (InstallPhase::WriteOvpn, EventModel::Stored(Err(e))) => self.finished(
                Err(cannot("write"@, config::DEFAULT_OVPN_PATH@, e)),
            ),
            (InstallPhase::ReadAuth, EventModel::Text(Ok(content))) => if text::lines(
                content,
            ).len() < 2 {
                self.finished(
                    Err(
                        config::text_or(self.auth, seq![])
                            + " should contain the username on line 1 and password on line 2"@,
                    ),
                )
            } else {
                InstallModel { phase: InstallPhase::WriteAuth, credentials: content, ..self }
            },
            (InstallPhase::ReadAuth, EventModel::Text(Err(e))) => self.finished(
                Err(cannot("read"@, config::text_or(self.auth, seq![]), e)),
            ),
            (InstallPhase::WriteAuth, EventModel::Stored(Ok(_))) => self.at(
                InstallPhase::WriteConfig,
            ),
            (InstallPhase::WriteAuth, EventModel::Stored(Err(e))) => self.finished(
                Err(cannot("write"@, config::DEFAULT_AUTH_FILE@, e)),
            ),
            (InstallPhase::WriteConfig, EventModel::Stored(Ok(_))) => self.finished(
                Ok(report(self.src, self.auth is Some, dns_for(self.ovpn))),
            ),
            (InstallPhase::WriteConfig, EventModel::Stored(Err(e))) => self.finished(
                Err(cannot("write"@, config::DEFAULT_CONFIG_PATH@, e)),
            ),
            _ => self,
        }
    }
}

/// An installation at its start.
pub open spec fn install_start(src: Seq<char>, auth: Option<Seq<char>>) -> InstallModel {
    InstallModel {
        phase: InstallPhase::Stat,
        src,
        auth,
        ovpn: seq![],
        credentials: seq![],
        result: Ok(seq![]),
    }
}

/// Starts to install the OpenVPN file `src` and, if there is one, the file
/// `auth`, which has a user name on its first line and a password on its
/// second.
pub fn install_ovpn(src: String, auth: Option<String>) -> (r: Install)
    ensures
        r@ == install_start(src@, auth.deep_view()),
        r@.wf(),
{
    Install {
        phase: InstallPhase::Stat,
        src,
        auth,
        ovpn: String::new(),
        credentials: String::new(),
        result: Ok(String::new()),
    }
}

impl Install {
    fn auth_path(&self) -> (r: &str)
        ensures
            r@ == config::text_or(self@.auth, seq![]),
    {
        match &self.auth {
            Some(path) => path.as_str(),
            None => {
                proof {
                    reveal_strlit("");
                    assert(""@ =~= seq![]);
                }
                ""
            },
        }
    }

    /// What is to be done next.
    pub fn next(&self) -> (r: Action)
        ensures
            r@ == self@.next(),
    {
        match self.phase {
            InstallPhase::Stat => Action::Stat(self.src.clone()),
            InstallPhase::ReadOvpn => Action::ReadFile(self.src.clone()),
            InstallPhase::CreateDir => Action::CreateDir(config::CONFIG_DIR.to_owned()),
            InstallPhase::WriteOvpn => Action::WriteFile {
                path: config::DEFAULT_OVPN_PATH.to_owned(),
                content: self.ovpn.clone(),
                mode: PRIVATE,
            },
            InstallPhase::ReadAuth => Action::ReadFile(self.auth_path().to_owned()),
            InstallPhase::WriteAuth => Action::WriteFile {
                path: config::DEFAULT_AUTH_FILE.to_owned(),
                content: self.credentials.clone(),
                mode: PRIVATE,
            },
            InstallPhase::WriteConfig => Action::WriteFile {
                path: config::DEFAULT_CONFIG_PATH.to_owned(),
                content: write_toml(&choose_dns(self.ovpn.as_str()), self.auth.is_some()),
                mode: PUBLIC,
            },
            InstallPhase::Over => Action::Finish(
                match &self.result {
                    Ok(message) => Ok(message.clone()),
                    Err(e) => Err(e.clone()),
                },
            ),
        }
    }

    fn finish(&mut self, result: Result<String, String>)
        ensures
            final(self)@ == old(self)@.finished(command::reply_model(result)),
    {
        self.phase = InstallPhase::Over;
        self.result = result;
    }

    /// Takes what came of the action that `next` gave.
    pub fn took(&mut self, event: Event)
        requires
            old(self)@.wf(),
        ensures
            final(self)@ == old(self)@.after(event@),
            final(self)@.wf(),
    {
        match (self.phase, event) {
            (InstallPhase::Stat, Event::Stat(seen)) => match seen {
                Ok(true) => {
                    self.phase = InstallPhase::ReadOvpn;
                },
                Ok(false) => {
                    let message = text::cat(self.src.as_str(), " is not a regular file");
                    self.finish(Err(message));
                },
                Err(e) => {
                    let message = fault("stat", self.src.as_str(), e.as_str());
                    self.finish(Err(message));
                },
            },
            (InstallPhase::ReadOvpn, Event::Text(read)) => match read {
                Ok(content) => {
                    if is_like_ovpn(content.as_str()) {
                        self.ovpn = content;
                        self.phase = InstallPhase::CreateDir;
                    } else {
                        let message = text::cat(
                            self.src.as_str(),
                            " does not look like an OpenVPN configuration (no 'remote'/'client'/'<ca>')",
                        );
                        self.finish(Err(message));
                    }
                },
                Err(e) => {
                    let message = fault("read", self.src.as_str(), e.as_str());
                    self.finish(Err(message));
                },
            },
            (InstallPhase::CreateDir, Event::Stored(stored)) => match stored {
                Ok(_) => {
                    self.phase = InstallPhase::WriteOvpn;
                },
                Err(e) => self.finish(Err(fault("create", config::CONFIG_DIR, e.as_str()))),
            },
            (InstallPhase::WriteOvpn, Event::Stored(stored)) => match stored {
                Ok(_) => {
                    self.phase = if self.auth.is_some() {
                        InstallPhase::ReadAuth
                    } else {
                        InstallPhase::WriteConfig
                    };
                },
                Err(e) => self.finish(
                    Err(fault("write", config::DEFAULT_OVPN_PATH, e.as_str())),
                ),
            },
            (InstallPhase::ReadAuth, Event::Text(read)) => match read {
                Ok(content) => {
                    let lines = text::split_lines(content.as_str());
                    proof {
                        assert(lines.deep_view().len() == lines@.len());
                    }
                    if lines.len() < 2 {
                        let message = text::cat(
                            self.auth_path(),
                            " should contain the username on line 1 and password on line 2",
                        );
                        self.finish(Err(message));
                    } else {
                        self.credentials = content;
                        self.phase = InstallPhase::WriteAuth;
                    }
                },
                Err(e) => {
                    let message = fault("read", self.auth_path(), e.as_str());
                    self.finish(Err(message));
                },
            },
            (InstallPhase::WriteAuth, Event::Stored(stored)) => match stored {
                Ok(_) => {
                    self.phase = InstallPhase::WriteConfig;
                },
                Err(e) => self.finish(
                    Err(fault("write", config::DEFAULT_AUTH_FILE, e.as_str())),
                ),
            },
            (InstallPhase::WriteConfig, Event::Stored(stored)) => match stored {
                Ok(_) => {
                    let message = write_report(
                        self.src.as_str(),
                        self.auth.is_some(),
                        &choose_dns(self.ovpn.as_str()),
                    );
                    self.finish(Ok(message));
                },
                Err(e) => self.finish(
                    Err(fault("write", config::DEFAULT_CONFIG_PATH, e.as_str())),
                ),
            },
            _ => {},
        }
    }
}

/// Whatever is written, it is one of three files: the OpenVPN file and the
/// credentials, which only their owner may read, as they were given, and the
/// configuration.
pub proof fn law_secrets_are_private(s: InstallModel)
    requires
        s.next() is WriteFile,
    ensures
        ({
            let path = s.next()->path;
            let content = s.next()->content;
            let mode = s.next()->mode;
            ||| path == config::DEFAULT_OVPN_PATH@ && content == s.ovpn && mode == PRIVATE
            ||| path == config::DEFAULT_AUTH_FILE@ && content == s.credentials && mode == PRIVATE
            ||| path == config::DEFAULT_CONFIG_PATH@ && content == config_toml(
                dns_for(s.ovpn),
                s.auth is Some,
            )
        }),
{
}

/// What the credentials are shows nowhere but in the file that they are copied
/// to: neither in what else is done nor in what is reported.
pub proof fn law_credentials_show_nowhere_else(s: InstallModel, other: Seq<char>, event: EventModel)
    ensures
        ({
            let t = InstallModel { credentials: other, ..s };
            &&& !(s.phase is WriteAuth) ==> t.next() == s.next()
            &&& s.phase is WriteAuth ==> s.next() is WriteFile && t.next() is WriteFile
                && t.next()->path == s.next()->path && t.next()->mode == s.next()->mode
            &&& t.after(event).phase == s.after(event).phase
            &&& t.after(event).result == s.after(event).result
        }),
{
}

/// A file that is not regular, cannot be read or does not look like an OpenVPN
/// file is refused before anything is created or written.
pub proof fn law_refused_file_changes_nothing(
    src: Seq<char>,
    auth: Option<Seq<char>>,
    seen: Result<bool, Seq<char>>,
    read: Result<Seq<char>, Seq<char>>,
)
    ensures
        ({
            let start = install_start(src, auth);
            let stat = start.after(EventModel::Stat(seen));
            let text = stat.after(EventModel::Text(read));
            &&& start.next() == ActionModel::Stat(src)
            &&& seen != Ok::<bool, Seq<char>>(true) ==> stat.next() is Finish && stat.next()->Finish_0 is Err
            &&& seen == Ok::<bool, Seq<char>>(true) ==> stat.next() == ActionModel::ReadFile(src)
            &&& seen == Ok::<bool, Seq<char>>(true) && !(read is Ok && looks_like_ovpn(
                read->Ok_0,
            )) ==> text.next() is Finish && text.next()->Finish_0 is Err
            &&& seen == Ok::<bool, Seq<char>>(true) && read is Ok && looks_like_ovpn(read->Ok_0)
                ==> text.next() == ActionModel::CreateDir(config::CONFIG_DIR@)
        }),
{
}

/// The configuration is written last: nothing else than to report is left to
/// do after it, and the DNS servers that are reported are those that it lists.
pub proof fn law_configuration_is_written_last(s: InstallModel, event: EventModel)
    requires
        s.phase is WriteConfig,
        event is Stored,
    ensures
        s.after(event).next() is Finish,
        event->Stored_0 is Ok ==> s.after(event).next() == ActionModel::Finish(
            Ok(report(s.src, s.auth is Some, dns_for(s.ovpn))),
        ),
{
}

} // verus!
