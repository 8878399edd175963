//! The operations of the helper, the installer and the command line.
use kit_vpn_companion::children::spawn_socks;
use kit_vpn_companion::cli::{helper_result, mode, Mode};
use kit_vpn_companion::config::{load, Config};
use kit_vpn_companion::helper::{disable, enable, Action, Disable, Enable, Event, Lock, Side};
use kit_vpn_companion::install;
use kit_vpn_companion::install::install_ovpn;
use kit_vpn_companion::nm::Operation;
use kit_vpn_companion::status::{Stamp, Status};

fn stamp() -> Stamp {
    Stamp { pid: 42, now: 1000 }
}

/// What is to be done, in a few words.
fn word(action: &Action) -> String {
    match action {
        Action::LoadConfig => "config".to_string(),
        Action::SeeFile(path) => format!("file? {}", path),
        Action::ReadFile(path) => format!("read {}", path),
        Action::RemoveFile(path) => format!("remove {}", path),
        Action::Probe(pid) => format!("alive? {}", pid),
        Action::Terminate(pid) => format!("terminate {}", pid),
        Action::Kill(pid) => format!("kill {}", pid),
        Action::ReadStatus => "status".to_string(),
        Action::Publish(s) => format!("publish {} {} {}", s.state, s.detail, s.socks_port),
        Action::Sleep(ms) => format!("sleep {}", ms),
        Action::TakeLock(path) => format!("lock {}", path),
        Action::PickSubnet(subnet) => format!("subnet {}", subnet),
        Action::SetUp { host, ns, prefix } => format!("set up {} {} {}", host, ns, prefix),
        Action::AddRules(ovpn) => format!("add rules {}", ovpn),
        Action::RemoveRules(ovpn) => format!("remove rules {}", ovpn),
        Action::Run(command) => command.args.join(" "),
        Action::Fork => "fork".to_string(),
        Action::Supervise { cfg, ns_ip, port } => {
            format!("supervise {} {} {}", cfg.ovpn(), ns_ip, port)
        }
        Action::Finish(Ok(json)) => format!("ok {}", json),
        Action::Finish(Err(e)) => format!("err {}", e),
    }
}

fn on(e: &mut Enable, expected: &str, event: Event) {
    assert_eq!(word(&e.next()), expected);
    e.took(event, stamp());
}

fn off(d: &mut Disable, expected: &str, event: Event) {
    assert_eq!(word(&d.next()), expected);
    d.took(event, stamp());
}

fn other_config() -> Config {
    let mut cfg = Config::default();
    cfg.ovpn_path = Some("/etc/kit-vpn/other.ovpn".to_string());
    cfg.socks_port = Some(1234);
    cfg
}

/// An `enable` that is about to take the lock.
fn unlocked() -> Enable {
    let mut e = enable();
    on(&mut e, "config", Event::Config(Ok(other_config())));
    on(&mut e, "file? /etc/kit-vpn/other.ovpn", Event::Seen(true));
    on(&mut e, "read /run/kit-vpn/supervisor.pid", Event::Text(None));
    e
}

#[test]
fn enabling_from_scratch() {
    let mut e = unlocked();
    on(&mut e, "lock /run/kit-vpn/lock", Event::Lock(Lock::Taken));
    let picked = Ok(("10.1.1.1".to_string(), "10.1.1.2".to_string(), 30));
    on(&mut e, "subnet 10.200.200.0/30", Event::Subnet(picked));
    on(&mut e, "set up 10.1.1.1 10.1.1.2 30", Event::SetUp(Ok(())));
    on(&mut e, "read /etc/kit-vpn/other.ovpn", Event::Text(Some("remote a".to_string())));
    on(&mut e, "add rules remote a", Event::Done);
    on(&mut e, "fork", Event::Forked(Ok(Side::Parent)));
    let status = Status::new("starting", "tunnel starting", 1234, stamp());
    assert_eq!(word(&e.next()), format!("ok {}", status.json()));
}

#[test]
fn the_child_becomes_the_supervisor() {
    let mut e = unlocked();
    e.took(Event::Lock(Lock::Taken), stamp());
    e.took(Event::Subnet(Ok(("10.1.1.1".to_string(), "10.1.1.2".to_string(), 30))), stamp());
    e.took(Event::SetUp(Ok(())), stamp());
    on(&mut e, "read /etc/kit-vpn/other.ovpn", Event::Text(None));
    on(&mut e, "add rules ", Event::Done);
    on(&mut e, "fork", Event::Forked(Ok(Side::Child)));
    assert_eq!(word(&e.next()), "supervise /etc/kit-vpn/other.ovpn 10.1.1.2 1234");
}

#[test]
fn enabling_can_fail() {
    let mut e = enable();
    on(&mut e, "config", Event::Config(Err("cannot read it".to_string())));
    assert_eq!(word(&e.next()), "err cannot read it");

    let mut e = enable();
    e.took(Event::Config(Ok(other_config())), stamp());
    e.took(Event::Seen(false), stamp());
    assert_eq!(
        word(&e.next()),
        "err OpenVPN configuration not found at /etc/kit-vpn/other.ovpn — run scripts/install.sh with your KIT .ovpn file"
    );

    let mut e = unlocked();
    e.took(Event::Lock(Lock::Unavailable("denied".to_string())), stamp());
    assert_eq!(word(&e.next()), "err cannot open lock file: denied");

    let mut e = unlocked();
    e.took(Event::Lock(Lock::Taken), stamp());
    e.took(Event::Subnet(Err("no free subnet".to_string())), stamp());
    assert_eq!(word(&e.next()), "err no free subnet");

    let mut e = unlocked();
    e.took(Event::Lock(Lock::Taken), stamp());
    e.took(Event::Subnet(Ok(("a".to_string(), "b".to_string(), 30))), stamp());
    e.took(Event::SetUp(Err("no veth".to_string())), stamp());
    assert_eq!(word(&e.next()), "err no veth");

    let mut e = unlocked();
    e.took(Event::Lock(Lock::Taken), stamp());
    e.took(Event::Subnet(Ok(("a".to_string(), "b".to_string(), 30))), stamp());
    e.took(Event::SetUp(Ok(())), stamp());
    e.took(Event::Text(None), stamp());
    e.took(Event::Done, stamp());
    e.took(Event::Forked(Err("EAGAIN".to_string())), stamp());
    assert_eq!(word(&e.next()), "err fork: EAGAIN");
}

#[test]
fn a_healthy_tunnel_is_left_alone() {
    let mut e = enable();
    on(&mut e, "config", Event::Config(Ok(Config::default())));
    on(&mut e, "file? /etc/kit-vpn/kit.ovpn", Event::Seen(true));
    on(&mut e, "read /run/kit-vpn/supervisor.pid", Event::Text(Some(" 77\n".to_string())));
    on(&mut e, "alive? 77", Event::Seen(true));
    let running = Status::new("running", "tunnel up", 1080, stamp());
    on(&mut e, "status", Event::Status(Some(running.copy())));
    assert_eq!(word(&e.next()), format!("ok {}", running.json()));
}

#[test]
fn an_unhealthy_supervisor_is_killed() {
    let mut e = enable();
    e.took(Event::Config(Ok(Config::default())), stamp());
    e.took(Event::Seen(true), stamp());
    e.took(Event::Text(Some("77".to_string())), stamp());
    e.took(Event::Seen(true), stamp());
    on(&mut e, "status", Event::Status(Some(Status::new("error", "x", 0, stamp()))));
    on(&mut e, "kill 77", Event::Done);
    let mut polls: u32 = 0;
    while word(&e.next()) == "alive? 77" {
        e.took(Event::Seen(true), stamp());
        on(&mut e, "sleep 100", Event::Done);
        polls += 1;
    }
    assert_eq!(polls, 50);
    on(&mut e, "remove /run/kit-vpn/supervisor.pid", Event::Done);
    assert_eq!(word(&e.next()), "lock /run/kit-vpn/lock");
}

#[test]
fn a_killed_supervisor_that_goes_is_not_awaited() {
    let mut e = enable();
    e.took(Event::Config(Ok(Config::default())), stamp());
    e.took(Event::Seen(true), stamp());
    e.took(Event::Text(Some("77".to_string())), stamp());
    e.took(Event::Seen(true), stamp());
    e.took(Event::Status(None), stamp());
    on(&mut e, "kill 77", Event::Done);
    on(&mut e, "alive? 77", Event::Seen(false));
    assert_eq!(word(&e.next()), "remove /run/kit-vpn/supervisor.pid");
}

#[test]
fn a_stale_pid_is_ignored() {
    for content in ["", "x", "99999999999"] {
        let mut e = enable();
        e.took(Event::Config(Ok(Config::default())), stamp());
        e.took(Event::Seen(true), stamp());
        e.took(Event::Text(Some(content.to_string())), stamp());
        assert_eq!(word(&e.next()), "lock /run/kit-vpn/lock");
    }
    let mut e = enable();
    e.took(Event::Config(Ok(Config::default())), stamp());
    e.took(Event::Seen(true), stamp());
    e.took(Event::Text(Some("77".to_string())), stamp());
    on(&mut e, "alive? 77", Event::Seen(false));
    assert_eq!(word(&e.next()), "lock /run/kit-vpn/lock");
}

#[test]
fn a_held_lock_is_awaited() {
    let mut e = unlocked();
    e.took(Event::Lock(Lock::Held), stamp());
    for _ in 0..30 {
        on(&mut e, "status", Event::Status(None));
        on(&mut e, "sleep 200", Event::Done);
    }
    let stopped = Status::new("stopped", "x", 0, stamp());
    on(&mut e, "status", Event::Status(Some(stopped.copy())));
    assert_eq!(word(&e.next()), format!("ok {}", stopped.json()));

    let mut e = unlocked();
    e.took(Event::Lock(Lock::Held), stamp());
    for _ in 0..30 {
        e.took(Event::Status(None), stamp());
        e.took(Event::Done, stamp());
    }
    e.took(Event::Status(None), stamp());
    assert_eq!(word(&e.next()), "err another enable is in progress");

    let mut e = unlocked();
    e.took(Event::Lock(Lock::Held), stamp());
    let starting = Status::new("starting", "x", 0, stamp());
    e.took(Event::Status(Some(starting.copy())), stamp());
    assert_eq!(word(&e.next()), format!("ok {}", starting.json()));
}

#[test]
fn disabling_leaves_nothing() {
    let mut d = disable(stamp());
    off(&mut d, "read /run/kit-vpn/supervisor.pid", Event::Text(Some("77\n".to_string())));
    off(&mut d, "terminate 77", Event::Done);
    off(&mut d, "alive? 77", Event::Seen(true));
    off(&mut d, "sleep 100", Event::Done);
    off(&mut d, "alive? 77", Event::Seen(false));
    off(&mut d, "netns del kitvpn", Event::Reply(Err("gone".to_string())));
    off(&mut d, "remove /run/kit-vpn/supervisor.pid", Event::Done);
    off(&mut d, "config", Event::Config(Ok(other_config())));
    off(&mut d, "read /etc/kit-vpn/other.ovpn", Event::Text(Some("remote a".to_string())));
    off(&mut d, "remove rules remote a", Event::Done);
    off(&mut d, "publish stopped tunnel stopped 0", Event::Done);
    let status = Status::new("stopped", "tunnel stopped", 0, stamp());
    assert_eq!(word(&d.next()), format!("ok {}", status.json()));
}

#[test]
fn disabling_without_anything_there() {
    let mut d = disable(stamp());
    off(&mut d, "read /run/kit-vpn/supervisor.pid", Event::Text(None));
    off(&mut d, "netns del kitvpn", Event::Reply(Err("gone".to_string())));
    off(&mut d, "remove /run/kit-vpn/supervisor.pid", Event::Done);
    off(&mut d, "config", Event::Config(Err("none".to_string())));
    off(&mut d, "read /etc/kit-vpn/kit.ovpn", Event::Text(None));
    off(&mut d, "publish stopped tunnel stopped 0", Event::Done);
    assert!(word(&d.next()).starts_with("ok {\"state\":\"stopped\""));
}

#[test]
fn a_supervisor_that_stays_is_not_awaited_forever() {
    let mut d = disable(stamp());
    d.took(Event::Text(Some("77".to_string())), stamp());
    d.took(Event::Done, stamp());
    let mut polls: u32 = 0;
    while word(&d.next()) == "alive? 77" {
        d.took(Event::Seen(true), stamp());
        d.took(Event::Done, stamp());
        polls += 1;
    }
    assert_eq!(polls, 100);
    assert_eq!(word(&d.next()), "netns del kitvpn");
}

// ---- the installer ----

const OVPN: &str = "client\nremote vpn.kit.edu\n";

fn install_word(action: &install::Action) -> String {
    match action {
        install::Action::Stat(path) => format!("stat {}", path),
        install::Action::ReadFile(path) => format!("read {}", path),
        install::Action::CreateDir(path) => format!("create {}", path),
        install::Action::WriteFile { path, mode, .. } => format!("write {} {:o}", path, mode),
        install::Action::Finish(Ok(message)) => format!("ok {}", message),
        install::Action::Finish(Err(e)) => format!("err {}", e),
    }
}

fn put(i: &mut install::Install, expected: &str, event: install::Event) {
    assert_eq!(install_word(&i.next()), expected);
    i.took(event);
}

fn content(i: &install::Install) -> String {
    match i.next() {
        install::Action::WriteFile { content, .. } => content,
        _ => panic!("a file is to be written"),
    }
}

#[test]
fn installing_an_openvpn_file() {
    let mut i = install_ovpn("/tmp/a.ovpn".to_string(), None);
    put(&mut i, "stat /tmp/a.ovpn", install::Event::Stat(Ok(true)));
    put(&mut i, "read /tmp/a.ovpn", install::Event::Text(Ok(OVPN.to_string())));
    put(&mut i, "create /etc/kit-vpn", install::Event::Stored(Ok(())));
    assert_eq!(content(&i), OVPN);
    put(&mut i, "write /etc/kit-vpn/kit.ovpn 600", install::Event::Stored(Ok(())));
    assert_eq!(
        content(&i),
        "# /etc/kit-vpn/config.toml — written by kit-vpn-companion config\n\
         ovpn_path = \"/etc/kit-vpn/kit.ovpn\"\n\
         socks_port = 1080\n\
         dns_servers = [\"141.3.175.71\", \"129.13.10.90\", \"129.13.10.91\"]\n\
         subnet = \"10.200.200.0/30\"\n"
    );
    put(&mut i, "write /etc/kit-vpn/config.toml 644", install::Event::Stored(Ok(())));
    assert_eq!(
        install_word(&i.next()),
        "ok installed /tmp/a.ovpn -> /etc/kit-vpn/kit.ovpn (DNS: 141.3.175.71, 129.13.10.90, 129.13.10.91)"
    );
}

#[test]
fn installing_credentials_too() {
    let ovpn = format!("{}dhcp-option DNS 9.9.9.9\n", OVPN);
    let mut i = install_ovpn("/tmp/a.ovpn".to_string(), Some("/tmp/auth".to_string()));
    i.took(install::Event::Stat(Ok(true)));
    i.took(install::Event::Text(Ok(ovpn)));
    i.took(install::Event::Stored(Ok(())));
    i.took(install::Event::Stored(Ok(())));
    put(&mut i, "read /tmp/auth", install::Event::Text(Ok("user\nword\n".to_string())));
    assert_eq!(content(&i), "user\nword\n");
    put(&mut i, "write /etc/kit-vpn/auth.txt 600", install::Event::Stored(Ok(())));
    let text = content(&i);
    assert!(text.ends_with("subnet = \"10.200.200.0/30\"\nauth_user_pass = \"/etc/kit-vpn/auth.txt\"\n"));
    // the text is TOML with these values
    let table: toml::Table = text.parse().unwrap();
    assert_eq!(table["ovpn_path"].as_str(), Some("/etc/kit-vpn/kit.ovpn"));
    assert_eq!(table["socks_port"].as_integer(), Some(1080));
    assert_eq!(table["dns_servers"].as_array().unwrap().len(), 1);
    assert_eq!(table["dns_servers"][0].as_str(), Some("9.9.9.9"));
    assert_eq!(table["auth_user_pass"].as_str(), Some("/etc/kit-vpn/auth.txt"));
    put(&mut i, "write /etc/kit-vpn/config.toml 644", install::Event::Stored(Ok(())));
    assert_eq!(
        install_word(&i.next()),
        "ok installed /tmp/a.ovpn -> /etc/kit-vpn/kit.ovpn (+ credentials -> /etc/kit-vpn/auth.txt) (DNS: 9.9.9.9)"
    );
}

/// The configuration that is written for an OpenVPN file.
fn written(ovpn: &str, auth: Option<String>) -> String {
    let mut i = install_ovpn("s".to_string(), auth);
    for event in [regular(), read(ovpn), fine(), fine()] {
        i.took(event);
    }
    if install_word(&i.next()).starts_with("read ") {
        i.took(read("u\np"));
        i.took(fine());
    }
    content(&i)
}

#[test]
fn the_written_configuration_is_read_back() {
    let own = format!("{}dhcp-option DNS 1.1.1.1\ndhcp-option DNS 2.2.2.2\n", OVPN);
    let defaults = vec!["141.3.175.71", "129.13.10.90", "129.13.10.91"];
    let cases = [
        (OVPN, None, defaults, None),
        (own.as_str(), Some("a".to_string()), vec!["1.1.1.1", "2.2.2.2"], Some("/etc/kit-vpn/auth.txt")),
    ];
    for (ovpn, auth, dns, auth_path) in cases {
        let table: toml::Table = written(ovpn, auth).parse().unwrap();
        assert_eq!(table["ovpn_path"].as_str(), Some("/etc/kit-vpn/kit.ovpn"));
        assert_eq!(table["socks_port"].as_integer(), Some(1080));
        assert_eq!(table["subnet"].as_str(), Some("10.200.200.0/30"));
        let listed: Vec<&str> =
            table["dns_servers"].as_array().unwrap().iter().map(|d| d.as_str().unwrap()).collect();
        assert_eq!(listed, dns);
        assert_eq!(table.get("auth_user_pass").and_then(|a| a.as_str()), auth_path);
    }
    // and so by the companion itself
    let cfg = load(Ok(written(OVPN, None))).unwrap();
    let by_default = Config::default();
    assert_eq!(cfg.ovpn_path, by_default.ovpn_path);
    assert_eq!(cfg.socks_port, by_default.socks_port);
    assert_eq!(cfg.dns_servers, by_default.dns_servers);
    assert_eq!(cfg.subnet, by_default.subnet);
    assert_eq!(cfg.auth_user_pass, None);
    let cfg = load(Ok(written(&own, Some("a".to_string())))).unwrap();
    assert_eq!(cfg.dns(), vec!["1.1.1.1", "2.2.2.2"]);
    assert_eq!(cfg.auth_user_pass.as_deref(), Some("/etc/kit-vpn/auth.txt"));
}

#[test]
fn configurations_are_told_apart() {
    let with = |dns: &str, auth: bool| {
        written(&format!("{}{}", OVPN, dns), if auth { Some("a".to_string()) } else { None })
    };
    let one = "dhcp-option DNS 1.1.1.1\n";
    let two = "dhcp-option DNS 1.1.1.1\ndhcp-option DNS 2.2.2.2\n";
    assert_ne!(with(one, false), with(one, true));
    assert_ne!(with(one, false), with(two, false));
    assert_ne!(with("", false), with(one, false));
}

/// What an installation ends with that gets these events.
fn ends(events: Vec<install::Event>) -> String {
    let mut i = install_ovpn("s".to_string(), Some("a".to_string()));
    for event in events {
        i.took(event);
    }
    install_word(&i.next())
}

fn fine() -> install::Event {
    install::Event::Stored(Ok(()))
}

fn broken() -> install::Event {
    install::Event::Stored(Err("x".to_string()))
}

fn read(text: &str) -> install::Event {
    install::Event::Text(Ok(text.to_string()))
}

fn unread() -> install::Event {
    install::Event::Text(Err("x".to_string()))
}

fn regular() -> install::Event {
    install::Event::Stat(Ok(true))
}

#[test]
fn installing_can_fail() {
    assert_eq!(ends(vec![install::Event::Stat(Err("x".to_string()))]), "err cannot stat s: x");
    assert_eq!(ends(vec![install::Event::Stat(Ok(false))]), "err s is not a regular file");
    assert_eq!(ends(vec![regular(), unread()]), "err cannot read s: x");
    assert_eq!(
        ends(vec![regular(), read("hello")]),
        "err s does not look like an OpenVPN configuration (no 'remote'/'client'/'<ca>')"
    );
    assert_eq!(ends(vec![regular(), read(OVPN), broken()]), "err cannot create /etc/kit-vpn: x");
    assert_eq!(
        ends(vec![regular(), read(OVPN), fine(), broken()]),
        "err cannot write /etc/kit-vpn/kit.ovpn: x"
    );
    assert_eq!(ends(vec![regular(), read(OVPN), fine(), fine(), unread()]), "err cannot read a: x");
    assert_eq!(
        ends(vec![regular(), read(OVPN), fine(), fine(), read("user\n")]),
        "err a should contain the username on line 1 and password on line 2"
    );
    assert_eq!(
        ends(vec![regular(), read(OVPN), fine(), fine(), read("u\np"), broken()]),
        "err cannot write /etc/kit-vpn/auth.txt: x"
    );
    assert_eq!(
        ends(vec![regular(), read(OVPN), fine(), fine(), read("u\np"), fine(), broken()]),
        "err cannot write /etc/kit-vpn/config.toml: x"
    );
}

#[test]
fn what_looks_like_an_openvpn_file() {
    for text in ["remote x", "<ca>", "  \n client", "clientele"] {
        assert_eq!(ends(vec![regular(), read(text)]), "create /etc/kit-vpn");
    }
    for text in ["", "remote", "x client", "ca"] {
        assert!(ends(vec![regular(), read(text)]).starts_with("err s does not look like"));
    }
}

// ---- the command line ----

fn mode_of(words: &[&str]) -> Mode {
    let args: Vec<String> = words.iter().map(|w| w.to_string()).collect();
    mode(&args)
}

#[test]
fn modes_of_the_program() {
    assert!(matches!(mode_of(&[]), Mode::NativeMessaging));
    assert!(matches!(mode_of(&["nm", "x"]), Mode::NativeMessaging));
    assert!(matches!(mode_of(&["/home/u/kit_vpn_companion.json", "id"]), Mode::NativeMessaging));
    assert!(matches!(mode_of(&["helper", "enable"]), Mode::Helper(Operation::Enable)));
    assert!(matches!(mode_of(&["helper", "disable"]), Mode::Helper(Operation::Disable)));
    assert!(matches!(mode_of(&["helper"]), Mode::UnknownOperation(None)));
    assert!(matches!(mode_of(&["helper", "rm"]), Mode::UnknownOperation(Some(w)) if w == "rm"));
    assert!(matches!(mode_of(&["--version"]), Mode::Version));
    assert!(matches!(mode_of(&["--help"]), Mode::Help));
    assert!(matches!(mode_of(&["-h"]), Mode::Help));
    assert!(matches!(mode_of(&["x"]), Mode::Unknown(w) if w == "x"));
    assert!(matches!(mode_of(&["config"]), Mode::InstallUsage));
    assert!(matches!(mode_of(&["config", "--ovpn"]), Mode::InstallUsage));
    assert!(matches!(mode_of(&["config", "-x", "y"]), Mode::InstallUsage));
}

#[test]
fn arguments_of_the_installer() {
    let parts = |words: &[&str]| match mode_of(words) {
        Mode::Install { ovpn, auth } => (ovpn, auth),
        _ => panic!("an installation"),
    };
    assert_eq!(parts(&["config", "--ovpn", "f"]), ("f".to_string(), None));
    assert_eq!(
        parts(&["config", "--ovpn", "f", "--auth-user-pass", "a"]),
        ("f".to_string(), Some("a".to_string()))
    );
    assert_eq!(parts(&["config", "--ovpn", "f", "--auth-user-pass"]), ("f".to_string(), None));
    assert_eq!(parts(&["config", "--ovpn", "f", "-a", "a"]), ("f".to_string(), None));
}

#[test]
fn arguments_of_the_socks_server() {
    let dns = vec!["1.1.1.1".to_string(), "2.2.2.2".to_string()];
    let args = spawn_socks("/x", "10.200.200.2", 1080, &dns).args;
    match mode(&args) {
        Mode::ChildSocks(o) => {
            assert_eq!(o.bind_ip, "10.200.200.2");
            assert_eq!(o.port, 1080);
            assert_eq!(o.dns, dns);
            assert_eq!(o.log, "/run/kit-vpn/socks.log");
        }
        _ => panic!("the SOCKS5 server"),
    }
    match mode_of(&["child-socks", "x", "--port", "70000", "--log", "l", "--dns"]) {
        Mode::ChildSocks(o) => {
            assert_eq!((o.bind_ip.as_str(), o.port, o.log.as_str()), ("", 0, "l"));
            assert!(o.dns.is_empty());
        }
        _ => panic!("the SOCKS5 server"),
    }
    // without a DNS server the server gets one with an empty name
    match mode(&spawn_socks("/x", "a", 1, &Vec::new()).args) {
        Mode::ChildSocks(o) => assert_eq!(o.dns, vec![""]),
        _ => panic!("the SOCKS5 server"),
    }
}

#[test]
fn what_the_helper_prints() {
    let fine = helper_result(Ok("{}".to_string()));
    assert_eq!((fine.line.as_str(), fine.code), ("{}", 0));
    let failed = helper_result(Err("no \"x\"".to_string()));
    assert_eq!(failed.code, 1);
    assert_eq!(
        failed.line,
        "{\"detail\":\"no \\\"x\\\"\",\"error\":\"no \\\"x\\\"\",\"pid\":0,\"since\":0,\"socks_port\":0,\"state\":\"error\"}"
    );
}
