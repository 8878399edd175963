//! The supervisor and its children.
use kit_vpn_companion::children::{
    openvpn_not_started, spawn_in_netns_error, spawn_openvpn, spawn_socks, stop_child, try_exit,
    NotSpawned, StopStep,
};
use kit_vpn_companion::config::Config;
use kit_vpn_companion::status::Stamp;
use kit_vpn_companion::supervisor::{run, Action, Event, Supervisor};

fn stamp() -> Stamp {
    Stamp { pid: 42, now: 1000 }
}

fn start() -> Supervisor {
    run(Config::default(), "10.200.200.2".to_string(), 1080, stamp())
}

/// What is to be done, in a few words.
fn word(action: &Action) -> String {
    match action {
        Action::Publish(s) => format!("publish {} {} {}", s.state, s.detail, s.socks_port),
        Action::WriteFile { path, content } => format!("write {} {:?}", path, content),
        Action::FindPort(port) => format!("port {}", port),
        Action::StartRelay { listen, target } => format!("relay {} {}", listen, target),
        Action::StartOpenvpn => "openvpn".to_string(),
        Action::StartSocks { ns_ip, port, dns } => format!("socks {} {} {}", ns_ip, port, dns.len()),
        Action::CheckStop => "stop?".to_string(),
        Action::CheckNamespace => "namespace?".to_string(),
        Action::CheckOpenvpn => "openvpn?".to_string(),
        Action::CheckSocks => "socks?".to_string(),
        Action::Run(command) => command.args.join(" "),
        Action::MoveTun => "move".to_string(),
        Action::Sleep(ms) => format!("sleep {}", ms),
        Action::RemoveFile(path) => format!("remove {}", path),
        Action::StopOpenvpn => "stop openvpn".to_string(),
        Action::StopSocks => "stop socks".to_string(),
        Action::Exit => "exit".to_string(),
    }
}

/// Sees that `expected` is to be done and says what came of it.
fn step(s: &mut Supervisor, expected: &str, event: Event, now: u64) {
    assert_eq!(word(&s.next()), expected);
    s.took(event, stamp(), now);
}

const HOST_TUN: &str = "-4 addr show dev kitvpn-tun";
const NS_TUN: &str = "netns exec kitvpn ip link show kitvpn-tun";
const ROUTE: &str = "netns exec kitvpn ip route replace default dev kitvpn-tun";

fn up() -> Event {
    Event::Reply(Ok("<UP,LOWER_UP>".to_string()))
}

fn missing() -> Event {
    Event::Reply(Err("no device".to_string()))
}

/// A supervisor at the top of its loop, which began at the time 0.
fn looping() -> Supervisor {
    let mut s = start();
    step(&mut s, "write /run/kit-vpn/supervisor.pid \"42\\n\"", Event::Done, 0);
    step(&mut s, "publish starting starting tunnel 1080", Event::Done, 0);
    step(&mut s, "port 1080", Event::Port(Some(1081)), 0);
    step(&mut s, "relay 127.0.0.1:1081 10.200.200.2:1080", Event::Done, 0);
    step(&mut s, "openvpn", Event::Spawned(Ok(())), 0);
    step(&mut s, "socks 10.200.200.2 1080 3", Event::Spawned(Ok(())), 0);
    s
}

/// The part of a round in front of the look at OpenVPN.
fn round_start(s: &mut Supervisor) {
    step(s, "stop?", Event::Seen(false), 0);
    step(s, "namespace?", Event::Seen(true), 0);
}

#[test]
fn the_tunnel_comes_up_and_goes_down() {
    let mut s = looping();
    round_start(&mut s);
    step(&mut s, "openvpn?", Event::Seen(false), 0);
    step(&mut s, "socks?", Event::Seen(false), 0);
    step(&mut s, HOST_TUN, Event::Reply(Ok("inet 10.8.0.2".to_string())), 0);
    step(&mut s, "move", Event::Done, 0);
    step(&mut s, NS_TUN, up(), 0);
    step(&mut s, ROUTE, Event::Reply(Err("whatever".to_string())), 0);
    step(&mut s, "publish running tunnel up 1081", Event::Done, 0);
    step(&mut s, "sleep 500", Event::Done, 0);
    round_start(&mut s);
    step(&mut s, "openvpn?", Event::Seen(false), 0);
    step(&mut s, "socks?", Event::Seen(false), 0);
    step(&mut s, HOST_TUN, missing(), 0);
    // still up: nothing new to report
    step(&mut s, NS_TUN, up(), 0);
    step(&mut s, ROUTE, Event::Reply(Ok(String::new())), 0);
    step(&mut s, "sleep 500", Event::Done, 0);
    round_start(&mut s);
    step(&mut s, "openvpn?", Event::Seen(false), 0);
    step(&mut s, "socks?", Event::Seen(false), 0);
    step(&mut s, HOST_TUN, missing(), 0);
    step(&mut s, NS_TUN, missing(), 0);
    step(&mut s, "publish reconnecting tunnel down; waiting for reconnect 1081", Event::Done, 0);
    step(&mut s, "sleep 500", Event::Done, 0);
    assert_eq!(word(&s.next()), "stop?");
}

/// The part of a round behind the look at OpenVPN, with the tunnel down.
fn round_end(s: &mut Supervisor) {
    step(s, "socks?", Event::Seen(false), 0);
    step(s, HOST_TUN, missing(), 0);
    step(s, NS_TUN, missing(), 0);
    step(s, "sleep 500", Event::Done, 0);
}

#[test]
fn openvpn_is_restarted_three_times() {
    let mut s = looping();
    for (attempt, now) in [(1, 10_000u64), (2, 20_000), (3, 30_000)] {
        round_start(&mut s);
        step(&mut s, "openvpn?", Event::Seen(true), now);
        step(&mut s, "openvpn", Event::Spawned(Ok(())), now);
        let published = format!("publish starting restarting openvpn (attempt {}) 1081", attempt);
        step(&mut s, &published, Event::Done, now);
        round_end(&mut s);
    }
    round_start(&mut s);
    step(&mut s, "openvpn?", Event::Seen(true), 40_000);
    match s.next() {
        Action::Publish(status) => {
            assert_eq!(status.state, "error");
            assert_eq!(status.detail, "openvpn exited; give up");
            let why = "openvpn exited after 3 restart(s); giving up";
            assert_eq!(status.error.as_deref(), Some(why));
        }
        _ => panic!("giving up is reported"),
    }
    s.took(Event::Done, stamp(), 40_000);
    round_end(&mut s);
    // there is no OpenVPN to look at any more
    round_start(&mut s);
    round_end(&mut s);
}

#[test]
fn openvpn_that_ends_at_once_is_not_restarted() {
    let mut s = looping();
    round_start(&mut s);
    step(&mut s, "openvpn?", Event::Seen(true), 9_999);
    step(&mut s, "publish error openvpn exited; give up 1081", Event::Done, 9_999);
    assert_eq!(word(&s.next()), "socks?");
}

#[test]
fn a_restart_that_fails_is_reported() {
    let mut s = looping();
    round_start(&mut s);
    step(&mut s, "openvpn?", Event::Seen(true), 10_000);
    let e = openvpn_not_started("no memory");
    assert_eq!(e, "cannot spawn openvpn: no memory");
    step(&mut s, "openvpn", Event::Spawned(Err(e)), 10_000);
    step(&mut s, "publish error cannot spawn openvpn: no memory 1081", Event::Done, 0);
    round_end(&mut s);
    round_start(&mut s);
    assert_eq!(word(&s.next()), "socks?");
}

#[test]
fn the_socks_server_is_restarted() {
    let mut s = looping();
    round_start(&mut s);
    step(&mut s, "openvpn?", Event::Seen(false), 0);
    step(&mut s, "socks?", Event::Seen(true), 0);
    step(&mut s, "socks 10.200.200.2 1080 3", Event::Spawned(Ok(())), 0);
    step(&mut s, HOST_TUN, missing(), 0);
    step(&mut s, NS_TUN, missing(), 0);
    step(&mut s, "sleep 500", Event::Done, 0);
    round_start(&mut s);
    step(&mut s, "openvpn?", Event::Seen(false), 0);
    step(&mut s, "socks?", Event::Seen(true), 0);
    step(&mut s, "socks 10.200.200.2 1080 3", Event::Spawned(Err("no".to_string())), 0);
    step(&mut s, HOST_TUN, missing(), 0);
    step(&mut s, NS_TUN, missing(), 0);
    step(&mut s, "sleep 500", Event::Done, 0);
    round_start(&mut s);
    step(&mut s, "openvpn?", Event::Seen(false), 0);
    // it is not tried again
    assert_eq!(word(&s.next()), HOST_TUN);
}

#[test]
fn stopping_tears_everything_down() {
    let mut s = looping();
    step(&mut s, "stop?", Event::Seen(true), 0);
    step(&mut s, "publish stopped stopped 1081", Event::Done, 0);
    step(&mut s, "remove /run/kit-vpn/supervisor.pid", Event::Done, 0);
    step(&mut s, "stop openvpn", Event::Done, 0);
    step(&mut s, "stop socks", Event::Done, 0);
    step(&mut s, "netns del kitvpn", Event::Reply(Err("gone".to_string())), 0);
    assert_eq!(word(&s.next()), "exit");
    s.took(Event::Done, stamp(), 0);
    assert_eq!(word(&s.next()), "exit");
}

#[test]
fn a_lost_namespace_ends_the_supervisor() {
    let mut s = looping();
    step(&mut s, "stop?", Event::Seen(false), 0);
    step(&mut s, "namespace?", Event::Seen(false), 0);
    step(
        &mut s,
        "publish error network namespace disappeared; re-enable the tunnel 1081",
        Event::Done,
        0,
    );
    step(&mut s, "publish stopped stopped 1081", Event::Done, 0);
    assert_eq!(word(&s.next()), "remove /run/kit-vpn/supervisor.pid");
}

#[test]
fn a_start_without_a_port_waits_to_be_stopped() {
    let mut s = start();
    s.took(Event::Done, stamp(), 0);
    s.took(Event::Done, stamp(), 0);
    step(&mut s, "port 1080", Event::Port(None), 0);
    match s.next() {
        Action::Publish(status) => {
            assert_eq!(status.detail, "cannot bind 127.0.0.1 proxy port");
            assert_eq!(status.error.as_deref(), Some("no free port near 1080"));
        }
        _ => panic!("the failure is reported"),
    }
    s.took(Event::Done, stamp(), 0);
    step(&mut s, "stop?", Event::Seen(false), 0);
    step(&mut s, "sleep 500", Event::Done, 0);
    step(&mut s, "stop?", Event::Seen(true), 0);
    step(&mut s, "netns del kitvpn", Event::Reply(Ok(String::new())), 0);
    assert_eq!(word(&s.next()), "exit");
}

#[test]
fn a_start_without_socks_stops_openvpn() {
    let mut s = start();
    s.took(Event::Done, stamp(), 0);
    s.took(Event::Done, stamp(), 0);
    s.took(Event::Port(Some(1080)), stamp(), 0);
    s.took(Event::Done, stamp(), 0);
    step(&mut s, "openvpn", Event::Spawned(Ok(())), 0);
    step(&mut s, "socks 10.200.200.2 1080 3", Event::Spawned(Err("no".to_string())), 0);
    step(&mut s, "publish error no 1080", Event::Done, 0);
    step(&mut s, "stop?", Event::Seen(true), 0);
    step(&mut s, "stop openvpn", Event::Done, 0);
    assert_eq!(word(&s.next()), "netns del kitvpn");
}

#[test]
fn the_routes_of_the_host_are_left_alone() {
    // of the commands of a whole round only one is about routes, and it runs
    // inside the namespace
    let mut s = looping();
    round_start(&mut s);
    s.took(Event::Seen(false), stamp(), 0);
    s.took(Event::Seen(false), stamp(), 0);
    let mut commands: Vec<String> = Vec::new();
    while let Action::Run(command) = s.next() {
        commands.push(command.args.join(" "));
        s.took(up(), stamp(), 0);
    }
    assert_eq!(commands, vec![HOST_TUN, NS_TUN, ROUTE]);
    assert!(commands.iter().all(|c| !c.starts_with("route")));
}

#[test]
fn events_that_do_not_belong_change_nothing() {
    let mut s = looping();
    s.took(Event::Port(None), stamp(), 0);
    s.took(Event::Done, stamp(), 0);
    assert_eq!(word(&s.next()), "stop?");
}

#[test]
fn how_openvpn_is_started() {
    let mut cfg = Config::default();
    cfg.auth_user_pass = Some("/etc/kit-vpn/auth.txt".to_string());
    let plain = spawn_openvpn(&cfg, None, false);
    assert_eq!(plain.program, "openvpn");
    assert_eq!(
        plain.args.join(" "),
        "--config /etc/kit-vpn/kit.ovpn --dev kitvpn-tun --dev-type tun --route-noexec --disable-dco --script-security 0 --auth-retry nointeract --auth-nocache --verb 3 --log /run/kit-vpn/openvpn.log --status /run/kit-vpn/openvpn-status.log 30"
    );
    let auth = spawn_openvpn(&cfg, Some("/sbin/openvpn".to_string()), true);
    assert_eq!(auth.program, "/sbin/openvpn");
    assert_eq!(auth.args.len(), plain.args.len() + 2);
    assert_eq!(auth.args[plain.args.len()..].join(" "), "--auth-user-pass /etc/kit-vpn/auth.txt");
    assert_eq!(spawn_openvpn(&Config::default(), None, true).args, plain.args);
}

#[test]
fn how_the_socks_server_is_started() {
    let dns = vec!["1.1.1.1".to_string(), "2.2.2.2".to_string()];
    let r = spawn_socks("/x/companion", "10.200.200.2", 1080, &dns);
    assert_eq!(r.program, "/x/companion");
    assert_eq!(
        r.args.join(" "),
        "child-socks --bind-ip 10.200.200.2 --port 1080 --dns 1.1.1.1,2.2.2.2 --log /run/kit-vpn/socks.log"
    );
    let e = |fault: NotSpawned| spawn_in_netns_error(fault);
    assert_eq!(e(NotSpawned::NoProgram("x".to_string())), "cannot locate own binary: x");
    assert_eq!(
        e(NotSpawned::NoNamespace("x".to_string())),
        "cannot open /var/run/netns/kitvpn: x"
    );
    let fault = NotSpawned::NotStarted { program: "/p".to_string(), error: "x".to_string() };
    assert_eq!(e(fault), "cannot spawn /p: x");
}

#[test]
fn codes_of_children() {
    assert_eq!(try_exit(None), None);
    assert_eq!(try_exit(Some(Some(3))), Some(3));
    assert_eq!(try_exit(Some(None)), Some(-1));
}

#[test]
fn stopping_a_child_escalates() {
    let mut c = stop_child();
    assert_eq!(c.next(), StopStep::Terminate);
    c.took(false, 1000);
    assert_eq!(c.next(), StopStep::Poll);
    c.took(false, 5999);
    assert_eq!(c.next(), StopStep::Sleep);
    c.took(false, 6099);
    assert_eq!(c.next(), StopStep::Poll);
    c.took(false, 6099);
    assert_eq!(c.next(), StopStep::Kill);
    c.took(false, 6100);
    assert_eq!(c.next(), StopStep::Poll);
    c.took(false, 6200);
    assert_eq!(c.next(), StopStep::Sleep);
    c.took(false, 6300);
    c.took(false, 11_100);
    assert_eq!(c.next(), StopStep::GiveUp);
}

#[test]
fn a_child_that_ends_is_left() {
    let mut c = stop_child();
    c.took(false, 0);
    c.took(true, 1);
    assert_eq!(c.next(), StopStep::Ended);
    let mut c = stop_child();
    c.took(false, 0);
    c.took(false, 5000);
    c.took(false, 5000);
    c.took(true, 5001);
    assert_eq!(c.next(), StopStep::Ended);
}
