//! Commands and what becomes of them.
use kit_vpn_companion::command::{
    bin, choose_bin, command_result, find_bin, ip, ns_ip, run_cmd, Ran,
};
use kit_vpn_companion::netns::{
    cleanup_netns, ensure_ns_tun_default, host_tun_query, host_tun_ready, ns_path, ns_tun_addr_query,
    ns_tun_has_addr, ns_tun_query, ns_tun_ready, setup,
};
use kit_vpn_companion::tun::{move_tun_to_netns, parse_addr_line, MovePhase};

fn args() -> Vec<String> {
    vec!["link".to_string(), "show".to_string()]
}

fn ended(success: bool, stdout: &[u8], stderr: &[u8]) -> Ran {
    Ran::Finished {
        success,
        status: "exit status: 1".to_string(),
        stdout: stdout.to_vec(),
        stderr: stderr.to_vec(),
    }
}

#[test]
fn outcomes_of_commands() {
    assert_eq!(run_cmd("ip", &args(), ended(true, b"out\n", b"noise")), Ok("out\n".to_string()));
    assert_eq!(
        run_cmd("/sbin/ip", &args(), ended(false, b"", b" \n")),
        Err("/sbin/ip link show exited with exit status: 1".to_string())
    );
    assert_eq!(
        run_cmd("ip", &args(), ended(false, b"out", b"first\nlast one\n")),
        Err("ip link show failed: last one".to_string())
    );
    assert_eq!(
        run_cmd("ip", &args(), Ran::NotStarted("not found".to_string())),
        Err("failed to execute ip: not found".to_string())
    );
    assert_eq!(
        command_result("ip", &args(), false, "signal: 9", "", "x"),
        Err("ip link show failed: x".to_string())
    );
}

#[test]
fn output_that_is_no_text() {
    // what is not UTF-8 is replaced
    let out = run_cmd("ip", &args(), ended(true, &[b'a', 0xff, b'b'], b"")).unwrap();
    assert_eq!(out, "a\u{fffd}b");
    let text = run_cmd("ip", &args(), ended(true, "grün".as_bytes(), b"")).unwrap();
    assert_eq!(text, "grün");
}

#[test]
fn where_programs_are_looked_for() {
    let candidates = find_bin("ip", Some("/opt/bin:/x".to_string()));
    assert_eq!(
        candidates,
        vec![
            "/usr/local/sbin/ip",
            "/usr/local/bin/ip",
            "/usr/sbin/ip",
            "/sbin/ip",
            "/usr/bin/ip",
            "/bin/ip",
            "/opt/bin/ip",
            "/x/ip",
        ]
    );
    assert_eq!(find_bin("ip", None).len(), 6);
    let present = vec![false, false, false, true, true, false, false, false];
    assert_eq!(choose_bin(&candidates, &present).as_deref(), Some("/sbin/ip"));
    assert_eq!(choose_bin(&candidates, &vec![false; 8]), None);
    assert_eq!(bin("ip", None), "ip");
    assert_eq!(bin("ip", Some("/sbin/ip".to_string())), "/sbin/ip");
    assert_eq!(ip(&["link"]).file(Some("/sbin/ip".to_string())), "/sbin/ip");
    assert_eq!(ns_ip(&["link"]).file(None), "ip");
}

#[test]
fn commands_for_the_namespace() {
    assert_eq!(ip(&["a", "b"]).args, vec!["a", "b"]);
    assert_eq!(ns_ip(&["a", "b"]).args, vec!["netns", "exec", "kitvpn", "ip", "a", "b"]);
    assert_eq!(cleanup_netns().args, vec!["netns", "del", "kitvpn"]);
    assert_eq!(
        ensure_ns_tun_default().args,
        vec!["netns", "exec", "kitvpn", "ip", "route", "replace", "default", "dev", "kitvpn-tun"]
    );
    assert_eq!(host_tun_query().args, vec!["-4", "addr", "show", "dev", "kitvpn-tun"]);
    assert_eq!(
        ns_tun_addr_query().args,
        vec!["netns", "exec", "kitvpn", "ip", "-4", "addr", "show", "dev", "kitvpn-tun"]
    );
    assert_eq!(
        ns_tun_query().args,
        vec!["netns", "exec", "kitvpn", "ip", "link", "show", "kitvpn-tun"]
    );
    assert_eq!(ns_path(), "/var/run/netns/kitvpn");
}

#[test]
fn states_of_the_tunnel_device() {
    let up: Result<String, String> = Ok("7: kitvpn-tun: <POINTOPOINT,UP,LOWER_UP> mtu 1500".to_string());
    let down: Result<String, String> = Ok("7: kitvpn-tun: <POINTOPOINT> mtu 1500".to_string());
    let missing: Result<String, String> = Err("LOWER_UP inet ".to_string());
    assert!(ns_tun_ready(&up));
    assert!(!ns_tun_ready(&down));
    assert!(!ns_tun_ready(&missing));
    let addressed: Result<String, String> = Ok("    inet 10.8.0.2/24".to_string());
    assert!(host_tun_ready(&addressed));
    assert!(ns_tun_has_addr(&addressed));
    assert!(!host_tun_ready(&Ok("inet6 fe80::1".to_string())));
    assert!(!ns_tun_has_addr(&missing));
}

#[test]
fn setting_up_the_namespace() {
    let mut s = setup("10.200.200.1", "10.200.200.2", 30);
    let mut ran: Vec<String> = Vec::new();
    while let Some(command) = s.next() {
        ran.push(command.args.join(" "));
        s.ran(Ok(String::new()));
    }
    assert_eq!(s.outcome(), Ok(()));
    assert_eq!(
        ran,
        vec![
            "netns add kitvpn",
            "link add kitvpn0 type veth peer name kitvpn1",
            "link set kitvpn1 netns kitvpn",
            "addr add 10.200.200.1/30 dev kitvpn0",
            "link set kitvpn0 up",
            "netns exec kitvpn ip link set lo up",
            "netns exec kitvpn ip addr add 10.200.200.2/30 dev kitvpn1",
            "netns exec kitvpn ip link set kitvpn1 up",
        ]
    );
}

#[test]
fn failed_setup_is_cleaned_up() {
    let mut s = setup("10.200.200.1", "10.200.200.2", 30);
    s.ran(Ok(String::new()));
    s.ran(Err("no veth".to_string()));
    assert_eq!(s.next().unwrap().args, vec!["netns", "del", "kitvpn"]);
    s.ran(Err("not there".to_string()));
    assert!(s.next().is_none());
    assert_eq!(s.outcome(), Err("no veth".to_string()));
}

#[test]
fn address_lines() {
    let p2p = "55: kitvpn-tun    inet 10.8.0.2 peer 10.8.0.1/32 scope global";
    assert_eq!(
        parse_addr_line(p2p),
        Some(("10.8.0.2/32".to_string(), Some("10.8.0.1".to_string())))
    );
    let subnet = "55: kitvpn-tun    inet 10.8.0.2/24 brd 10.8.0.255";
    assert_eq!(parse_addr_line(subnet), Some(("10.8.0.2/24".to_string(), None)));
    assert_eq!(parse_addr_line("inet 1.2.3.4 peer"), Some(("1.2.3.4/32".to_string(), None)));
    assert_eq!(parse_addr_line("inet"), None);
    assert_eq!(parse_addr_line("55: kitvpn-tun inet6 fe80::1"), None);
    assert_eq!(parse_addr_line(""), None);
}

#[test]
fn moving_the_device() {
    let mut m = move_tun_to_netns();
    let mut ran: Vec<String> = Vec::new();
    while let Some(command) = m.next() {
        ran.push(command.args.join(" "));
        let reply = match m.phase() {
            MovePhase::ShowAddr => Ok("5: kitvpn-tun inet 10.8.0.2 peer 10.8.0.1/32".to_string()),
            MovePhase::DropOld => Err("no such device".to_string()),
            MovePhase::CheckAddr => Ok("nothing here".to_string()),
            _ => Ok(String::new()),
        };
        m.ran(&reply);
    }
    assert_eq!(
        ran,
        vec![
            "-4 -o addr show dev kitvpn-tun",
            "netns exec kitvpn ip link del kitvpn-tun",
            "link set kitvpn-tun netns kitvpn",
            "route flush dev kitvpn-tun",
            "netns exec kitvpn ip -4 addr show dev kitvpn-tun",
            "netns exec kitvpn ip addr add 10.8.0.2/32 peer 10.8.0.1 dev kitvpn-tun",
            "netns exec kitvpn ip link set kitvpn-tun up",
        ]
    );
}

#[test]
fn a_move_that_fails_stops() {
    let mut m = move_tun_to_netns();
    m.ran(&Ok("5: kitvpn-tun inet 10.8.0.2/24".to_string()));
    m.ran(&Ok(String::new()));
    m.ran(&Err("busy".to_string()));
    assert!(m.next().is_none());
}

#[test]
fn a_device_without_an_address_comes_up() {
    let mut m = move_tun_to_netns();
    m.ran(&Err("gone".to_string()));
    m.ran(&Ok(String::new()));
    m.ran(&Ok(String::new()));
    m.ran(&Ok(String::new()));
    assert_eq!(m.phase(), MovePhase::Up);
    m.ran(&Err("no".to_string()));
    assert!(m.next().is_none());
}
