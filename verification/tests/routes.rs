//! Routing the VPN servers directly, and the relay.
use kit_vpn_companion::relay::{address, bind_free_port};
use kit_vpn_companion::routes::{
    add_direct_rules, host_to_ip, remote_v4_ips, remove_direct_rules, resolved_ip, HostLookup,
};

#[test]
fn literal_addresses_need_no_resolver() {
    assert!(matches!(host_to_ip("129.13.10.90"), HostLookup::Known(ip) if ip == "129.13.10.90"));
    assert!(matches!(host_to_ip("2001:db8::1"), HostLookup::Nothing));
    let name = "vpn.scc.kit.edu";
    assert!(matches!(host_to_ip(name), HostLookup::Ask(asked) if asked == name));
    assert!(matches!(host_to_ip("1.2.3.4.5"), HostLookup::Ask(asked) if asked == "1.2.3.4.5"));
}

#[test]
fn answers_of_the_resolver() {
    let first = |addrs: &[&str]| {
        let addrs: Vec<String> = addrs.iter().map(|a| a.to_string()).collect();
        resolved_ip(&addrs)
    };
    assert_eq!(first(&["129.13.1.1", "129.13.1.2"]).as_deref(), Some("129.13.1.1"));
    assert_eq!(first(&["2001:db8::1", "129.13.1.2"]).as_deref(), Some("129.13.1.2"));
    // IPv6 only, or nothing at all
    assert_eq!(first(&["2001:db8::1", "::ffff:1.2.3.4"]), None);
    assert_eq!(first(&[]), None);
}

#[test]
fn servers_of_an_openvpn_file() {
    let ovpn = "remote a.example\nremote 10.0.0.1 443\nremote b.example\nremote ::1\nremote c.example\n";
    let mut scan = remote_v4_ips(ovpn);
    let mut asked: Vec<String> = Vec::new();
    while let Some(lookup) = scan.next() {
        let ip = match lookup {
            HostLookup::Known(ip) => Some(ip),
            HostLookup::Nothing => None,
            HostLookup::Ask(name) => {
                asked.push(name.clone());
                match name.as_str() {
                    "a.example" => Some("10.0.0.1".to_string()),
                    "b.example" => Some("10.0.0.2".to_string()),
                    _ => None,
                }
            }
        };
        scan.record(ip);
    }
    assert_eq!(asked, vec!["a.example", "b.example", "c.example"]);
    assert_eq!(scan.ips(), vec!["10.0.0.1", "10.0.0.2"]);
}

#[test]
fn rules_are_added_and_removed() {
    let ips = vec!["10.0.0.1".to_string(), "10.0.0.2".to_string()];
    let added = add_direct_rules(&ips);
    let removed = remove_direct_rules(&ips);
    assert_eq!(added.len(), 2);
    assert_eq!(removed.len(), 2);
    assert_eq!(added[1].args.join(" "), "rule add pref 5000 to 10.0.0.2/32 lookup main");
    assert_eq!(removed[1].args.join(" "), "rule del pref 5000 to 10.0.0.2/32 lookup main");
    assert!(add_direct_rules(&Vec::new()).is_empty());
}

#[test]
fn ports_are_tried_upward() {
    let mut scan = bind_free_port(1080);
    assert_eq!(scan.next(), Some(1080));
    scan.answer(false);
    assert_eq!(scan.next(), Some(1081));
    scan.answer(true);
    assert_eq!(scan.next(), None);
    assert_eq!(scan.found(), Some(1081));
}

#[test]
fn ports_can_run_out() {
    let mut scan = bind_free_port(1080);
    let mut tried: Vec<u16> = Vec::new();
    while let Some(port) = scan.next() {
        tried.push(port);
        scan.answer(false);
    }
    assert_eq!(tried.len(), 20);
    assert_eq!(tried[19], 1099);
    assert_eq!(scan.found(), None);
    // the wanted port itself is always tried
    let mut last = bind_free_port(65535);
    assert_eq!(last.next(), Some(65535));
    last.answer(false);
    assert_eq!(last.next(), None);
    // near the end of the range all ports that are left are tried
    let mut near = bind_free_port(65530);
    let mut ports: Vec<u16> = Vec::new();
    while let Some(port) = near.next() {
        ports.push(port);
        near.answer(false);
    }
    assert_eq!(ports, vec![65530, 65531, 65532, 65533, 65534, 65535]);
}

#[test]
fn addresses_with_ports() {
    assert_eq!(address("127.0.0.1", 1080), "127.0.0.1:1080");
}
