//! Picking a subnet for the veth pair.
use kit_vpn_companion::subnet::{host_ip_in_use, host_ip_query, pick_subnet};

/// Picks a subnet where every probe says the same.
fn pick(configured: &str, in_use: bool) -> Result<(String, String, u8), String> {
    let mut scan = pick_subnet(configured)?;
    while scan.probe().is_some() {
        scan.answer(in_use);
    }
    scan.choice()
}

#[test]
fn subnet_parse() {
    let (host, ns, prefix) = pick("10.200.200.0/30", false).unwrap();
    assert_eq!(prefix, 30);
    // host and ns must be consecutive addresses in the same /30
    let h: Vec<u8> = host.split('.').map(|o| o.parse().unwrap()).collect();
    let n: Vec<u8> = ns.split('.').map(|o| o.parse().unwrap()).collect();
    assert_eq!(h[0..3], n[0..3]);
    assert_eq!(h[3] + 1, n[3]);
}

#[test]
fn configured_subnet_comes_first() {
    let picked = pick("192.168.7.4/30", false).unwrap();
    assert_eq!(picked, ("192.168.7.5".to_string(), "192.168.7.6".to_string(), 30));
}

#[test]
fn the_subnet_is_the_one_around_the_address() {
    for text in ["10.0.0.0/30", "10.0.0.1/30", "10.0.0.2/30", "10.0.0.3/30", "10.0.0.2/31", "10.0.0.3/255"] {
        let picked = pick(text, false).unwrap();
        assert_eq!(picked, ("10.0.0.1".to_string(), "10.0.0.2".to_string(), 30), "{}", text);
    }
    for text in ["10.0.0.252/30", "10.0.0.253/30", "10.0.0.254/30", "10.0.0.255/32"] {
        let picked = pick(text, false).unwrap();
        assert_eq!(picked, ("10.0.0.253".to_string(), "10.0.0.254".to_string(), 30), "{}", text);
    }
}

#[test]
fn fallback_subnets_in_order() {
    let mut scan = pick_subnet("192.168.7.4/30").unwrap();
    let mut probes: Vec<String> = Vec::new();
    while let Some(probe) = scan.probe() {
        probes.push(probe.to_text());
        scan.answer(true);
    }
    assert_eq!(probes.len(), 257);
    assert_eq!(probes[0], "192.168.7.5");
    assert_eq!(probes[1], "10.200.200.1");
    assert_eq!(probes[56], "10.200.255.1");
    assert_eq!(probes[57], "10.200.0.1");
    assert_eq!(probes[256], "10.200.199.1");
    assert_eq!(scan.choice().unwrap_err(), "no free subnet found (10.200.0.0/16 busy?)");
}

#[test]
fn first_free_subnet_wins() {
    let mut scan = pick_subnet("10.0.0.0/30").unwrap();
    scan.answer(true);
    scan.answer(true);
    scan.answer(false);
    assert_eq!(scan.probe(), None);
    let expected = ("10.200.201.1".to_string(), "10.200.201.2".to_string(), 30);
    assert_eq!(scan.choice().unwrap(), expected);
}

#[test]
fn bad_subnets() {
    let error = |configured: &str| pick(configured, false).unwrap_err();
    assert_eq!(error("10.0.0.0"), "subnet must be a.b.c.d/30");
    assert_eq!(error("10.0.0.0/x"), "bad subnet prefix in 10.0.0.0/x");
    assert_eq!(error("10.0.0.0/256"), "bad subnet prefix in 10.0.0.0/256");
    assert_eq!(error("10.0.0.0/30/1"), "bad subnet prefix in 10.0.0.0/30/1");
    assert_eq!(error("10.0.0.0/29"), "subnet prefix must be >= 30 (got 29)");
    assert_eq!(error("10.0.0/30"), "bad subnet 10.0.0/30");
    assert_eq!(error("10.0.0.0.0/30"), "bad subnet 10.0.0.0.0/30");
    assert_eq!(error("10.0.256.0/30"), "bad subnet 10.0.256.0/30");
    // the prefix is looked at before the address
    assert_eq!(error("x/29"), "subnet prefix must be >= 30 (got 29)");
}

#[test]
fn addresses_in_use() {
    let query = host_ip_query("10.0.0.1");
    assert_eq!(query.args, vec!["-4", "addr", "show", "to", "10.0.0.1/32"]);
    assert!(host_ip_in_use(&Ok("2: eth0 inet 10.0.0.1/24".to_string())));
    assert!(!host_ip_in_use(&Ok(" \n".to_string())));
    assert!(host_ip_in_use(&Err("no ip".to_string())));
}
