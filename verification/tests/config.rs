//! Configuration files and OpenVPN files.
use kit_vpn_companion::config::{
    config_from, default_dns, load, parse_dhcp_dns, parse_remotes, read_config, Config,
    DEFAULT_OVPN_PATH, DEFAULT_SUBNET,
};
use kit_vpn_companion::toml_file::Entry;

#[test]
fn parses_remotes() {
    let ovpn = "\
client
dev tun
remote vpn.scc.kit.edu 1194 udp
<connection>
remote vpn2.scc.kit.edu 443 tcp
</connection>
remote-random
";
    let r = parse_remotes(ovpn);
    assert_eq!(r.len(), 2);
    assert_eq!(r[0], ("vpn.scc.kit.edu".to_string(), 1194));
    assert_eq!(r[1], ("vpn2.scc.kit.edu".to_string(), 443));
}

#[test]
fn parses_dhcp_dns() {
    let ovpn = "dhcp-option DNS 129.13.10.90\ndhcp-option DNS 129.13.10.91\n";
    assert_eq!(parse_dhcp_dns(ovpn), vec!["129.13.10.90", "129.13.10.91"]);
}

#[test]
fn default_dns_fallback() {
    let ovpn = "client\n";
    assert!(parse_dhcp_dns(ovpn).is_empty());
}

#[test]
fn remotes_with_odd_parts() {
    // a comment instead of a host, no host, a port that is none, a tab
    let ovpn = "remote #vpn 1\nremote \n  remote a.example  x udp\r\nremote\tb.example 5\nremote c.example";
    let expected = vec![("a.example".to_string(), 1194), ("c.example".to_string(), 1194)];
    assert_eq!(parse_remotes(ovpn), expected);
    assert_eq!(parse_remotes("remote h 65535"), vec![("h".to_string(), 65535)]);
    assert_eq!(parse_remotes("remote h 65536"), vec![("h".to_string(), 1194)]);
    assert_eq!(parse_remotes("remote h +7"), vec![("h".to_string(), 7)]);
    assert!(parse_remotes("").is_empty());
}

#[test]
fn dhcp_options_with_odd_parts() {
    assert_eq!(parse_dhcp_dns("  dhcp-option \t DNS   1.2.3.4 extra\r\n"), vec!["1.2.3.4"]);
    assert!(parse_dhcp_dns("dhcp-option DNS\ndhcp-option dns 1.2.3.4\nxdhcp-option DNS 1.2.3.4").is_empty());
}

#[test]
fn configuration_defaults() {
    let defaults = vec!["141.3.175.71", "129.13.10.90", "129.13.10.91"];
    assert_eq!(default_dns(), defaults);
    let given = Config::default();
    assert_eq!(given.ovpn_path.as_deref(), Some(DEFAULT_OVPN_PATH));
    assert_eq!(given.socks_port, Some(1080));
    assert_eq!(given.subnet.as_deref(), Some(DEFAULT_SUBNET));
    assert_eq!(given.auth_user_pass, None);
    let nothing = Config {
        ovpn_path: None,
        socks_port: None,
        dns_servers: None,
        subnet: None,
        auth_user_pass: None,
    };
    assert_eq!(nothing.dns(), defaults);
    assert_eq!(nothing.socks_port(), 1080);
    assert_eq!(nothing.ovpn(), "/etc/kit-vpn/kit.ovpn");
    assert_eq!(nothing.subnet_text(), "10.200.200.0/30");
}

#[test]
fn configured_values_win() {
    let cfg = Config {
        ovpn_path: Some("/tmp/a.ovpn".to_string()),
        socks_port: Some(9),
        dns_servers: Some(vec!["9.9.9.9".to_string()]),
        subnet: Some("10.1.1.0/30".to_string()),
        auth_user_pass: Some("/tmp/auth".to_string()),
    };
    let copy = cfg.copy();
    assert_eq!(copy.dns(), vec!["9.9.9.9"]);
    assert_eq!(copy.socks_port(), 9);
    assert_eq!(copy.ovpn(), "/tmp/a.ovpn");
    assert_eq!(copy.subnet_text(), "10.1.1.0/30");
    assert_eq!(copy.auth_user_pass.as_deref(), Some("/tmp/auth"));
}

#[test]
fn loading_a_configuration() {
    let unreadable = load(Err("no such file".to_string()));
    assert_eq!(unreadable.unwrap_err(), "cannot read /etc/kit-vpn/config.toml: no such file");
    let broken = "socks_port = ";
    let reason = broken.parse::<toml::Table>().unwrap_err().to_string();
    assert_eq!(
        load(Ok(broken.to_string())).unwrap_err(),
        format!("invalid /etc/kit-vpn/config.toml: {}", reason)
    );
    assert_eq!(
        load(Ok("subnet = 3".to_string())).unwrap_err(),
        "invalid /etc/kit-vpn/config.toml: subnet: expected a string"
    );
    // what is missing is as by default, and what is not known is ignored
    let cfg = load(Ok("socks_port = 9\ncolour = 'red'\n[more]\nsubnet = 1".to_string())).unwrap();
    assert_eq!(cfg.socks_port, Some(9));
    assert_eq!(cfg.ovpn_path.as_deref(), Some("/etc/kit-vpn/kit.ovpn"));
    assert_eq!(cfg.subnet.as_deref(), Some("10.200.200.0/30"));
    assert_eq!(cfg.dns_servers, Some(default_dns()));
    assert_eq!(cfg.auth_user_pass, None);
}

#[test]
fn a_configuration_by_hand() {
    let text = "ovpn_path      = \"/etc/kit-vpn/kit.ovpn\"\n\
                socks_port     = 1080              # 127.0.0.1 port\n\
                dns_servers    = [\"129.13.10.90\", '129.13.10.91', ]   # tunnel DNS\n\
                subnet         = \"10.\\u0032.0.0/30\"\n\
                auth_user_pass = \"/etc/kit-vpn/auth.txt\"\n";
    let cfg = read_config(text).unwrap();
    assert_eq!(cfg.ovpn(), "/etc/kit-vpn/kit.ovpn");
    assert_eq!(cfg.dns(), vec!["129.13.10.90", "129.13.10.91"]);
    assert_eq!(cfg.subnet_text(), "10.2.0.0/30");
    assert_eq!(cfg.auth_user_pass.as_deref(), Some("/etc/kit-vpn/auth.txt"));
    assert!(read_config("dns_servers = []").unwrap().dns().is_empty());
}

#[test]
fn values_of_another_kind() {
    let error = |text: &str| read_config(text).unwrap_err();
    assert_eq!(error("ovpn_path = 1979-05-27"), "ovpn_path: expected a string");
    assert_eq!(error("auth_user_pass = [\"a\"]"), "auth_user_pass: expected a string");
    for text in ["socks_port = 65536", "socks_port = -1", "socks_port = 1.0", "socks_port = \"1\""] {
        assert_eq!(error(text), "socks_port: expected a port");
    }
    for text in ["dns_servers = \"a\"", "dns_servers = [\"a\", 1]", "[[dns_servers]]\nx = 1"] {
        assert_eq!(error(text), "dns_servers: expected strings");
    }
    assert_eq!(read_config("socks_port = 65535").unwrap().socks_port, Some(65535));
    assert_eq!(read_config("socks_port = 0").unwrap().socks_port, Some(0));
}

#[test]
fn a_configuration_from_its_values() {
    let text = |t: &str| Ok(Some(Entry::Text(t.to_string())));
    let cfg = config_from(
        text("/o"),
        Ok(Some(Entry::Integer(7))),
        Ok(Some(Entry::List(vec![Some("d".to_string())]))),
        Ok(None),
        text("/a"),
    )
    .unwrap();
    assert_eq!(cfg.ovpn_path.as_deref(), Some("/o"));
    assert_eq!(cfg.socks_port, Some(7));
    assert_eq!(cfg.dns_servers, Some(vec!["d".to_string()]));
    assert_eq!(cfg.subnet.as_deref(), Some("10.200.200.0/30"));
    assert_eq!(cfg.auth_user_pass.as_deref(), Some("/a"));
    let broken = config_from(Ok(None), Err("x".to_string()), Ok(Some(Entry::Other)), Ok(None), Ok(None));
    assert_eq!(broken.unwrap_err(), "x");
    let mixed = Ok(Some(Entry::List(vec![Some("d".to_string()), None])));
    let e = config_from(Ok(None), Ok(None), mixed, Ok(None), Ok(None)).unwrap_err();
    assert_eq!(e, "dns_servers: expected strings");
}
