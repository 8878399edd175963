//! Sessions of the SOCKS5 server.
use kit_vpn_companion::ipv4::Ipv4Addr;
use kit_vpn_companion::socks5::{reply, Action, Event, Session};

/// A session whose client has been greeted and sent the head of a request.
fn requested(head: [u8; 4]) -> (Session, Vec<u8>, Action) {
    let mut session = Session::new();
    assert_eq!(session.wanted(), 2);
    let (sent, action) = session.handle(Event::Bytes(vec![5, 2]));
    assert!(sent.is_empty());
    assert!(matches!(action, Action::Read(2)));
    let (sent, action) = session.handle(Event::Bytes(vec![2, 0]));
    assert_eq!(sent, vec![5, 0]);
    assert!(matches!(action, Action::Read(4)));
    let (sent, action) = session.handle(Event::Bytes(head.to_vec()));
    (session, sent, action)
}

#[test]
fn connecting_to_an_address() {
    let (mut session, sent, action) = requested([5, 1, 0, 1]);
    assert!(sent.is_empty());
    assert!(matches!(action, Action::Read(4)));
    let (_, action) = session.handle(Event::Bytes(vec![10, 1, 2, 3]));
    assert!(matches!(action, Action::Read(2)));
    let (_, action) = session.handle(Event::Bytes(vec![0x01, 0xBB]));
    assert!(matches!(action, Action::Connect(ip, 443) if ip == Ipv4Addr::new(10, 1, 2, 3)));
    let (sent, action) = session.handle(Event::Connected);
    assert_eq!(sent, vec![5, 0, 0, 1, 0, 0, 0, 0, 0, 0]);
    assert!(matches!(action, Action::Relay));
}

/// A session that looks up `name` for port 80.
fn resolving(name: &[u8]) -> (Session, String) {
    let (mut session, _, action) = requested([5, 1, 0, 3]);
    assert!(matches!(action, Action::Read(1)));
    let (_, action) = session.handle(Event::Bytes(vec![name.len() as u8]));
    assert!(matches!(action, Action::Read(n) if n == name.len()));
    let (_, action) = session.handle(Event::Bytes(name.to_vec()));
    assert!(matches!(action, Action::Read(2)));
    let (_, action) = session.handle(Event::Bytes(vec![0, 80]));
    match action {
        Action::Resolve(name) => (session, name),
        _ => panic!("a name has to be resolved"),
    }
}

#[test]
fn connecting_to_a_name() {
    let (mut session, name) = resolving(b"www.kit.edu");
    assert_eq!(name, "www.kit.edu");
    let (_, action) = session.handle(Event::Resolved(Some(Ipv4Addr::new(129, 13, 1, 1))));
    assert!(matches!(action, Action::Connect(ip, 80) if ip == Ipv4Addr::new(129, 13, 1, 1)));
}

#[test]
fn names_that_are_no_text() {
    assert_eq!(resolving(&[b'a', 0xff]).1, "a\u{fffd}");
    assert_eq!(resolving("grün".as_bytes()).1, "grün");
    assert_eq!(resolving(b"").1, "");
}

#[test]
fn unknown_names_are_reported() {
    let (mut session, _) = resolving(b"nowhere");
    let (sent, action) = session.handle(Event::Resolved(None));
    assert_eq!(sent, reply(4));
    assert!(matches!(action, Action::Close));
}

#[test]
fn failed_connections_are_reported() {
    for (event, code) in [(Event::Refused, 5u8), (Event::Unreachable, 3), (Event::Failed, 1)] {
        let (mut session, _, _) = requested([5, 1, 0, 1]);
        let _ = session.handle(Event::Bytes(vec![10, 1, 2, 3]));
        let _ = session.handle(Event::Bytes(vec![0, 80]));
        let (sent, action) = session.handle(event);
        assert_eq!(sent, reply(code));
        assert!(matches!(action, Action::Close));
    }
}

#[test]
fn refused_requests() {
    // a command that is not CONNECT
    let (_, sent, action) = requested([5, 2, 0, 1]);
    assert_eq!(sent, reply(7));
    assert!(matches!(action, Action::Close));
    // addresses that are not supported
    for kind in [4u8, 0, 2, 9] {
        let (_, sent, action) = requested([5, 1, 0, kind]);
        assert_eq!(sent, reply(8));
        assert!(matches!(action, Action::Close));
    }
    // another version
    let (_, sent, action) = requested([4, 1, 0, 1]);
    assert!(sent.is_empty());
    assert!(matches!(action, Action::Close));
}

#[test]
fn refused_greetings() {
    let mut session = Session::new();
    let (sent, action) = session.handle(Event::Bytes(vec![4, 1]));
    assert!(sent.is_empty());
    assert!(matches!(action, Action::Close));
    // no method without authentication
    let mut session = Session::new();
    let _ = session.handle(Event::Bytes(vec![5, 1]));
    let (sent, action) = session.handle(Event::Bytes(vec![2]));
    assert_eq!(sent, vec![5, 0xFF]);
    assert!(matches!(action, Action::Close));
    // no method at all
    let mut session = Session::new();
    let (_, action) = session.handle(Event::Bytes(vec![5, 0]));
    assert!(matches!(action, Action::Read(0)));
    let (sent, _) = session.handle(Event::Bytes(vec![]));
    assert_eq!(sent, vec![5, 0xFF]);
}

#[test]
fn a_client_that_leaves_closes_the_session() {
    let (mut session, _, _) = requested([5, 1, 0, 1]);
    let (sent, action) = session.handle(Event::Ended);
    assert!(sent.is_empty());
    assert!(matches!(action, Action::Close));
    let (sent, action) = session.handle(Event::Connected);
    assert!(sent.is_empty());
    assert!(matches!(action, Action::Close));
}
