//! DNS queries and responses.
use kit_vpn_companion::dns::{build_query, parse_response, resolve_a, skip_name, Answer};
use kit_vpn_companion::ipv4::Ipv4Addr;

fn response_to(q: &[u8], ip: [u8; 4]) -> Vec<u8> {
    let mut r = q.to_vec();
    r[2..4].copy_from_slice(&[0x81, 0x80]); // QR + RD + RA
    r[6..8].copy_from_slice(&[0, 1]); // ANCOUNT=1
    r.extend_from_slice(&[0xC0, 0x0C]);
    r.extend_from_slice(&[0, 1, 0, 1, 0, 0, 0, 60, 0, 4]);
    r.extend_from_slice(&ip);
    r
}

#[test]
fn query_builds_and_parses_roundtrip() {
    let q = build_query("www.kit.edu", Some(123_456_789)).unwrap();
    // craft a response by echoing the question + one A record
    let mut r = q.clone();
    r[2..4].copy_from_slice(&[0x81, 0x80]); // QR + RD + RA
    r[6..8].copy_from_slice(&[0, 1]); // ANCOUNT=1
    // answer: pointer to question name at offset 12, A record
    let mut ans = Vec::new();
    ans.extend_from_slice(&[0xC0, 0x0C]);
    ans.extend_from_slice(&[0, 1, 0, 1, 0, 0, 0, 60, 0, 4]);
    ans.extend_from_slice(&[129, 13, 10, 90]);
    r.extend_from_slice(&ans);
    assert_eq!(parse_response(&r, &q), Some(Ipv4Addr::new(129, 13, 10, 90)));
}

#[test]
fn query_bytes() {
    // 123456789 is 0x075BCD15
    let q = build_query("a.bc", Some(123_456_789)).unwrap();
    let expected: Vec<u8> = vec![
        0xCD, 0x15, 1, 0, 0, 1, 0, 0, 0, 0, 0, 0, 1, b'a', 2, b'b', b'c', 0, 0, 1, 0, 1,
    ];
    assert_eq!(q, expected);
}

#[test]
fn names_without_a_query() {
    assert!(build_query("", Some(0)).is_none());
    assert!(build_query("a..b", Some(0)).is_none());
    assert!(build_query("a.", Some(0)).is_none());
    assert!(build_query(&"x".repeat(64), Some(0)).is_none());
    assert!(build_query(&"x".repeat(63), Some(0)).is_some());
    // the length of a label counts bytes, not characters
    assert!(build_query(&"ü".repeat(32), Some(0)).is_none());
    assert!(build_query(&"ü".repeat(31), Some(0)).is_some());
    // no clock, no query
    assert!(build_query("a", None).is_none());
}

#[test]
fn names_are_skipped() {
    assert_eq!(skip_name(&[0], 0), Some(1));
    assert_eq!(skip_name(&[1, b'a', 0], 0), Some(3));
    assert_eq!(skip_name(&[1, b'a', 0xC0, 4], 0), Some(4));
    assert_eq!(skip_name(&[1, b'a'], 0), None);
    assert_eq!(skip_name(&[], 0), None);
    assert_eq!(skip_name(&[0], 7), None);
}

#[test]
fn other_messages_give_no_address() {
    let q = build_query("a", Some(7)).unwrap();
    let good = response_to(&q, [1, 2, 3, 4]);
    assert_eq!(parse_response(&good, &q), Some(Ipv4Addr::new(1, 2, 3, 4)));
    assert_eq!(parse_response(&q, &q), None); // a query is no response
    assert_eq!(parse_response(&good[..11], &q), None); // too short
    let mut other_id = good.clone();
    other_id[0] ^= 1;
    assert_eq!(parse_response(&other_id, &q), None);
    let mut refused = good.clone();
    refused[3] = 0x85;
    assert_eq!(parse_response(&refused, &q), None);
    let mut no_answer = good.clone();
    no_answer[7] = 0;
    assert_eq!(parse_response(&no_answer, &q), None);
    let mut no_question = good.clone();
    no_question[5] = 0;
    assert_eq!(parse_response(&no_question, &q), None);
    assert_eq!(parse_response(&good[..good.len() - 1], &q), None); // cut off
}

#[test]
fn first_address_record_counts() {
    let q = build_query("a", Some(7)).unwrap();
    let mut r = q.clone();
    r[2..4].copy_from_slice(&[0x81, 0x80]);
    r[6..8].copy_from_slice(&[0, 3]);
    // a CNAME record of three bytes, then two addresses
    r.extend_from_slice(&[0xC0, 0x0C, 0, 5, 0, 1, 0, 0, 0, 60, 0, 3, 1, b'b', 0]);
    r.extend_from_slice(&[0xC0, 0x0C, 0, 1, 0, 1, 0, 0, 0, 60, 0, 4, 10, 0, 0, 1]);
    r.extend_from_slice(&[0xC0, 0x0C, 0, 1, 0, 1, 0, 0, 0, 60, 0, 4, 10, 0, 0, 2]);
    assert_eq!(parse_response(&r, &q), Some(Ipv4Addr::new(10, 0, 0, 1)));
}

#[test]
fn servers_are_asked_in_order() {
    let servers = vec!["10.0.0.1".to_string(), "10.0.0.2".to_string(), "10.0.0.3".to_string()];
    let mut lookup = resolve_a("www.kit.edu", &servers, Some(1)).unwrap();
    assert_eq!(lookup.ask().as_deref(), Some("10.0.0.1:53"));
    lookup.answer(Answer::Nothing);
    assert_eq!(lookup.ask().as_deref(), Some("10.0.0.2:53"));
    lookup.answer(Answer::Message(vec![1, 2, 3]));
    assert_eq!(lookup.ask().as_deref(), Some("10.0.0.3:53"));
    let reply = response_to(lookup.query(), [9, 8, 7, 6]);
    lookup.answer(Answer::Message(reply));
    assert_eq!(lookup.ask(), None);
    assert_eq!(lookup.found(), Some(Ipv4Addr::new(9, 8, 7, 6)));
}

#[test]
fn a_lookup_can_find_nothing() {
    assert!(resolve_a("www.kit.edu", &Vec::new(), Some(1)).is_none());
    assert!(resolve_a("bad..name", &vec!["10.0.0.1".to_string()], Some(1)).is_none());
    let mut lookup = resolve_a("a", &vec!["10.0.0.1".to_string()], Some(1)).unwrap();
    lookup.answer(Answer::Nothing);
    assert_eq!(lookup.ask(), None);
    assert_eq!(lookup.found(), None);
}
