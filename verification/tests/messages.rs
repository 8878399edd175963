//! Native Messaging and the published status.
use kit_vpn_companion::command::Ran;
use kit_vpn_companion::json::{quote, quote_or_null};
use kit_vpn_companion::nm::{
    current_status, error_status, handle, helper_invocation, helper_status, json_reply, log_path,
    read_failed, read_message, request_for, run_helper, write_message, Incoming, Operation, Request,
    MAX_MESSAGE,
};
use kit_vpn_companion::status::{write_atomic, write_status, Stamp, Status};

fn stamp() -> Stamp {
    Stamp { pid: 42, now: 1_700_000_000 }
}

#[test]
fn json_texts_are_those_of_serde_json() {
    let mut code: u32 = 0;
    while code < 0x2100 {
        if let Some(c) = char::from_u32(code) {
            let text = format!("a{}b", c);
            assert_eq!(quote(&text), serde_json::to_string(&text).unwrap());
        }
        code += 1;
    }
    for text in ["", "\"\\\u{8}\u{c}\n\r\t\u{1f}\u{7f}/", "grün — 😀"] {
        assert_eq!(quote(text), serde_json::to_string(text).unwrap());
    }
    assert_eq!(quote_or_null(&None), "null");
    assert_eq!(quote_or_null(&Some("x".to_string())), "\"x\"");
}

#[test]
fn status_as_json() {
    let status = Status::new("running", "tunnel up", 1080, stamp());
    assert_eq!(
        status.json(),
        "{\"state\":\"running\",\"detail\":\"tunnel up\",\"socks_port\":1080,\"pid\":42,\"since\":1700000000,\"error\":null}"
    );
    let failed = Status::failure("no \"x\"", "why", 7, stamp());
    let value: serde_json::Value = serde_json::from_str(&failed.json()).unwrap();
    assert_eq!(value["state"], "error");
    assert_eq!(value["detail"], "no \"x\"");
    assert_eq!(value["error"], "why");
    assert_eq!(value["socks_port"], 7);
}

#[test]
fn statuses_are_told_apart() {
    let status = || Status::new("a\",\"detail\":\"b", "c", 1, stamp());
    let mut others: Vec<Status> = (0..6).map(|_| status()).collect();
    others[0].state = "a".to_string();
    others[1].detail = String::new();
    others[2].socks_port = 10;
    others[3].pid = 420;
    others[4].since = 17;
    others[5].error = Some("null".to_string());
    for other in others {
        assert_ne!(other.json(), status().json());
        assert_ne!(json_reply(&other), json_reply(&status()));
    }
}

#[test]
fn healthy_states() {
    for (state, healthy) in [
        ("running", true),
        ("starting", true),
        ("reconnecting", true),
        ("stopped", false),
        ("error", false),
        ("", false),
    ] {
        assert_eq!(Status::new(state, "", 0, stamp()).is_healthy(), healthy);
    }
}

#[test]
fn files_are_replaced_in_one_step() {
    let write = write_atomic("/a/b", "text");
    assert_eq!(write.temp, "/a/b.tmp");
    assert_eq!(write.path, "/a/b");
    assert_eq!(write.content, "text");
    let status = Status::new("stopped", "", 0, stamp());
    let write = write_status(&status);
    assert_eq!(write.path, "/run/kit-vpn/status.json");
    assert_eq!(write.content, status.json());
}

#[test]
fn replies_have_a_type() {
    let status = Status::failure("d", "e", 1080, stamp());
    assert_eq!(
        String::from_utf8(json_reply(&status)).unwrap(),
        "{\"detail\":\"d\",\"error\":\"e\",\"pid\":42,\"since\":1700000000,\"socks_port\":1080,\"state\":\"error\",\"type\":\"status\"}"
    );
    // the same as the status as a JSON value with one member more
    let mut value: serde_json::Value = serde_json::from_str(&status.json()).unwrap();
    value["type"] = serde_json::Value::String("status".to_string());
    assert_eq!(json_reply(&status), serde_json::to_vec(&value).unwrap());
}

#[test]
fn messages_are_framed() {
    let sent = write_message(&b"{\"type\":\"status\"}".to_vec());
    assert_eq!(&sent[..4], &[17, 0, 0, 0]);
    assert!(matches!(read_message(&sent), Incoming::Message(p) if p == b"{\"type\":\"status\"}"));
    let long = vec![7u8; 70_000];
    let sent = write_message(&long);
    assert_eq!(&sent[..4], &[0x70, 0x11, 1, 0]);
    assert!(matches!(read_message(&sent), Incoming::Message(p) if p == long));
}

#[test]
fn messages_arrive_in_pieces() {
    let sent = write_message(&b"abc".to_vec());
    let mut got: Vec<u8> = Vec::new();
    let mut wanted: Vec<usize> = Vec::new();
    while got.len() < sent.len() {
        match read_message(&got) {
            Incoming::More(n) => wanted.push(n),
            _ => panic!("the message is not complete"),
        }
        got.push(sent[got.len()]);
    }
    assert_eq!(wanted, vec![4, 3, 2, 1, 3, 2, 1]);
    assert!(matches!(read_message(&got), Incoming::Message(p) if p == b"abc"));
}

#[test]
fn messages_that_are_refused() {
    assert!(matches!(read_message(&vec![0, 0, 0, 0]), Incoming::End));
    assert_eq!(MAX_MESSAGE, 4 * 1024 * 1024);
    assert!(matches!(read_message(&vec![0, 0, 64, 0]), Incoming::More(4194304)));
    match read_message(&vec![1, 0, 64, 0]) {
        Incoming::Fault(e) => assert_eq!(e, "message too large: 4194305 bytes"),
        _ => panic!("too long"),
    }
    match read_message(&vec![255, 255, 255, 255]) {
        Incoming::Fault(e) => assert_eq!(e, "message too large: 4294967295 bytes"),
        _ => panic!("too long"),
    }
}

fn fault(incoming: Incoming) -> String {
    match incoming {
        Incoming::Fault(e) => e,
        _ => panic!("no fault"),
    }
}

#[test]
fn input_that_ends() {
    assert!(matches!(read_failed(&Vec::new(), None), Incoming::End));
    assert_eq!(fault(read_failed(&vec![1], None)), "EOF mid-header");
    assert_eq!(fault(read_failed(&vec![1], Some("bad".to_string()))), "read: bad");
    assert_eq!(fault(read_failed(&Vec::new(), Some("bad".to_string()))), "read: bad");
    let payload = vec![9, 0, 0, 0, 1];
    assert_eq!(
        fault(read_failed(&payload, None)),
        "read payload: failed to fill whole buffer"
    );
    assert_eq!(fault(read_failed(&payload, Some("bad".to_string()))), "read payload: bad");
}

fn detail(request: Request) -> String {
    match request {
        Request::Refuse(status) => {
            assert_eq!(status.state, "error");
            assert_eq!(status.error.as_deref(), Some(status.detail.as_str()));
            status.detail
        }
        _ => panic!("not refused"),
    }
}

#[test]
fn requests_of_the_extension() {
    let ask = |text: &str| handle(&text.as_bytes().to_vec(), stamp());
    assert!(matches!(ask("{\"type\":\"status\"}"), Request::Status));
    assert!(matches!(ask("{\"type\":\"enable\"}"), Request::Helper(Operation::Enable)));
    assert!(matches!(
        ask(" { \"path\": \"/etc\", \"type\": \"disable\" } "),
        Request::Helper(Operation::Disable)
    ));
    assert_eq!(detail(ask("{\"type\":\"run\"}")), "unknown message type: run");
    assert_eq!(detail(ask("{}")), "unknown message type: ");
    assert_eq!(detail(ask("{\"type\":5}")), "unknown message type: ");
    assert_eq!(detail(ask("[\"type\"]")), "unknown message type: ");
    let reason = serde_json::from_str::<serde_json::Value>("{").unwrap_err().to_string();
    assert_eq!(detail(ask("{")), format!("invalid JSON: {}", reason));
    assert!(detail(handle(&vec![0xff], stamp())).starts_with("invalid JSON: "));
}

#[test]
fn requests_by_their_type() {
    assert!(matches!(request_for(Ok(Some("status".to_string())), stamp()), Request::Status));
    assert_eq!(detail(request_for(Ok(None), stamp())), "unknown message type: ");
    assert_eq!(detail(request_for(Err("x".to_string()), stamp())), "invalid JSON: x");
}

#[test]
fn statuses_to_report() {
    let running = Status::new("running", "tunnel up", 1080, stamp());
    assert_eq!(current_status(Some(running.copy()), stamp()).json(), running.json());
    let none = current_status(None, stamp());
    assert_eq!((none.state.as_str(), none.detail.as_str()), ("stopped", "tunnel not running"));
    assert_eq!(helper_status(Ok(Some(running.copy())), stamp()).json(), running.json());
    assert_eq!(
        helper_status(Ok(None), stamp()).detail,
        "companion returned an invalid response"
    );
    assert_eq!(helper_status(Err("e".to_string()), stamp()).json(), error_status("e", stamp()).json());
}

#[test]
fn how_the_helper_is_run() {
    let root = helper_invocation("/x/companion", true, None, Operation::Enable);
    assert_eq!(root.program, "/x/companion");
    assert_eq!(root.args, vec!["helper", "enable"]);
    let user = helper_invocation("/x/companion", false, None, Operation::Disable);
    assert_eq!(user.program, "sudo");
    assert_eq!(user.args, vec!["-n", "/x/companion", "helper", "disable"]);
    let sudo = Some("/usr/bin/sudo".to_string());
    assert_eq!(helper_invocation("/x", false, sudo, Operation::Enable).program, "/usr/bin/sudo");
}

fn helper_ran(success: bool, stdout: &str, stderr: &str) -> Result<String, String> {
    run_helper(Ran::Finished {
        success,
        status: "exit status: 1".to_string(),
        stdout: stdout.as_bytes().to_vec(),
        stderr: stderr.as_bytes().to_vec(),
    })
}

#[test]
fn what_the_helper_came_to() {
    assert_eq!(helper_ran(true, "{}\n", "password"), Ok("{}\n".to_string()));
    let sudo = "passwordless sudo is not configured for the KIT VPN helper — re-run scripts/install.sh (it grants the helper NOPASSWD access)";
    assert_eq!(helper_ran(false, "", "sudo: a password is required\n"), Err(sudo.to_string()));
    assert_eq!(helper_ran(false, "", "user is not allowed to"), Err(sudo.to_string()));
    assert_eq!(helper_ran(false, "out", " oops \n"), Err("helper failed: oops".to_string()));
    assert_eq!(helper_ran(false, " out \n", " "), Err("helper failed: out".to_string()));
    assert_eq!(helper_ran(false, "", ""), Err("helper exited with exit status: 1".to_string()));
    assert_eq!(
        run_helper(Ran::NotStarted("gone".to_string())),
        Err("failed to run privileged helper: gone".to_string())
    );
}

#[test]
fn where_the_log_goes() {
    assert_eq!(log_path(Some("/home/u".to_string())), "/home/u/.cache/kit-vpn/nm.log");
    assert_eq!(log_path(None), "/tmp/kit-vpn-nm.log");
}
