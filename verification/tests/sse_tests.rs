use rmcp_proxy::config::AuthConfig;
use rmcp_proxy::outside::{HeaderError, SendOutcome};
use rmcp_proxy::sse_client::{
    check_message, check_outcome, event_line, message_request, messages_in, read_messages,
    run_sse_client, SseClientConfig, SseEvent, SseStep, SseWriter, WriteError,
    SSE_WRITE_CHANNEL_CAPACITY,
};
use rmcp_proxy::sse_server::{
    run_sse_server, ServerEvent, ServerStep, SseServerSettings, StdioServerParameters, POST_PATH,
    SSE_PATH,
};
use std::time::Duration;
use tokio::sync::mpsc;

fn tokens(access: Option<&str>) -> AuthConfig {
    AuthConfig {
        server_url: "u".to_string(),
        access_token: access.map(|t| t.to_string()),
        refresh_token: None,
        expires_at: None,
        auth_state: None,
        session_id: "sid".to_string(),
    }
}

#[test]
fn messages_are_the_lines_of_a_text() {
    assert_eq!(messages_in(""), Vec::<String>::new());
    assert_eq!(messages_in(" \r\n\t\n"), Vec::<String>::new());
    assert_eq!(messages_in("a"), vec!["a"]);
    assert_eq!(messages_in("a\n"), vec!["a"]);
    assert_eq!(messages_in("  a b \r\n\u{a0}\u{3000}c\n\nd"), vec!["a b", "c", "d"]);
    assert_eq!(messages_in("\n\n{\"x\":1}\n"), vec!["{\"x\":1}"]);
}

/// The characters with the Unicode property `White_Space`.
const WHITE_SPACE: [(u32, u32); 10] = [
    (0x9, 0xd),
    (0x20, 0x20),
    (0x85, 0x85),
    (0xa0, 0xa0),
    (0x1680, 0x1680),
    (0x2000, 0x200a),
    (0x2028, 0x2029),
    (0x202f, 0x202f),
    (0x205f, 0x205f),
    (0x3000, 0x3000),
];

#[test]
fn messages_are_trimmed_of_white_space_only() {
    for c in '\0'..=char::MAX {
        let listed = WHITE_SPACE.iter().any(|&(from, to)| from <= c as u32 && c as u32 <= to);
        let trimmed = if listed { "x".to_string() } else { format!("{}x{}", c, c) };
        assert_eq!(messages_in(&format!("{}x{}", c, c)), vec![trimmed], "{:?}", c);
    }
}

#[test]
fn bytes_must_be_text() {
    assert!(matches!(read_messages("\u{e9}\n".as_bytes()), Ok(m) if m == vec!["\u{e9}".to_string()]));
    match read_messages(&[b'a', 0xff, b'b']) {
        Err(WriteError::InvalidData(m)) => {
            assert_eq!(m, "invalid utf-8 sequence of 1 bytes from index 1");
        }
        other => panic!("{:?}", other),
    }
}

#[test]
fn messages_must_be_json() {
    assert!(check_message("{\"jsonrpc\":\"2.0\"}").is_none());
    assert!(check_message("[1, null]").is_none());
    assert!(matches!(check_message("{"), Some(WriteError::InvalidData(_))));
    match check_message("1 2") {
        Some(WriteError::InvalidData(m)) => {
            assert_eq!(m, "trailing characters at line 1 column 3");
        }
        other => panic!("{:?}", other),
    }
}

#[test]
fn only_a_closed_channel_is_an_error() {
    assert!(check_outcome(SendOutcome::Sent).is_none());
    assert!(check_outcome(SendOutcome::Full).is_none());
    match check_outcome(SendOutcome::Closed) {
        Some(WriteError::BrokenPipe(m)) => assert_eq!(m, "send channel closed"),
        other => panic!("{:?}", other),
    }
}

fn received(rx: &mut mpsc::Receiver<String>) -> Vec<String> {
    let mut all = Vec::new();
    while let Ok(message) = rx.try_recv() {
        all.push(message);
    }
    all
}

#[test]
fn messages_are_handed_on_in_order_as_they_are() {
    assert_eq!(SSE_WRITE_CHANNEL_CAPACITY, 256);
    let (tx, mut rx) = mpsc::channel(SSE_WRITE_CHANNEL_CAPACITY);
    let mut writer = SseWriter::new(tx);
    let bytes = b" {\"a\" : 1}\n\n[2]\r\n\"x\"";
    assert!(matches!(writer.poll_write(bytes), Ok(n) if n == bytes.len()));
    assert_eq!(received(&mut rx), vec!["{\"a\" : 1}", "[2]", "\"x\""]);
    assert!(matches!(writer.poll_write(b""), Ok(0)));
    assert_eq!(received(&mut rx), Vec::<String>::new());
}

#[test]
fn lines_without_a_message_are_passed_over() {
    let (tx, mut rx) = mpsc::channel(SSE_WRITE_CHANNEL_CAPACITY);
    let mut writer = SseWriter::new(tx);
    let bytes = b"{\"b\": 1.0, \"a\": 1e2}\n\n  [2] \r\n";
    assert!(matches!(writer.poll_write(bytes), Ok(n) if n == bytes.len()));
    assert_eq!(received(&mut rx), vec!["{\"b\": 1.0, \"a\": 1e2}", "[2]"]);
}

#[test]
fn message_without_room_is_dropped() {
    let (tx, mut rx) = mpsc::channel(1);
    let mut writer = SseWriter::new(tx);
    assert_eq!(writer.dropped, 0);
    assert!(matches!(writer.poll_write(b"1\n2\n3\n"), Ok(6)));
    assert_eq!(writer.dropped, 2);
    assert_eq!(received(&mut rx), vec!["1"]);
    assert!(matches!(writer.poll_write(b"4\n"), Ok(2)));
    assert_eq!(writer.dropped, 0);
    assert_eq!(received(&mut rx), vec!["4"]);
}

#[test]
fn writing_stops_at_what_is_no_json() {
    let (tx, mut rx) = mpsc::channel(8);
    let mut writer = SseWriter::new(tx);
    match writer.poll_write(b"1\nnonsense\n3\n") {
        Err(WriteError::InvalidData(m)) => assert_eq!(m, "expected ident at line 1 column 2"),
        other => panic!("{:?}", other),
    }
    assert_eq!(received(&mut rx), vec!["1"]);
    assert!(matches!(writer.poll_write(&[0xc0]), Err(WriteError::InvalidData(_))));
    assert_eq!(received(&mut rx), Vec::<String>::new());
    let (tx, mut rx) = mpsc::channel(1);
    let mut writer = SseWriter::new(tx);
    assert!(matches!(writer.poll_write(b"1\n2\n{\n3\n"), Err(WriteError::InvalidData(_))));
    assert_eq!(received(&mut rx), vec!["1"]);
}

#[test]
fn writing_to_nobody_fails() {
    let (tx, rx) = mpsc::channel(8);
    drop(rx);
    let mut writer = SseWriter::new(tx);
    match writer.poll_write(b"1\n") {
        Err(WriteError::BrokenPipe(m)) => assert_eq!(m, "send channel closed"),
        other => panic!("{:?}", other),
    }
    assert!(matches!(writer.poll_write(b"\n"), Ok(1)));
    assert!(matches!(writer.poll_write(b"nonsense\n1\n"), Err(WriteError::InvalidData(_))));
}

#[test]
fn messages_are_posted_as_json() {
    let auth = Some("Bearer t".to_string());
    match message_request("http://h/message", &auth, "{}".to_string()) {
        Some(r) => {
            assert_eq!(r.url, "http://h/message");
            assert_eq!(r.content_type, "application/json");
            assert_eq!(r.authorization, auth);
            assert_eq!(r.body, "{}");
        }
        None => panic!("not sent"),
    }
    assert!(message_request("u", &None, "".to_string()).is_none());
    assert!(matches!(message_request("u", &None, "1".to_string()), Some(r) if r.authorization.is_none()));
}

#[test]
fn event_is_one_line() {
    assert_eq!(event_line("{\"x\":\"\u{e9}\"}"), "{\"x\":\"\u{e9}\"}\n".as_bytes().to_vec());
    assert_eq!(event_line(""), b"\n".to_vec());
    match read_messages(&event_line("[1]\n[2]")) {
        Ok(found) => assert_eq!(found, messages_in("[1]\n[2]")),
        Err(e) => panic!("{:?}", e),
    }
}

fn start(url: &str) -> SseStep {
    let config = SseClientConfig { url: url.to_string(), headers: vec![] };
    match run_sse_client(&config) {
        Ok((headers, step)) => {
            assert!(headers.is_empty());
            step
        }
        Err(e) => panic!("{:?}", e),
    }
}

#[test]
fn endpoint_may_stand_in_the_url() {
    for url in ["http://h:1/x", "http://h:1/x/sse", "http://h:1/x/sse/sse"] {
        match start(url).next(SseEvent::Connected(Ok(None))) {
            SseStep::Open { request, message_url } => {
                assert_eq!(request.url, "http://h:1/x/sse");
                assert_eq!(message_url, "http://h:1/x/message");
                assert_eq!(request.accept, "text/event-stream");
                assert_eq!(request.cache_control, "no-cache");
                assert_eq!(request.authorization, None);
            }
            other => panic!("{:?}", other),
        }
    }
    assert_eq!(SSE_PATH, "/sse");
    assert_eq!(POST_PATH, "/message");
}

#[test]
fn sse_client_sends_its_token_along() {
    let open = || start("http://h").next(SseEvent::Connected(Ok(Some(tokens(Some("t"))))));
    let bearer = Some("Bearer t".to_string());
    assert!(matches!(open(), SseStep::Open { request, .. } if request.authorization == bearer));
    match open().next(SseEvent::Opened(Ok(200))) {
        SseStep::Serve { message_url, auth_header } => {
            assert_eq!(message_url, "http://h/message");
            assert_eq!(auth_header, bearer);
        }
        other => panic!("{:?}", other),
    }
    let served = open().next(SseEvent::Opened(Ok(200))).next(SseEvent::Served(Ok(())));
    assert!(matches!(served, SseStep::Done(Ok(()))));
}

#[test]
fn sse_client_fails_with_the_reason() {
    let fails = |step: SseStep| match step {
        SseStep::Done(Err(m)) => m,
        other => panic!("{:?}", other),
    };
    let connected = |r| start("http://h").next(SseEvent::Connected(r));
    assert_eq!(fails(connected(Err("m".to_string()))), "m");
    assert_eq!(fails(connected(Ok(Some(tokens(None))))), "Access token is empty");
    let open = || connected(Ok(None));
    assert_eq!(fails(open().next(SseEvent::Opened(Err("down".to_string())))), "down");
    assert_eq!(
        fails(open().next(SseEvent::Opened(Ok(502)))),
        "SSE connection failed with status: 502 Bad Gateway"
    );
    let config = SseClientConfig {
        url: "u".to_string(),
        headers: vec![("k".to_string(), "\n".to_string())],
    };
    assert!(matches!(
        run_sse_client(&config),
        Err(HeaderError::Refused(m)) if m == "failed to parse header value"
    ));
}

fn server(socket: Option<&str>, mode: Option<u32>) -> ServerStep<u16, String> {
    let params = StdioServerParameters {
        command: "python".to_string(),
        args: vec!["server.py".to_string()],
        env: vec![],
    };
    let settings = SseServerSettings {
        bind_addr: 8080,
        unix_socket: socket.map(|t| t.to_string()),
        unix_socket_mode: mode,
        keep_alive: Some(Duration::from_millis(1_500)),
    };
    run_sse_server(params, settings)
}

#[test]
fn server_listens_at_its_address() {
    let start = server(None, Some(0o600));
    assert!(matches!(&start, ServerStep::Start { stdio_params, .. } if stdio_params.command == "python"));
    let bind = start.next(ServerEvent::Started(Ok(())));
    assert!(matches!(bind, ServerStep::BindAddress { bind_addr: 8080 }));
    let serve = bind.next(ServerEvent::Bound(Ok(())));
    assert!(matches!(serve, ServerStep::Serve { socket: None }));
    let end = serve.next(ServerEvent::Signalled);
    assert!(matches!(end, ServerStep::EndSessions { .. }));
    let finish = end.next(ServerEvent::SessionsEnded);
    assert!(matches!(finish, ServerStep::Finish));
    assert!(matches!(finish.next(ServerEvent::Finished(Ok(()))), ServerStep::Done(Ok(()))));
}

#[test]
fn socket_is_replaced_and_removed() {
    let probe = server(Some("/run/s"), Some(0o600)).next(ServerEvent::Started(Ok(())));
    assert!(matches!(&probe, ServerStep::ProbeSocket { path, .. } if path == "/run/s"));
    let remove = probe.next(ServerEvent::Exists(true));
    assert!(matches!(&remove, ServerStep::RemoveSocket { path, .. } if path == "/run/s"));
    let bind = remove.next(ServerEvent::Removed(Ok(())));
    let mode = bind.next(ServerEvent::Bound(Ok(())));
    assert!(matches!(&mode, ServerStep::SetMode { path, permissions: 0o600 } if path == "/run/s"));
    let serve = mode.next(ServerEvent::ModeSet(Ok(())));
    assert!(matches!(&serve, ServerStep::Serve { socket: Some(path) } if path == "/run/s"));
    let clean = serve.next(ServerEvent::Signalled).next(ServerEvent::SessionsEnded);
    assert!(matches!(&clean, ServerStep::CleanUp { path } if path == "/run/s"));
    assert!(matches!(clean.next(ServerEvent::CleanedUp), ServerStep::Finish));
    let open = server(Some("/run/s"), None)
        .next(ServerEvent::Started(Ok(())))
        .next(ServerEvent::Exists(false))
        .next(ServerEvent::Bound(Ok(())));
    assert!(matches!(open, ServerStep::Serve { socket: Some(_) }));
}

#[test]
fn server_fails_with_the_reason() {
    let fails = |step: ServerStep<u16, String>| match step {
        ServerStep::Done(Err(m)) => m,
        other => panic!("{:?}", other),
    };
    let err = || Err("m".to_string());
    assert_eq!(fails(server(None, None).next(ServerEvent::Started(err()))), "m");
    let address = server(None, None).next(ServerEvent::Started(Ok(())));
    assert_eq!(fails(address.next(ServerEvent::Bound(err()))), "m");
    let probe = || server(Some("/s"), Some(1)).next(ServerEvent::Started(Ok(())));
    assert_eq!(fails(probe().next(ServerEvent::Exists(true)).next(ServerEvent::Removed(err()))), "m");
    let bind = || probe().next(ServerEvent::Exists(false));
    assert_eq!(fails(bind().next(ServerEvent::Bound(err()))), "m");
    assert_eq!(fails(bind().next(ServerEvent::Bound(Ok(()))).next(ServerEvent::ModeSet(err()))), "m");
}
