use rmcp_proxy::auth::{AuthClient, AuthError};
use rmcp_proxy::callback_page::{
    oauth_callback, root_page, OAuthCallback, PageReply, ReplyEvent, ReplyStep, STYLE,
};
use rmcp_proxy::config::{AuthConfig, ConfigError, ConfigManager, FilePath, LockFile};
use rmcp_proxy::coordination::{
    coordinate_auth, handle_auth, wait_for_auth, AuthCoordinationResult, CoordinateEvent,
    CoordinateStep, CoordinationError, HandleAuthEvent, HandleAuthStep, WaitEvent, WaitStep,
};
use rmcp_proxy::outside::Clock;
use rmcp_proxy::utils::now_seconds;

fn client() -> AuthClient {
    let files = ConfigManager::new(FilePath::Root("/cfg".to_string()));
    match AuthClient::new("https://mcp.example.com".to_string(), 9292, files) {
        Ok(client) => client,
        Err(e) => panic!("{}", e.message()),
    }
}

fn tokens() -> AuthConfig {
    AuthConfig {
        server_url: "u".to_string(),
        access_token: Some("at".to_string()),
        refresh_token: None,
        expires_at: None,
        auth_state: None,
        session_id: "sid".to_string(),
    }
}

fn lock(pid: u32) -> LockFile {
    LockFile {
        session_id: "s".to_string(),
        server_url: "u".to_string(),
        callback_port: 9292,
        created_at: 1_000,
        pid,
    }
}

fn begin() -> CoordinateStep {
    coordinate_auth("hash", &client(), 9292, None)
}

fn required() -> CoordinateEvent {
    CoordinateEvent::Config(Err(AuthError::AuthRequired))
}

#[test]
fn coordination_errors_have_their_texts() {
    let s = || "x".to_string();
    assert_eq!(
        CoordinationError::Auth(AuthError::Http(s())).message(),
        "Auth error: HTTP error: x"
    );
    assert_eq!(
        CoordinationError::Config(ConfigError::NotFound).message(),
        "Config error: Config not found"
    );
    assert_eq!(CoordinationError::Io(s()).message(), "IO error: x");
    let timeout: CoordinationError = CoordinationError::Timeout;
    assert_eq!(timeout.message(), "Coordination timeout");
    assert_eq!(CoordinationError::Other(s()).message(), "Coordination error: x");
}

#[test]
fn tokens_that_are_there_are_used() {
    match begin().next(CoordinateEvent::Config(Ok(tokens()))) {
        CoordinateStep::Done(Ok(AuthCoordinationResult::AuthDone { auth_config })) => {
            assert_eq!(auth_config.access_token, Some("at".to_string()));
        }
        other => panic!("{:?}", other),
    }
}

#[test]
fn holder_of_the_lock_authenticates() {
    let take = begin().next(required());
    match &take {
        CoordinateStep::CreateLock { server_url_hash, server_url, callback_port } => {
            assert_eq!(server_url_hash, "hash");
            assert_eq!(server_url, "https://mcp.example.com");
            assert_eq!(*callback_port, 9292);
        }
        other => panic!("{:?}", other),
    }
    let own = take.next(CoordinateEvent::Lock { lock: Ok(lock(7)), pid: 7 });
    assert!(matches!(own, CoordinateStep::Initialize));
    match own.next(CoordinateEvent::Initialized(Ok("https://as/a".to_string()))) {
        CoordinateStep::Done(Ok(AuthCoordinationResult::HandleAuth { auth_url })) => {
            assert_eq!(auth_url, "https://as/a");
        }
        other => panic!("{:?}", other),
    }
}

#[test]
fn other_processes_wait() {
    let step = begin()
        .next(required())
        .next(CoordinateEvent::Lock { lock: Ok(lock(8)), pid: 7 });
    match step {
        CoordinateStep::Done(Ok(AuthCoordinationResult::WaitForAuth { lock_file })) => {
            assert_eq!(lock_file.pid, 8);
        }
        other => panic!("{:?}", other),
    }
}

#[test]
fn coordination_fails_with_the_reason() {
    let fails = |step: CoordinateStep| match step {
        CoordinateStep::Done(Err(e)) => e.message(),
        other => panic!("{:?}", other),
    };
    let broken = CoordinateEvent::Config(Err(AuthError::Other("o".to_string())));
    assert_eq!(fails(begin().next(broken)), "Auth error: Other error: o");
    let no_lock = CoordinateEvent::Lock { lock: Err(ConfigError::Io("i".to_string())), pid: 7 };
    assert_eq!(fails(begin().next(required()).next(no_lock)), "Config error: IO error: i");
    let failed = CoordinateEvent::Initialized(Err(AuthError::Http("h".to_string())));
    assert_eq!(fails(CoordinateStep::Initialize.next(failed)), "Auth error: HTTP error: h");
}

fn awaiting_callback() -> HandleAuthStep {
    handle_auth("https://as/a", 9292)
        .next(HandleAuthEvent::Serving(Ok(())))
        .next(HandleAuthEvent::BrowserOpened(Ok(())))
}

#[test]
fn callback_brings_the_tokens() {
    let serve = handle_auth("https://as/a", 9292);
    assert!(matches!(
        &serve,
        HandleAuthStep::Serve { host, port: 9292, path, auth_url }
            if host == "127.0.0.1" && path == "/oauth/callback" && auth_url == "https://as/a"
    ));
    let open = serve.next(HandleAuthEvent::Serving(Ok(())));
    assert!(matches!(&open, HandleAuthStep::OpenBrowser { auth_url } if auth_url == "https://as/a"));
    let wait = open.next(HandleAuthEvent::BrowserOpened(Ok(())));
    assert!(matches!(wait, HandleAuthStep::AwaitCallback { timeout: 60 }));
    let stop = wait.next(HandleAuthEvent::Received(tokens()));
    assert!(matches!(stop, HandleAuthStep::Shutdown { .. }));
    match stop.next(HandleAuthEvent::ShutDown) {
        HandleAuthStep::Done(Ok(config)) => assert_eq!(config.session_id, "sid"),
        other => panic!("{:?}", other),
    }
}

#[test]
fn callback_server_is_shut_down_on_every_error() {
    let ends = |stop: HandleAuthStep| {
        assert!(matches!(stop, HandleAuthStep::Shutdown { .. }));
        match stop.next(HandleAuthEvent::ShutDown) {
            HandleAuthStep::Done(Err(e)) => e.message(),
            other => panic!("{:?}", other),
        }
    };
    assert_eq!(
        ends(awaiting_callback().next(HandleAuthEvent::ChannelClosed)),
        "Coordination error: Auth channel closed unexpectedly"
    );
    assert_eq!(ends(awaiting_callback().next(HandleAuthEvent::TimedOut)), "Coordination timeout");
    let no_browser = handle_auth("u", 1)
        .next(HandleAuthEvent::Serving(Ok(())))
        .next(HandleAuthEvent::BrowserOpened(Err("none".to_string())));
    assert_eq!(ends(no_browser), "IO error: none");
    match handle_auth("u", 1).next(HandleAuthEvent::Serving(Err("in use".to_string()))) {
        HandleAuthStep::Done(Err(e)) => assert_eq!(e.message(), "IO error: in use"),
        other => panic!("{:?}", other),
    }
}

fn wait() -> WaitStep {
    wait_for_auth(&client(), &lock(8))
}

fn lock_seen(lock: LockFile, now: u64) -> WaitEvent {
    WaitEvent::Lock { lock: Ok(lock), now }
}

#[test]
fn waiting_goes_on_while_the_lock_holds() {
    let c = client();
    match wait_for_auth(&c, &lock(8)) {
        WaitStep::ReadLock { server_url_hash, pid } => {
            assert_eq!(server_url_hash, c.get_server_url_hash());
            assert_eq!(pid, 8);
        }
        other => panic!("{:?}", other),
    }
    let look = wait().next(lock_seen(lock(8), 1_600));
    assert!(matches!(look, WaitStep::GetConfig { .. }));
    let gone = wait().next(WaitEvent::Lock { lock: Err(ConfigError::NotFound), now: 0 });
    let time = gone.next(WaitEvent::Config(Err(AuthError::AuthRequired)));
    assert!(matches!(time, WaitStep::CheckTime { .. }));
    let sleep = time.next(WaitEvent::Elapsed(59));
    assert!(matches!(sleep, WaitStep::Sleep { secs: 1, .. }));
    assert!(matches!(sleep.next(WaitEvent::Slept), WaitStep::ReadLock { pid: 8, .. }));
}

#[test]
fn waiting_ends() {
    let ends = |step: WaitStep| match step {
        WaitStep::Done(Err(e)) => e.message(),
        other => panic!("{:?}", other),
    };
    assert_eq!(
        ends(wait().next(lock_seen(lock(9), 1_000))),
        "Coordination error: Lock changed or expired"
    );
    assert_eq!(
        ends(wait().next(lock_seen(lock(8), 1_601))),
        "Coordination error: Lock changed or expired"
    );
    let far = LockFile { created_at: u64::MAX, ..lock(9) };
    assert_eq!(ends(wait().next(lock_seen(far, 0))), "Coordination error: Lock changed or expired");
    let unreadable = WaitEvent::Lock { lock: Err(ConfigError::Json("j".to_string())), now: 0 };
    assert_eq!(ends(wait().next(unreadable)), "Config error: JSON error: j");
    let look = || wait().next(lock_seen(lock(8), 1_000));
    assert_eq!(
        ends(look().next(WaitEvent::Config(Err(AuthError::Http("h".to_string()))))),
        "Auth error: HTTP error: h"
    );
    let late = look().next(WaitEvent::Config(Err(AuthError::AuthRequired))).next(WaitEvent::Elapsed(60));
    assert_eq!(ends(late), "Coordination timeout");
    assert!(matches!(look().next(WaitEvent::Config(Ok(tokens()))), WaitStep::Done(Ok(_))));
}

#[test]
fn lock_is_seen_at_a_time() {
    let before = now_seconds(&mut Clock::new());
    match WaitEvent::lock_read(Ok(lock(8)), &mut Clock::new()) {
        WaitEvent::Lock { lock: Ok(l), now } => assert!(l.pid == 8 && now >= before),
        other => panic!("{:?}", other),
    }
    let never = LockFile { created_at: u64::MAX, ..lock(8) };
    assert!(!wait().is_accepted(&lock_seen(never, 0)));
    let other = LockFile { created_at: u64::MAX, ..lock(9) };
    assert!(wait().is_accepted(&lock_seen(other, 0)));
    assert!(wait().is_accepted(&WaitEvent::Slept));
}

fn params(code: Option<&str>, error: Option<&str>, description: Option<&str>) -> OAuthCallback {
    OAuthCallback {
        code: code.map(|t| t.to_string()),
        state: "st".to_string(),
        error: error.map(|t| t.to_string()),
        error_description: description.map(|t| t.to_string()),
    }
}

fn reply(step: ReplyStep) -> PageReply {
    match step {
        ReplyStep::Done(reply) => reply,
        other => panic!("{:?}", other),
    }
}

fn page(content: &str) -> String {
    format!("<html>{}<body>{}</body></html>", STYLE, content)
}

#[test]
fn error_in_a_callback_is_shown() {
    let r = reply(oauth_callback(params(Some("c"), Some("access_denied"), Some("no"))));
    assert_eq!(r.status, 400);
    assert_eq!(r.page, page("<h1>Authentication Error</h1><p>access_denied: no</p>"));
    let r = reply(oauth_callback(params(None, Some("server_error"), None)));
    assert_eq!(r.page, page("<h1>Authentication Error</h1><p>server_error: Unknown error</p>"));
    let r = reply(oauth_callback(params(None, Some("invalid_client"), Some("gone"))));
    assert_eq!(r.status, 400);
    let gap = format!("\n{}", " ".repeat(20));
    assert_eq!(
        r.page,
        page(&format!(
            "<h1>Authentication Error</h1>{gap}<p>Client registration error: gone</p>{gap}<p>Please restart the application to trigger client registration.</p>{gap}"
        ))
    );
}

#[test]
fn callback_needs_a_code() {
    let r = reply(oauth_callback(params(None, None, Some("ignored"))));
    assert_eq!(r.status, 400);
    assert_eq!(r.page, page("<h1>Authentication Error</h1><p>Missing authorization code</p>"));
}

#[test]
fn success_is_told_once_the_tokens_are_delivered() {
    let handle = || oauth_callback(params(Some("c"), None, None));
    assert!(matches!(handle(), ReplyStep::Handle { code, state } if code == "c" && state == "st"));
    let deliver = || handle().next(ReplyEvent::Handled(Ok(tokens())));
    assert!(matches!(deliver(), ReplyStep::Deliver { .. }));
    let r = reply(deliver().next(ReplyEvent::Delivered(true)));
    assert_eq!(r.status, 200);
    assert_eq!(
        r.page,
        page("<h1>Authentication Complete</h1><p>You can close this window.</p>")
    );
    let r = reply(deliver().next(ReplyEvent::Delivered(false)));
    assert_eq!(r.status, 500);
    assert_eq!(r.page, page("<h1>Error</h1><p>Internal server error</p>"));
    let r = reply(handle().next(ReplyEvent::Handled(Err(AuthError::Other("o".to_string())))));
    assert_eq!(r.status, 500);
    assert_eq!(r.page, page("<h1>Authentication Error</h1><p>Other error: o</p>"));
}

#[test]
fn root_page_says_what_the_server_is() {
    assert_eq!(
        root_page(),
        page("<h1>MCP OAuth Server</h1><p>This server handles OAuth callbacks for MCP authentication.</p>")
    );
    assert!(STYLE.starts_with("<style>html{font-family: ui-sans-serif, system-ui"));
}
