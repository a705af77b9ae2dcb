use rmcp_proxy::auth::{AuthClient, AuthError};
use rmcp_proxy::config::{AuthConfig, ConfigError, ConfigManager, FilePath, LockFile};
use rmcp_proxy::connection::{
    authenticate, build_headers, connect, AuthenticateEvent, AuthenticateStep, ConnectEvent,
    ConnectStep,
};
use rmcp_proxy::coordination::{AuthCoordinationResult, CoordinationError};
use rmcp_proxy::outside::{Clock, HeaderError, HEADER_LIMIT, MAX_HEADERS};
use rmcp_proxy::streamable_http_client::{
    run_streamable_http_client, AuthenticatedHttpClient, FreshAuthEvent, FreshAuthStep,
    RecoverEvent, RecoverStep, RequestEvent, RequestStep, StreamableEvent,
    StreamableHttpClientConfig, StreamableStep, TokenRefreshEvent, TokenRefreshStep,
};
use rmcp_proxy::utils::hash_server_url;

fn files() -> ConfigManager {
    ConfigManager::new(FilePath::Root("/cfg".to_string()))
}

fn pair(name: &str, value: &str) -> (String, String) {
    (name.to_string(), value.to_string())
}

fn tokens(access: Option<&str>, expires_at: Option<u64>) -> AuthConfig {
    AuthConfig {
        server_url: "u".to_string(),
        access_token: access.map(|t| t.to_string()),
        refresh_token: None,
        expires_at,
        auth_state: None,
        session_id: "sid".to_string(),
    }
}

fn lock() -> LockFile {
    LockFile {
        session_id: "s".to_string(),
        server_url: "u".to_string(),
        callback_port: 9292,
        created_at: 0,
        pid: 8,
    }
}

fn client(token: &str, hash: Option<&str>) -> AuthenticatedHttpClient {
    AuthenticatedHttpClient {
        auth_token: token.to_string(),
        server_url_hash: hash.map(|t| t.to_string()),
    }
}

#[test]
fn headers_are_built() {
    let headers = match build_headers(&vec![
        pair("X-One", "1"),
        pair("x-two", "2 \u{e9}\t"),
        pair("X-ONE", "3"),
    ]) {
        Ok(headers) => headers,
        Err(e) => panic!("{:?}", e),
    };
    assert_eq!(headers.len(), 2);
    assert_eq!(headers.get("x-one").map(|v| v.as_bytes().to_vec()), Some(b"3".to_vec()));
    assert_eq!(
        headers.get("X-Two").map(|v| v.as_bytes().to_vec()),
        Some("2 \u{e9}\t".as_bytes().to_vec())
    );
    assert!(matches!(build_headers(&vec![]), Ok(h) if h.is_empty()));
}

#[test]
fn bad_headers_are_refused() {
    let refused = |pairs: Vec<(String, String)>| match build_headers(&pairs) {
        Err(HeaderError::Refused(m)) => m,
        other => panic!("{:?}", other),
    };
    assert_eq!(refused(vec![pair("", "v")]), "invalid HTTP header name");
    assert_eq!(refused(vec![pair("a b", "v")]), "invalid HTTP header name");
    assert_eq!(refused(vec![pair("a:", "v")]), "invalid HTTP header name");
    assert_eq!(refused(vec![pair("\u{e9}", "v")]), "invalid HTTP header name");
    assert_eq!(refused(vec![pair("ok", "a\nb")]), "failed to parse header value");
    assert_eq!(refused(vec![pair("ok", "\u{7f}")]), "failed to parse header value");
    assert_eq!(refused(vec![pair("ok", "v"), pair("a", "\r"), pair("b c", "v")]), "failed to parse header value");
}

#[test]
fn headers_fill_a_map() {
    let pairs = |n: usize| (0..n).map(|i| pair(&format!("x-{}", i), "v")).collect::<Vec<_>>();
    assert!(matches!(build_headers(&pairs(HEADER_LIMIT)), Ok(h) if h.len() == HEADER_LIMIT));
    assert!(matches!(build_headers(&pairs(HEADER_LIMIT + 1)), Ok(h) if h.len() == HEADER_LIMIT + 1));
    assert!(matches!(build_headers(&pairs(MAX_HEADERS + 1)), Err(HeaderError::Full)));
    let mut refused = pairs(8);
    refused.push(pair(" ", "v"));
    refused.append(&mut pairs(MAX_HEADERS + 1));
    assert!(matches!(build_headers(&refused), Err(HeaderError::Refused(_))));
}

fn oauth_client() -> AuthClient {
    match AuthClient::new("https://mcp.example.com".to_string(), 9292, files()) {
        Ok(client) => client,
        Err(e) => panic!("{}", e.message()),
    }
}

#[test]
fn authentication_follows_what_was_coordinated() {
    let c = oauth_client();
    match authenticate(&c) {
        AuthenticateStep::Coordinate { server_url_hash, callback_port } => {
            assert_eq!(server_url_hash, c.get_server_url_hash());
            assert_eq!(callback_port, 9292);
        }
        other => panic!("{:?}", other),
    }
    let coordinated = |r| authenticate(&c).next(AuthenticateEvent::Coordinated(r));
    let own = coordinated(Ok(AuthCoordinationResult::HandleAuth { auth_url: "a".to_string() }));
    assert!(matches!(&own, AuthenticateStep::HandleAuth { auth_url, callback_port: 9292 } if auth_url == "a"));
    let done = own.next(AuthenticateEvent::Authenticated(Ok(tokens(Some("t"), None))));
    assert!(matches!(done, AuthenticateStep::Done(Ok(_))));
    let other = coordinated(Ok(AuthCoordinationResult::WaitForAuth { lock_file: lock() }));
    assert!(matches!(&other, AuthenticateStep::WaitForAuth { lock_file } if lock_file.pid == 8));
    let late = other.next(AuthenticateEvent::Authenticated(Err(CoordinationError::Timeout)));
    assert!(matches!(late, AuthenticateStep::Done(Err(CoordinationError::Timeout))));
    let there = coordinated(Ok(AuthCoordinationResult::AuthDone { auth_config: tokens(Some("t"), None) }));
    assert!(matches!(there, AuthenticateStep::Done(Ok(_))));
    assert!(matches!(
        coordinated(Err(CoordinationError::Timeout)),
        AuthenticateStep::Done(Err(CoordinationError::Timeout))
    ));
}

#[test]
fn server_decides_on_authentication() {
    let probe = || connect("https://mcp.example.com");
    assert!(matches!(probe(), ConnectStep::Probe { url } if url == "https://mcp.example.com"));
    assert!(matches!(probe().next(ConnectEvent::Probed(Ok(200))), ConnectStep::Done(Ok(None))));
    let create = || probe().next(ConnectEvent::Probed(Ok(401)));
    assert!(matches!(create(), ConnectStep::CreateClient { redirect_port: 9292, .. }));
    let ask = || create().next(ConnectEvent::ClientCreated(Ok(())));
    assert!(matches!(ask(), ConnectStep::Authenticate));
    let done = ask().next(ConnectEvent::Authenticated(Ok(tokens(Some("t"), None))));
    assert!(matches!(done, ConnectStep::Done(Ok(Some(config))) if config.access_token == Some("t".to_string())));
    let fails = |step: ConnectStep| match step {
        ConnectStep::Done(Err(m)) => m,
        other => panic!("{:?}", other),
    };
    assert_eq!(fails(probe().next(ConnectEvent::Probed(Err("down".to_string())))), "down");
    assert_eq!(fails(probe().next(ConnectEvent::Probed(Ok(404)))), "Unexpected response: 404");
    assert_eq!(fails(probe().next(ConnectEvent::Probed(Ok(204)))), "Unexpected response: 204");
    assert_eq!(
        fails(create().next(ConnectEvent::ClientCreated(Err(AuthError::InvalidServerUrl)))),
        "Invalid server URL"
    );
    assert_eq!(
        fails(ask().next(ConnectEvent::Authenticated(Err(CoordinationError::Timeout)))),
        "Coordination timeout"
    );
}

#[test]
fn empty_token_is_not_sent() {
    assert_eq!(client("", Some("h")).get_auth_token(), None);
    assert_eq!(client("t", None).get_auth_token(), Some("t".to_string()));
}

#[test]
fn token_is_refreshed_from_what_is_kept() {
    let mut c = client("old", Some("h"));
    let load = c.refresh_token_if_needed();
    assert!(matches!(&load, TokenRefreshStep::Load { server_url_hash } if server_url_hash == "h"));
    let refresh = c.token_refresh_next(load, TokenRefreshEvent::Loaded(Ok(tokens(Some("k"), None))));
    assert!(matches!(refresh, TokenRefreshStep::Refresh { .. }));
    assert_eq!(c.auth_token, "old");
    let done = c.token_refresh_next(refresh, TokenRefreshEvent::Refreshed(Ok(tokens(Some("new"), None))));
    assert!(matches!(done, TokenRefreshStep::Done(Ok(true))));
    assert_eq!(c.auth_token, "new");
    let refresh = TokenRefreshStep::Refresh { config: tokens(None, None) };
    let done = c.token_refresh_next(refresh, TokenRefreshEvent::Refreshed(Ok(tokens(None, None))));
    assert!(matches!(done, TokenRefreshStep::Done(Ok(true))));
    assert_eq!(c.auth_token, "");
}

#[test]
fn token_stays_without_a_refresh() {
    let mut c = client("old", Some("h"));
    let load = || TokenRefreshStep::Load { server_url_hash: "h".to_string() };
    let none = c.token_refresh_next(load(), TokenRefreshEvent::Loaded(Err(ConfigError::NotFound)));
    assert!(matches!(none, TokenRefreshStep::Done(Ok(false))));
    let broken = TokenRefreshEvent::Loaded(Err(ConfigError::Io("i".to_string())));
    match c.token_refresh_next(load(), broken) {
        TokenRefreshStep::Done(Err(m)) => assert_eq!(m, "IO error: i"),
        other => panic!("{:?}", other),
    }
    let refresh = TokenRefreshStep::Refresh { config: tokens(None, None) };
    let refused = TokenRefreshEvent::Refreshed(Err(AuthError::AuthRequired));
    assert!(matches!(c.token_refresh_next(refresh, refused), TokenRefreshStep::Done(Ok(false))));
    assert_eq!(c.auth_token, "old");
    let nobody = client("t", None).refresh_token_if_needed();
    assert!(matches!(nobody, TokenRefreshStep::Done(Ok(false))));
}

fn name_of(path: &FilePath) -> String {
    match path {
        FilePath::Within(_, name) => name.clone(),
        FilePath::Root(root) => root.clone(),
    }
}

#[test]
fn nothing_is_kept_when_authenticating_anew() {
    let mut c = client("old", Some("h"));
    let step = c.start_fresh_oauth_flow(&files());
    assert!(matches!(&step, FreshAuthStep::DiscardConfig { path, .. } if name_of(path) == "auth-h.json"));
    let step = c.fresh_auth_next(step, FreshAuthEvent::Discarded);
    assert!(matches!(
        &step,
        FreshAuthStep::DiscardRegistration { path, .. } if name_of(path) == "client-registration-h.json"
    ));
    let step = c.fresh_auth_next(step, FreshAuthEvent::Discarded);
    assert!(matches!(step, FreshAuthStep::ClearCaches { .. }));
    let step = c.fresh_auth_next(step, FreshAuthEvent::Cleared);
    assert!(matches!(&step, FreshAuthStep::Authenticate { server_url_hash } if server_url_hash == "h"));
    assert_eq!(c.auth_token, "old");
    let done = c.fresh_auth_next(step, FreshAuthEvent::Authenticated(Ok(tokens(Some("new"), None))));
    assert!(matches!(done, FreshAuthStep::Done(Ok(()))));
    assert_eq!(c.auth_token, "new");
    let again = || FreshAuthStep::Authenticate { server_url_hash: "h".to_string() };
    let done = c.fresh_auth_next(again(), FreshAuthEvent::Authenticated(Ok(tokens(None, None))));
    assert!(matches!(done, FreshAuthStep::Done(Ok(()))));
    assert_eq!(c.auth_token, "new");
    match c.fresh_auth_next(again(), FreshAuthEvent::Authenticated(Err(CoordinationError::Timeout))) {
        FreshAuthStep::Done(Err(m)) => assert_eq!(m, "Coordination timeout"),
        other => panic!("{:?}", other),
    }
    let nobody = client("t", None).start_fresh_oauth_flow(&files());
    assert!(matches!(nobody, FreshAuthStep::Done(Ok(()))));
}

#[test]
fn only_a_refused_request_is_repeated() {
    let c = client("t", Some("h"));
    assert!(matches!(c.handle_auth_error(Some(401), false), RecoverStep::Refresh));
    assert!(matches!(c.handle_auth_error(Some(401), true), RecoverStep::StartFresh));
    for status in [None, Some(400), Some(403), Some(500)] {
        assert!(matches!(c.handle_auth_error(status, false), RecoverStep::Done(Ok(false))));
        assert!(matches!(c.handle_auth_error(status, true), RecoverStep::Done(Ok(false))));
    }
    let open = client("", None);
    assert!(matches!(open.handle_auth_error(Some(401), false), RecoverStep::Done(Ok(false))));
}

#[test]
fn recovery_refreshes_and_then_authenticates_anew() {
    let refreshed = RecoverStep::Refresh.next(RecoverEvent::Refreshed(Ok(true)));
    assert!(matches!(refreshed, RecoverStep::Done(Ok(true))));
    let fresh = RecoverStep::Refresh.next(RecoverEvent::Refreshed(Ok(false)));
    assert!(matches!(fresh, RecoverStep::StartFresh));
    let done = fresh.next(RecoverEvent::Authenticated(Ok(())));
    assert!(matches!(done, RecoverStep::Done(Ok(true))));
    let broken = RecoverStep::Refresh.next(RecoverEvent::Refreshed(Err("m".to_string())));
    assert!(matches!(broken, RecoverStep::Done(Err(m)) if m == "m"));
    let failed = RecoverStep::StartFresh.next(RecoverEvent::Authenticated(Err("n".to_string())));
    assert!(matches!(failed, RecoverStep::Done(Err(m)) if m == "n"));
}

/// A message to post; the answer is a number, an error a text.
type Posting = RequestStep<(String, String), u32, String>;

fn posting(c: &AuthenticatedHttpClient) -> Posting {
    c.post_message(("https://h/mcp".to_string(), "{}".to_string()))
}

fn answered(n: u32) -> RequestEvent<u32, String> {
    RequestEvent::Answered { answer: Ok(n), status: None }
}

fn failed(error: &str, status: Option<u16>) -> RequestEvent<u32, String> {
    RequestEvent::Answered { answer: Err(error.to_string()), status }
}

fn recovered(outcome: Result<bool, &str>) -> RequestEvent<u32, String> {
    RequestEvent::Recovered(outcome.map_err(|m| m.to_string()))
}

#[test]
fn message_is_posted_three_times_at_most() {
    let mut c = client("t1", Some("h"));
    let mut step = posting(&c);
    let mut sent = Vec::new();
    let mut errors = Vec::new();
    let outcome = loop {
        step = match step {
            RequestStep::Send { ref request, ref token, .. } => {
                assert_eq!(request, &("https://h/mcp".to_string(), "{}".to_string()));
                sent.push(token.clone());
                let e = failed(&format!("e{}", sent.len()), Some(401));
                c.request_next(step, e)
            }
            RequestStep::Recover { ref error, status, is_retry, .. } => {
                errors.push((error.clone(), status, is_retry));
                c.auth_token = format!("t{}", sent.len() + 1);
                c.request_next(step, recovered(Ok(true)))
            }
            RequestStep::Done(r) => break r,
        };
    };
    let t = |n: &str| Some(n.to_string());
    assert_eq!(sent, vec![t("t1"), t("t2"), t("t3")]);
    assert_eq!(
        errors,
        vec![("e1".to_string(), Some(401), false), ("e2".to_string(), Some(401), true)]
    );
    assert_eq!(outcome, Err("e3".to_string()));
}

#[test]
fn other_requests_are_sent_twice_at_most() {
    let c = client("t", Some("h"));
    let firsts: Vec<RequestStep<u8, u32, String>> = vec![c.delete_session(7), c.get_stream(7)];
    for first in firsts {
        let recover = c.request_next(first, failed("e1", Some(401)));
        assert!(matches!(
            &recover,
            RequestStep::Recover { request: 7, error, status: Some(401), is_retry: false, .. }
                if error == "e1"
        ));
        let again = c.request_next(recover, recovered(Ok(true)));
        assert!(matches!(again, RequestStep::Send { request: 7, attempt: 2, limit: 2, .. }));
        let done = c.request_next(again, failed("e2", Some(401)));
        assert!(matches!(done, RequestStep::Done(Err(e)) if e == "e2"));
    }
}

#[test]
fn request_comes_to_its_last_answer() {
    let c = client("", None);
    let first = posting(&c);
    assert!(matches!(&first, RequestStep::Send { token: None, attempt: 1, limit: 3, .. }));
    assert!(matches!(c.request_next(first, answered(5)), RequestStep::Done(Ok(5))));
    let recover = || c.request_next(posting(&c), failed("e", None));
    let undone = c.request_next(recover(), recovered(Ok(false)));
    assert!(matches!(undone, RequestStep::Done(Err(e)) if e == "e"));
    let broken = c.request_next(recover(), recovered(Err("m")));
    assert!(matches!(broken, RequestStep::Done(Err(e)) if e == "e"));
    let again = c.request_next(recover(), recovered(Ok(true)));
    assert!(matches!(c.request_next(again, answered(6)), RequestStep::Done(Ok(6))));
}

#[test]
fn streamable_client_runs_with_its_token() {
    let start = || {
        let config = StreamableHttpClientConfig {
            url: "https://mcp.example.com".to_string(),
            headers: vec![pair("X-A", "b")],
        };
        match run_streamable_http_client(&config) {
            Ok((headers, step)) => {
                assert_eq!(headers.get("x-a").map(|v| v.as_bytes().to_vec()), Some(b"b".to_vec()));
                step
            }
            Err(e) => panic!("{:?}", e),
        }
    };
    let token_of = |step: StreamableStep| match step {
        StreamableStep::Serve { url, client } => {
            assert_eq!(url, "https://mcp.example.com");
            if client.auth_token.is_empty() {
                assert_eq!(client.server_url_hash, None);
            } else {
                assert_eq!(client.server_url_hash, Some(hash_server_url(&url)));
            }
            client.auth_token
        }
        other => panic!("{:?}", other),
    };
    let connected = |r| start().next(StreamableEvent::Connected(r));
    assert_eq!(token_of(connected(Ok(None))), "");
    assert_eq!(token_of(connected(Ok(Some(tokens(Some("t"), None))))), "t");
    let timed = || connected(Ok(Some(tokens(Some("t"), Some(10)))));
    assert!(matches!(timed(), StreamableStep::ReadTime { expires_at: 10, .. }));
    assert_eq!(token_of(timed().next(StreamableEvent::Time(9))), "t");
    assert!(matches!(StreamableEvent::time_read(&mut Clock::new()), StreamableEvent::Time(now) if now > 1_600_000_000));
    let expired = || timed().next(StreamableEvent::Time(10));
    assert!(matches!(expired(), StreamableStep::GetConfig { .. }));
    let got = |r| token_of(expired().next(StreamableEvent::Config(r)));
    assert_eq!(got(Ok(tokens(Some("new"), None))), "new");
    assert_eq!(got(Ok(tokens(None, None))), "t");
    assert_eq!(got(Err(AuthError::AuthRequired)), "t");
    match connected(Ok(Some(tokens(None, Some(1))))) {
        StreamableStep::Done(Err(m)) => assert_eq!(m, "Access token is empty"),
        other => panic!("{:?}", other),
    }
    assert!(matches!(connected(Err("m".to_string())), StreamableStep::Done(Err(m)) if m == "m"));
    let served = connected(Ok(None)).next(StreamableEvent::Served(Ok(())));
    assert!(matches!(served, StreamableStep::Done(Ok(()))));
}

#[test]
fn client_authenticates_against_its_own_server() {
    let oauth = oauth_client();
    let c = AuthenticatedHttpClient::of_server("t".to_string(), "https://mcp.example.com");
    assert_eq!(c.server_url_hash.as_deref(), Some(oauth.get_server_url_hash()));
    assert!(matches!(
        c.refresh_token_if_needed(),
        TokenRefreshStep::Load { server_url_hash } if server_url_hash == oauth.get_server_url_hash()
    ));
    let without = AuthenticatedHttpClient::without_server();
    assert_eq!(without.get_auth_token(), None);
    assert!(matches!(without.refresh_token_if_needed(), TokenRefreshStep::Done(Ok(false))));
}

#[test]
fn streamable_client_refuses_bad_headers() {
    let config = StreamableHttpClientConfig { url: "u".to_string(), headers: vec![pair(" ", "b")] };
    match run_streamable_http_client(&config) {
        Err(HeaderError::Refused(m)) => assert_eq!(m, "invalid HTTP header name"),
        other => panic!("{:?}", other),
    }
}
