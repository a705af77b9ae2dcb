use rmcp_proxy::auth::{AuthClient, AuthError, AuthTokenResponse, ClientRegistration};
use rmcp_proxy::config::{AuthConfig, ConfigError, ConfigManager, FilePath};
use rmcp_proxy::oidc::{Field, OidcConfig};
use rmcp_proxy::tokens::{
    CallbackStep, GetConfigEvent, GetConfigStep, RefreshStep, TokenEvent, DEFAULT_EXPIRES_IN,
};
use rmcp_proxy::outside::Clock;
use rmcp_proxy::utils::now_seconds;

fn client() -> AuthClient {
    let files = ConfigManager::new(FilePath::Root("/cfg".to_string()));
    match AuthClient::new("https://mcp.example.com".to_string(), 9292, files) {
        Ok(client) => client,
        Err(e) => panic!("{}", e.message()),
    }
}

fn config(token_endpoint: Field) -> OidcConfig {
    OidcConfig {
        authorization_endpoint: Field::Text("a".to_string()),
        token_endpoint,
        issuer: Field::Text("i".to_string()),
        registration_endpoint: Field::Absent,
        scopes_supported: None,
    }
}

fn discovered() -> TokenEvent {
    TokenEvent::Discovered(Ok(config(Field::Text("https://as/token".to_string()))))
}

fn registered() -> TokenEvent {
    TokenEvent::Registered(Ok(ClientRegistration {
        client_id: "cid".to_string(),
        client_secret: None,
        registration_access_token: None,
        registration_client_uri: None,
        client_id_issued_at: None,
        client_secret_expires_at: None,
    }))
}

fn tokens(refresh: Option<&str>, expires_in: Option<u64>, now: u64) -> TokenEvent {
    let tokens = AuthTokenResponse {
        access_token: Some("at".to_string()),
        refresh_token: refresh.map(|t| t.to_string()),
        expires_in,
    };
    TokenEvent::Tokens { tokens: Ok(tokens), now }
}

fn no_tokens() -> TokenEvent {
    let tokens = AuthTokenResponse { access_token: None, refresh_token: None, expires_in: None };
    TokenEvent::Tokens { tokens: Ok(tokens), now: 0 }
}

fn kept(refresh: Option<&str>, expires_at: Option<u64>) -> AuthConfig {
    AuthConfig {
        server_url: "https://mcp.example.com".to_string(),
        access_token: Some("old".to_string()),
        refresh_token: refresh.map(|t| t.to_string()),
        expires_at,
        auth_state: None,
        session_id: "sid".to_string(),
    }
}

fn awaiting() -> AuthClient {
    let mut c = client();
    c.initialize_auth_with("st".to_string());
    c
}

#[test]
fn callback_without_the_state_is_refused() {
    let text = "Other error: State mismatch, possible CSRF attack";
    match client().handle_callback("code", "st") {
        CallbackStep::Done(Err(e)) => assert_eq!(e.message(), text),
        other => panic!("{:?}", other),
    }
    for state in ["", "ST", "st ", "other"] {
        match awaiting().handle_callback("code", state).next(&awaiting(), discovered()) {
            CallbackStep::Done(Err(e)) => assert_eq!(e.message(), text),
            other => panic!("{:?}", other),
        }
    }
}

#[test]
fn code_is_exchanged_and_the_tokens_kept() {
    let c = awaiting();
    let step = c.handle_callback("the code", "st");
    assert!(matches!(&step, CallbackStep::Discover { code } if code == "the code"));
    let exchange = step.next(&c, discovered()).next(&c, registered());
    match &exchange {
        CallbackStep::Exchange { endpoint, form } => {
            assert_eq!(endpoint, "https://as/token");
            assert_eq!(form.code, ("code".to_string(), "the code".to_string()));
            assert_eq!(form.grant_type, ("grant_type".to_string(), "authorization_code".to_string()));
            assert_eq!(form.client_id, ("client_id".to_string(), "cid".to_string()));
            assert_eq!(form.redirect_uri, ("redirect_uri".to_string(), c.get_redirect_url()));
        }
        other => panic!("{:?}", other),
    }
    let save = exchange
        .next(&c, TokenEvent::Sent(Ok(200)))
        .next(&c, tokens(None, Some(60), 1_000));
    let saved = match &save {
        CallbackStep::Save { server_url_hash, config } => {
            assert_eq!(server_url_hash, c.get_server_url_hash());
            format!("{:?}", config)
        }
        other => panic!("{:?}", other),
    };
    match save.next(&c, TokenEvent::Saved(Ok(()))) {
        CallbackStep::Done(Ok(config)) => {
            assert_eq!(format!("{:?}", config), saved);
            assert_eq!(config.server_url, "https://mcp.example.com");
            assert_eq!(config.access_token, Some("at".to_string()));
            assert_eq!(config.refresh_token, None);
            assert_eq!(config.expires_at, Some(1_060));
            assert_eq!(config.auth_state, None);
            assert_eq!(config.session_id, c.session_id);
            assert!(!config.is_expired_at(1_059));
            assert!(config.is_expired_at(1_060));
        }
        other => panic!("{:?}", other),
    }
}

#[test]
fn tokens_last_an_hour_by_default() {
    assert_eq!(DEFAULT_EXPIRES_IN, 3600);
    match CallbackStep::ReadTokens.next(&client(), tokens(Some("rt"), None, 5)) {
        CallbackStep::Save { config, .. } => {
            assert_eq!(config.expires_at, Some(3_605));
            assert_eq!(config.refresh_token, Some("rt".to_string()));
        }
        other => panic!("{:?}", other),
    }
}

#[test]
fn exchange_fails_with_the_reason() {
    let c = awaiting();
    let fails = |step: CallbackStep, event: TokenEvent| match step.next(&c, event) {
        CallbackStep::Done(Err(e)) => e.message(),
        other => panic!("{:?}", other),
    };
    let discover = || CallbackStep::Discover { code: "c".to_string() };
    let register = || CallbackStep::Register { code: "c".to_string(), endpoint: "e".to_string() };
    assert_eq!(
        fails(discover(), TokenEvent::Discovered(Err(AuthError::Http("h".to_string())))),
        "HTTP error: h"
    );
    assert_eq!(
        fails(discover(), TokenEvent::Discovered(Ok(config(Field::Other)))),
        "Other error: No token_endpoint in OIDC configuration"
    );
    assert_eq!(
        fails(register(), TokenEvent::Registered(Err(AuthError::Io("i".to_string())))),
        "IO error: i"
    );
    assert_eq!(
        fails(register().next(&c, registered()), TokenEvent::Sent(Err("down".to_string()))),
        "HTTP error: down"
    );
    let refused = register().next(&c, registered()).next(&c, TokenEvent::Sent(Ok(401)));
    assert!(matches!(refused, CallbackStep::ReadError { status: 401 }));
    assert_eq!(
        fails(refused, TokenEvent::ErrorText(Some("no".to_string()))),
        "Other error: Failed to get tokens: 401 Unauthorized - no"
    );
    let unread = TokenEvent::Tokens { tokens: Err("d".to_string()), now: 0 };
    assert_eq!(fails(CallbackStep::ReadTokens, unread), "HTTP error: d");
    assert_eq!(
        fails(CallbackStep::ReadTokens, no_tokens()),
        "Other error: No access_token in token response"
    );
    let save = CallbackStep::Save { server_url_hash: "h".to_string(), config: kept(None, None) };
    assert_eq!(
        fails(save, TokenEvent::Saved(Err(ConfigError::Io("full".to_string())))),
        "Config error: IO error: full"
    );
}

fn refreshed(answer: TokenEvent) -> AuthConfig {
    let c = client();
    let save = c
        .refresh_token(&kept(Some("rt0"), Some(1)))
        .next(&c, discovered())
        .next(&c, registered())
        .next(&c, TokenEvent::Sent(Ok(200)))
        .next(&c, answer);
    assert!(matches!(
        &save,
        RefreshStep::Save { server_url_hash, .. } if server_url_hash == c.get_server_url_hash()
    ));
    match save.next(&c, TokenEvent::Saved(Ok(()))) {
        RefreshStep::Done(Ok(config)) => {
            assert_eq!(config.session_id, c.session_id);
            config
        }
        other => panic!("{:?}", other),
    }
}

#[test]
fn refresh_sends_the_refresh_token() {
    let c = client();
    let exchange = c
        .refresh_token(&kept(Some("rt0"), Some(1)))
        .next(&c, discovered())
        .next(&c, registered());
    match exchange {
        RefreshStep::Exchange { endpoint, form, .. } => {
            assert_eq!(endpoint, "https://as/token");
            assert_eq!(form.refresh_token, ("refresh_token".to_string(), "rt0".to_string()));
            assert_eq!(form.grant_type, ("grant_type".to_string(), "refresh_token".to_string()));
            assert_eq!(form.client_id, ("client_id".to_string(), "cid".to_string()));
        }
        other => panic!("{:?}", other),
    }
}

#[test]
fn refresh_token_is_kept_unless_replaced() {
    let same = refreshed(tokens(None, Some(10), 100));
    assert_eq!(same.refresh_token, Some("rt0".to_string()));
    assert_eq!(same.access_token, Some("at".to_string()));
    assert_eq!(same.expires_at, Some(110));
    let replaced = refreshed(tokens(Some("rt1"), None, 100));
    assert_eq!(replaced.refresh_token, Some("rt1".to_string()));
    assert_eq!(replaced.expires_at, Some(3_700));
}

#[test]
fn refused_refresh_asks_for_authentication() {
    let c = client();
    for status in [400, 401] {
        let step = RefreshStep::ReadError { status }.next(&c, TokenEvent::ErrorText(None));
        assert!(matches!(step, RefreshStep::Done(Err(AuthError::AuthRequired))));
    }
    match (RefreshStep::ReadError { status: 503 }).next(&c, TokenEvent::ErrorText(None)) {
        RefreshStep::Done(Err(AuthError::Other(m))) => {
            assert_eq!(m, "Failed to refresh token: 503 Service Unavailable - Unknown error");
        }
        other => panic!("{:?}", other),
    }
}

#[test]
fn refresh_fails_with_the_reason() {
    let c = client();
    let fails = |step: RefreshStep| match step {
        RefreshStep::Done(Err(e)) => e.message(),
        other => panic!("{:?}", other),
    };
    assert_eq!(fails(c.refresh_token(&kept(None, None))), "Other error: No refresh token found");
    let begin = || c.refresh_token(&kept(Some("rt"), None));
    assert_eq!(
        fails(begin().next(&c, TokenEvent::Discovered(Err(AuthError::InvalidServerUrl)))),
        "Invalid server URL"
    );
    assert_eq!(
        fails(begin().next(&c, TokenEvent::Discovered(Ok(config(Field::Absent))))),
        "Other error: No token_endpoint in OIDC configuration"
    );
    let register = || begin().next(&c, discovered());
    assert_eq!(
        fails(register().next(&c, TokenEvent::Registered(Err(AuthError::Io("i".to_string()))))),
        "IO error: i"
    );
    let exchange = || register().next(&c, registered());
    assert_eq!(
        fails(exchange().next(&c, TokenEvent::Sent(Err("down".to_string())))),
        "HTTP error: down"
    );
    assert!(matches!(
        exchange().next(&c, TokenEvent::Sent(Ok(301))),
        RefreshStep::ReadError { status: 301 }
    ));
    let read = || exchange().next(&c, TokenEvent::Sent(Ok(299)));
    let unread = TokenEvent::Tokens { tokens: Err("d".to_string()), now: 0 };
    assert_eq!(fails(read().next(&c, unread)), "HTTP error: d");
    assert_eq!(
        fails(read().next(&c, no_tokens())),
        "Other error: No access_token in refresh response"
    );
    let save = read().next(&c, tokens(None, None, 0));
    assert_eq!(
        fails(save.next(&c, TokenEvent::Saved(Err(ConfigError::Json("j".to_string()))))),
        "Config error: JSON error: j"
    );
}

#[test]
fn valid_tokens_are_used() {
    let c = client();
    match c.get_auth_config() {
        GetConfigStep::Load { server_url_hash } => {
            assert_eq!(server_url_hash, c.get_server_url_hash());
        }
        other => panic!("{:?}", other),
    }
    for expires_at in [None, Some(11)] {
        let loaded = GetConfigEvent::Loaded { config: Ok(kept(None, expires_at)), now: 10 };
        match c.get_auth_config().next(loaded) {
            GetConfigStep::Done(Ok(config)) => {
                assert_eq!(format!("{:?}", config), format!("{:?}", kept(None, expires_at)));
            }
            other => panic!("{:?}", other),
        }
    }
}

#[test]
fn expired_tokens_are_refreshed() {
    let c = client();
    let refresh = || {
        c.get_auth_config()
            .next(GetConfigEvent::Loaded { config: Ok(kept(Some("rt"), Some(10))), now: 10 })
    };
    assert!(matches!(refresh(), GetConfigStep::Refresh { .. }));
    let new = refresh().next(GetConfigEvent::Refreshed(Ok(kept(Some("rt2"), Some(99)))));
    assert!(matches!(new, GetConfigStep::Done(Ok(config)) if config.expires_at == Some(99)));
    let failed = refresh().next(GetConfigEvent::Refreshed(Err(AuthError::AuthRequired)));
    assert!(matches!(failed, GetConfigStep::Done(Err(AuthError::AuthRequired))));
}

#[test]
fn missing_tokens_require_authentication() {
    let c = client();
    let missing = GetConfigEvent::Loaded { config: Err(ConfigError::NotFound), now: 0 };
    assert!(matches!(
        c.get_auth_config().next(missing),
        GetConfigStep::Done(Err(AuthError::AuthRequired))
    ));
    let broken = GetConfigEvent::Loaded { config: Err(ConfigError::Json("j".to_string())), now: 0 };
    match c.get_auth_config().next(broken) {
        GetConfigStep::Done(Err(e)) => assert_eq!(e.message(), "Config error: JSON error: j"),
        other => panic!("{:?}", other),
    }
}

#[test]
fn events_tell_the_time() {
    let before = now_seconds(&mut Clock::new());
    match TokenEvent::tokens_read(Err("d".to_string()), &mut Clock::new()) {
        TokenEvent::Tokens { tokens: Err(m), now } => assert!(m == "d" && now >= before),
        other => panic!("{:?}", other),
    }
    match GetConfigEvent::loaded(Ok(kept(None, Some(7))), &mut Clock::new()) {
        GetConfigEvent::Loaded { config: Ok(c), now } => {
            assert!(c.expires_at == Some(7) && now >= before);
        }
        other => panic!("{:?}", other),
    }
}

#[test]
fn expiry_must_be_a_time() {
    assert!(tokens(None, Some(5), u64::MAX - 5).is_wf());
    assert!(!tokens(None, Some(6), u64::MAX - 5).is_wf());
    assert!(!tokens(None, None, u64::MAX).is_wf());
    assert!(no_tokens().is_wf());
    assert!(TokenEvent::Sent(Ok(100)).is_wf() && TokenEvent::Sent(Ok(999)).is_wf());
    assert!(!TokenEvent::Sent(Ok(99)).is_wf() && !TokenEvent::Sent(Ok(1000)).is_wf());
}
