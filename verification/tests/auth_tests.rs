use rmcp_proxy::auth::{
    well_known_url, AuthClient, AuthError, ClientRegistration, DiscoverEvent, DiscoverStep,
};
use rmcp_proxy::authorize::{authorization_url, InitializeEvent, InitializeStep};
use rmcp_proxy::config::{ConfigError, ConfigManager, FilePath};
use rmcp_proxy::oidc::{to_field, to_scopes, Field, OidcConfig};
use rmcp_proxy::outside::{Clock, JsonMember, UrlParts};
use rmcp_proxy::registration::{RegisterEvent, RegisterStep};
use rmcp_proxy::utils::hash_server_url;

const HOUR: i128 = 3_600_000_000_000;

fn files() -> ConfigManager {
    ConfigManager::new(FilePath::Root("/cfg".to_string()))
}

fn client_of(url: &str) -> AuthClient {
    match AuthClient::new(url.to_string(), 9292, files()) {
        Ok(client) => client,
        Err(e) => panic!("{}", e.message()),
    }
}

fn client() -> AuthClient {
    client_of("https://mcp.example.com/v1/sse")
}

fn config() -> OidcConfig {
    let text = |t: &str| Field::Text(t.to_string());
    OidcConfig {
        authorization_endpoint: text("https://as.example.com/authorize"),
        token_endpoint: text("https://as.example.com/token"),
        issuer: text("https://as.example.com"),
        registration_endpoint: text("https://as.example.com/register"),
        scopes_supported: Some("read write".to_string()),
    }
}

fn registration(id: &str) -> ClientRegistration {
    ClientRegistration {
        client_id: id.to_string(),
        client_secret: None,
        registration_access_token: None,
        registration_client_uri: None,
        client_id_issued_at: None,
        client_secret_expires_at: None,
    }
}

fn error_of(url: &str) -> AuthError {
    match AuthClient::new(url.to_string(), 1, files()) {
        Ok(_) => panic!("{}", url),
        Err(e) => e,
    }
}

#[test]
fn errors_have_their_texts() {
    let s = || "x".to_string();
    assert_eq!(AuthError::Config(ConfigError::Io(s())).message(), "Config error: IO error: x");
    assert_eq!(AuthError::Http(s()).message(), "HTTP error: x");
    assert_eq!(AuthError::Url(s()).message(), "URL error: x");
    assert_eq!(AuthError::Io(s()).message(), "IO error: x");
    assert_eq!(AuthError::Serialization(s()).message(), "Serialization error: x");
    let required: AuthError = AuthError::AuthRequired;
    assert_eq!(required.message(), "Authentication required");
    let invalid: AuthError = AuthError::InvalidServerUrl;
    assert_eq!(invalid.message(), "Invalid server URL");
    assert_eq!(AuthError::Other(s()).message(), "Other error: x");
}

#[test]
fn client_belongs_to_its_server() {
    let c = client();
    assert_eq!(c.server_url, "https://mcp.example.com/v1/sse");
    assert_eq!(c.get_server_url_hash(), hash_server_url("https://mcp.example.com/v1/sse"));
    assert_eq!(c.get_redirect_url(), "http://127.0.0.1:9292/oauth/callback");
    assert_eq!(c.session_id.len(), 36);
    assert!(c.auth_state.is_none());
    assert!(c.client_registration.is_none());
    assert_ne!(client().session_id, client().session_id);
}

#[test]
fn only_http_urls_are_of_servers() {
    assert!(matches!(error_of("not a url"), AuthError::Url(_)));
    assert_eq!(error_of("not a url").message(), "URL error: relative URL without a base");
    assert!(matches!(error_of("ftp://example.com"), AuthError::InvalidServerUrl));
    assert!(matches!(error_of("file:///tmp"), AuthError::InvalidServerUrl));
    assert_eq!(client_of("HTTP://Example.com").server_url, "HTTP://Example.com");
}

#[test]
fn parsed_url_decides() {
    let parts = |scheme: &str| {
        Ok(UrlParts { scheme: scheme.to_string(), host: None, port: None })
    };
    let of = |parsed| {
        AuthClient::with_parsed_url(parsed, "u".to_string(), 1, files(), "id".to_string())
    };
    assert!(matches!(of(parts("httpx")), Ok(_)));
    assert!(matches!(of(parts("ws")), Err(AuthError::InvalidServerUrl)));
    match of(Err("bad".to_string())) {
        Err(AuthError::Url(m)) => assert_eq!(m, "bad"),
        other => panic!("{:?}", other),
    }
}

fn fetched_url(url: &str) -> String {
    match client_of(url).discover_openid_config(&mut Clock::new()) {
        DiscoverStep::Fetch { url } => url,
        other => panic!("{:?}", other),
    }
}

#[test]
fn discovery_asks_the_origin_of_the_server() {
    let at = "/.well-known/oauth-authorization-server";
    assert_eq!(fetched_url("https://mcp.example.com/v1/sse?x=1"), format!("https://mcp.example.com{}", at));
    assert_eq!(fetched_url("http://localhost:8080/mcp"), format!("http://localhost:8080{}", at));
    assert_eq!(fetched_url("https://h:443/p"), format!("https://h{}", at));
    assert_eq!(fetched_url("http://h:80/p"), format!("http://h{}", at));
    assert_eq!(fetched_url("http://h:443/p"), format!("http://h:443{}", at));
}

#[test]
fn default_port_is_left_out() {
    let url = |scheme: &str, port| {
        well_known_url(&UrlParts {
            scheme: scheme.to_string(),
            host: Some("h".to_string()),
            port,
        })
    };
    let plain = Some("https://h/.well-known/oauth-authorization-server".to_string());
    assert_eq!(url("https", Some(443)), plain);
    assert_eq!(url("https", None), plain);
    assert_eq!(
        url("https", Some(80)),
        Some("https://h:80/.well-known/oauth-authorization-server".to_string())
    );
    assert_eq!(well_known_url(&UrlParts { scheme: "http".to_string(), host: None, port: None }), None);
}

#[test]
fn discovery_without_a_url_or_host_fails() {
    let no_host = UrlParts { scheme: "https".to_string(), host: None, port: None };
    assert!(matches!(
        client().discover_at(Ok(no_host), 0),
        DiscoverStep::Done(Err(AuthError::InvalidServerUrl))
    ));
    match client().discover_at(Err("bad".to_string()), 0) {
        DiscoverStep::Done(Err(AuthError::Url(m))) => assert_eq!(m, "bad"),
        other => panic!("{:?}", other),
    }
}

fn body() -> Vec<u8> {
    br#"{"issuer": "i", "authorization_endpoint": "a", "token_endpoint": "t",
        "registration_endpoint": 5, "scopes_supported": ["x", 1, "y"]}"#
        .to_vec()
}

#[test]
fn discovered_configuration_is_kept_for_an_hour() {
    let mut c = client();
    let read = c.discover_next(
        DiscoverStep::Fetch { url: "u".to_string() },
        DiscoverEvent::Sent(Ok(200)),
    );
    assert!(matches!(read, DiscoverStep::ReadBody));
    let done = c.discover_next(read, DiscoverEvent::Body { body: Ok(body()), now: 1_000 });
    match done {
        DiscoverStep::Done(Ok(config)) => {
            assert!(matches!(&config.authorization_endpoint, Field::Text(t) if t == "a"));
            assert!(matches!(&config.token_endpoint, Field::Text(t) if t == "t"));
            assert!(matches!(&config.issuer, Field::Text(t) if t == "i"));
            assert!(matches!(config.registration_endpoint, Field::Other));
            assert_eq!(config.scopes_supported, Some("x y".to_string()));
        }
        other => panic!("{:?}", other),
    }
    let parsed = || {
        Ok(UrlParts {
            scheme: "https".to_string(),
            host: Some("mcp.example.com".to_string()),
            port: None,
        })
    };
    assert!(matches!(c.discover_at(parsed(), 1_000), DiscoverStep::Done(Ok(_))));
    assert!(matches!(c.discover_at(parsed(), 1_000 + HOUR - 1), DiscoverStep::Done(Ok(_))));
    assert!(matches!(c.discover_at(parsed(), 1_000 + HOUR), DiscoverStep::Fetch { .. }));
    assert!(matches!(c.discover_at(parsed(), 999), DiscoverStep::Fetch { .. }));
    assert!(matches!(c.discover_openid_config(&mut Clock::new()), DiscoverStep::Fetch { .. }));
    let again = c.discover_next(DiscoverStep::ReadBody, DiscoverEvent::body_read(Ok(body()), &mut Clock::new()));
    assert!(matches!(again, DiscoverStep::Done(Ok(_))));
    assert!(matches!(c.discover_openid_config(&mut Clock::new()), DiscoverStep::Done(Ok(_))));
    c.clear_caches();
    assert!(matches!(c.discover_openid_config(&mut Clock::new()), DiscoverStep::Fetch { .. }));
}

#[test]
fn discovery_fails_with_the_reason() {
    let mut c = client();
    let fetch = || DiscoverStep::Fetch { url: "u".to_string() };
    match c.discover_next(fetch(), DiscoverEvent::Sent(Err("refused".to_string()))) {
        DiscoverStep::Done(Err(e)) => assert_eq!(e.message(), "HTTP error: refused"),
        other => panic!("{:?}", other),
    }
    let no = c.discover_next(fetch(), DiscoverEvent::Sent(Ok(404)));
    assert!(matches!(no, DiscoverStep::ReadError { code: 404 }));
    match c.discover_next(no, DiscoverEvent::ErrorText(Some("nothing here".to_string()))) {
        DiscoverStep::Done(Err(AuthError::Other(m))) => {
            assert_eq!(m, "Failed to get OpenID configuration: 404 Not Found - nothing here");
        }
        other => panic!("{:?}", other),
    }
    match c.discover_next(DiscoverStep::ReadError { code: 500 }, DiscoverEvent::ErrorText(None)) {
        DiscoverStep::Done(Err(AuthError::Other(m))) => assert_eq!(
            m,
            "Failed to get OpenID configuration: 500 Internal Server Error - Unknown error"
        ),
        other => panic!("{:?}", other),
    }
    let cut = DiscoverEvent::Body { body: Err("cut off".to_string()), now: 0 };
    match c.discover_next(DiscoverStep::ReadBody, cut) {
        DiscoverStep::Done(Err(AuthError::Http(m))) => assert_eq!(m, "cut off"),
        other => panic!("{:?}", other),
    }
    let no_json = DiscoverEvent::Body { body: Ok(b"<html>".to_vec()), now: 0 };
    match c.discover_next(DiscoverStep::ReadBody, no_json) {
        DiscoverStep::Done(Err(AuthError::Http(m))) => assert_eq!(m, "error decoding response body"),
        other => panic!("{:?}", other),
    }
    assert!(matches!(c.discover_openid_config(&mut Clock::new()), DiscoverStep::Fetch { .. }));
}

#[test]
fn required_fields_are_required() {
    let missing = |body: &str| match OidcConfig::read(body.as_bytes()) {
        Err(AuthError::Other(m)) => m,
        other => panic!("{:?}", other),
    };
    let text = "OIDC configuration missing required field: ";
    assert_eq!(missing("{}"), format!("{}authorization_endpoint", text));
    assert_eq!(missing("[1, 2]"), format!("{}authorization_endpoint", text));
    assert_eq!(missing(r#"{"authorization_endpoint": null}"#), format!("{}token_endpoint", text));
    assert_eq!(
        missing(r#"{"authorization_endpoint": "a", "token_endpoint": "t"}"#),
        format!("{}issuer", text)
    );
    assert!(matches!(config().checked(), Ok(_)));
}

#[test]
fn members_are_used_as_they_come() {
    assert!(matches!(to_field(JsonMember::Absent), Field::Absent));
    assert!(matches!(to_field(JsonMember::Null), Field::Other));
    assert!(matches!(to_field(JsonMember::Bool), Field::Other));
    assert!(matches!(to_field(JsonMember::Text("x".to_string())), Field::Text(t) if t == "x"));
    assert_eq!(to_scopes(JsonMember::Absent), None);
    assert_eq!(to_scopes(JsonMember::Text("openid".to_string())), None);
    assert_eq!(to_scopes(JsonMember::List(vec![])), Some("".to_string()));
    let list = vec![None, Some("a".to_string()), None, Some("b".to_string())];
    assert_eq!(to_scopes(JsonMember::List(list)), Some("a b".to_string()));
    assert_eq!(to_scopes(JsonMember::List(vec![Some("".to_string()), Some("b".to_string())])), Some(" b".to_string()));
}

#[test]
fn registration_is_sent_and_kept() {
    let mut c = client();
    let path = format!("client-registration-{}.json", c.get_server_url_hash());
    let load = c.ensure_client_registration();
    match &load {
        RegisterStep::Load { path: FilePath::Within(_, name) } => assert_eq!(name, &path),
        other => panic!("{:?}", other),
    }
    let discover = c.register_next(load, RegisterEvent::Loaded(Err(ConfigError::NotFound)));
    assert!(matches!(discover, RegisterStep::Discover));
    let send = c.register_next(discover, RegisterEvent::Discovered(Ok(config())));
    match &send {
        RegisterStep::Send { endpoint, request } => {
            assert_eq!(endpoint, "https://as.example.com/register");
            assert_eq!(request.client_name, "mcp-proxy");
            assert_eq!(request.application_type, "native");
            assert_eq!(request.redirect_uri, c.get_redirect_url());
            assert_eq!(request.token_endpoint_auth_method, "none");
            assert_eq!(request.grant_types.0, "authorization_code");
            assert_eq!(request.grant_types.1, "refresh_token");
            assert_eq!(request.response_type, "code");
            assert_eq!(request.scope, "openid");
        }
        other => panic!("{:?}", other),
    }
    let read = c.register_next(send, RegisterEvent::Sent(Ok(201)));
    let serialize = c.register_next(read, RegisterEvent::Registered(Ok(registration("id1"))));
    let dir = c.register_next(serialize, RegisterEvent::Serialized(Ok("{r}".to_string())));
    let write = c.register_next(dir, RegisterEvent::Dir(Ok(())));
    match &write {
        RegisterStep::Write { path: FilePath::Within(_, name), text, .. } => {
            assert_eq!(name, &path);
            assert_eq!(text, "{r}");
        }
        other => panic!("{:?}", other),
    }
    assert!(c.client_registration.is_none());
    match c.register_next(write, RegisterEvent::Written(Ok(()))) {
        RegisterStep::Done(Ok(r)) => assert_eq!(r.client_id, "id1"),
        other => panic!("{:?}", other),
    }
    match c.ensure_client_registration() {
        RegisterStep::Done(Ok(r)) => assert_eq!(r.client_id, "id1"),
        other => panic!("{:?}", other),
    }
    c.clear_caches();
    assert!(matches!(c.ensure_client_registration(), RegisterStep::Load { .. }));
}

#[test]
fn registration_in_its_file_is_used() {
    let mut c = client();
    let load = c.ensure_client_registration();
    match c.register_next(load, RegisterEvent::Loaded(Ok(registration("id2")))) {
        RegisterStep::Done(Ok(r)) => assert_eq!(r.client_id, "id2"),
        other => panic!("{:?}", other),
    }
    assert!(matches!(c.client_registration, Some(r) if r.client_id == "id2"));
}

#[test]
fn registration_fails_with_the_reason() {
    let mut c = client();
    let fails = |c: &mut AuthClient, step: RegisterStep, event: RegisterEvent| {
        match c.register_next(step, event) {
            RegisterStep::Done(Err(e)) => e.message(),
            other => panic!("{:?}", other),
        }
    };
    let undiscovered = RegisterEvent::Discovered(Err(AuthError::InvalidServerUrl));
    assert_eq!(fails(&mut c, RegisterStep::Discover, undiscovered), "Invalid server URL");
    let none = OidcConfig { registration_endpoint: Field::Absent, ..config() };
    assert_eq!(
        fails(&mut c, RegisterStep::Discover, RegisterEvent::Discovered(Ok(none))),
        "Other error: No registration_endpoint in OIDC configuration"
    );
    let send = match c.register_next(RegisterStep::Discover, RegisterEvent::Discovered(Ok(config()))) {
        RegisterStep::Send { endpoint, request } => RegisterStep::Send { endpoint, request },
        other => panic!("{:?}", other),
    };
    assert_eq!(fails(&mut c, send, RegisterEvent::Sent(Err("down".to_string()))), "HTTP error: down");
    assert_eq!(
        fails(
            &mut c,
            RegisterStep::ReadError { code: 403 },
            RegisterEvent::ErrorText(Some("no".to_string()))
        ),
        "Other error: Failed to register client: 403 Forbidden - no"
    );
    assert_eq!(
        fails(&mut c, RegisterStep::ReadRegistration, RegisterEvent::Registered(Err("d".to_string()))),
        "HTTP error: d"
    );
    let serialize = RegisterStep::Serialize { registration: registration("x") };
    assert_eq!(
        fails(&mut c, serialize, RegisterEvent::Serialized(Err("s".to_string()))),
        "Serialization error: s"
    );
    let dir = RegisterStep::EnsureDir { registration: registration("x"), text: "t".to_string() };
    assert_eq!(
        fails(&mut c, dir, RegisterEvent::Dir(Err(ConfigError::Io("i".to_string())))),
        "Config error: IO error: i"
    );
    let write = RegisterStep::Write {
        path: FilePath::Root("p".to_string()),
        registration: registration("x"),
        text: "t".to_string(),
    };
    assert_eq!(fails(&mut c, write, RegisterEvent::Written(Err("w".to_string()))), "IO error: w");
    assert!(c.client_registration.is_none());
}

#[test]
fn authorization_url_carries_its_parameters() {
    let url = authorization_url("https://as.example.com/a?x=1", "http://127.0.0.1:9292/cb", "st", "c d", "openid email");
    match url {
        Ok(url) => assert_eq!(
            url,
            "https://as.example.com/a?x=1&redirect_uri=http%3A%2F%2F127.0.0.1%3A9292%2Fcb&state=st&response_type=code&client_id=c+d&scope=openid+email"
        ),
        Err(e) => panic!("{}", e.message()),
    }
    match authorization_url("nowhere", "r", "s", "c", "x") {
        Err(AuthError::Url(m)) => assert_eq!(m, "relative URL without a base"),
        other => panic!("{:?}", other),
    }
}

#[test]
fn authorization_begins_with_a_random_state() {
    let mut c = client();
    let step = c.initialize_auth();
    let state = match &step {
        InitializeStep::Discover { state, redirect_url } => {
            assert_eq!(redirect_url, &c.get_redirect_url());
            state.clone()
        }
        other => panic!("{:?}", other),
    };
    assert_eq!(state.len(), 36);
    assert_eq!(c.auth_state, Some(state.clone()));
    let found = InitializeEvent::Discovered(Ok(config()));
    assert!(step.is_within_limits(&found));
    let register = step.next(found);
    let registered = InitializeEvent::Registered(Ok(registration("id")));
    assert!(register.is_within_limits(&registered));
    match register.next(registered) {
        InitializeStep::Done(Ok(url)) => {
            assert!(url.starts_with("https://as.example.com/authorize?redirect_uri="));
            assert!(url.contains(&format!("&state={}&", state)));
            assert!(url.ends_with("&response_type=code&client_id=id&scope=read+write"));
        }
        other => panic!("{:?}", other),
    }
}

#[test]
fn url_has_a_limit() {
    let register = |endpoint: String| InitializeStep::Register {
        endpoint,
        scopes: "s".to_string(),
        state: "t".to_string(),
        redirect_url: "r".to_string(),
    };
    let fits = |endpoint: String| {
        register(endpoint).is_within_limits(&InitializeEvent::Registered(Ok(registration("id"))))
    };
    assert!(fits("https://as.example.com/".to_string()));
    assert!(fits("a".repeat(10_000_000)));
    assert!(!fits("a".repeat(268_435_456)));
}

#[test]
fn authorization_asks_for_default_scopes() {
    let mut c = client();
    let open = OidcConfig { scopes_supported: None, ..config() };
    let step = c
        .initialize_auth_with("st".to_string())
        .next(InitializeEvent::Discovered(Ok(open)))
        .next(InitializeEvent::Registered(Ok(registration("id"))));
    match step {
        InitializeStep::Done(Ok(url)) => assert!(url.ends_with("&scope=openid+profile+email")),
        other => panic!("{:?}", other),
    }
}

#[test]
fn authorization_fails_with_the_reason() {
    let mut c = client();
    let fails = |step: InitializeStep| match step {
        InitializeStep::Done(Err(e)) => e.message(),
        other => panic!("{:?}", other),
    };
    let begin = |c: &mut AuthClient| c.initialize_auth_with("st".to_string());
    let undiscovered = InitializeEvent::Discovered(Err(AuthError::Http("h".to_string())));
    assert_eq!(fails(begin(&mut c).next(undiscovered)), "HTTP error: h");
    let other = OidcConfig { authorization_endpoint: Field::Other, ..config() };
    assert_eq!(
        fails(begin(&mut c).next(InitializeEvent::Discovered(Ok(other)))),
        "Other error: No authorization_endpoint in OIDC configuration"
    );
    let unregistered = InitializeEvent::Registered(Err(AuthError::Io("i".to_string())));
    let register = begin(&mut c).next(InitializeEvent::Discovered(Ok(config())));
    assert_eq!(fails(register.next(unregistered)), "IO error: i");
    let odd = OidcConfig { authorization_endpoint: Field::Text("odd".to_string()), ..config() };
    let step = begin(&mut c)
        .next(InitializeEvent::Discovered(Ok(odd)))
        .next(InitializeEvent::Registered(Ok(registration("id"))));
    assert_eq!(fails(step), "URL error: relative URL without a base");
    assert_eq!(c.auth_state, Some("st".to_string()));
}

#[test]
fn operations_keep_whose_client_it_is() {
    let mut c = client();
    let of = |c: &AuthClient| {
        (
            c.server_url.clone(),
            c.get_server_url_hash().to_string(),
            c.session_id.clone(),
            c.get_redirect_url(),
        )
    };
    let before = of(&c);
    c.discover_next(DiscoverStep::ReadBody, DiscoverEvent::body_read(Ok(body()), &mut Clock::new()));
    let load = c.ensure_client_registration();
    c.register_next(load, RegisterEvent::Loaded(Ok(registration("id"))));
    c.initialize_auth();
    c.clear_caches();
    assert_eq!(of(&c), before);
    assert!(c.auth_state.is_some());
}
