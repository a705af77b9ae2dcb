//! The OAuth client: discovery of the authorization server, registration of the
//! client, and the tokens.
//!
//! Each operation is a sequence of steps. A step says what is to be done outside;
//! what came of it is handed back as an event, and the next step follows. An event
//! for which a step does not wait leaves the step as it is.
use vstd::prelude::*;
use vstd::string::*;

use crate::config::{ConfigError, ConfigManager};
use crate::oidc::{config_in, OidcConfig};
use crate::outside::{is_status, is_uuid_text, status_text, url_parse, Clock, UrlParts};
use crate::outside::{parse_url, print_status, random_uuid};
use crate::text::{decimal, decimal_text, has_prefix, opt_view, result_view, same_text};
use crate::utils::{hash_server_url, now_nanos, url_hash, OIDC_CACHE_TTL};

verus! {

/// What can go wrong in an operation of the OAuth client. A message stands for the
/// error that another party gave.
#[derive(Debug)]
pub enum AuthError<S = String> {
    Config(ConfigError<S>),
    Http(S),
    Url(S),
    Io(S),
    Serialization(S),
    AuthRequired,
    InvalidServerUrl,
    Other(S),
}

impl View for AuthError {
    type V = AuthError<Seq<char>>;

    open spec fn view(&self) -> AuthError<Seq<char>> {
        match *self {
            AuthError::Config(e) => AuthError::Config(e@),
            AuthError::Http(m) => AuthError::Http(m@),
            AuthError::Url(m) => AuthError::Url(m@),
            AuthError::Io(m) => AuthError::Io(m@),
            AuthError::Serialization(m) => AuthError::Serialization(m@),
            AuthError::AuthRequired => AuthError::AuthRequired,
            AuthError::InvalidServerUrl => AuthError::InvalidServerUrl,
            AuthError::Other(m) => AuthError::Other(m@),
        }
    }
}

impl AuthError<Seq<char>> {
    /// The error as it is shown to a user.
    pub open spec fn text(self) -> Seq<char> {
        match self {
            AuthError::Config(e) => "Config error: "@ + e.text(),
            AuthError::Http(m) => "HTTP error: "@ + m,
            AuthError::Url(m) => "URL error: "@ + m,
            AuthError::Io(m) => "IO error: "@ + m,
            AuthError::Serialization(m) => "Serialization error: "@ + m,
            AuthError::AuthRequired => "Authentication required"@,
            AuthError::InvalidServerUrl => "Invalid server URL"@,
            AuthError::Other(m) => "Other error: "@ + m,
        }
    }
}

impl AuthError {
    /// The error as it is shown to a user.
    pub fn message(&self) -> (r: String)
        ensures
            r@ == self@.text(),
    {
        match self {
            AuthError::Config(e) => "Config error: ".to_string().concat(e.message().as_str()),
            AuthError::Http(m) => "HTTP error: ".to_string().concat(m.as_str()),
            AuthError::Url(m) => "URL error: ".to_string().concat(m.as_str()),
            AuthError::Io(m) => "IO error: ".to_string().concat(m.as_str()),
            AuthError::Serialization(m) => "Serialization error: ".to_string().concat(m.as_str()),
            AuthError::AuthRequired => "Authentication required".to_string(),
            AuthError::InvalidServerUrl => "Invalid server URL".to_string(),
            AuthError::Other(m) => "Other error: ".to_string().concat(m.as_str()),
        }
    }

    /// An error that is a fixed text.
    pub(crate) fn other(text: &str) -> (r: Self)
        ensures
            r@ == AuthError::Other(text@),
    {
        AuthError::Other(text.to_string())
    }
}

/// Whether a status code tells of success.
pub open spec fn is_success(code: u16) -> bool {
    200 <= code < 300
}

/// The error of a request that was answered with another status than success.
pub open spec fn failed_request(what: Seq<char>, code: u16, text: Option<Seq<char>>) -> Seq<char> {
    what + ": "@ + status_text(code) + " - "@ + match text {
        Some(t) => t,
        None => "Unknown error"@,
    }
}

/// The error of a request that was answered with another status than success.
/// `text` is the text of the answer, where it could be read.
pub(crate) fn request_failure(what: &str, code: u16, text: Option<String>) -> (r: String)
    requires
        is_status(code),
    ensures
        r@ == failed_request(what@, code, opt_view(text)),
{
    let shown: String = match text {
        Some(t) => t,
        None => "Unknown error".to_string(),
    };
    what.to_string().concat(": ").concat(print_status(code).as_str()).concat(" - ").concat(
        shown.as_str(),
    )
}

// ---------------------------------------------------------------- data

/// What the authorization server answered to a registration.
#[derive(Debug)]
pub struct ClientRegistration<S = String> {
    pub client_id: S,
    pub client_secret: Option<S>,
    pub registration_access_token: Option<S>,
    pub registration_client_uri: Option<S>,
    pub client_id_issued_at: Option<u64>,
    pub client_secret_expires_at: Option<u64>,
}

impl View for ClientRegistration {
    type V = ClientRegistration<Seq<char>>;

    open spec fn view(&self) -> ClientRegistration<Seq<char>> {
        ClientRegistration {
            client_id: self.client_id@,
            client_secret: opt_view(self.client_secret),
            registration_access_token: opt_view(self.registration_access_token),
            registration_client_uri: opt_view(self.registration_client_uri),
            client_id_issued_at: self.client_id_issued_at,
            client_secret_expires_at: self.client_secret_expires_at,
        }
    }
}

impl Clone for ClientRegistration {
    fn clone(&self) -> (r: Self)
        ensures
            r@ == self@,
    {
        ClientRegistration {
            client_id: self.client_id.clone(),
            client_secret: self.client_secret.clone(),
            registration_access_token: self.registration_access_token.clone(),
            registration_client_uri: self.registration_client_uri.clone(),
            client_id_issued_at: self.client_id_issued_at,
            client_secret_expires_at: self.client_secret_expires_at,
        }
    }
}

/// What the token endpoint answered.
#[derive(Debug)]
pub struct AuthTokenResponse<S = String> {
    pub access_token: Option<S>,
    pub refresh_token: Option<S>,
    pub expires_in: Option<u64>,
}

impl View for AuthTokenResponse {
    type V = AuthTokenResponse<Seq<char>>;

    open spec fn view(&self) -> AuthTokenResponse<Seq<char>> {
        AuthTokenResponse {
            access_token: opt_view(self.access_token),
            refresh_token: opt_view(self.refresh_token),
            expires_in: self.expires_in,
        }
    }
}

// ---------------------------------------------------------------- the client

/// The host on which the callback of an authorization is served.
pub const CALLBACK_HOST: &'static str = "127.0.0.1";

/// The path under which the callback of an authorization is served.
pub const CALLBACK_PATH: &'static str = "/oauth/callback";

/// The URL of a server at this host, port and path.
pub open spec fn callback_url(host: Seq<char>, port: u16, path: Seq<char>) -> Seq<char> {
    "http://"@ + host + ":"@ + decimal_text(port as nat) + path
}

/// The OpenID configuration that was discovered last.
#[derive(Debug)]
pub struct OidcConfigCache<S = String> {
    pub config: Option<OidcConfig<S>>,
    /// When it was discovered, in nanoseconds from the Unix epoch.
    pub last_updated: Option<i128>,
    /// How long it is used, in seconds.
    pub ttl: u64,
}

impl View for OidcConfigCache {
    type V = OidcConfigCache<Seq<char>>;

    open spec fn view(&self) -> OidcConfigCache<Seq<char>> {
        OidcConfigCache {
            config: opt_view(self.config),
            last_updated: self.last_updated,
            ttl: self.ttl,
        }
    }
}

impl OidcConfigCache<Seq<char>> {
    /// A cache that holds nothing.
    pub open spec fn cleared() -> Self {
        OidcConfigCache { config: None, last_updated: None, ttl: OIDC_CACHE_TTL }
    }

    /// The configuration, if it may still be used at `now`.
    pub open spec fn fresh(self, now: i128) -> Option<OidcConfig<Seq<char>>> {
        match (self.config, self.last_updated) {
            (Some(config), Some(at)) => if 0 <= now - at < self.ttl * 1_000_000_000 {
                Some(config)
            } else {
                None
            },
            _ => None,
        }
    }
}

impl OidcConfigCache {
    /// A cache that holds nothing.
    fn empty() -> (r: Self)
        ensures
            r@ == OidcConfigCache::<Seq<char>>::cleared(),
    {
        OidcConfigCache { config: None, last_updated: None, ttl: OIDC_CACHE_TTL }
    }

    /// The configuration, if it may still be used at `now`.
    pub fn get(&self, now: i128) -> (r: Option<OidcConfig>)
        ensures
            opt_view(r) == self@.fresh(now),
    {
        match (&self.config, self.last_updated) {
            (Some(config), Some(at)) => match now.checked_sub(at) {
                Some(age) => {
                    if 0 <= age && age < self.ttl as i128 * 1_000_000_000 {
                        Some(config.clone())
                    } else {
                        None
                    }
                },
                None => None,
            },
            _ => None,
        }
    }
}

/// The OAuth client of one server.
#[derive(Debug)]
pub struct AuthClient<S = String> {
    pub server_url: S,
    pub config_manager: ConfigManager<S>,
    pub server_url_hash: S,
    /// The state of the authorization under way, which its callback must carry.
    pub auth_state: Option<S>,
    pub session_id: S,
    pub redirect_port: u16,
    pub oidc_config_cache: OidcConfigCache<S>,
    pub client_registration: Option<ClientRegistration<S>>,
}

impl View for AuthClient {
    type V = AuthClient<Seq<char>>;

    open spec fn view(&self) -> AuthClient<Seq<char>> {
        AuthClient {
            server_url: self.server_url@,
            config_manager: self.config_manager@,
            server_url_hash: self.server_url_hash@,
            auth_state: opt_view(self.auth_state),
            session_id: self.session_id@,
            redirect_port: self.redirect_port,
            oidc_config_cache: self.oidc_config_cache@,
            client_registration: opt_view(self.client_registration),
        }
    }
}

/// Why a URL, parsed with this outcome, is not that of a server.
pub open spec fn parsed_url_error(parsed: Result<UrlParts<Seq<char>>, Seq<char>>) -> Option<
    AuthError<Seq<char>>,
> {
    match parsed {
        Err(m) => Some(AuthError::Url(m)),
        Ok(parts) => if "http"@.is_prefix_of(parts.scheme) {
            None
        } else {
            Some(AuthError::InvalidServerUrl)
        },
    }
}

/// Why a URL is not that of a server.
pub open spec fn server_url_error(server_url: Seq<char>) -> Option<AuthError<Seq<char>>> {
    parsed_url_error(url_parse(server_url))
}

impl AuthClient<Seq<char>> {
    /// A client that has done nothing yet.
    pub open spec fn fresh(
        server_url: Seq<char>,
        redirect_port: u16,
        config_manager: ConfigManager<Seq<char>>,
        session_id: Seq<char>,
    ) -> Self {
        AuthClient {
            server_url,
            config_manager,
            server_url_hash: url_hash(server_url),
            auth_state: None,
            session_id,
            redirect_port,
            oidc_config_cache: OidcConfigCache::<Seq<char>>::cleared(),
            client_registration: None,
        }
    }

    /// What holds of every client: its URL is that of a server, its files are
    /// named by that URL, its identifiers are random, and a configuration that it
    /// keeps has every required field.
    pub open spec fn wf(self) -> bool {
        &&& server_url_error(self.server_url) is None
        &&& self.server_url_hash == url_hash(self.server_url)
        &&& is_uuid_text(self.session_id)
        &&& self.auth_state matches Some(state) ==> is_uuid_text(state)
        &&& self.oidc_config_cache.ttl == OIDC_CACHE_TTL
        &&& self.oidc_config_cache.config matches Some(config) ==> config.missing_field() is None
    }

    /// The URL to which the authorization server sends the user back.
    pub open spec fn redirect_url(self) -> Seq<char> {
        callback_url(CALLBACK_HOST@, self.redirect_port, CALLBACK_PATH@)
    }

    /// The client once its caches were cleared.
    pub open spec fn without_caches(self) -> Self {
        AuthClient {
            client_registration: None,
            oidc_config_cache: OidcConfigCache::<Seq<char>>::cleared(),
            ..self
        }
    }
}

impl AuthClient {
    /// The client of the server at `server_url`, which awaits the callback on
    /// `redirect_port`.
    pub fn new(server_url: String, redirect_port: u16, config_manager: ConfigManager) -> (r: Result<
        AuthClient,
        AuthError,
    >)
        ensures
            match server_url_error(server_url@) {
                Some(e) => r matches Err(given) && given@ == e,
                None => r matches Ok(client) && is_uuid_text(client@.session_id) && client@
                    == AuthClient::fresh(
                    server_url@,
                    redirect_port,
                    config_manager@,
                    client@.session_id,
                ) && client@.wf(),
            },
    {
        let parsed = parse_url(server_url.as_str());
        let session_id = random_uuid();
        AuthClient::with_parsed_url(parsed, server_url, redirect_port, config_manager, session_id)
    }

    /// The client of the server at `server_url`, once that URL was parsed.
    pub fn with_parsed_url(
        parsed: Result<UrlParts, String>,
        server_url: String,
        redirect_port: u16,
        config_manager: ConfigManager,
        session_id: String,
    ) -> (r: Result<AuthClient, AuthError>)
        ensures
            match parsed_url_error(result_view(parsed)) {
                Some(e) => r matches Err(given) && given@ == e,
                None => r matches Ok(client) && client@ == AuthClient::fresh(
                    server_url@,
                    redirect_port,
                    config_manager@,
                    session_id@,
                ),
            },
    {
        match parsed {
            Err(m) => Err(AuthError::Url(m)),
            Ok(parts) => {
                if !has_prefix(parts.scheme.as_str(), "http") {
                    return Err(AuthError::InvalidServerUrl);
                }
                let server_url_hash = hash_server_url(server_url.as_str());
                Ok(
                    AuthClient {
                        server_url,
                        config_manager,
                        server_url_hash,
                        auth_state: None,
                        session_id,
                        redirect_port,
                        oidc_config_cache: OidcConfigCache::empty(),
                        client_registration: None,
                    },
                )
            },
        }
    }

    /// The hash by which the files of the server are named.
    pub fn get_server_url_hash(&self) -> (r: &str)
        ensures
            r@ == self@.server_url_hash,
    {
        self.server_url_hash.as_str()
    }

    /// Forgets what was discovered and registered.
    pub fn clear_caches(&mut self)
        ensures
            final(self)@ == old(self)@.without_caches(),
    {
        self.client_registration = None;
        self.oidc_config_cache = OidcConfigCache::empty();
    }

    /// The URL to which the authorization server sends the user back.
    pub fn get_redirect_url(&self) -> (r: String)
        ensures
            r@ == self@.redirect_url(),
    {
        "http://".to_string().concat(CALLBACK_HOST).concat(":").concat(
            decimal(self.redirect_port as u64).as_str(),
        ).concat(CALLBACK_PATH)
    }
}

// ---------------------------------------------------------------- discovery

/// Whether a port is the default of a scheme.
pub open spec fn is_default_port(scheme: Seq<char>, port: u16) -> bool {
    (scheme == "http"@ && port == 80) || (scheme == "https"@ && port == 443)
}

/// The scheme, the host and, unless it is the default, the port of a URL.
pub open spec fn origin(scheme: Seq<char>, host: Seq<char>, port: Option<u16>) -> Seq<char> {
    let base = scheme + "://"@ + host;
    match port {
        Some(p) => if is_default_port(scheme, p) {
            base
        } else {
            base + ":"@ + decimal_text(p as nat)
        },
        None => base,
    }
}

/// Where the authorization server of a URL's host describes itself.
pub open spec fn well_known(parts: UrlParts<Seq<char>>) -> Option<Seq<char>> {
    match parts.host {
        None => None,
        Some(host) => Some(
            origin(parts.scheme, host, parts.port) + "/.well-known/oauth-authorization-server"@,
        ),
    }
}

/// Where the authorization server of a URL's host describes itself.
pub fn well_known_url(parts: &UrlParts) -> (r: Option<String>)
    ensures
        opt_view(r) == well_known(parts@),
{
    match &parts.host {
        None => None,
        Some(host) => {
            let scheme: &str = parts.scheme.as_str();
            let mut url: String = scheme.to_string().concat("://").concat(host.as_str());
            match parts.port {
                Some(port) => {
                    let is_default: bool = (same_text(scheme, "http") && port == 80) || (same_text(
                        scheme,
                        "https",
                    ) && port == 443);
                    if !is_default {
                        url.append(":");
                        url.append(decimal(port as u64).as_str());
                    }
                },
                None => {},
            }
            Some(url.concat("/.well-known/oauth-authorization-server"))
        },
    }
}

/// What is to be done next to discover the OpenID configuration.
#[derive(Debug)]
pub enum DiscoverStep<S = String> {
    /// Send a GET request.
    Fetch { url: S },
    /// Read the text of the answer, which is no success.
    ReadError { code: u16 },
    /// Read the body of the answer and the time.
    ReadBody,
    Done(Result<OidcConfig<S>, AuthError<S>>),
}

/// What came of a step of the discovery.
#[derive(Debug)]
pub enum DiscoverEvent<S = String, B = Vec<u8>> {
    Sent(Result<u16, S>),
    ErrorText(Option<S>),
    Body { body: Result<B, S>, now: i128 },
}

impl View for DiscoverStep {
    type V = DiscoverStep<Seq<char>>;

    open spec fn view(&self) -> DiscoverStep<Seq<char>> {
        match *self {
            DiscoverStep::Fetch { url } => DiscoverStep::Fetch { url: url@ },
            DiscoverStep::ReadError { code } => DiscoverStep::ReadError { code },
            DiscoverStep::ReadBody => DiscoverStep::ReadBody,
            DiscoverStep::Done(r) => DiscoverStep::Done(result_view(r)),
        }
    }
}

impl View for DiscoverEvent {
    type V = DiscoverEvent<Seq<char>, Seq<u8>>;

    open spec fn view(&self) -> DiscoverEvent<Seq<char>, Seq<u8>> {
        match *self {
            DiscoverEvent::Sent(r) => DiscoverEvent::Sent(result_view(r)),
            DiscoverEvent::ErrorText(t) => DiscoverEvent::ErrorText(opt_view(t)),
            DiscoverEvent::Body { body, now } => DiscoverEvent::Body {
                body: result_view(body),
                now,
            },
        }
    }
}

impl DiscoverEvent {
    /// The event of a body that was read just now.
    pub fn body_read(body: Result<Vec<u8>, String>, clock: &mut Clock) -> (r: Self)
        ensures
            final(clock).read_once(*old(clock)),
            r@ == (DiscoverEvent::Body { body: result_view(body), now: final(clock).nanos() }),
    {
        DiscoverEvent::Body { body, now: now_nanos(clock) }
    }
}

impl DiscoverEvent<Seq<char>, Seq<u8>> {
    /// Whether a status that the event tells of is one.
    pub open spec fn wf(self) -> bool {
        self matches DiscoverEvent::Sent(Ok(code)) ==> is_status(code)
    }
}

impl DiscoverStep<Seq<char>> {
    pub open spec fn wf(self) -> bool {
        self matches DiscoverStep::ReadError { code } ==> is_status(code)
    }
}

impl AuthClient<Seq<char>> {
    /// The first step of the discovery at `now`, for a server whose URL was parsed
    /// with this outcome.
    pub open spec fn discovering_at(
        self,
        parsed: Result<UrlParts<Seq<char>>, Seq<char>>,
        now: i128,
    ) -> DiscoverStep<Seq<char>> {
        match self.oidc_config_cache.fresh(now) {
            Some(config) => DiscoverStep::Done(Ok(config)),
            None => match parsed {
                Err(m) => DiscoverStep::Done(Err(AuthError::Url(m))),
                Ok(parts) => match well_known(parts) {
                    None => DiscoverStep::Done(Err(AuthError::InvalidServerUrl)),
                    Some(url) => DiscoverStep::Fetch { url },
                },
            },
        }
    }

    /// The first step of the discovery at `now`.
    pub open spec fn discovering(self, now: i128) -> DiscoverStep<Seq<char>> {
        self.discovering_at(url_parse(self.server_url), now)
    }

    /// The client once a configuration was discovered.
    pub open spec fn discovered(self, config: OidcConfig<Seq<char>>, now: i128) -> Self {
        AuthClient {
            oidc_config_cache: OidcConfigCache {
                config: Some(config),
                last_updated: Some(now),
                ttl: self.oidc_config_cache.ttl,
            },
            ..self
        }
    }

    /// The client and the step that follow an event.
    pub open spec fn discover_after(
        self,
        step: DiscoverStep<Seq<char>>,
        event: DiscoverEvent<Seq<char>, Seq<u8>>,
    ) -> (Self, DiscoverStep<Seq<char>>) {
        match (step, event) {
            (DiscoverStep::Fetch { url }, DiscoverEvent::Sent(Err(m))) => (
                self,
                DiscoverStep::Done(Err(AuthError::Http(m))),
            ),
            (DiscoverStep::Fetch { url }, DiscoverEvent::Sent(Ok(code))) => (
                self,
                if is_success(code) {
                    DiscoverStep::ReadBody
                } else {
                    DiscoverStep::ReadError { code }
                },
            ),
            (DiscoverStep::ReadError { code }, DiscoverEvent::ErrorText(text)) => (
                self,
                DiscoverStep::Done(
                    Err(
                        AuthError::Other(
                            failed_request("Failed to get OpenID configuration"@, code, text),
                        ),
                    ),
                ),
            ),
            (DiscoverStep::ReadBody, DiscoverEvent::Body { body: Err(m), now }) => (
                self,
                DiscoverStep::Done(Err(AuthError::Http(m))),
            ),
            (DiscoverStep::ReadBody, DiscoverEvent::Body { body: Ok(bytes), now }) => match config_in(
                bytes,
            ) {
                Err(e) => (self, DiscoverStep::Done(Err(e))),
                Ok(config) => (self.discovered(config, now), DiscoverStep::Done(Ok(config))),
            },
            _ => (self, step),
        }
    }
}

impl AuthClient {
    /// Discovers the OpenID configuration, or takes the one that was discovered less
    /// than its time to live before.
    pub fn discover_openid_config(&self, clock: &mut Clock) -> (r: DiscoverStep)
        ensures
            final(clock).read_once(*old(clock)),
            r@ == self@.discovering(final(clock).nanos()),
    {
        let parsed = parse_url(self.server_url.as_str());
        let now: i128 = now_nanos(clock);
        self.discover_at(parsed, now)
    }

    /// Discovers the OpenID configuration at `now`, for a server whose URL was parsed
    /// with this outcome.
    pub fn discover_at(&self, parsed: Result<UrlParts, String>, now: i128) -> (r: DiscoverStep)
        ensures
            r@ == self@.discovering_at(result_view(parsed), now),
    {
        match self.oidc_config_cache.get(now) {
            Some(config) => DiscoverStep::Done(Ok(config)),
            None => match parsed {
                Err(m) => DiscoverStep::Done(Err(AuthError::Url(m))),
                Ok(parts) => match well_known_url(&parts) {
                    None => DiscoverStep::Done(Err(AuthError::InvalidServerUrl)),
                    Some(url) => DiscoverStep::Fetch { url },
                },
            },
        }
    }

    /// The step of the discovery that follows an event.
    pub fn discover_next(&mut self, step: DiscoverStep, event: DiscoverEvent) -> (r: DiscoverStep)
        requires
            step@.wf(),
            event@.wf(),
        ensures
            (final(self)@, r@) == old(self)@.discover_after(step@, event@),
            r@.wf(),
    {
        match (step, event) {
            (DiscoverStep::Fetch { url: _ }, DiscoverEvent::Sent(sent)) => match sent {
                Err(m) => DiscoverStep::Done(Err(AuthError::Http(m))),
                Ok(code) => {
                    if 200 <= code && code < 300 {
                        DiscoverStep::ReadBody
                    } else {
                        DiscoverStep::ReadError { code }
                    }
                },
            },
            (DiscoverStep::ReadError { code }, DiscoverEvent::ErrorText(text)) => {
                let message = request_failure("Failed to get OpenID configuration", code, text);
                DiscoverStep::Done(Err(AuthError::Other(message)))
            },
            (DiscoverStep::ReadBody, DiscoverEvent::Body { body, now }) => match body {
                Err(m) => DiscoverStep::Done(Err(AuthError::Http(m))),
                Ok(bytes) => match OidcConfig::read(bytes.as_slice()) {
                    Err(e) => DiscoverStep::Done(Err(e)),
                    Ok(config) => {
                        self.oidc_config_cache.config = Some(config.clone());
                        self.oidc_config_cache.last_updated = Some(now);
                        DiscoverStep::Done(Ok(config))
                    },
                },
            },
            (step, _) => step,
        }
    }
}

} // verus!
