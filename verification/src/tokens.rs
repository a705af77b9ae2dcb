//! The tokens: exchanging an authorization code, refreshing, and using what is
//! kept on disk.
use vstd::prelude::*;
use vstd::string::*;

use crate::auth::{failed_request, is_success, request_failure};
use crate::auth::{AuthClient, AuthError, AuthTokenResponse, ClientRegistration};
use crate::config::{AuthConfig, ConfigError};
use crate::oidc::{Field, OidcConfig};
use crate::outside::{is_status, Clock};
use crate::text::{opt_view, result_view, same_text};
use crate::utils::now_seconds;

verus! {

/// How long a token is taken to be valid where the server does not say, in seconds.
pub const DEFAULT_EXPIRES_IN: u64 = 3600;

impl AuthTokenResponse<Seq<char>> {
    /// How long the token is valid, in seconds.
    pub open spec fn lifetime(self) -> u64 {
        match self.expires_in {
            Some(secs) => secs,
            None => DEFAULT_EXPIRES_IN,
        }
    }
}

impl AuthClient<Seq<char>> {
    /// The tokens to keep of an answer that was read at `now`. Where the answer
    /// holds no refresh token, `kept` is kept.
    pub open spec fn token_config(
        self,
        tokens: AuthTokenResponse<Seq<char>>,
        now: u64,
        kept: Option<Seq<char>>,
    ) -> AuthConfig<Seq<char>> {
        AuthConfig {
            server_url: self.server_url,
            access_token: tokens.access_token,
            refresh_token: match tokens.refresh_token {
                Some(token) => Some(token),
                None => kept,
            },
            expires_at: Some((now + tokens.lifetime()) as u64),
            auth_state: None,
            session_id: self.session_id,
        }
    }
}

impl AuthClient {
    fn config_from_tokens(
        &self,
        tokens: AuthTokenResponse,
        now: u64,
        kept: Option<String>,
    ) -> (r: AuthConfig)
        requires
            now + tokens@.lifetime() <= u64::MAX,
        ensures
            r@ == self@.token_config(tokens@, now, opt_view(kept)),
    {
        let lifetime: u64 = match tokens.expires_in {
            Some(secs) => secs,
            None => DEFAULT_EXPIRES_IN,
        };
        AuthConfig {
            server_url: self.server_url.clone(),
            access_token: tokens.access_token,
            refresh_token: match tokens.refresh_token {
                Some(token) => Some(token),
                None => kept,
            },
            expires_at: Some(now + lifetime),
            auth_state: None,
            session_id: self.session_id.clone(),
        }
    }
}

// ---------------------------------------------------------------- the callback

/// The form that exchanges a code: names and values, in the order of the fields.
#[derive(Debug)]
pub struct CodeForm<S = String> {
    pub code: (S, S),
    pub grant_type: (S, S),
    pub client_id: (S, S),
    pub redirect_uri: (S, S),
}

impl View for CodeForm {
    type V = CodeForm<Seq<char>>;

    open spec fn view(&self) -> CodeForm<Seq<char>> {
        CodeForm {
            code: (self.code.0@, self.code.1@),
            grant_type: (self.grant_type.0@, self.grant_type.1@),
            client_id: (self.client_id.0@, self.client_id.1@),
            redirect_uri: (self.redirect_uri.0@, self.redirect_uri.1@),
        }
    }
}

/// The form that exchanges a code.
pub open spec fn code_form(
    code: Seq<char>,
    client_id: Seq<char>,
    redirect_uri: Seq<char>,
) -> CodeForm<Seq<char>> {
    CodeForm {
        code: ("code"@, code),
        grant_type: ("grant_type"@, "authorization_code"@),
        client_id: ("client_id"@, client_id),
        redirect_uri: ("redirect_uri"@, redirect_uri),
    }
}

/// What is to be done next to exchange the code of a callback.
#[derive(Debug)]
pub enum CallbackStep<S = String> {
    /// Discover the OpenID configuration.
    Discover { code: S },
    /// Have a registration.
    Register { code: S, endpoint: S },
    /// Post the form to the token endpoint.
    Exchange { endpoint: S, form: CodeForm<S> },
    /// Read the text of the answer, which is no success.
    ReadError { status: u16 },
    /// Read the tokens from the answer, and the time.
    ReadTokens,
    /// Keep the tokens as those of the server with this hash.
    Save { server_url_hash: S, config: AuthConfig<S> },
    Done(Result<AuthConfig<S>, AuthError<S>>),
}

/// What came of a step of an exchange or of a refresh.
#[derive(Debug)]
pub enum TokenEvent<S = String> {
    Discovered(Result<OidcConfig<S>, AuthError<S>>),
    Registered(Result<ClientRegistration<S>, AuthError<S>>),
    Sent(Result<u16, S>),
    ErrorText(Option<S>),
    Tokens { tokens: Result<AuthTokenResponse<S>, S>, now: u64 },
    Saved(Result<(), ConfigError<S>>),
}

impl View for CallbackStep {
    type V = CallbackStep<Seq<char>>;

    open spec fn view(&self) -> CallbackStep<Seq<char>> {
        match *self {
            CallbackStep::Discover { code } => CallbackStep::Discover { code: code@ },
            CallbackStep::Register { code, endpoint } => CallbackStep::Register {
                code: code@,
                endpoint: endpoint@,
            },
            CallbackStep::Exchange { endpoint, form } => CallbackStep::Exchange {
                endpoint: endpoint@,
                form: form@,
            },
            CallbackStep::ReadError { status } => CallbackStep::ReadError { status },
            CallbackStep::ReadTokens => CallbackStep::ReadTokens,
            CallbackStep::Save { server_url_hash, config } => CallbackStep::Save {
                server_url_hash: server_url_hash@,
                config: config@,
            },
            CallbackStep::Done(r) => CallbackStep::Done(result_view(r)),
        }
    }
}

impl View for TokenEvent {
    type V = TokenEvent<Seq<char>>;

    open spec fn view(&self) -> TokenEvent<Seq<char>> {
        match *self {
            TokenEvent::Discovered(r) => TokenEvent::Discovered(result_view(r)),
            TokenEvent::Registered(r) => TokenEvent::Registered(result_view(r)),
            TokenEvent::Sent(r) => TokenEvent::Sent(result_view(r)),
            TokenEvent::ErrorText(t) => TokenEvent::ErrorText(opt_view(t)),
            TokenEvent::Tokens { tokens, now } => TokenEvent::Tokens {
                tokens: result_view(tokens),
                now,
            },
            TokenEvent::Saved(r) => TokenEvent::Saved(result_view(r)),
        }
    }
}

impl TokenEvent {
    /// The event of tokens that were read just now.
    pub fn tokens_read(tokens: Result<AuthTokenResponse, String>, clock: &mut Clock) -> (r: Self)
        ensures
            final(clock).read_once(*old(clock)),
            r@ == (TokenEvent::Tokens {
                tokens: result_view(tokens),
                now: final(clock).seconds(),
            }),
    {
        TokenEvent::Tokens { tokens, now: now_seconds(clock) }
    }

    /// Whether a status that the event tells of is one, and the expiry of a token that it
    /// brings is a time.
    pub fn is_wf(&self) -> (r: bool)
        ensures
            r == self@.wf(),
    {
        match self {
            TokenEvent::Sent(Ok(code)) => 100 <= *code && *code <= 999,
            TokenEvent::Tokens { tokens: Ok(tokens), now } => {
                let lifetime: u64 = match tokens.expires_in {
                    Some(secs) => secs,
                    None => DEFAULT_EXPIRES_IN,
                };
                tokens.access_token.is_none() || *now <= u64::MAX - lifetime
            },
            _ => true,
        }
    }
}

impl TokenEvent<Seq<char>> {
    /// Whether a status that the event tells of is one, and the expiry of a token
    /// that it brings is a time.
    pub open spec fn wf(self) -> bool {
        &&& self matches TokenEvent::Sent(Ok(code)) ==> is_status(code)
        &&& self matches TokenEvent::Tokens { tokens: Ok(tokens), now } ==> tokens.access_token
            is Some ==> now + tokens.lifetime() <= u64::MAX
    }
}

impl CallbackStep<Seq<char>> {
    pub open spec fn wf(self) -> bool {
        self matches CallbackStep::ReadError { status } ==> is_status(status)
    }

    /// The step that follows an event, for this client.
    pub open spec fn after(
        self,
        client: AuthClient<Seq<char>>,
        event: TokenEvent<Seq<char>>,
    ) -> Self {
        match (self, event) {
            (CallbackStep::Discover { code }, TokenEvent::Discovered(Err(e))) => CallbackStep::Done(
                Err(e),
            ),
            (
                CallbackStep::Discover { code },
                TokenEvent::Discovered(Ok(config)),
            ) => match config.token_endpoint {
                Field::Text(endpoint) => CallbackStep::Register { code, endpoint },
                _ => CallbackStep::Done(
                    Err(AuthError::Other("No token_endpoint in OIDC configuration"@)),
                ),
            },
            (
                CallbackStep::Register { code, endpoint },
                TokenEvent::Registered(Err(e)),
            ) => CallbackStep::Done(Err(e)),
            (
                CallbackStep::Register { code, endpoint },
                TokenEvent::Registered(Ok(registration)),
            ) => CallbackStep::Exchange {
                endpoint,
                form: code_form(code, registration.client_id, client.redirect_url()),
            },
            (CallbackStep::Exchange { endpoint, form }, TokenEvent::Sent(Err(m))) => {
                CallbackStep::Done(Err(AuthError::Http(m)))
            },
            (CallbackStep::Exchange { endpoint, form }, TokenEvent::Sent(Ok(status))) => {
                if is_success(status) {
                    CallbackStep::ReadTokens
                } else {
                    CallbackStep::ReadError { status }
                }
            },
            (CallbackStep::ReadError { status }, TokenEvent::ErrorText(text)) => CallbackStep::Done(
                Err(AuthError::Other(failed_request("Failed to get tokens"@, status, text))),
            ),
            (CallbackStep::ReadTokens, TokenEvent::Tokens { tokens: Err(m), now }) => {
                CallbackStep::Done(Err(AuthError::Http(m)))
            },
            (CallbackStep::ReadTokens, TokenEvent::Tokens { tokens: Ok(tokens), now }) => {
                if tokens.access_token is None {
                    CallbackStep::Done(
                        Err(AuthError::Other("No access_token in token response"@)),
                    )
                } else {
                    CallbackStep::Save {
                        server_url_hash: client.server_url_hash,
                        config: client.token_config(tokens, now, None),
                    }
                }
            },
            (CallbackStep::Save { server_url_hash, config }, TokenEvent::Saved(Ok(_))) => {
                CallbackStep::Done(Ok(config))
            },
            (CallbackStep::Save { server_url_hash, config }, TokenEvent::Saved(Err(e))) => {
                CallbackStep::Done(Err(AuthError::Config(e)))
            },
            _ => self,
        }
    }
}

impl CallbackStep {
    /// The step that follows an event.
    pub fn next(self, client: &AuthClient, event: TokenEvent) -> (r: Self)
        requires
            self@.wf(),
            event@.wf(),
        ensures
            r@ == self@.after(client@, event@),
            r@.wf(),
    {
        match (self, event) {
            (CallbackStep::Discover { code }, TokenEvent::Discovered(discovered)) => {
                match discovered {
                    Err(e) => CallbackStep::Done(Err(e)),
                    Ok(config) => match config.token_endpoint {
                        Field::Text(endpoint) => CallbackStep::Register { code, endpoint },
                        _ => CallbackStep::Done(
                            Err(AuthError::other("No token_endpoint in OIDC configuration")),
                        ),
                    },
                }
            },
            (CallbackStep::Register { code, endpoint }, TokenEvent::Registered(registered)) => {
                match registered {
                    Err(e) => CallbackStep::Done(Err(e)),
                    Ok(registration) => CallbackStep::Exchange {
                        endpoint,
                        form: CodeForm {
                            code: ("code".to_string(), code),
                            grant_type: ("grant_type".to_string(), "authorization_code".to_string()),
                            client_id: ("client_id".to_string(), registration.client_id),
                            redirect_uri: ("redirect_uri".to_string(), client.get_redirect_url()),
                        },
                    },
                }
            },
            (CallbackStep::Exchange { endpoint: _, form: _ }, TokenEvent::Sent(sent)) => match sent {
                Err(m) => CallbackStep::Done(Err(AuthError::Http(m))),
                Ok(status) => {
                    if 200 <= status && status < 300 {
                        CallbackStep::ReadTokens
                    } else {
                        CallbackStep::ReadError { status }
                    }
                },
            },
            (CallbackStep::ReadError { status }, TokenEvent::ErrorText(text)) => {
                let message = request_failure("Failed to get tokens", status, text);
                CallbackStep::Done(Err(AuthError::Other(message)))
            },
            (CallbackStep::ReadTokens, TokenEvent::Tokens { tokens, now }) => match tokens {
                Err(m) => CallbackStep::Done(Err(AuthError::Http(m))),
                Ok(tokens) => {
                    if tokens.access_token.is_none() {
                        CallbackStep::Done(
                            Err(AuthError::other("No access_token in token response")),
                        )
                    } else {
                        CallbackStep::Save {
                            server_url_hash: client.server_url_hash.clone(),
                            config: client.config_from_tokens(tokens, now, None),
                        }
                    }
                },
            },
            (CallbackStep::Save { server_url_hash: _, config }, TokenEvent::Saved(saved)) => {
                match saved {
                    Ok(_) => CallbackStep::Done(Ok(config)),
                    Err(e) => CallbackStep::Done(Err(AuthError::Config(e))),
                }
            },
            (step, _) => step,
        }
    }
}

impl AuthClient<Seq<char>> {
    /// The first step of handling a callback: nothing is done unless it carries the
    /// state of the authorization under way.
    pub open spec fn handling(self, code: Seq<char>, state: Seq<char>) -> CallbackStep<Seq<char>> {
        if self.auth_state == Some(state) {
            CallbackStep::Discover { code }
        } else {
            CallbackStep::Done(Err(AuthError::Other("State mismatch, possible CSRF attack"@)))
        }
    }
}

impl AuthClient {
    /// Handles the callback of an authorization.
    pub fn handle_callback(&self, code: &str, state: &str) -> (r: CallbackStep)
        ensures
            r@ == self@.handling(code@, state@),
    {
        let matches: bool = match &self.auth_state {
            Some(stored) => same_text(stored.as_str(), state),
            None => false,
        };
        if matches {
            CallbackStep::Discover { code: code.to_string() }
        } else {
            CallbackStep::Done(Err(AuthError::other("State mismatch, possible CSRF attack")))
        }
    }
}

// ---------------------------------------------------------------- the refresh

/// The form that refreshes a token: names and values, in the order of the fields.
#[derive(Debug)]
pub struct RefreshForm<S = String> {
    pub refresh_token: (S, S),
    pub grant_type: (S, S),
    pub client_id: (S, S),
}

impl View for RefreshForm {
    type V = RefreshForm<Seq<char>>;

    open spec fn view(&self) -> RefreshForm<Seq<char>> {
        RefreshForm {
            refresh_token: (self.refresh_token.0@, self.refresh_token.1@),
            grant_type: (self.grant_type.0@, self.grant_type.1@),
            client_id: (self.client_id.0@, self.client_id.1@),
        }
    }
}

/// The form that refreshes a token.
pub open spec fn refresh_form(refresh_token: Seq<char>, client_id: Seq<char>) -> RefreshForm<
    Seq<char>,
> {
    RefreshForm {
        refresh_token: ("refresh_token"@, refresh_token),
        grant_type: ("grant_type"@, "refresh_token"@),
        client_id: ("client_id"@, client_id),
    }
}

/// What is to be done next to refresh a token.
#[derive(Debug)]
pub enum RefreshStep<S = String> {
    /// Discover the OpenID configuration.
    Discover { refresh_token: S },
    /// Have a registration.
    Register { refresh_token: S, endpoint: S },
    /// Post the form to the token endpoint.
    Exchange { refresh_token: S, endpoint: S, form: RefreshForm<S> },
    /// Read the text of the answer, which is no success.
    ReadError { status: u16 },
    /// Read the tokens from the answer, and the time.
    ReadTokens { refresh_token: S },
    /// Keep the tokens as those of the server with this hash.
    Save { server_url_hash: S, config: AuthConfig<S> },
    Done(Result<AuthConfig<S>, AuthError<S>>),
}

impl View for RefreshStep {
    type V = RefreshStep<Seq<char>>;

    open spec fn view(&self) -> RefreshStep<Seq<char>> {
        match *self {
            RefreshStep::Discover { refresh_token } => RefreshStep::Discover {
                refresh_token: refresh_token@,
            },
            RefreshStep::Register { refresh_token, endpoint } => RefreshStep::Register {
                refresh_token: refresh_token@,
                endpoint: endpoint@,
            },
            RefreshStep::Exchange { refresh_token, endpoint, form } => RefreshStep::Exchange {
                refresh_token: refresh_token@,
                endpoint: endpoint@,
                form: form@,
            },
            RefreshStep::ReadError { status } => RefreshStep::ReadError { status },
            RefreshStep::ReadTokens { refresh_token } => RefreshStep::ReadTokens {
                refresh_token: refresh_token@,
            },
            RefreshStep::Save { server_url_hash, config } => RefreshStep::Save {
                server_url_hash: server_url_hash@,
                config: config@,
            },
            RefreshStep::Done(r) => RefreshStep::Done(result_view(r)),
        }
    }
}

/// The error of a refresh that was answered with another status than success: the
/// refresh token is not accepted any more, or something else is wrong.
pub open spec fn refresh_refusal(status: u16, text: Option<Seq<char>>) -> AuthError<Seq<char>> {
    if status == 401 || status == 400 {
        AuthError::AuthRequired
    } else {
        AuthError::Other(failed_request("Failed to refresh token"@, status, text))
    }
}

impl RefreshStep<Seq<char>> {
    pub open spec fn wf(self) -> bool {
        self matches RefreshStep::ReadError { status } ==> is_status(status)
    }

    /// The step that follows an event, for this client.
    pub open spec fn after(
        self,
        client: AuthClient<Seq<char>>,
        event: TokenEvent<Seq<char>>,
    ) -> Self {
        match (self, event) {
            (RefreshStep::Discover { refresh_token }, TokenEvent::Discovered(Err(e))) => {
                RefreshStep::Done(Err(e))
            },
            (
                RefreshStep::Discover { refresh_token },
                TokenEvent::Discovered(Ok(config)),
            ) => match config.token_endpoint {
                Field::Text(endpoint) => RefreshStep::Register { refresh_token, endpoint },
                _ => RefreshStep::Done(
                    Err(AuthError::Other("No token_endpoint in OIDC configuration"@)),
                ),
            },
            (RefreshStep::Register { refresh_token, endpoint }, TokenEvent::Registered(Err(e))) => {
                RefreshStep::Done(Err(e))
            },
            (
                RefreshStep::Register { refresh_token, endpoint },
                TokenEvent::Registered(Ok(registration)),
            ) => RefreshStep::Exchange {
                refresh_token,
                endpoint,
                form: refresh_form(refresh_token, registration.client_id),
            },
            (
                RefreshStep::Exchange { refresh_token, endpoint, form },
                TokenEvent::Sent(Err(m)),
            ) => RefreshStep::Done(Err(AuthError::Http(m))),
            (
                RefreshStep::Exchange { refresh_token, endpoint, form },
                TokenEvent::Sent(Ok(status)),
            ) => if is_success(status) {
                RefreshStep::ReadTokens { refresh_token }
            } else {
                RefreshStep::ReadError { status }
            },
            (RefreshStep::ReadError { status }, TokenEvent::ErrorText(text)) => RefreshStep::Done(
                Err(refresh_refusal(status, text)),
            ),
            (
                RefreshStep::ReadTokens { refresh_token },
                TokenEvent::Tokens { tokens: Err(m), now },
            ) => RefreshStep::Done(Err(AuthError::Http(m))),
            (
                RefreshStep::ReadTokens { refresh_token },
                TokenEvent::Tokens { tokens: Ok(tokens), now },
            ) => if tokens.access_token is None {
                RefreshStep::Done(Err(AuthError::Other("No access_token in refresh response"@)))
            } else {
                RefreshStep::Save {
                    server_url_hash: client.server_url_hash,
                    config: client.token_config(tokens, now, Some(refresh_token)),
                }
            },
            (RefreshStep::Save { server_url_hash, config }, TokenEvent::Saved(Ok(_))) => {
                RefreshStep::Done(Ok(config))
            },
            (RefreshStep::Save { server_url_hash, config }, TokenEvent::Saved(Err(e))) => {
                RefreshStep::Done(Err(AuthError::Config(e)))
            },
            _ => self,
        }
    }
}

impl RefreshStep {
    /// The step that follows an event.
    pub fn next(self, client: &AuthClient, event: TokenEvent) -> (r: Self)
        requires
            self@.wf(),
            event@.wf(),
        ensures
            r@ == self@.after(client@, event@),
            r@.wf(),
    {
        match (self, event) {
            (RefreshStep::Discover { refresh_token }, TokenEvent::Discovered(discovered)) => {
                match discovered {
                    Err(e) => RefreshStep::Done(Err(e)),
                    Ok(config) => match config.token_endpoint {
                        Field::Text(endpoint) => RefreshStep::Register { refresh_token, endpoint },
                        _ => RefreshStep::Done(
                            Err(AuthError::other("No token_endpoint in OIDC configuration")),
                        ),
                    },
                }
            },
            (
                RefreshStep::Register { refresh_token, endpoint },
                TokenEvent::Registered(registered),
            ) => match registered {
                Err(e) => RefreshStep::Done(Err(e)),
                Ok(registration) => {
                    let form = RefreshForm {
                        refresh_token: ("refresh_token".to_string(), refresh_token.clone()),
                        grant_type: ("grant_type".to_string(), "refresh_token".to_string()),
                        client_id: ("client_id".to_string(), registration.client_id),
                    };
                    RefreshStep::Exchange { refresh_token, endpoint, form }
                },
            },
            (
                RefreshStep::Exchange { refresh_token, endpoint: _, form: _ },
                TokenEvent::Sent(sent),
            ) => match sent {
                Err(m) => RefreshStep::Done(Err(AuthError::Http(m))),
                Ok(status) => {
                    if 200 <= status && status < 300 {
                        RefreshStep::ReadTokens { refresh_token }
                    } else {
                        RefreshStep::ReadError { status }
                    }
                },
            },
            (RefreshStep::ReadError { status }, TokenEvent::ErrorText(text)) => {
                if status == 401 || status == 400 {
                    RefreshStep::Done(Err(AuthError::AuthRequired))
                } else {
                    let message = request_failure("Failed to refresh token", status, text);
                    RefreshStep::Done(Err(AuthError::Other(message)))
                }
            },
            (RefreshStep::ReadTokens { refresh_token }, TokenEvent::Tokens { tokens, now }) => {
                match tokens {
                    Err(m) => RefreshStep::Done(Err(AuthError::Http(m))),
                    Ok(tokens) => {
                        if tokens.access_token.is_none() {
                            RefreshStep::Done(
                                Err(AuthError::other("No access_token in refresh response")),
                            )
                        } else {
                            RefreshStep::Save {
                                server_url_hash: client.server_url_hash.clone(),
                                config: client.config_from_tokens(tokens, now, Some(refresh_token)),
                            }
                        }
                    },
                }
            },
            (RefreshStep::Save { server_url_hash: _, config }, TokenEvent::Saved(saved)) => {
                match saved {
                    Ok(_) => RefreshStep::Done(Ok(config)),
                    Err(e) => RefreshStep::Done(Err(AuthError::Config(e))),
                }
            },
            (step, _) => step,
        }
    }
}

/// The first step of refreshing the tokens of a configuration.
pub open spec fn refreshing(config: AuthConfig<Seq<char>>) -> RefreshStep<Seq<char>> {
    match config.refresh_token {
        Some(refresh_token) => RefreshStep::Discover { refresh_token },
        None => RefreshStep::Done(Err(AuthError::Other("No refresh token found"@))),
    }
}

impl AuthClient {
    /// Refreshes the tokens of a configuration.
    pub fn refresh_token(&self, config: &AuthConfig) -> (r: RefreshStep)
        ensures
            r@ == refreshing(config@),
    {
        match &config.refresh_token {
            Some(refresh_token) => RefreshStep::Discover { refresh_token: refresh_token.clone() },
            None => RefreshStep::Done(Err(AuthError::other("No refresh token found"))),
        }
    }
}

// ---------------------------------------------------------------- the kept tokens

/// What is to be done next to have valid tokens.
#[derive(Debug)]
pub enum GetConfigStep<S = String> {
    /// Read the tokens of the server with this hash, and the time.
    Load { server_url_hash: S },
    /// Refresh the tokens.
    Refresh { config: AuthConfig<S> },
    Done(Result<AuthConfig<S>, AuthError<S>>),
}

/// What came of such a step.
#[derive(Debug)]
pub enum GetConfigEvent<S = String> {
    Loaded { config: Result<AuthConfig<S>, ConfigError<S>>, now: u64 },
    Refreshed(Result<AuthConfig<S>, AuthError<S>>),
}

impl View for GetConfigStep {
    type V = GetConfigStep<Seq<char>>;

    open spec fn view(&self) -> GetConfigStep<Seq<char>> {
        match *self {
            GetConfigStep::Load { server_url_hash } => GetConfigStep::Load {
                server_url_hash: server_url_hash@,
            },
            GetConfigStep::Refresh { config } => GetConfigStep::Refresh { config: config@ },
            GetConfigStep::Done(r) => GetConfigStep::Done(result_view(r)),
        }
    }
}

impl View for GetConfigEvent {
    type V = GetConfigEvent<Seq<char>>;

    open spec fn view(&self) -> GetConfigEvent<Seq<char>> {
        match *self {
            GetConfigEvent::Loaded { config, now } => GetConfigEvent::Loaded {
                config: result_view(config),
                now,
            },
            GetConfigEvent::Refreshed(r) => GetConfigEvent::Refreshed(result_view(r)),
        }
    }
}

impl GetConfigEvent {
    /// The event of tokens that were loaded just now.
    pub fn loaded(config: Result<AuthConfig, ConfigError>, clock: &mut Clock) -> (r: Self)
        ensures
            final(clock).read_once(*old(clock)),
            r@ == (GetConfigEvent::Loaded {
                config: result_view(config),
                now: final(clock).seconds(),
            }),
    {
        GetConfigEvent::Loaded { config, now: now_seconds(clock) }
    }
}

/// Whether tokens are no longer valid at `now`.
pub open spec fn is_expired<S>(config: AuthConfig<S>, now: u64) -> bool {
    config.expires_at matches Some(at) && now >= at
}

impl AuthConfig {
    /// Whether the tokens are no longer valid at `now`.
    pub fn is_expired_at(&self, now: u64) -> (r: bool)
        ensures
            r == is_expired(self@, now),
    {
        match self.expires_at {
            Some(at) => now >= at,
            None => false,
        }
    }
}

impl GetConfigStep<Seq<char>> {
    /// The step that follows an event.
    pub open spec fn after(self, event: GetConfigEvent<Seq<char>>) -> Self {
        match (self, event) {
            (
                GetConfigStep::Load { server_url_hash },
                GetConfigEvent::Loaded { config: Ok(config), now },
            ) => if is_expired(config, now) {
                GetConfigStep::Refresh { config }
            } else {
                GetConfigStep::Done(Ok(config))
            },
            (
                GetConfigStep::Load { server_url_hash },
                GetConfigEvent::Loaded { config: Err(e), now },
            ) => GetConfigStep::Done(
                Err(
                    match e {
                        ConfigError::NotFound => AuthError::AuthRequired,
                        _ => AuthError::Config(e),
                    },
                ),
            ),
            (GetConfigStep::Refresh { config }, GetConfigEvent::Refreshed(refreshed)) => {
                GetConfigStep::Done(refreshed)
            },
            _ => self,
        }
    }
}

impl GetConfigStep {
    /// The step that follows an event.
    pub fn next(self, event: GetConfigEvent) -> (r: Self)
        ensures
            r@ == self@.after(event@),
    {
        match (self, event) {
            (GetConfigStep::Load { server_url_hash: _ }, GetConfigEvent::Loaded { config, now }) => {
                match config {
                    Ok(config) => {
                        if config.is_expired_at(now) {
                            GetConfigStep::Refresh { config }
                        } else {
                            GetConfigStep::Done(Ok(config))
                        }
                    },
                    Err(e) => match e {
                        ConfigError::NotFound => GetConfigStep::Done(Err(AuthError::AuthRequired)),
                        e => GetConfigStep::Done(Err(AuthError::Config(e))),
                    },
                }
            },
            (GetConfigStep::Refresh { config: _ }, GetConfigEvent::Refreshed(refreshed)) => {
                GetConfigStep::Done(refreshed)
            },
            (step, _) => step,
        }
    }
}

impl AuthClient {
    /// The tokens that are kept, refreshed where they expired.
    pub fn get_auth_config(&self) -> (r: GetConfigStep)
        ensures
            r@ == (GetConfigStep::Load { server_url_hash: self@.server_url_hash }),
    {
        GetConfigStep::Load { server_url_hash: self.server_url_hash.clone() }
    }
}

} // verus!
