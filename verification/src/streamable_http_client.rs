//! The client of a streamable HTTP server: the requests that it repeats once it has
//! a new token, and how it comes by its first one.
use reqwest::header::{HeaderMap, HeaderValue};
use vstd::prelude::*;
use vstd::string::*;

use crate::auth::AuthError;
use crate::config::{AuthConfig, ConfigError, ConfigManager, FilePath};
use crate::connection::{build_headers, built};
use crate::coordination::CoordinationError;
use crate::outside::{header_entries, pairs_text, Clock, HeaderError};
use crate::text::{opt_view, result_view};
use crate::utils::{hash_server_url, now_seconds, url_hash};

verus! {

/// Where a client connects, and the headers that it sends with every request: names
/// and values, each name once.
#[derive(Debug)]
pub struct StreamableHttpClientConfig {
    pub url: String,
    pub headers: Vec<(String, String)>,
}

/// What a client needs to authenticate its requests.
#[derive(Debug)]
pub struct AuthenticatedHttpClient<S = String> {
    /// The access token; empty where there is none.
    pub auth_token: S,
    /// The hash of the server against which the client authenticates, if it does.
    pub server_url_hash: Option<S>,
}

impl View for AuthenticatedHttpClient {
    type V = AuthenticatedHttpClient<Seq<char>>;

    open spec fn view(&self) -> AuthenticatedHttpClient<Seq<char>> {
        AuthenticatedHttpClient {
            auth_token: self.auth_token@,
            server_url_hash: opt_view(self.server_url_hash),
        }
    }
}

impl Clone for AuthenticatedHttpClient {
    fn clone(&self) -> (r: Self)
        ensures
            r@ == self@,
    {
        AuthenticatedHttpClient {
            auth_token: self.auth_token.clone(),
            server_url_hash: self.server_url_hash.clone(),
        }
    }
}

impl AuthenticatedHttpClient<Seq<char>> {
    /// The client of a server that wants no authentication.
    pub open spec fn unauthenticated() -> Self {
        AuthenticatedHttpClient { auth_token: Seq::empty(), server_url_hash: None }
    }

    /// The client of the server at `url`, which wants an authentication: it has this token,
    /// and authenticates against that server.
    pub open spec fn authenticated(auth_token: Seq<char>, url: Seq<char>) -> Self {
        AuthenticatedHttpClient { auth_token, server_url_hash: Some(url_hash(url)) }
    }

    /// The token that is sent with a request.
    pub open spec fn token(self) -> Option<Seq<char>> {
        if self.auth_token.len() == 0 {
            None
        } else {
            Some(self.auth_token)
        }
    }

    /// The client with another token.
    pub open spec fn with_token(self, auth_token: Seq<char>) -> Self {
        AuthenticatedHttpClient { auth_token, ..self }
    }
}

impl AuthenticatedHttpClient {
    /// The client of a server that wants no authentication.
    pub fn without_server() -> (r: Self)
        ensures
            r@ == AuthenticatedHttpClient::<Seq<char>>::unauthenticated(),
    {
        let client = AuthenticatedHttpClient { auth_token: String::new(), server_url_hash: None };
        assert(client@.auth_token =~= Seq::empty());
        client
    }

    /// The client of the server at `url`, which wants an authentication.
    pub fn of_server(auth_token: String, url: &str) -> (r: Self)
        ensures
            r@ == AuthenticatedHttpClient::<Seq<char>>::authenticated(auth_token@, url@),
    {
        AuthenticatedHttpClient { auth_token, server_url_hash: Some(hash_server_url(url)) }
    }

    /// The token that is sent with a request.
    pub fn get_auth_token(&self) -> (r: Option<String>)
        ensures
            opt_view(r) == self@.token(),
    {
        if self.auth_token.as_str().unicode_len() == 0 {
            None
        } else {
            Some(self.auth_token.clone())
        }
    }
}

// ---------------------------------------------------------------- a refreshed token

/// What is to be done next to have a refreshed token. The outcome tells whether
/// there is one.
#[derive(Debug)]
pub enum TokenRefreshStep<S = String> {
    /// Read the tokens of the server.
    Load { server_url_hash: S },
    /// Refresh the tokens.
    Refresh { config: AuthConfig<S> },
    Done(Result<bool, S>),
}

/// What came of such a step.
#[derive(Debug)]
pub enum TokenRefreshEvent<S = String> {
    Loaded(Result<AuthConfig<S>, ConfigError<S>>),
    Refreshed(Result<AuthConfig<S>, AuthError<S>>),
}

impl View for TokenRefreshStep {
    type V = TokenRefreshStep<Seq<char>>;

    open spec fn view(&self) -> TokenRefreshStep<Seq<char>> {
        match *self {
            TokenRefreshStep::Load { server_url_hash } => TokenRefreshStep::Load {
                server_url_hash: server_url_hash@,
            },
            TokenRefreshStep::Refresh { config } => TokenRefreshStep::Refresh { config: config@ },
            TokenRefreshStep::Done(r) => TokenRefreshStep::Done(result_view(r)),
        }
    }
}

impl View for TokenRefreshEvent {
    type V = TokenRefreshEvent<Seq<char>>;

    open spec fn view(&self) -> TokenRefreshEvent<Seq<char>> {
        match *self {
            TokenRefreshEvent::Loaded(r) => TokenRefreshEvent::Loaded(result_view(r)),
            TokenRefreshEvent::Refreshed(r) => TokenRefreshEvent::Refreshed(result_view(r)),
        }
    }
}

impl AuthenticatedHttpClient<Seq<char>> {
    /// The first step of refreshing the token.
    pub open spec fn refreshing_token(self) -> TokenRefreshStep<Seq<char>> {
        match self.server_url_hash {
            None => TokenRefreshStep::Done(Ok(false)),
            Some(server_url_hash) => TokenRefreshStep::Load { server_url_hash },
        }
    }

    /// The client and the step that follow an event.
    pub open spec fn token_refresh_after(
        self,
        step: TokenRefreshStep<Seq<char>>,
        event: TokenRefreshEvent<Seq<char>>,
    ) -> (Self, TokenRefreshStep<Seq<char>>) {
        match (step, event) {
            (TokenRefreshStep::Load { server_url_hash }, TokenRefreshEvent::Loaded(loaded)) => (
                self,
                match loaded {
                    Ok(config) => TokenRefreshStep::Refresh { config },
                    Err(ConfigError::NotFound) => TokenRefreshStep::Done(Ok(false)),
                    Err(e) => TokenRefreshStep::Done(Err(e.text())),
                },
            ),
            (TokenRefreshStep::Refresh { config }, TokenRefreshEvent::Refreshed(Ok(refreshed))) => (
                self.with_token(
                    match refreshed.access_token {
                        Some(token) => token,
                        None => Seq::empty(),
                    },
                ),
                TokenRefreshStep::Done(Ok(true)),
            ),
            (TokenRefreshStep::Refresh { config }, TokenRefreshEvent::Refreshed(Err(_))) => (
                self,
                TokenRefreshStep::Done(Ok(false)),
            ),
            _ => (self, step),
        }
    }
}

impl AuthenticatedHttpClient {
    /// Refreshes the token from the tokens that are kept.
    pub fn refresh_token_if_needed(&self) -> (r: TokenRefreshStep)
        ensures
            r@ == self@.refreshing_token(),
    {
        match &self.server_url_hash {
            None => TokenRefreshStep::Done(Ok(false)),
            Some(server_url_hash) => TokenRefreshStep::Load {
                server_url_hash: server_url_hash.clone(),
            },
        }
    }

    /// The step of the refresh that follows an event.
    pub fn token_refresh_next(
        &mut self,
        step: TokenRefreshStep,
        event: TokenRefreshEvent,
    ) -> (r: TokenRefreshStep)
        ensures
            (final(self)@, r@) == old(self)@.token_refresh_after(step@, event@),
    {
        match (step, event) {
            (TokenRefreshStep::Load { server_url_hash: _ }, TokenRefreshEvent::Loaded(loaded)) => {
                match loaded {
                    Ok(config) => TokenRefreshStep::Refresh { config },
                    Err(e) => match e {
                        ConfigError::NotFound => TokenRefreshStep::Done(Ok(false)),
                        e => TokenRefreshStep::Done(Err(e.message())),
                    },
                }
            },
            (TokenRefreshStep::Refresh { config: _ }, TokenRefreshEvent::Refreshed(refreshed)) => {
                match refreshed {
                    Ok(config) => {
                        self.auth_token = match config.access_token {
                            Some(token) => token,
                            None => String::new(),
                        };
                        TokenRefreshStep::Done(Ok(true))
                    },
                    Err(_) => TokenRefreshStep::Done(Ok(false)),
                }
            },
            (step, _) => step,
        }
    }
}

// ---------------------------------------------------------------- a fresh token

/// What is to be done next to authenticate anew.
#[derive(Debug)]
pub enum FreshAuthStep<S = String> {
    /// Remove the tokens, if their file exists; whether that succeeds does not matter.
    DiscardConfig { path: FilePath<S>, registration_path: FilePath<S>, server_url_hash: S },
    /// Remove the registration, if its file exists; whether that succeeds does not
    /// matter.
    DiscardRegistration { path: FilePath<S>, server_url_hash: S },
    /// Clear the caches of the OAuth client.
    ClearCaches { server_url_hash: S },
    /// Have the tokens of the server.
    Authenticate { server_url_hash: S },
    Done(Result<(), S>),
}

/// What came of such a step.
#[derive(Debug)]
pub enum FreshAuthEvent<S = String> {
    Discarded,
    Cleared,
    Authenticated(Result<AuthConfig<S>, CoordinationError<S>>),
}

impl View for FreshAuthStep {
    type V = FreshAuthStep<Seq<char>>;

    open spec fn view(&self) -> FreshAuthStep<Seq<char>> {
        match *self {
            FreshAuthStep::DiscardConfig {
                path,
                registration_path,
                server_url_hash,
            } => FreshAuthStep::DiscardConfig {
                path: path@,
                registration_path: registration_path@,
                server_url_hash: server_url_hash@,
            },
            FreshAuthStep::DiscardRegistration {
                path,
                server_url_hash,
            } => FreshAuthStep::DiscardRegistration {
                path: path@,
                server_url_hash: server_url_hash@,
            },
            FreshAuthStep::ClearCaches { server_url_hash } => FreshAuthStep::ClearCaches {
                server_url_hash: server_url_hash@,
            },
            FreshAuthStep::Authenticate { server_url_hash } => FreshAuthStep::Authenticate {
                server_url_hash: server_url_hash@,
            },
            FreshAuthStep::Done(r) => FreshAuthStep::Done(result_view(r)),
        }
    }
}

impl View for FreshAuthEvent {
    type V = FreshAuthEvent<Seq<char>>;

    open spec fn view(&self) -> FreshAuthEvent<Seq<char>> {
        match *self {
            FreshAuthEvent::Discarded => FreshAuthEvent::Discarded,
            FreshAuthEvent::Cleared => FreshAuthEvent::Cleared,
            FreshAuthEvent::Authenticated(r) => FreshAuthEvent::Authenticated(result_view(r)),
        }
    }
}

impl AuthenticatedHttpClient<Seq<char>> {
    /// The first step of authenticating anew.
    pub open spec fn starting_fresh(self, files: ConfigManager<Seq<char>>) -> FreshAuthStep<
        Seq<char>,
    > {
        match self.server_url_hash {
            None => FreshAuthStep::Done(Ok(())),
            Some(server_url_hash) => FreshAuthStep::DiscardConfig {
                path: files.auth_config_path(server_url_hash),
                registration_path: files.registration_path(server_url_hash),
                server_url_hash,
            },
        }
    }

    /// The client and the step that follow an event.
    pub open spec fn fresh_auth_after(
        self,
        step: FreshAuthStep<Seq<char>>,
        event: FreshAuthEvent<Seq<char>>,
    ) -> (Self, FreshAuthStep<Seq<char>>) {
        match (step, event) {
            (
                FreshAuthStep::DiscardConfig { path, registration_path, server_url_hash },
                FreshAuthEvent::Discarded,
            ) => (
                self,
                FreshAuthStep::DiscardRegistration { path: registration_path, server_url_hash },
            ),
            (
                FreshAuthStep::DiscardRegistration { path, server_url_hash },
                FreshAuthEvent::Discarded,
            ) => (self, FreshAuthStep::ClearCaches { server_url_hash }),
            (FreshAuthStep::ClearCaches { server_url_hash }, FreshAuthEvent::Cleared) => (
                self,
                FreshAuthStep::Authenticate { server_url_hash },
            ),
            (
                FreshAuthStep::Authenticate { server_url_hash },
                FreshAuthEvent::Authenticated(Ok(config)),
            ) => (
                match config.access_token {
                    Some(token) => self.with_token(token),
                    None => self,
                },
                FreshAuthStep::Done(Ok(())),
            ),
            (
                FreshAuthStep::Authenticate { server_url_hash },
                FreshAuthEvent::Authenticated(Err(e)),
            ) => (self, FreshAuthStep::Done(Err(e.text()))),
            _ => (self, step),
        }
    }
}

impl AuthenticatedHttpClient {
    /// Authenticates anew, with nothing kept of what was there.
    pub fn start_fresh_oauth_flow(&self, files: &ConfigManager) -> (r: FreshAuthStep)
        ensures
            r@ == self@.starting_fresh(files@),
    {
        match &self.server_url_hash {
            None => FreshAuthStep::Done(Ok(())),
            Some(server_url_hash) => FreshAuthStep::DiscardConfig {
                path: files.get_auth_config_path(server_url_hash.as_str()),
                registration_path: files.get_registration_path(server_url_hash.as_str()),
                server_url_hash: server_url_hash.clone(),
            },
        }
    }

    /// The step of authenticating anew that follows an event.
    pub fn fresh_auth_next(&mut self, step: FreshAuthStep, event: FreshAuthEvent) -> (r:
        FreshAuthStep)
        ensures
            (final(self)@, r@) == old(self)@.fresh_auth_after(step@, event@),
    {
        match (step, event) {
            (
                FreshAuthStep::DiscardConfig { path: _, registration_path, server_url_hash },
                FreshAuthEvent::Discarded,
            ) => FreshAuthStep::DiscardRegistration { path: registration_path, server_url_hash },
            (
                FreshAuthStep::DiscardRegistration { path: _, server_url_hash },
                FreshAuthEvent::Discarded,
            ) => FreshAuthStep::ClearCaches { server_url_hash },
            (FreshAuthStep::ClearCaches { server_url_hash }, FreshAuthEvent::Cleared) => {
                FreshAuthStep::Authenticate { server_url_hash }
            },
            (
                FreshAuthStep::Authenticate { server_url_hash: _ },
                FreshAuthEvent::Authenticated(authenticated),
            ) => match authenticated {
                Ok(config) => {
                    match config.access_token {
                        Some(token) => {
                            self.auth_token = token;
                        },
                        None => {},
                    }
                    FreshAuthStep::Done(Ok(()))
                },
                Err(e) => FreshAuthStep::Done(Err(e.message())),
            },
            (step, _) => step,
        }
    }
}

// ---------------------------------------------------------------- a refused request

/// What is to be done next about a request that failed. The outcome tells whether it
/// is to be repeated.
#[derive(Debug)]
pub enum RecoverStep<S = String> {
    /// Refresh the token from the tokens that are kept.
    Refresh,
    /// Authenticate anew.
    StartFresh,
    Done(Result<bool, S>),
}

/// What came of such a step.
#[derive(Debug)]
pub enum RecoverEvent<S = String> {
    Refreshed(Result<bool, S>),
    Authenticated(Result<(), S>),
}

impl View for RecoverStep {
    type V = RecoverStep<Seq<char>>;

    open spec fn view(&self) -> RecoverStep<Seq<char>> {
        match *self {
            RecoverStep::Refresh => RecoverStep::Refresh,
            RecoverStep::StartFresh => RecoverStep::StartFresh,
            RecoverStep::Done(r) => RecoverStep::Done(result_view(r)),
        }
    }
}

impl View for RecoverEvent {
    type V = RecoverEvent<Seq<char>>;

    open spec fn view(&self) -> RecoverEvent<Seq<char>> {
        match *self {
            RecoverEvent::Refreshed(r) => RecoverEvent::Refreshed(result_view(r)),
            RecoverEvent::Authenticated(r) => RecoverEvent::Authenticated(result_view(r)),
        }
    }
}

impl AuthenticatedHttpClient<Seq<char>> {
    /// Whether something can be done about a request that failed with this status,
    /// where it failed with one.
    pub open spec fn can_recover(self, status: Option<u16>) -> bool {
        status == Some(401u16) && self.server_url_hash is Some
    }

    /// The first step about a request that failed with this status.
    pub open spec fn recovering(self, status: Option<u16>, is_retry: bool) -> RecoverStep<
        Seq<char>,
    > {
        if !self.can_recover(status) {
            RecoverStep::Done(Ok(false))
        } else if is_retry {
            RecoverStep::StartFresh
        } else {
            RecoverStep::Refresh
        }
    }
}

impl RecoverStep<Seq<char>> {
    /// The step that follows an event.
    pub open spec fn after(self, event: RecoverEvent<Seq<char>>) -> Self {
        match (self, event) {
            (RecoverStep::Refresh, RecoverEvent::Refreshed(refreshed)) => match refreshed {
                Ok(true) => RecoverStep::Done(Ok(true)),
                Ok(false) => RecoverStep::StartFresh,
                Err(m) => RecoverStep::Done(Err(m)),
            },
            (RecoverStep::StartFresh, RecoverEvent::Authenticated(authenticated)) => {
                match authenticated {
                    Ok(_) => RecoverStep::Done(Ok(true)),
                    Err(m) => RecoverStep::Done(Err(m)),
                }
            },
            _ => self,
        }
    }
}

impl RecoverStep {
    /// The step that follows an event.
    pub fn next(self, event: RecoverEvent) -> (r: Self)
        ensures
            r@ == self@.after(event@),
    {
        match (self, event) {
            (RecoverStep::Refresh, RecoverEvent::Refreshed(refreshed)) => match refreshed {
                Ok(there_is_one) => {
                    if there_is_one {
                        RecoverStep::Done(Ok(true))
                    } else {
                        RecoverStep::StartFresh
                    }
                },
                Err(m) => RecoverStep::Done(Err(m)),
            },
            (RecoverStep::StartFresh, RecoverEvent::Authenticated(authenticated)) => {
                match authenticated {
                    Ok(_) => RecoverStep::Done(Ok(true)),
                    Err(m) => RecoverStep::Done(Err(m)),
                }
            },
            (step, _) => step,
        }
    }
}

impl AuthenticatedHttpClient {
    /// Does what can be done about a request that failed with this status, where it
    /// failed with one. `is_retry` tells that it was repeated before.
    pub fn handle_auth_error(&self, status: Option<u16>, is_retry: bool) -> (r: RecoverStep)
        ensures
            r@ == self@.recovering(status, is_retry),
    {
        let refused: bool = match status {
            Some(code) => code == 401,
            None => false,
        };
        if !refused || self.server_url_hash.is_none() {
            RecoverStep::Done(Ok(false))
        } else if is_retry {
            RecoverStep::StartFresh
        } else {
            RecoverStep::Refresh
        }
    }
}

// ---------------------------------------------------------------- a request

/// How often a message is posted at most.
pub const POST_ATTEMPTS: u8 = 3;

/// How often any other request is sent at most.
pub const REQUEST_ATTEMPTS: u8 = 2;

/// What is to be done next about a request, which is all that is sent but for the token.
#[derive(Debug)]
pub enum RequestStep<Q, T, E, S = String> {
    /// Send the request with this token.
    Send { request: Q, token: Option<S>, attempt: u8, limit: u8 },
    /// Do what can be done about the attempt, which failed with this error, and with this
    /// status, where there is one.
    Recover {
        request: Q,
        error: E,
        status: Option<u16>,
        is_retry: bool,
        attempt: u8,
        limit: u8,
    },
    /// The request came to this.
    Done(Result<T, E>),
}

/// What came of such a step.
#[derive(Debug)]
pub enum RequestEvent<T, E, S = String> {
    /// An answer, or the error with which the attempt failed and its status, where it has
    /// one.
    Answered { answer: Result<T, E>, status: Option<u16> },
    Recovered(Result<bool, S>),
}

impl<Q, T, E> View for RequestStep<Q, T, E> {
    type V = RequestStep<Q, T, E, Seq<char>>;

    open spec fn view(&self) -> RequestStep<Q, T, E, Seq<char>> {
        match *self {
            RequestStep::Send { request, token, attempt, limit } => RequestStep::Send {
                request,
                token: opt_view(token),
                attempt,
                limit,
            },
            RequestStep::Recover { request, error, status, is_retry, attempt, limit } => {
                RequestStep::Recover { request, error, status, is_retry, attempt, limit }
            },
            RequestStep::Done(r) => RequestStep::Done(r),
        }
    }
}

impl<T, E> View for RequestEvent<T, E> {
    type V = RequestEvent<T, E, Seq<char>>;

    open spec fn view(&self) -> RequestEvent<T, E, Seq<char>> {
        match *self {
            RequestEvent::Answered { answer, status } => RequestEvent::Answered { answer, status },
            RequestEvent::Recovered(r) => RequestEvent::Recovered(result_view(r)),
        }
    }
}

impl AuthenticatedHttpClient<Seq<char>> {
    /// The first step of a request that is sent at most `limit` times.
    pub open spec fn requesting<Q, T, E>(self, request: Q, limit: u8) -> RequestStep<
        Q,
        T,
        E,
        Seq<char>,
    > {
        RequestStep::Send { request, token: self.token(), attempt: 1, limit }
    }

    /// The step that follows an event: an attempt that failed is repeated as long as it may
    /// be and something could be done about it; else the request comes to what the attempt
    /// came to.
    pub open spec fn request_after<Q, T, E>(
        self,
        step: RequestStep<Q, T, E, Seq<char>>,
        event: RequestEvent<T, E, Seq<char>>,
    ) -> RequestStep<Q, T, E, Seq<char>> {
        match (step, event) {
            (
                RequestStep::Send { request, token, attempt, limit },
                RequestEvent::Answered { answer, status },
            ) => match answer {
                Err(error) if attempt < limit => RequestStep::Recover {
                    request,
                    error,
                    status,
                    is_retry: attempt > 1,
                    attempt,
                    limit,
                },
                _ => RequestStep::Done(answer),
            },
            (
                RequestStep::Recover { request, error, status, is_retry, attempt, limit },
                RequestEvent::Recovered(recovered),
            ) => if recovered == Ok::<bool, Seq<char>>(true) && attempt < limit {
                RequestStep::Send {
                    request,
                    token: self.token(),
                    attempt: (attempt + 1) as u8,
                    limit,
                }
            } else {
                RequestStep::Done(Err(error))
            },
            _ => step,
        }
    }
}

impl AuthenticatedHttpClient {
    /// Posts a message.
    pub fn post_message<Q, T, E>(&self, request: Q) -> (r: RequestStep<Q, T, E>)
        ensures
            r@ == self@.requesting::<Q, T, E>(request, POST_ATTEMPTS),
    {
        RequestStep::Send {
            request,
            token: self.get_auth_token(),
            attempt: 1,
            limit: POST_ATTEMPTS,
        }
    }

    /// Ends a session.
    pub fn delete_session<Q, T, E>(&self, request: Q) -> (r: RequestStep<Q, T, E>)
        ensures
            r@ == self@.requesting::<Q, T, E>(request, REQUEST_ATTEMPTS),
    {
        RequestStep::Send {
            request,
            token: self.get_auth_token(),
            attempt: 1,
            limit: REQUEST_ATTEMPTS,
        }
    }

    /// Opens the stream of a session.
    pub fn get_stream<Q, T, E>(&self, request: Q) -> (r: RequestStep<Q, T, E>)
        ensures
            r@ == self@.requesting::<Q, T, E>(request, REQUEST_ATTEMPTS),
    {
        RequestStep::Send {
            request,
            token: self.get_auth_token(),
            attempt: 1,
            limit: REQUEST_ATTEMPTS,
        }
    }

    /// The step of a request that follows an event.
    pub fn request_next<Q, T, E>(
        &self,
        step: RequestStep<Q, T, E>,
        event: RequestEvent<T, E>,
    ) -> (r: RequestStep<Q, T, E>)
        ensures
            r@ == self@.request_after(step@, event@),
    {
        match (step, event) {
            (
                RequestStep::Send { request, token: _, attempt, limit },
                RequestEvent::Answered { answer, status },
            ) => {
                match answer {
                    Ok(answer) => RequestStep::Done(Ok(answer)),
                    Err(error) => {
                        if attempt < limit {
                            RequestStep::Recover {
                                request,
                                error,
                                status,
                                is_retry: attempt > 1,
                                attempt,
                                limit,
                            }
                        } else {
                            RequestStep::Done(Err(error))
                        }
                    },
                }
            },
            (
                RequestStep::Recover { request, error, status: _, is_retry: _, attempt, limit },
                RequestEvent::Recovered(recovered),
            ) => {
                let again: bool = match recovered {
                    Ok(again) => again,
                    Err(_) => false,
                };
                if again && attempt < limit {
                    RequestStep::Send {
                        request,
                        token: self.get_auth_token(),
                        attempt: attempt + 1,
                        limit,
                    }
                } else {
                    RequestStep::Done(Err(error))
                }
            },
            (step, _) => step,
        }
    }
}

// ---------------------------------------------------------------- running

/// What is to be done next to run the client.
#[derive(Debug)]
pub enum StreamableStep<S = String> {
    /// Find out whether the server wants an authentication, and have one.
    Connect { url: S },
    /// Tell the time.
    ReadTime { url: S, token: S, expires_at: u64 },
    /// Get the tokens that are kept.
    GetConfig { url: S, token: S },
    /// Serve the server at the URL on the standard streams, with the requests of this client.
    Serve { url: S, client: AuthenticatedHttpClient<S> },
    Done(Result<(), S>),
}

/// What came of such a step.
#[derive(Debug)]
pub enum StreamableEvent<S = String> {
    Connected(Result<Option<AuthConfig<S>>, S>),
    Time(u64),
    Config(Result<AuthConfig<S>, AuthError<S>>),
    Served(Result<(), S>),
}

impl View for StreamableStep {
    type V = StreamableStep<Seq<char>>;

    open spec fn view(&self) -> StreamableStep<Seq<char>> {
        match *self {
            StreamableStep::Connect { url } => StreamableStep::Connect { url: url@ },
            StreamableStep::ReadTime { url, token, expires_at } => StreamableStep::ReadTime {
                url: url@,
                token: token@,
                expires_at,
            },
            StreamableStep::GetConfig { url, token } => StreamableStep::GetConfig {
                url: url@,
                token: token@,
            },
            StreamableStep::Serve { url, client } => StreamableStep::Serve {
                url: url@,
                client: client@,
            },
            StreamableStep::Done(r) => StreamableStep::Done(result_view(r)),
        }
    }
}

impl View for StreamableEvent {
    type V = StreamableEvent<Seq<char>>;

    open spec fn view(&self) -> StreamableEvent<Seq<char>> {
        match *self {
            StreamableEvent::Connected(r) => StreamableEvent::Connected(
                crate::connection::connected_view(r),
            ),
            StreamableEvent::Time(now) => StreamableEvent::Time(now),
            StreamableEvent::Config(r) => StreamableEvent::Config(result_view(r)),
            StreamableEvent::Served(r) => StreamableEvent::Served(result_view(r)),
        }
    }
}

impl StreamableEvent {
    /// The event of the time that it is now.
    pub fn time_read(clock: &mut Clock) -> (r: Self)
        ensures
            final(clock).read_once(*old(clock)),
            r@ == StreamableEvent::<Seq<char>>::Time(final(clock).seconds()),
    {
        StreamableEvent::Time(now_seconds(clock))
    }
}

impl StreamableStep<Seq<char>> {
    /// The step that follows an event.
    pub open spec fn after(self, event: StreamableEvent<Seq<char>>) -> Self {
        match (self, event) {
            (StreamableStep::Connect { url }, StreamableEvent::Connected(connected)) => {
                match connected {
                    Err(m) => StreamableStep::Done(Err(m)),
                    Ok(None) => StreamableStep::Serve {
                        url,
                        client: AuthenticatedHttpClient::<Seq<char>>::unauthenticated(),
                    },
                    Ok(Some(config)) => match (config.access_token, config.expires_at) {
                        (None, _) => StreamableStep::Done(Err("Access token is empty"@)),
                        (Some(token), Some(expires_at)) => StreamableStep::ReadTime {
                            url,
                            token,
                            expires_at,
                        },
                        (Some(token), None) => StreamableStep::Serve {
                            url,
                            client: AuthenticatedHttpClient::<Seq<char>>::authenticated(token, url),
                        },
                    },
                }
            },
            (StreamableStep::ReadTime { url, token, expires_at }, StreamableEvent::Time(now)) => {
                if now >= expires_at {
                    StreamableStep::GetConfig { url, token }
                } else {
                    StreamableStep::Serve {
                        url,
                        client: AuthenticatedHttpClient::<Seq<char>>::authenticated(token, url),
                    }
                }
            },
            (StreamableStep::GetConfig { url, token }, StreamableEvent::Config(config)) => {
                let auth_token = match config {
                    Ok(config) => match config.access_token {
                        Some(refreshed) => refreshed,
                        None => token,
                    },
                    Err(_) => token,
                };
                StreamableStep::Serve {
                    url,
                    client: AuthenticatedHttpClient::<Seq<char>>::authenticated(auth_token, url),
                }
            },
            (StreamableStep::Serve { url, client }, StreamableEvent::Served(served)) => {
                StreamableStep::Done(served)
            },
            _ => self,
        }
    }
}

impl StreamableStep {
    /// The step that follows an event.
    pub fn next(self, event: StreamableEvent) -> (r: Self)
        ensures
            r@ == self@.after(event@),
    {
        match (self, event) {
            (StreamableStep::Connect { url }, StreamableEvent::Connected(connected)) => {
                match connected {
                    Err(m) => StreamableStep::Done(Err(m)),
                    Ok(None) => StreamableStep::Serve {
                        url,
                        client: AuthenticatedHttpClient::without_server(),
                    },
                    Ok(Some(config)) => match (config.access_token, config.expires_at) {
                        (None, _) => StreamableStep::Done(Err("Access token is empty".to_string())),
                        (Some(token), Some(expires_at)) => StreamableStep::ReadTime {
                            url,
                            token,
                            expires_at,
                        },
                        (Some(token), None) => {
                            let client = AuthenticatedHttpClient::of_server(token, url.as_str());
                            StreamableStep::Serve { url, client }
                        },
                    },
                }
            },
            (StreamableStep::ReadTime { url, token, expires_at }, StreamableEvent::Time(now)) => {
                if now >= expires_at {
                    StreamableStep::GetConfig { url, token }
                } else {
                    let client = AuthenticatedHttpClient::of_server(token, url.as_str());
                    StreamableStep::Serve { url, client }
                }
            },
            (StreamableStep::GetConfig { url, token }, StreamableEvent::Config(config)) => {
                let auth_token: String = match config {
                    Ok(config) => match config.access_token {
                        Some(refreshed) => refreshed,
                        None => token,
                    },
                    Err(_) => token,
                };
                let client = AuthenticatedHttpClient::of_server(auth_token, url.as_str());
                StreamableStep::Serve { url, client }
            },
            (
                StreamableStep::Serve { url: _, client: _ },
                StreamableEvent::Served(served),
            ) => StreamableStep::Done(served),
            (step, _) => step,
        }
    }
}

/// Runs the client of a streamable HTTP server: the headers of its requests, and its
/// first step.
pub fn run_streamable_http_client(config: &StreamableHttpClientConfig) -> (r: Result<
    (HeaderMap<HeaderValue>, StreamableStep),
    HeaderError,
>)
    ensures
        match r {
            Ok((headers, step)) => built(
                pairs_text(config.headers@),
                Ok(header_entries(headers)),
            ) && step@ == (StreamableStep::Connect { url: config.url@ }),
            Err(e) => built(pairs_text(config.headers@), Err(e@)),
        },
{
    match build_headers(&config.headers) {
        Err(e) => Err(e),
        Ok(headers) => Ok((headers, StreamableStep::Connect { url: config.url.clone() })),
    }
}

} // verus!
