//! What both clients do before they connect: build their headers, find out whether
//! the server wants them to authenticate, and do so.
use reqwest::header::{HeaderMap, HeaderValue};
use vstd::prelude::*;
use vstd::string::*;
use vstd::utf8::*;

use crate::auth::{AuthClient, AuthError};
use crate::config::{AuthConfig, LockFile};
use crate::coordination::{AuthCoordinationResult, CoordinationError};
use crate::outside::{header_entries, insert_header, lower_name, no_headers, pairs_text};
use crate::outside::{header_refusal, is_header_name, is_header_value, HeaderEntries, HeaderError};
use crate::outside::{HEADER_LIMIT, MAX_HEADERS};
use crate::text::{decimal, decimal_text, opt_view, result_view};
use crate::utils::DEFAULT_CALLBACK_PORT;

verus! {

// ---------------------------------------------------------------- headers

/// The message with which the first pair that is no header is refused.
pub open spec fn headers_error(pairs: Seq<(Seq<char>, Seq<char>)>) -> Option<Seq<char>>
    decreases pairs.len(),
{
    if pairs.len() == 0 {
        None
    } else {
        match headers_error(pairs.drop_last()) {
            Some(m) => Some(m),
            None => {
                let (name, value) = pairs.last();
                if is_header_name(name) && is_header_value(value) {
                    None
                } else {
                    Some(header_refusal(name))
                }
            },
        }
    }
}

/// The headers that pairs of names and values give: of two pairs whose names differ
/// at most in case, the later one counts.
pub open spec fn headers_of(pairs: Seq<(Seq<char>, Seq<char>)>) -> HeaderEntries
    decreases pairs.len(),
{
    if pairs.len() == 0 {
        HeaderEntries::empty()
    } else {
        headers_of(pairs.drop_last()).insert(
            lower_name(pairs.last().0),
            seq![encode_utf8(pairs.last().1)],
        )
    }
}

/// There are no more headers than pairs.
proof fn lemma_headers_count(pairs: Seq<(Seq<char>, Seq<char>)>)
    ensures
        headers_of(pairs).dom().finite(),
        headers_of(pairs).dom().len() <= pairs.len(),
    decreases pairs.len(),
{
    if pairs.len() > 0 {
        lemma_headers_count(pairs.drop_last());
    }
}

/// A pair that is refused stays refused whatever follows it.
proof fn lemma_error_stays(pairs: Seq<(Seq<char>, Seq<char>)>, n: int)
    requires
        0 <= n <= pairs.len(),
        headers_error(pairs.take(n)) is Some,
    ensures
        headers_error(pairs) == headers_error(pairs.take(n)),
    decreases pairs.len() - n,
{
    if n < pairs.len() {
        assert(pairs.take(n + 1).drop_last() =~= pairs.take(n));
        lemma_error_stays(pairs, n + 1);
    } else {
        assert(pairs.take(n) =~= pairs);
    }
}

/// Whether there may be no room for one of the pairs: those up to it are headers, and those
/// before it are so many that room for another is not certain.
pub open spec fn may_be_full(pairs: Seq<(Seq<char>, Seq<char>)>) -> bool {
    exists|i: int|
        0 <= i < pairs.len() && headers_error(pairs.take(i + 1)) is None && headers_of(
            #[trigger] pairs.take(i),
        ).dom().len() > HEADER_LIMIT
}

/// Whether these are the headers that pairs of names and values give, or this is why they
/// give none.
pub open spec fn built(
    pairs: Seq<(Seq<char>, Seq<char>)>,
    r: Result<HeaderEntries, HeaderError<Seq<char>>>,
) -> bool {
    &&& match r {
        Ok(headers) => headers_error(pairs) is None && headers == headers_of(pairs)
            && headers.dom().len() <= MAX_HEADERS,
        Err(HeaderError::Refused(m)) => headers_error(pairs) == Some(m),
        Err(HeaderError::Full) => may_be_full(pairs),
    }
    &&& pairs.len() <= HEADER_LIMIT ==> !(r matches Err(HeaderError::Full))
}

/// The headers that pairs of names and values give.
pub fn build_headers(pairs: &Vec<(String, String)>) -> (r: Result<
    HeaderMap<HeaderValue>,
    HeaderError,
>)
    ensures
        match r {
            Ok(headers) => built(pairs_text(pairs@), Ok(header_entries(headers))),
            Err(e) => built(pairs_text(pairs@), Err(e@)),
        },
{
    let ghost texts = pairs_text(pairs@);
    let mut headers: HeaderMap<HeaderValue> = no_headers();
    let mut i: usize = 0;
    assert(texts.take(0) =~= Seq::empty());
    while i < pairs.len()
        invariant
            texts == pairs_text(pairs@),
            i <= pairs@.len(),
            headers_error(texts.take(i as int)) is None,
            header_entries(headers) == headers_of(texts.take(i as int)),
            header_entries(headers).dom().len() <= MAX_HEADERS,
        decreases pairs@.len() - i,
    {
        proof {
            lemma_headers_count(texts.take(i as int));
            assert(texts.take(i + 1).drop_last() =~= texts.take(i as int));
            assert(texts.take(i + 1).last() == (pairs@[i as int].0@, pairs@[i as int].1@));
        }
        match insert_header(&mut headers, pairs[i].0.as_str(), pairs[i].1.as_str()) {
            Ok(_) => {},
            Err(e) => {
                proof {
                    if e is Refused {
                        lemma_error_stays(texts, i + 1);
                    }
                }
                return Err(e);
            },
        }
        i = i + 1;
    }
    assert(texts.take(pairs@.len() as int) =~= texts);
    Ok(headers)
}

// ---------------------------------------------------------------- authenticating

/// What is to be done next to have the tokens of a server.
#[derive(Debug)]
pub enum AuthenticateStep<S = String> {
    /// Find out what this process does.
    Coordinate { server_url_hash: S, callback_port: u16 },
    /// Authenticate with the user.
    HandleAuth { auth_url: S, callback_port: u16 },
    /// Wait for the process that holds the lock.
    WaitForAuth { lock_file: LockFile<S> },
    Done(Result<AuthConfig<S>, CoordinationError<S>>),
}

/// What came of such a step.
#[derive(Debug)]
pub enum AuthenticateEvent<S = String> {
    Coordinated(Result<AuthCoordinationResult<S>, CoordinationError<S>>),
    Authenticated(Result<AuthConfig<S>, CoordinationError<S>>),
}

impl View for AuthenticateStep {
    type V = AuthenticateStep<Seq<char>>;

    open spec fn view(&self) -> AuthenticateStep<Seq<char>> {
        match *self {
            AuthenticateStep::Coordinate {
                server_url_hash,
                callback_port,
            } => AuthenticateStep::Coordinate { server_url_hash: server_url_hash@, callback_port },
            AuthenticateStep::HandleAuth {
                auth_url,
                callback_port,
            } => AuthenticateStep::HandleAuth { auth_url: auth_url@, callback_port },
            AuthenticateStep::WaitForAuth { lock_file } => AuthenticateStep::WaitForAuth {
                lock_file: lock_file@,
            },
            AuthenticateStep::Done(r) => AuthenticateStep::Done(result_view(r)),
        }
    }
}

impl View for AuthenticateEvent {
    type V = AuthenticateEvent<Seq<char>>;

    open spec fn view(&self) -> AuthenticateEvent<Seq<char>> {
        match *self {
            AuthenticateEvent::Coordinated(r) => AuthenticateEvent::Coordinated(result_view(r)),
            AuthenticateEvent::Authenticated(r) => AuthenticateEvent::Authenticated(result_view(r)),
        }
    }
}

impl AuthenticateStep<Seq<char>> {
    /// The step that follows an event.
    pub open spec fn after(self, event: AuthenticateEvent<Seq<char>>) -> Self {
        match (self, event) {
            (
                AuthenticateStep::Coordinate { server_url_hash, callback_port },
                AuthenticateEvent::Coordinated(coordinated),
            ) => match coordinated {
                Ok(AuthCoordinationResult::HandleAuth { auth_url }) => {
                    AuthenticateStep::HandleAuth { auth_url, callback_port }
                },
                Ok(AuthCoordinationResult::WaitForAuth { lock_file }) => {
                    AuthenticateStep::WaitForAuth { lock_file }
                },
                Ok(AuthCoordinationResult::AuthDone { auth_config }) => AuthenticateStep::Done(
                    Ok(auth_config),
                ),
                Err(e) => AuthenticateStep::Done(Err(e)),
            },
            (
                AuthenticateStep::HandleAuth { auth_url, callback_port },
                AuthenticateEvent::Authenticated(r),
            ) => AuthenticateStep::Done(r),
            (
                AuthenticateStep::WaitForAuth { lock_file },
                AuthenticateEvent::Authenticated(r),
            ) => AuthenticateStep::Done(r),
            _ => self,
        }
    }
}

impl AuthenticateStep {
    /// The step that follows an event.
    pub fn next(self, event: AuthenticateEvent) -> (r: Self)
        ensures
            r@ == self@.after(event@),
    {
        match (self, event) {
            (
                AuthenticateStep::Coordinate { server_url_hash: _, callback_port },
                AuthenticateEvent::Coordinated(coordinated),
            ) => match coordinated {
                Ok(result) => match result {
                    AuthCoordinationResult::HandleAuth { auth_url } => {
                        AuthenticateStep::HandleAuth { auth_url, callback_port }
                    },
                    AuthCoordinationResult::WaitForAuth { lock_file } => {
                        AuthenticateStep::WaitForAuth { lock_file }
                    },
                    AuthCoordinationResult::AuthDone { auth_config } => AuthenticateStep::Done(
                        Ok(auth_config),
                    ),
                },
                Err(e) => AuthenticateStep::Done(Err(e)),
            },
            (
                AuthenticateStep::HandleAuth { auth_url: _, callback_port: _ },
                AuthenticateEvent::Authenticated(r),
            ) => AuthenticateStep::Done(r),
            (
                AuthenticateStep::WaitForAuth { lock_file: _ },
                AuthenticateEvent::Authenticated(r),
            ) => AuthenticateStep::Done(r),
            (step, _) => step,
        }
    }
}

/// The first step of having the tokens of a server.
pub open spec fn authenticating(server_url_hash: Seq<char>) -> AuthenticateStep<Seq<char>> {
    AuthenticateStep::Coordinate { server_url_hash, callback_port: DEFAULT_CALLBACK_PORT }
}

/// Has the tokens of the server of a client.
pub fn authenticate(auth_client: &AuthClient) -> (r: AuthenticateStep)
    ensures
        r@ == authenticating(auth_client@.server_url_hash),
{
    AuthenticateStep::Coordinate {
        server_url_hash: auth_client.server_url_hash.clone(),
        callback_port: DEFAULT_CALLBACK_PORT,
    }
}

// ---------------------------------------------------------------- connecting

/// What is to be done next to find out whether a server wants an authentication, and
/// to have one.
#[derive(Debug)]
pub enum ConnectStep<S = String> {
    /// Send a GET request.
    Probe { url: S },
    /// Make the OAuth client of the server.
    CreateClient { url: S, redirect_port: u16 },
    /// Have the tokens of the server of that client.
    Authenticate,
    /// The tokens, where the server wants an authentication, or what went wrong.
    Done(Result<Option<AuthConfig<S>>, S>),
}

/// What came of such a step.
#[derive(Debug)]
pub enum ConnectEvent<S = String> {
    Probed(Result<u16, S>),
    ClientCreated(Result<(), AuthError<S>>),
    Authenticated(Result<AuthConfig<S>, CoordinationError<S>>),
}

/// The view of the outcome of connecting.
pub open spec fn connected_view(r: Result<Option<AuthConfig>, String>) -> Result<
    Option<AuthConfig<Seq<char>>>,
    Seq<char>,
> {
    match r {
        Ok(config) => Ok(opt_view(config)),
        Err(m) => Err(m@),
    }
}

impl View for ConnectStep {
    type V = ConnectStep<Seq<char>>;

    open spec fn view(&self) -> ConnectStep<Seq<char>> {
        match *self {
            ConnectStep::Probe { url } => ConnectStep::Probe { url: url@ },
            ConnectStep::CreateClient { url, redirect_port } => ConnectStep::CreateClient {
                url: url@,
                redirect_port,
            },
            ConnectStep::Authenticate => ConnectStep::Authenticate,
            ConnectStep::Done(r) => ConnectStep::Done(connected_view(r)),
        }
    }
}

impl View for ConnectEvent {
    type V = ConnectEvent<Seq<char>>;

    open spec fn view(&self) -> ConnectEvent<Seq<char>> {
        match *self {
            ConnectEvent::Probed(r) => ConnectEvent::Probed(result_view(r)),
            ConnectEvent::ClientCreated(r) => ConnectEvent::ClientCreated(result_view(r)),
            ConnectEvent::Authenticated(r) => ConnectEvent::Authenticated(result_view(r)),
        }
    }
}

impl ConnectStep<Seq<char>> {
    /// The step that follows an event.
    pub open spec fn after(self, event: ConnectEvent<Seq<char>>) -> Self {
        match (self, event) {
            (ConnectStep::Probe { url }, ConnectEvent::Probed(Err(m))) => ConnectStep::Done(Err(m)),
            (ConnectStep::Probe { url }, ConnectEvent::Probed(Ok(code))) => {
                if code == 200 {
                    ConnectStep::Done(Ok(None))
                } else if code == 401 {
                    ConnectStep::CreateClient { url, redirect_port: DEFAULT_CALLBACK_PORT }
                } else {
                    ConnectStep::Done(Err("Unexpected response: "@ + decimal_text(code as nat)))
                }
            },
            (
                ConnectStep::CreateClient { url, redirect_port },
                ConnectEvent::ClientCreated(created),
            ) => match created {
                Ok(_) => ConnectStep::Authenticate,
                Err(e) => ConnectStep::Done(Err(e.text())),
            },
            (ConnectStep::Authenticate, ConnectEvent::Authenticated(authenticated)) => {
                match authenticated {
                    Ok(config) => ConnectStep::Done(Ok(Some(config))),
                    Err(e) => ConnectStep::Done(Err(e.text())),
                }
            },
            _ => self,
        }
    }
}

impl ConnectStep {
    /// The step that follows an event.
    pub fn next(self, event: ConnectEvent) -> (r: Self)
        ensures
            r@ == self@.after(event@),
    {
        match (self, event) {
            (ConnectStep::Probe { url }, ConnectEvent::Probed(probed)) => match probed {
                Err(m) => ConnectStep::Done(Err(m)),
                Ok(code) => {
                    if code == 200 {
                        ConnectStep::Done(Ok(None))
                    } else if code == 401 {
                        ConnectStep::CreateClient { url, redirect_port: DEFAULT_CALLBACK_PORT }
                    } else {
                        ConnectStep::Done(
                            Err(
                                "Unexpected response: ".to_string().concat(
                                    decimal(code as u64).as_str(),
                                ),
                            ),
                        )
                    }
                },
            },
            (
                ConnectStep::CreateClient { url: _, redirect_port: _ },
                ConnectEvent::ClientCreated(created),
            ) => match created {
                Ok(_) => ConnectStep::Authenticate,
                Err(e) => ConnectStep::Done(Err(e.message())),
            },
            (ConnectStep::Authenticate, ConnectEvent::Authenticated(authenticated)) => {
                match authenticated {
                    Ok(config) => ConnectStep::Done(Ok(Some(config))),
                    Err(e) => ConnectStep::Done(Err(e.message())),
                }
            },
            (step, _) => step,
        }
    }
}

/// Finds out whether the server at a URL wants an authentication, and has one.
pub fn connect(url: &str) -> (r: ConnectStep)
    ensures
        r@ == (ConnectStep::Probe { url: url@ }),
{
    ConnectStep::Probe { url: url.to_string() }
}

} // verus!
