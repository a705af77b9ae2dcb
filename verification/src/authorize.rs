//! The URL at which a user authorizes the client.
use vstd::prelude::*;
use vstd::string::*;

use crate::auth::{AuthClient, AuthError, ClientRegistration};
use crate::oidc::{Field, OidcConfig};
use crate::outside::{append_query, random_uuid};
use crate::outside::{is_uuid_text, pairs_size, pairs_text, url_parse, url_query_appended};
use crate::outside::{url_size, URL_SIZE_LIMIT};
use crate::text::result_view;

verus! {

/// The parameters of an authorization, in the order in which they are sent.
pub open spec fn authorization_pairs(
    redirect_url: Seq<char>,
    state: Seq<char>,
    client_id: Seq<char>,
    scopes: Seq<char>,
) -> Seq<(Seq<char>, Seq<char>)> {
    seq![
        ("redirect_uri"@, redirect_url),
        ("state"@, state),
        ("response_type"@, "code"@),
        ("client_id"@, client_id),
        ("scope"@, scopes),
    ]
}

/// The authorization endpoint with the parameters in its query.
pub open spec fn authorization_url_of(
    endpoint: Seq<char>,
    pairs: Seq<(Seq<char>, Seq<char>)>,
) -> Result<Seq<char>, AuthError<Seq<char>>> {
    match url_parse(endpoint) {
        Err(m) => Err(AuthError::Url(m)),
        Ok(_) => Ok(url_query_appended(endpoint, pairs)),
    }
}

/// The parameters of an authorization, in the order in which they are sent.
fn authorization_parameters(
    redirect_url: &str,
    state: &str,
    client_id: &str,
    scopes: &str,
) -> (r: Vec<(String, String)>)
    ensures
        pairs_text(r@) == authorization_pairs(redirect_url@, state@, client_id@, scopes@),
{
    let mut pairs: Vec<(String, String)> = Vec::new();
    pairs.push(("redirect_uri".to_string(), redirect_url.to_string()));
    pairs.push(("state".to_string(), state.to_string()));
    pairs.push(("response_type".to_string(), "code".to_string()));
    pairs.push(("client_id".to_string(), client_id.to_string()));
    pairs.push(("scope".to_string(), scopes.to_string()));
    assert(pairs_text(pairs@) =~= authorization_pairs(redirect_url@, state@, client_id@, scopes@));
    pairs
}

/// The URL at which a user authorizes the client.
pub fn authorization_url(
    endpoint: &str,
    redirect_url: &str,
    state: &str,
    client_id: &str,
    scopes: &str,
) -> (r: Result<String, AuthError>)
    requires
        url_size(endpoint@, authorization_pairs(redirect_url@, state@, client_id@, scopes@))
            <= URL_SIZE_LIMIT,
    ensures
        result_view(r) == authorization_url_of(
            endpoint@,
            authorization_pairs(redirect_url@, state@, client_id@, scopes@),
        ),
{
    let pairs = authorization_parameters(redirect_url, state, client_id, scopes);
    match append_query(endpoint, &pairs) {
        Ok(url) => Ok(url),
        Err(m) => Err(AuthError::Url(m)),
    }
}

/// The first pairs take no more room than all.
proof fn lemma_size_grows(pairs: Seq<(Seq<char>, Seq<char>)>, n: int)
    requires
        0 <= n <= pairs.len(),
    ensures
        pairs_size(pairs.take(n)) <= pairs_size(pairs),
    decreases pairs.len(),
{
    if n < pairs.len() {
        lemma_size_grows(pairs.drop_last(), n);
        assert(pairs.drop_last().take(n) =~= pairs.take(n));
    } else {
        assert(pairs.take(n) =~= pairs);
    }
}

/// Whether a URL with pairs in its query is within the limit.
fn url_fits(url: &str, pairs: &Vec<(String, String)>) -> (r: bool)
    ensures
        r == (url_size(url@, pairs_text(pairs@)) <= URL_SIZE_LIMIT),
{
    let ghost all = pairs_text(pairs@);
    let mut size: u128 = 16 * (url.as_bytes().len() as u128 + 1);
    let mut i: usize = 0;
    assert(all.take(0) =~= Seq::empty());
    while i < pairs.len()
        invariant
            all == pairs_text(pairs@),
            i <= pairs@.len(),
            size == url_size(url@, all.take(i as int)),
            size <= URL_SIZE_LIMIT || i == 0,
            i == 0 ==> size <= 16 * (usize::MAX as u128 + 1),
        decreases pairs@.len() - i,
    {
        proof {
            assert(all.take(i + 1).drop_last() =~= all.take(i as int));
            assert(all.take(i + 1).last() == (pairs@[i as int].0@, pairs@[i as int].1@));
            lemma_size_grows(all, i + 1);
        }
        let name: u128 = pairs[i].0.as_str().as_bytes().len() as u128;
        let value: u128 = pairs[i].1.as_str().as_bytes().len() as u128;
        size = size + 3 * name + 3 * value + 2;
        if size > URL_SIZE_LIMIT as u128 {
            return false;
        }
        i = i + 1;
    }
    assert(all.take(i as int) =~= all);
    size <= URL_SIZE_LIMIT as u128
}

/// What is to be done next to have the URL at which a user authorizes the client.
#[derive(Debug)]
pub enum InitializeStep<S = String> {
    /// Discover the OpenID configuration.
    Discover { state: S, redirect_url: S },
    /// Have a registration.
    Register { endpoint: S, scopes: S, state: S, redirect_url: S },
    Done(Result<S, AuthError<S>>),
}

/// What came of such a step.
#[derive(Debug)]
pub enum InitializeEvent<S = String> {
    Discovered(Result<OidcConfig<S>, AuthError<S>>),
    Registered(Result<ClientRegistration<S>, AuthError<S>>),
}

impl View for InitializeStep {
    type V = InitializeStep<Seq<char>>;

    open spec fn view(&self) -> InitializeStep<Seq<char>> {
        match *self {
            InitializeStep::Discover { state, redirect_url } => InitializeStep::Discover {
                state: state@,
                redirect_url: redirect_url@,
            },
            InitializeStep::Register {
                endpoint,
                scopes,
                state,
                redirect_url,
            } => InitializeStep::Register {
                endpoint: endpoint@,
                scopes: scopes@,
                state: state@,
                redirect_url: redirect_url@,
            },
            InitializeStep::Done(r) => InitializeStep::Done(result_view(r)),
        }
    }
}

impl View for InitializeEvent {
    type V = InitializeEvent<Seq<char>>;

    open spec fn view(&self) -> InitializeEvent<Seq<char>> {
        match *self {
            InitializeEvent::Discovered(r) => InitializeEvent::Discovered(result_view(r)),
            InitializeEvent::Registered(r) => InitializeEvent::Registered(result_view(r)),
        }
    }
}

/// The scopes that are asked for.
pub open spec fn requested_scopes(config: OidcConfig<Seq<char>>) -> Seq<char> {
    match config.scopes_supported {
        Some(scopes) => scopes,
        None => "openid profile email"@,
    }
}

impl InitializeStep<Seq<char>> {
    /// Whether a URL that follows from an event is within its limit.
    pub open spec fn fits(self, event: InitializeEvent<Seq<char>>) -> bool {
        match (self, event) {
            (
                InitializeStep::Register { endpoint, scopes, state, redirect_url },
                InitializeEvent::Registered(Ok(registration)),
            ) => url_size(
                endpoint,
                authorization_pairs(redirect_url, state, registration.client_id, scopes),
            ) <= URL_SIZE_LIMIT,
            _ => true,
        }
    }

    /// The step that follows an event.
    pub open spec fn after(self, event: InitializeEvent<Seq<char>>) -> Self {
        match (self, event) {
            (
                InitializeStep::Discover { state, redirect_url },
                InitializeEvent::Discovered(Err(e)),
            ) => InitializeStep::Done(Err(e)),
            (
                InitializeStep::Discover { state, redirect_url },
                InitializeEvent::Discovered(Ok(config)),
            ) => match config.authorization_endpoint {
                Field::Text(endpoint) => InitializeStep::Register {
                    endpoint,
                    scopes: requested_scopes(config),
                    state,
                    redirect_url,
                },
                _ => InitializeStep::Done(
                    Err(AuthError::Other("No authorization_endpoint in OIDC configuration"@)),
                ),
            },
            (
                InitializeStep::Register { endpoint, scopes, state, redirect_url },
                InitializeEvent::Registered(Err(e)),
            ) => InitializeStep::Done(Err(e)),
            (
                InitializeStep::Register { endpoint, scopes, state, redirect_url },
                InitializeEvent::Registered(Ok(registration)),
            ) => InitializeStep::Done(
                authorization_url_of(
                    endpoint,
                    authorization_pairs(redirect_url, state, registration.client_id, scopes),
                ),
            ),
            _ => self,
        }
    }
}

impl InitializeStep {
    /// Whether a URL that follows from an event is within its limit.
    pub fn is_within_limits(&self, event: &InitializeEvent) -> (r: bool)
        ensures
            r == self@.fits(event@),
    {
        match (self, event) {
            (
                InitializeStep::Register { endpoint, scopes, state, redirect_url },
                InitializeEvent::Registered(Ok(registration)),
            ) => {
                let pairs = authorization_parameters(
                    redirect_url.as_str(),
                    state.as_str(),
                    registration.client_id.as_str(),
                    scopes.as_str(),
                );
                url_fits(endpoint.as_str(), &pairs)
            },
            _ => true,
        }
    }

    /// The step that follows an event.
    pub fn next(self, event: InitializeEvent) -> (r: Self)
        requires
            self@.fits(event@),
        ensures
            r@ == self@.after(event@),
    {
        match (self, event) {
            (
                InitializeStep::Discover { state, redirect_url },
                InitializeEvent::Discovered(discovered),
            ) => match discovered {
                Err(e) => InitializeStep::Done(Err(e)),
                Ok(config) => match config.authorization_endpoint {
                    Field::Text(endpoint) => {
                        let scopes: String = match config.scopes_supported {
                            Some(scopes) => scopes,
                            None => "openid profile email".to_string(),
                        };
                        InitializeStep::Register { endpoint, scopes, state, redirect_url }
                    },
                    _ => InitializeStep::Done(
                        Err(AuthError::other("No authorization_endpoint in OIDC configuration")),
                    ),
                },
            },
            (
                InitializeStep::Register { endpoint, scopes, state, redirect_url },
                InitializeEvent::Registered(registered),
            ) => match registered {
                Err(e) => InitializeStep::Done(Err(e)),
                Ok(registration) => InitializeStep::Done(
                    authorization_url(
                        endpoint.as_str(),
                        redirect_url.as_str(),
                        state.as_str(),
                        registration.client_id.as_str(),
                        scopes.as_str(),
                    ),
                ),
            },
            (step, _) => step,
        }
    }
}

impl AuthClient<Seq<char>> {
    /// The client once an authorization with this state is under way.
    pub open spec fn awaiting(self, state: Seq<char>) -> Self {
        AuthClient { auth_state: Some(state), ..self }
    }

    /// The first step of an authorization with this state.
    pub open spec fn initializing(self, state: Seq<char>) -> InitializeStep<Seq<char>> {
        InitializeStep::Discover { state, redirect_url: self.redirect_url() }
    }
}

impl AuthClient {
    /// Begins an authorization under a random state.
    pub fn initialize_auth(&mut self) -> (r: InitializeStep)
        ensures
            final(self)@.auth_state matches Some(state) && is_uuid_text(state) && final(self)@
                == old(self)@.awaiting(state) && r@ == old(self)@.initializing(state),
    {
        let state = random_uuid();
        self.initialize_auth_with(state)
    }

    /// Begins an authorization under the given state.
    pub fn initialize_auth_with(&mut self, state: String) -> (r: InitializeStep)
        ensures
            final(self)@ == old(self)@.awaiting(state@),
            r@ == old(self)@.initializing(state@),
    {
        self.auth_state = Some(state.clone());
        InitializeStep::Discover { state, redirect_url: self.get_redirect_url() }
    }
}

} // verus!
