//! What holds of the OAuth client, of its discovery and of its registration.
use vstd::prelude::*;
use vstd::string::*;

use crate::auth::{is_default_port, origin, server_url_error, well_known};
use crate::auth::{AuthClient, AuthError, ClientRegistration, DiscoverEvent, DiscoverStep};
use crate::authorize::{authorization_pairs, authorization_url_of, requested_scopes};
use crate::authorize::{InitializeEvent, InitializeStep};
use crate::config::ConfigManager;
use crate::laws::events::lemma_events_stay;
use crate::oidc::{Field, OidcConfig};
use crate::outside::{is_uuid_text, UrlParts};
use crate::registration::{RegisterEvent, RegisterStep};
use crate::tokens::{code_form, CallbackStep, TokenEvent};

verus! {

// ---------------------------------------------------------------- what every client keeps

/// What makes a client that of a server: the server, the files, the session and the
/// port.
pub open spec fn same_identity(a: AuthClient<Seq<char>>, b: AuthClient<Seq<char>>) -> bool {
    &&& a.server_url == b.server_url
    &&& a.server_url_hash == b.server_url_hash
    &&& a.config_manager == b.config_manager
    &&& a.session_id == b.session_id
    &&& a.redirect_port == b.redirect_port
}

/// A new client of a server is well formed.
pub proof fn fresh_client_is_wf(
    server_url: Seq<char>,
    redirect_port: u16,
    files: ConfigManager<Seq<char>>,
    session_id: Seq<char>,
)
    requires
        server_url_error(server_url) is None,
        is_uuid_text(session_id),
    ensures
        AuthClient::fresh(server_url, redirect_port, files, session_id).wf(),
{
}

/// No operation takes away what holds of every client, nor changes whose client it is.
pub proof fn operations_keep_the_client(
    client: AuthClient<Seq<char>>,
    discover: DiscoverStep<Seq<char>>,
    discover_event: DiscoverEvent<Seq<char>, Seq<u8>>,
    register: RegisterStep<Seq<char>>,
    register_event: RegisterEvent<Seq<char>>,
    state: Seq<char>,
)
    requires
        client.wf(),
        is_uuid_text(state),
    ensures
        client.discover_after(discover, discover_event).0.wf(),
        client.register_after(register, register_event).0.wf(),
        client.awaiting(state).wf(),
        client.without_caches().wf(),
        same_identity(client, client.discover_after(discover, discover_event).0),
        same_identity(client, client.register_after(register, register_event).0),
        same_identity(client, client.awaiting(state)),
        same_identity(client, client.without_caches()),
{
}

// ---------------------------------------------------------------- discovery

/// A port that is the default of its scheme is as good as none.
pub proof fn default_port_is_omitted(scheme: Seq<char>, host: Seq<char>, port: u16)
    requires
        is_default_port(scheme, port),
    ensures
        origin(scheme, host, Some(port)) == origin(scheme, host, None),
        well_known(UrlParts { scheme, host: Some(host), port: Some(port) }) == well_known(
            UrlParts { scheme, host: Some(host), port: None },
        ),
{
}

/// A run of a discovery, and what it makes of the client.
pub open spec fn discover_run(
    client: AuthClient<Seq<char>>,
    step: DiscoverStep<Seq<char>>,
    events: Seq<DiscoverEvent<Seq<char>, Seq<u8>>>,
) -> (AuthClient<Seq<char>>, DiscoverStep<Seq<char>>)
    decreases events.len(),
{
    if events.len() == 0 {
        (client, step)
    } else {
        let (before, at) = discover_run(client, step, events.drop_last());
        before.discover_after(at, events.last())
    }
}

/// However a discovery goes, the configuration that comes out has every required field,
/// and the client stays well formed.
pub proof fn discovered_has_required_fields(
    client: AuthClient<Seq<char>>,
    now: i128,
    events: Seq<DiscoverEvent<Seq<char>, Seq<u8>>>,
)
    requires
        client.wf(),
    ensures
        ({
            let (after, step) = discover_run(client, client.discovering(now), events);
            &&& after.wf()
            &&& same_identity(client, after)
            &&& step matches DiscoverStep::Done(Ok(config)) ==> config.missing_field() is None
        }),
    decreases events.len(),
{
    if events.len() > 0 {
        discovered_has_required_fields(client, now, events.drop_last());
    }
}

/// A configuration that was discovered is used, without asking again, until an hour has
/// passed, and no longer.
pub proof fn discovered_is_used_for_an_hour(
    client: AuthClient<Seq<char>>,
    config: OidcConfig<Seq<char>>,
    at: i128,
    now: i128,
)
    requires
        client.wf(),
    ensures
        ({
            let first = client.discovered(config, at).discovering(now);
            let hour = 3600 * 1_000_000_000;
            &&& at <= now < at + hour ==> first == DiscoverStep::<Seq<char>>::Done(Ok(config))
            &&& (now < at || at + hour <= now) ==> first == client.without_caches().discovering(now)
        }),
{
}

/// What a discovery brings is what the next one, within the hour, starts with.
pub proof fn discovery_fills_the_cache(
    client: AuthClient<Seq<char>>,
    body: Seq<u8>,
    at: i128,
    now: i128,
)
    requires
        client.wf(),
        at <= now < at + 3600 * 1_000_000_000,
    ensures
        ({
            let (after, step) = client.discover_after(
                DiscoverStep::ReadBody,
                DiscoverEvent::Body { body: Ok(body), now: at },
            );
            step matches DiscoverStep::Done(Ok(config)) ==> after.discovering(now)
                == DiscoverStep::<Seq<char>>::Done(Ok(config))
        }),
{
}

/// A client whose caches were cleared asks again for everything.
pub proof fn cleared_client_asks_again(client: AuthClient<Seq<char>>, now: i128)
    ensures
        !(client.without_caches().discovering(now) matches DiscoverStep::Done(Ok(_))),
        client.without_caches().registering() is Load,
        client.without_caches().without_caches() == client.without_caches(),
{
}

// ---------------------------------------------------------------- registration

/// A run of a registration, and what it makes of the client.
pub open spec fn register_run(
    client: AuthClient<Seq<char>>,
    step: RegisterStep<Seq<char>>,
    events: Seq<RegisterEvent<Seq<char>>>,
) -> (AuthClient<Seq<char>>, RegisterStep<Seq<char>>)
    decreases events.len(),
{
    if events.len() == 0 {
        (client, step)
    } else {
        let (before, at) = register_run(client, step, events.drop_last());
        before.register_after(at, events.last())
    }
}

/// However a registration goes: nothing is written but the file of the server's
/// registration, from which it is also read; and the registration that comes out is the
/// one that the client keeps, and was read from or written to that file unless the
/// client had it before.
pub proof fn registration_is_kept(
    client: AuthClient<Seq<char>>,
    events: Seq<RegisterEvent<Seq<char>>>,
)
    ensures
        ({
            let (after, step) = register_run(client, client.registering(), events);
            let path = client.config_manager.registration_path(client.server_url_hash);
            &&& same_identity(client, after)
            &&& step matches RegisterStep::Load { path: p } ==> p == path
            &&& step matches RegisterStep::Write { path: p, registration, text } ==> p == path
                && events.contains(RegisterEvent::Registered(Ok(registration)))
                && events.contains(RegisterEvent::Serialized(Ok(text)))
            &&& step matches RegisterStep::Done(Ok(registration)) ==> {
                &&& after.client_registration == Some(registration)
                &&& after.registering() == step
                &&& {
                    ||| client.client_registration == Some(registration)
                    ||| events.contains(RegisterEvent::Loaded(Ok(registration)))
                    ||| (events.contains(RegisterEvent::Registered(Ok(registration)))
                        && events.contains(RegisterEvent::Written(Ok(()))))
                }
            }
        }),
{
    lemma_register_run(client, events);
}

proof fn lemma_register_run(
    client: AuthClient<Seq<char>>,
    events: Seq<RegisterEvent<Seq<char>>>,
)
    ensures
        ({
            let (after, step) = register_run(client, client.registering(), events);
            let path = client.config_manager.registration_path(client.server_url_hash);
            &&& same_identity(client, after)
            &&& match step {
                RegisterStep::Load { path: p } => p == path,
                RegisterStep::Serialize { registration } => events.contains(
                    RegisterEvent::Registered(Ok(registration)),
                ),
                RegisterStep::EnsureDir { registration, text } => events.contains(
                    RegisterEvent::Registered(Ok(registration)),
                ) && events.contains(RegisterEvent::Serialized(Ok(text))),
                RegisterStep::Write { path: p, registration, text } => p == path && events.contains(
                    RegisterEvent::Registered(Ok(registration)),
                ) && events.contains(RegisterEvent::Serialized(Ok(text))),
                RegisterStep::Done(Ok(registration)) => {
                    &&& after.client_registration == Some(registration)
                    &&& {
                        ||| client.client_registration == Some(registration)
                        ||| events.contains(RegisterEvent::Loaded(Ok(registration)))
                        ||| (events.contains(RegisterEvent::Registered(Ok(registration)))
                            && events.contains(RegisterEvent::Written(Ok(()))))
                    }
                },
                _ => true,
            }
        }),
    decreases events.len(),
{
    if events.len() > 0 {
        let before = events.drop_last();
        lemma_register_run(client, before);
        lemma_events_stay(events);
        if let RegisterEvent::Written(Ok(unit)) = events.last() {
            assert(unit == ());
        }
    }
}

/// The server is told one and the same URL to send the user back to: when the client is
/// registered, when the user authorizes it, and when the code is exchanged. And the
/// code is exchanged for the client that is registered.
pub proof fn one_redirect_url(
    client: AuthClient<Seq<char>>,
    config: OidcConfig<Seq<char>>,
    registration: ClientRegistration<Seq<char>>,
    state: Seq<char>,
    code: Seq<char>,
    endpoint: Seq<char>,
)
    ensures
        client.register_after(RegisterStep::Discover, RegisterEvent::Discovered(Ok(config))).1
            matches RegisterStep::Send { endpoint: _, request } ==> request.redirect_uri
            == client.redirect_url(),
        client.awaiting(state).initializing(state) == (InitializeStep::<Seq<char>>::Discover {
            state,
            redirect_url: client.redirect_url(),
        }),
        authorization_pairs(
            client.redirect_url(),
            state,
            registration.client_id,
            requested_scopes(config),
        )[0] == ("redirect_uri"@, client.redirect_url()),
        (CallbackStep::Register { code, endpoint }).after(
            client,
            TokenEvent::Registered(Ok(registration)),
        ) == (CallbackStep::<Seq<char>>::Exchange {
            endpoint,
            form: code_form(code, registration.client_id, client.redirect_url()),
        }),
        code_form(code, registration.client_id, client.redirect_url()).redirect_uri == (
            "redirect_uri"@,
            client.redirect_url(),
        ),
{
}

/// A run of beginning an authorization.
pub open spec fn initialize_run(
    step: InitializeStep<Seq<char>>,
    events: Seq<InitializeEvent<Seq<char>>>,
) -> InitializeStep<Seq<char>>
    decreases events.len(),
{
    if events.len() == 0 {
        step
    } else {
        initialize_run(step, events.drop_last()).after(events.last())
    }
}

/// Whether a configuration that was discovered and a registration that was had give this
/// URL: that of the authorization endpoint with the state, the client's redirect URL, the
/// registered client and the scopes of the server.
pub open spec fn authorizes(
    client: AuthClient<Seq<char>>,
    state: Seq<char>,
    events: Seq<InitializeEvent<Seq<char>>>,
    config: OidcConfig<Seq<char>>,
    registration: ClientRegistration<Seq<char>>,
    url: Seq<char>,
) -> bool {
    &&& events.contains(InitializeEvent::Discovered(Ok(config)))
    &&& events.contains(InitializeEvent::Registered(Ok(registration)))
    &&& config.authorization_endpoint matches Field::Text(endpoint) && authorization_url_of(
        endpoint,
        authorization_pairs(
            client.redirect_url(),
            state,
            registration.client_id,
            requested_scopes(config),
        ),
    ) == Ok::<Seq<char>, AuthError<Seq<char>>>(url)
}

/// However beginning an authorization goes, the URL that comes out is that of the
/// server's authorization endpoint and carries the state that the client awaits, its
/// redirect URL, the client that was registered and the scopes of the server.
pub proof fn authorization_carries_the_state(
    client: AuthClient<Seq<char>>,
    state: Seq<char>,
    events: Seq<InitializeEvent<Seq<char>>>,
)
    ensures
        initialize_run(client.initializing(state), events) matches InitializeStep::Done(Ok(url))
            ==> exists|
            config: OidcConfig<Seq<char>>,
            registration: ClientRegistration<Seq<char>>,
        | authorizes(client, state, events, config, registration, url),
{
    lemma_initialize_run(client, state, events);
}

/// Whether a discovered configuration gives this endpoint and these scopes.
spec fn gives(
    events: Seq<InitializeEvent<Seq<char>>>,
    config: OidcConfig<Seq<char>>,
    endpoint: Seq<char>,
    scopes: Seq<char>,
) -> bool {
    &&& events.contains(InitializeEvent::Discovered(Ok(config)))
    &&& config.authorization_endpoint == Field::Text(endpoint)
    &&& requested_scopes(config) == scopes
}

/// Whether some discovered configuration gives this endpoint and these scopes.
spec fn given(
    events: Seq<InitializeEvent<Seq<char>>>,
    endpoint: Seq<char>,
    scopes: Seq<char>,
) -> bool {
    exists|config: OidcConfig<Seq<char>>| gives(events, config, endpoint, scopes)
}

proof fn lemma_initialize_run(
    client: AuthClient<Seq<char>>,
    state: Seq<char>,
    events: Seq<InitializeEvent<Seq<char>>>,
)
    ensures
        initialize_run(client.initializing(state), events) matches InitializeStep::Discover {
            state: s,
            redirect_url,
        } ==> s == state && redirect_url == client.redirect_url(),
        initialize_run(client.initializing(state), events) matches InitializeStep::Register {
            endpoint,
            scopes,
            state: s,
            redirect_url,
        } ==> {
            &&& s == state
            &&& redirect_url == client.redirect_url()
            &&& given(events, endpoint, scopes)
        },
        initialize_run(client.initializing(state), events) matches InitializeStep::Done(Ok(url))
            ==> exists|
            config: OidcConfig<Seq<char>>,
            registration: ClientRegistration<Seq<char>>,
        | authorizes(client, state, events, config, registration, url),
    decreases events.len(),
{
    if events.len() > 0 {
        let before = events.drop_last();
        lemma_initialize_run(client, state, before);
        lemma_events_stay(events);
        let step = initialize_run(client.initializing(state), before);
        match (step, events.last()) {
            (
                InitializeStep::Discover { state: _, redirect_url: _ },
                InitializeEvent::Discovered(Ok(config)),
            ) => {
                if let Field::Text(endpoint) = config.authorization_endpoint {
                    assert(gives(events, config, endpoint, requested_scopes(config)));
                    assert(given(events, endpoint, requested_scopes(config)));
                }
            },
            (InitializeStep::Register { endpoint, scopes, state: _, redirect_url: _ }, e) => {
                let config = choose|config: OidcConfig<Seq<char>>|
                    gives(before, config, endpoint, scopes);
                assert(gives(events, config, endpoint, scopes));
                assert(given(events, endpoint, scopes));
                if let InitializeEvent::Registered(Ok(registration)) = e {
                    if let InitializeStep::Done(Ok(url)) = step.after(e) {
                        assert(authorizes(client, state, events, config, registration, url));
                    }
                }
            },
            (InitializeStep::Done(Ok(url)), _) => {
                let (config, registration) = choose|
                    config: OidcConfig<Seq<char>>,
                    registration: ClientRegistration<Seq<char>>,
                | authorizes(client, state, before, config, registration, url);
                assert(authorizes(client, state, events, config, registration, url));
            },
            _ => {},
        }
    }
}

/// What is done about discovery, registration and authorization once it is over stays
/// so, and changes nothing more of the client.
pub proof fn client_work_ends(
    client: AuthClient<Seq<char>>,
    discovered: Result<OidcConfig<Seq<char>>, AuthError<Seq<char>>>,
    discover_event: DiscoverEvent<Seq<char>, Seq<u8>>,
    registered: Result<ClientRegistration<Seq<char>>, AuthError<Seq<char>>>,
    register_event: RegisterEvent<Seq<char>>,
    initialized: Result<Seq<char>, AuthError<Seq<char>>>,
    initialize_event: InitializeEvent<Seq<char>>,
)
    ensures
        client.discover_after(DiscoverStep::Done(discovered), discover_event) == (
            client,
            DiscoverStep::Done(discovered),
        ),
        client.register_after(RegisterStep::Done(registered), register_event) == (
            client,
            RegisterStep::Done(registered),
        ),
        InitializeStep::Done(initialized).after(initialize_event) == InitializeStep::Done(
            initialized,
        ),
{
}

} // verus!
