//! What holds of how the clients connect to a server.
use vstd::prelude::*;
use vstd::string::*;

use crate::auth::{is_success, AuthClient};
use crate::config::AuthConfig;
use crate::connection::{authenticating, AuthenticateEvent, AuthenticateStep};
use crate::connection::{ConnectEvent, ConnectStep};
use crate::coordination::AuthCoordinationResult;
use crate::laws::events::lemma_events_stay;
use crate::sse_client::{bearer, message_url, opening, stream_request, SseEvent, SseStep};
use crate::streamable_http_client::{AuthenticatedHttpClient, TokenRefreshStep};
use crate::streamable_http_client::{StreamableEvent, StreamableStep};
use crate::utils::{url_hash, DEFAULT_CALLBACK_PORT};

verus! {

/// A run of finding out whether a server wants an authentication.
pub open spec fn connect_run(
    step: ConnectStep<Seq<char>>,
    events: Seq<ConnectEvent<Seq<char>>>,
) -> ConnectStep<Seq<char>>
    decreases events.len(),
{
    if events.len() == 0 {
        step
    } else {
        connect_run(step, events.drop_last()).after(events.last())
    }
}

/// However a client connects: it authenticates only where the server answered 401, goes
/// without tokens only where it answered 200, and the tokens are those that the
/// authentication gave.
pub proof fn client_authenticates_where_the_server_asks(
    url: Seq<char>,
    events: Seq<ConnectEvent<Seq<char>>>,
)
    ensures
        ({
            let asked = events.contains(ConnectEvent::Probed(Ok(401)));
            match connect_run(ConnectStep::Probe { url }, events) {
                ConnectStep::Probe { url: u } => u == url,
                ConnectStep::CreateClient { url: u, redirect_port } => u == url && redirect_port
                    == DEFAULT_CALLBACK_PORT && asked,
                ConnectStep::Authenticate => asked && events.contains(
                    ConnectEvent::ClientCreated(Ok(())),
                ),
                ConnectStep::Done(Ok(None)) => events.contains(ConnectEvent::Probed(Ok(200))),
                ConnectStep::Done(Ok(Some(config))) => asked && events.contains(
                    ConnectEvent::Authenticated(Ok(config)),
                ),
                ConnectStep::Done(Err(_)) => true,
            }
        }),
    decreases events.len(),
{
    if events.len() > 0 {
        let before = events.drop_last();
        client_authenticates_where_the_server_asks(url, before);
        lemma_events_stay(events);
        if let ConnectEvent::ClientCreated(Ok(unit)) = events.last() {
            assert(unit == ());
        }
    }
}

/// A run of having the tokens of a server.
pub open spec fn authenticate_run(
    step: AuthenticateStep<Seq<char>>,
    events: Seq<AuthenticateEvent<Seq<char>>>,
) -> AuthenticateStep<Seq<char>>
    decreases events.len(),
{
    if events.len() == 0 {
        step
    } else {
        authenticate_run(step, events.drop_last()).after(events.last())
    }
}

/// However the tokens of a server are had: they were there, or an authentication gave
/// them, which is that of this process or of the one that holds the lock, as was found
/// out.
pub proof fn tokens_come_as_coordinated(
    server_url_hash: Seq<char>,
    events: Seq<AuthenticateEvent<Seq<char>>>,
)
    ensures
        match authenticate_run(authenticating(server_url_hash), events) {
            AuthenticateStep::Coordinate { server_url_hash: h, callback_port } => h
                == server_url_hash && callback_port == DEFAULT_CALLBACK_PORT,
            AuthenticateStep::HandleAuth { auth_url, callback_port } => callback_port
                == DEFAULT_CALLBACK_PORT && events.contains(
                AuthenticateEvent::Coordinated(Ok(AuthCoordinationResult::HandleAuth { auth_url })),
            ),
            AuthenticateStep::WaitForAuth { lock_file } => events.contains(
                AuthenticateEvent::Coordinated(
                    Ok(AuthCoordinationResult::WaitForAuth { lock_file }),
                ),
            ),
            AuthenticateStep::Done(Ok(auth_config)) => {
                ||| events.contains(AuthenticateEvent::Authenticated(Ok(auth_config)))
                ||| events.contains(
                    AuthenticateEvent::Coordinated(
                        Ok(AuthCoordinationResult::AuthDone { auth_config }),
                    ),
                )
            },
            AuthenticateStep::Done(Err(e)) => {
                ||| events.contains(AuthenticateEvent::Authenticated(Err(e)))
                ||| events.contains(AuthenticateEvent::Coordinated(Err(e)))
            },
        },
    decreases events.len(),
{
    if events.len() > 0 {
        let before = events.drop_last();
        tokens_come_as_coordinated(server_url_hash, before);
        lemma_events_stay(events);
    }
}

/// Whether the client connected with tokens among which this access token is.
pub open spec fn connected_with(
    events: Seq<StreamableEvent<Seq<char>>>,
    token: Seq<char>,
) -> bool {
    exists|config: AuthConfig<Seq<char>>|
        config.access_token == Some(token) && #[trigger] events.contains(
            StreamableEvent::Connected(Ok(Some(config))),
        )
}

/// Whether this access token was had in place of an expired one.
pub open spec fn renewed_with(events: Seq<StreamableEvent<Seq<char>>>, token: Seq<char>) -> bool {
    exists|config: AuthConfig<Seq<char>>|
        config.access_token == Some(token) && #[trigger] events.contains(
            StreamableEvent::Config(Ok(config)),
        )
}

/// A run of the client of a streamable HTTP server.
pub open spec fn streamable_run(
    step: StreamableStep<Seq<char>>,
    events: Seq<StreamableEvent<Seq<char>>>,
) -> StreamableStep<Seq<char>>
    decreases events.len(),
{
    if events.len() == 0 {
        step
    } else {
        streamable_run(step, events.drop_last()).after(events.last())
    }
}

proof fn lemma_streamable_event_stays(
    events: Seq<StreamableEvent<Seq<char>>>,
    token: Seq<char>,
)
    requires
        events.len() > 0,
    ensures
        connected_with(events.drop_last(), token) ==> connected_with(events, token),
        renewed_with(events.drop_last(), token) ==> renewed_with(events, token),
{
    let before = events.drop_last();
    lemma_events_stay(events);
    if connected_with(before, token) {
        let config = choose|config: AuthConfig<Seq<char>>|
            config.access_token == Some(token) && #[trigger] before.contains(
                StreamableEvent::Connected(Ok(Some(config))),
            );
        assert(events.contains(StreamableEvent::Connected(Ok(Some(config)))));
    }
    if renewed_with(before, token) {
        let config = choose|config: AuthConfig<Seq<char>>|
            config.access_token == Some(token) && #[trigger] before.contains(
                StreamableEvent::Config(Ok(config)),
            );
        assert(events.contains(StreamableEvent::Config(Ok(config))));
    }
}

/// However the client of a streamable HTTP server runs, it serves the server at its URL,
/// with no token where none is wanted, and otherwise with the access token that it
/// connected with or one that was had in place of it once that had expired. It
/// re-authenticates where it authenticated, against the server at its URL, and nowhere else.
pub proof fn server_is_served_with_its_token(
    url: Seq<char>,
    events: Seq<StreamableEvent<Seq<char>>>,
)
    ensures
        match streamable_run(StreamableStep::Connect { url }, events) {
            StreamableStep::Connect { url: u } => u == url,
            StreamableStep::ReadTime { url: u, token, expires_at } => u == url && connected_with(
                events,
                token,
            ),
            StreamableStep::GetConfig { url: u, token } => u == url && connected_with(events, token),
            StreamableStep::Serve { url: u, client } => {
                &&& u == url
                &&& {
                    ||| (client == AuthenticatedHttpClient::<Seq<char>>::unauthenticated()
                        && events.contains(StreamableEvent::Connected(Ok(None))))
                    ||| (client.server_url_hash == Some(url_hash(url)) && (connected_with(
                        events,
                        client.auth_token,
                    ) || renewed_with(events, client.auth_token)))
                }
            },
            StreamableStep::Done(_) => true,
        },
    decreases events.len(),
{
    if events.len() > 0 {
        let before = events.drop_last();
        server_is_served_with_its_token(url, before);
        lemma_events_stay(events);
        let step = streamable_run(StreamableStep::Connect { url }, before);
        match (step, events.last()) {
            (
                StreamableStep::Connect { url: _ },
                StreamableEvent::Connected(Ok(Some(config))),
            ) => {
                assert(events.contains(StreamableEvent::Connected(Ok(Some(config)))));
                if let Some(token) = config.access_token {
                    assert(connected_with(events, token));
                }
            },
            (StreamableStep::ReadTime { url: _, token, expires_at: _ }, _) => {
                lemma_streamable_event_stays(events, token);
            },
            (StreamableStep::GetConfig { url: _, token }, e) => {
                lemma_streamable_event_stays(events, token);
                if let StreamableEvent::Config(Ok(config)) = e {
                    assert(events.contains(StreamableEvent::Config(Ok(config))));
                    if let Some(refreshed) = config.access_token {
                        assert(renewed_with(events, refreshed));
                    }
                }
            },
            (StreamableStep::Serve { url: _, client }, _) => {
                lemma_streamable_event_stays(events, client.auth_token);
            },
            _ => {},
        }
    }
}

/// A client re-authenticates, refreshes and starts over with the files of the very OAuth
/// client that it connected with: that of the server at its URL.
pub proof fn client_authenticates_against_its_own_server(
    url: Seq<char>,
    token: Seq<char>,
    oauth: AuthClient<Seq<char>>,
)
    requires
        oauth.wf(),
        oauth.server_url == url,
    ensures
        AuthenticatedHttpClient::<Seq<char>>::authenticated(token, url).server_url_hash == Some(
            oauth.server_url_hash,
        ),
        AuthenticatedHttpClient::<Seq<char>>::authenticated(token, url).refreshing_token() == (
        TokenRefreshStep::<Seq<char>>::Load { server_url_hash: oauth.server_url_hash }),
        AuthenticatedHttpClient::<Seq<char>>::unauthenticated().token() is None,
        AuthenticatedHttpClient::<Seq<char>>::unauthenticated().refreshing_token()
            == TokenRefreshStep::<Seq<char>>::Done(Ok(false)),
{
}

/// Tokens without an access token are of no use: neither client goes on with them.
pub proof fn no_client_runs_without_an_access_token(
    url: Seq<char>,
    config: AuthConfig<Seq<char>>,
)
    requires
        config.access_token is None,
    ensures
        (StreamableStep::Connect { url }).after(StreamableEvent::Connected(Ok(Some(config))))
            == StreamableStep::<Seq<char>>::Done(Err("Access token is empty"@)),
        (SseStep::Connect { url }).after(SseEvent::Connected(Ok(Some(config)))) == SseStep::<
            Seq<char>,
        >::Done(Err("Access token is empty"@)),
{
}

/// A run of the client of an SSE server.
pub open spec fn sse_run(step: SseStep<Seq<char>>, events: Seq<SseEvent<Seq<char>>>) -> SseStep<
    Seq<char>,
>
    decreases events.len(),
{
    if events.len() == 0 {
        step
    } else {
        sse_run(step, events.drop_last()).after(events.last())
    }
}

/// Whether this is the authorization that the client connected with: none where the server
/// wants none, and otherwise its access token.
pub open spec fn authorized_with(
    events: Seq<SseEvent<Seq<char>>>,
    authorization: Option<Seq<char>>,
) -> bool {
    match authorization {
        None => events.contains(SseEvent::Connected(Ok(None))),
        Some(header) => exists|config: AuthConfig<Seq<char>>|
            (config.access_token matches Some(token) && header == bearer(token))
                && #[trigger] events.contains(SseEvent::Connected(Ok(Some(config)))),
    }
}

proof fn lemma_authorized_stays(
    events: Seq<SseEvent<Seq<char>>>,
    authorization: Option<Seq<char>>,
)
    requires
        events.len() > 0,
        authorized_with(events.drop_last(), authorization),
    ensures
        authorized_with(events, authorization),
{
    let before = events.drop_last();
    lemma_events_stay(events);
    match authorization {
        None => {
            assert(before.contains(SseEvent::Connected(Ok(None))));
        },
        Some(header) => {
            let config = choose|config: AuthConfig<Seq<char>>|
                (config.access_token matches Some(token) && header == bearer(token))
                    && #[trigger] before.contains(SseEvent::Connected(Ok(Some(config))));
            assert(events.contains(SseEvent::Connected(Ok(Some(config)))));
        },
    }
}

/// Whether the stream of events was opened.
pub open spec fn stream_opened(events: Seq<SseEvent<Seq<char>>>) -> bool {
    exists|code: u16| is_success(code) && #[trigger] events.contains(SseEvent::Opened(Ok(code)))
}

/// However the client of an SSE server runs, the stream of events is asked for and the
/// messages are sent at the endpoints of its URL, both under the authorization that the
/// client connected with; and it serves the server only once the stream was opened.
pub proof fn events_and_messages_are_authorized_alike(
    url: Seq<char>,
    events: Seq<SseEvent<Seq<char>>>,
)
    ensures
        match sse_run(SseStep::Connect { url }, events) {
            SseStep::Connect { url: u } => u == url,
            SseStep::Open { request, message_url: m } => m == message_url(url) && request
                == stream_request(url, request.authorization) && authorized_with(
                events,
                request.authorization,
            ),
            SseStep::Serve { message_url: m, auth_header } => m == message_url(url)
                && authorized_with(events, auth_header) && stream_opened(events),
            SseStep::Done(_) => true,
        },
    decreases events.len(),
{
    if events.len() > 0 {
        let before = events.drop_last();
        events_and_messages_are_authorized_alike(url, before);
        lemma_events_stay(events);
        let step = sse_run(SseStep::Connect { url }, before);
        match (step, events.last()) {
            (SseStep::Connect { url: _ }, SseEvent::Connected(Ok(connected))) => {
                assert(events.contains(SseEvent::Connected(Ok(connected))));
                if let Some(config) = connected {
                    if let Some(token) = config.access_token {
                        assert(authorized_with(events, Some(bearer(token))));
                    }
                } else {
                    assert(authorized_with(events, None));
                }
            },
            (SseStep::Open { request, message_url: _ }, e) => {
                lemma_authorized_stays(events, request.authorization);
                if let SseEvent::Opened(Ok(code)) = e {
                    assert(events.contains(SseEvent::Opened(Ok(code))));
                }
            },
            (SseStep::Serve { message_url: _, auth_header }, _) => {
                lemma_authorized_stays(events, auth_header);
                let code = choose|code: u16|
                    is_success(code) && #[trigger] before.contains(SseEvent::Opened(Ok(code)));
                assert(events.contains(SseEvent::Opened(Ok(code))));
            },
            _ => {},
        }
    }
}

/// The access token that an SSE client connected with is sent with the request for the
/// events and with every message.
pub proof fn access_token_is_sent_along(
    url: Seq<char>,
    config: AuthConfig<Seq<char>>,
    token: Seq<char>,
    code: u16,
)
    requires
        config.access_token == Some(token),
        is_success(code),
    ensures
        ({
            let open = (SseStep::Connect { url }).after(SseEvent::Connected(Ok(Some(config))));
            &&& open == opening(url, Some(bearer(token)))
            &&& open.after(SseEvent::Opened(Ok(code))) == (SseStep::<Seq<char>>::Serve {
                message_url: message_url(url),
                auth_header: Some(bearer(token)),
            })
        }),
{
}

} // verus!
