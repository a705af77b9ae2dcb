//! What becomes of the token of a client, and of requests that are refused for want of one.
use vstd::prelude::*;
use vstd::string::*;

use crate::auth::AuthError;
use crate::config::{AuthConfig, ConfigError, ConfigManager, FilePath};
use crate::coordination::CoordinationError;
use crate::laws::events::lemma_events_stay;
use crate::laws::requests::token_refresh_run;
use crate::streamable_http_client::{AuthenticatedHttpClient, FreshAuthEvent, FreshAuthStep};
use crate::streamable_http_client::{RecoverEvent, RecoverStep, RequestEvent, RequestStep};
use crate::streamable_http_client::{StreamableEvent, StreamableStep, TokenRefreshEvent};
use crate::streamable_http_client::{TokenRefreshStep, POST_ATTEMPTS, REQUEST_ATTEMPTS};
use crate::utils::url_hash;

verus! {

// ---------------------------------------------------------------- the client

/// A client is made with its token and the hash of its URL, or with neither; its token is sent if
/// it is not empty; and another token changes nothing else.
pub proof fn client_has_its_token(
    client: AuthenticatedHttpClient<Seq<char>>,
    token: Seq<char>,
    url: Seq<char>,
)
    ensures
        ({
            let plain = AuthenticatedHttpClient::<Seq<char>>::unauthenticated();
            let made = AuthenticatedHttpClient::<Seq<char>>::authenticated(token, url);
            &&& plain.auth_token.len() == 0
            &&& plain.server_url_hash is None
            &&& plain.token() is None
            &&& made.auth_token == token
            &&& made.server_url_hash == Some(url_hash(url))
            &&& client.auth_token.len() == 0 <==> client.token() is None
            &&& client.token() matches Some(t) ==> t == client.auth_token
            &&& client.with_token(token).auth_token == token
            &&& client.with_token(token).server_url_hash == client.server_url_hash
        }),
{
}

// ---------------------------------------------------------------- refreshing

/// After a refresh the token of the client is the access token that the refresh returned,
/// whatever else was returned with it, or empty, where there was none; the rest of the client
/// stays.
pub proof fn refreshed_token_is_used(
    client: AuthenticatedHttpClient<Seq<char>>,
    config: AuthConfig<Seq<char>>,
    refreshed: AuthConfig<Seq<char>>,
)
    ensures
        ({
            let (after, step) = client.token_refresh_after(
                TokenRefreshStep::Refresh { config },
                TokenRefreshEvent::Refreshed(Ok(refreshed)),
            );
            &&& refreshed.access_token is Some ==> after.auth_token == refreshed.access_token->0
            &&& refreshed.access_token is None ==> after.auth_token.len() == 0
            &&& after.server_url_hash == client.server_url_hash
            &&& step == TokenRefreshStep::<Seq<char>>::Done(Ok(true))
        }),
{
}

/// Two refreshes that return the same access token leave the same token, and two that return
/// different ones leave different tokens.
pub proof fn token_depends_on_the_access_token_alone(
    client: AuthenticatedHttpClient<Seq<char>>,
    other: AuthenticatedHttpClient<Seq<char>>,
    config: AuthConfig<Seq<char>>,
    a: AuthConfig<Seq<char>>,
    b: AuthConfig<Seq<char>>,
)
    requires
        a.access_token is Some,
        b.access_token is Some,
    ensures
        ({
            let step = TokenRefreshStep::Refresh { config };
            let x = client.token_refresh_after(step, TokenRefreshEvent::Refreshed(Ok(a))).0;
            let y = other.token_refresh_after(step, TokenRefreshEvent::Refreshed(Ok(b))).0;
            a.access_token == b.access_token <==> x.auth_token == y.auth_token
        }),
{
}

/// A client without a server has nothing to refresh; one with a server has the tokens of that
/// server loaded and refreshed. Tokens that are not there, and a refresh that fails, leave the
/// client as it was, and so does a failure to load them, which is told of.
pub proof fn kept_tokens_are_refreshed(
    client: AuthenticatedHttpClient<Seq<char>>,
    hash: Seq<char>,
    config: AuthConfig<Seq<char>>,
    c: ConfigError<Seq<char>>,
    e: AuthError<Seq<char>>,
)
    ensures
        ({
            let load = TokenRefreshStep::Load { server_url_hash: hash };
            let refresh = TokenRefreshStep::Refresh { config };
            &&& client.server_url_hash is None ==> client.refreshing_token() == TokenRefreshStep::<
                Seq<char>,
            >::Done(Ok(false))
            &&& client.server_url_hash == Some(hash) ==> client.refreshing_token() == load
            &&& client.token_refresh_after(load, TokenRefreshEvent::Loaded(Ok(config))) == (
                client,
                refresh,
            )
            &&& client.token_refresh_after(load, TokenRefreshEvent::Loaded(Err(c))) == (
                client,
                if c is NotFound {
                    TokenRefreshStep::<Seq<char>>::Done(Ok(false))
                } else {
                    TokenRefreshStep::<Seq<char>>::Done(Err(c.text()))
                },
            )
            &&& client.token_refresh_after(refresh, TokenRefreshEvent::Refreshed(Err(e))) == (
                client,
                TokenRefreshStep::<Seq<char>>::Done(Ok(false)),
            )
        }),
{
}

/// What happens to a step of a refresh that the event is not about: nothing.
pub proof fn token_refresh_waits_for_its_answers(
    client: AuthenticatedHttpClient<Seq<char>>,
    step: TokenRefreshStep<Seq<char>>,
    event: TokenRefreshEvent<Seq<char>>,
)
    ensures
        client.token_refresh_after(step, event) != (client, step) ==> match step {
            TokenRefreshStep::Load { .. } => event is Loaded,
            TokenRefreshStep::Refresh { .. } => event is Refreshed,
            TokenRefreshStep::Done(_) => false,
        },
{
}

/// Whether a token came with a refresh among the events.
pub open spec fn came_with_a_refresh(
    token: Seq<char>,
    events: Seq<TokenRefreshEvent<Seq<char>>>,
) -> bool {
    exists|config: AuthConfig<Seq<char>>|
        #[trigger] events.contains(TokenRefreshEvent::Refreshed(Ok(config))) && (
        config.access_token == Some(token) || (config.access_token is None && token.len() == 0))
}

/// A run of refreshing that succeeds leaves the token of one of the configurations that a refresh
/// returned; one that does not leaves the token as it was.
pub proof fn successful_refresh_leaves_its_token(
    client: AuthenticatedHttpClient<Seq<char>>,
    events: Seq<TokenRefreshEvent<Seq<char>>>,
)
    ensures
        ({
            let (after, step) = token_refresh_run(client, client.refreshing_token(), events);
            &&& step == TokenRefreshStep::<Seq<char>>::Done(Ok(true)) ==> came_with_a_refresh(
                after.auth_token,
                events,
            )
            &&& step != TokenRefreshStep::<Seq<char>>::Done(Ok(true)) ==> after == client
            &&& after.server_url_hash == client.server_url_hash
        }),
    decreases events.len(),
{
    if events.len() > 0 {
        let before = events.drop_last();
        successful_refresh_leaves_its_token(client, before);
        lemma_events_stay(events);
        let (was, step) = token_refresh_run(client, client.refreshing_token(), before);
        let (after, _) = token_refresh_run(client, client.refreshing_token(), events);
        if step == TokenRefreshStep::<Seq<char>>::Done(Ok(true)) {
            let config = choose|config: AuthConfig<Seq<char>>|
                #[trigger] before.contains(TokenRefreshEvent::Refreshed(Ok(config))) && (
                config.access_token == Some(was.auth_token) || (config.access_token is None
                    && was.auth_token.len() == 0));
            assert(events.contains(TokenRefreshEvent::Refreshed(Ok(config))));
            assert(came_with_a_refresh(after.auth_token, events));
        }
        if step is Refresh {
            match events.last() {
                TokenRefreshEvent::Refreshed(Ok(config)) => {
                    assert(events.contains(TokenRefreshEvent::Refreshed(Ok(config))));
                    assert(came_with_a_refresh(after.auth_token, events));
                },
                _ => {},
            }
        }
    }
}

// ---------------------------------------------------------------- starting anew

/// To authenticate anew the tokens and the registration of the server are discarded and the caches
/// cleared, in this order, before the server's tokens are had; their access token becomes that of
/// the client.
pub proof fn new_tokens_replace_the_old(
    client: AuthenticatedHttpClient<Seq<char>>,
    files: ConfigManager<Seq<char>>,
    hash: Seq<char>,
    config: AuthConfig<Seq<char>>,
    e: CoordinationError<Seq<char>>,
)
    requires
        client.server_url_hash == Some(hash),
    ensures
        ({
            let first = client.starting_fresh(files);
            let second = client.fresh_auth_after(first, FreshAuthEvent::Discarded);
            let third = client.fresh_auth_after(second.1, FreshAuthEvent::Discarded);
            let fourth = client.fresh_auth_after(third.1, FreshAuthEvent::Cleared);
            let last = client.fresh_auth_after(
                fourth.1,
                FreshAuthEvent::Authenticated(Ok(config)),
            );
            &&& first matches FreshAuthStep::DiscardConfig {
                path,
                registration_path,
                server_url_hash,
            } && path == FilePath::Within(
                Box::new(files.config_dir),
                "auth-"@ + hash + ".json"@,
            ) && server_url_hash == hash
            &&& second.0 == client && third.0 == client && fourth.0 == client
            &&& second.1 matches FreshAuthStep::DiscardRegistration { path, server_url_hash }
                && path == FilePath::Within(
                Box::new(files.config_dir),
                "client-registration-"@ + hash + ".json"@,
            ) && server_url_hash == hash
            &&& third.1 == (FreshAuthStep::<Seq<char>>::ClearCaches { server_url_hash: hash })
            &&& fourth.1 == (FreshAuthStep::<Seq<char>>::Authenticate { server_url_hash: hash })
            &&& last.1 == FreshAuthStep::<Seq<char>>::Done(Ok(()))
            &&& config.access_token matches Some(token) ==> last.0.auth_token == token
            &&& config.access_token is None ==> last.0.auth_token == client.auth_token
            &&& last.0.server_url_hash == Some(hash)
            &&& client.fresh_auth_after(fourth.1, FreshAuthEvent::Authenticated(Err(e))) == (
                client,
                FreshAuthStep::<Seq<char>>::Done(Err(e.text())),
            )
        }),
{
}

/// A client without a server has nothing to authenticate against.
pub proof fn nothing_to_authenticate_against(
    client: AuthenticatedHttpClient<Seq<char>>,
    files: ConfigManager<Seq<char>>,
)
    requires
        client.server_url_hash is None,
    ensures
        client.starting_fresh(files) == FreshAuthStep::<Seq<char>>::Done(Ok(())),
{
}

/// What happens to a step of authenticating anew that the event is not about: nothing.
pub proof fn fresh_authentication_waits_for_its_answers(
    client: AuthenticatedHttpClient<Seq<char>>,
    step: FreshAuthStep<Seq<char>>,
    event: FreshAuthEvent<Seq<char>>,
)
    ensures
        client.fresh_auth_after(step, event) != (client, step) ==> match step {
            FreshAuthStep::DiscardConfig { .. } => event is Discarded,
            FreshAuthStep::DiscardRegistration { .. } => event is Discarded,
            FreshAuthStep::ClearCaches { .. } => event is Cleared,
            FreshAuthStep::Authenticate { .. } => event is Authenticated,
            FreshAuthStep::Done(_) => false,
        },
{
}

// ---------------------------------------------------------------- requests

/// Something can be done about an attempt if and only if it was refused with 401 and the client
/// has a server to authenticate against: its token is refreshed the first time, and it
/// authenticates anew after that.
pub proof fn refused_attempt_is_recovered_from(
    client: AuthenticatedHttpClient<Seq<char>>,
    status: Option<u16>,
    is_retry: bool,
)
    ensures
        ({
            let step = client.recovering(status, is_retry);
            let refused = status == Some(401u16) && client.server_url_hash is Some;
            &&& client.can_recover(status) <==> refused
            &&& !refused ==> step == RecoverStep::<Seq<char>>::Done(Ok(false))
            &&& refused && !is_retry ==> step is Refresh
            &&& refused && is_retry ==> step is StartFresh
        }),
{
}

/// A token that was refreshed ends the recovery; where there was nothing to refresh the client
/// authenticates anew; and failures are told of.
pub proof fn recovery_comes_to_a_token(m: Seq<char>)
    ensures
        ({
            let refresh = RecoverStep::<Seq<char>>::Refresh;
            let fresh = RecoverStep::<Seq<char>>::StartFresh;
            let recovered = RecoverStep::<Seq<char>>::Done(Ok(true));
            let failed = RecoverStep::<Seq<char>>::Done(Err(m));
            &&& refresh.after(RecoverEvent::Refreshed(Ok(true))) == recovered
            &&& refresh.after(RecoverEvent::Refreshed(Ok(false))) == fresh
            &&& refresh.after(RecoverEvent::Refreshed(Err(m))) == failed
            &&& fresh.after(RecoverEvent::Authenticated(Ok(()))) == recovered
            &&& fresh.after(RecoverEvent::Authenticated(Err(m))) == failed
            &&& refresh.after(RecoverEvent::Authenticated(Ok(()))) == refresh
            &&& fresh.after(RecoverEvent::Refreshed(Ok(true))) == fresh
        }),
{
}

/// A request is first sent with the token of the client. An answer ends it, and so does an error
/// of the last attempt that is allowed; any other error is to be recovered from, and the request
/// is then sent again, the same, with the token that the client has by then, or ends with that
/// error.
pub proof fn request_is_sent_until_it_is_answered<Q, T, E>(
    client: AuthenticatedHttpClient<Seq<char>>,
    request: Q,
    token: Option<Seq<char>>,
    attempt: u8,
    limit: u8,
    answer: T,
    error: E,
    status: Option<u16>,
    is_retry: bool,
    m: Seq<char>,
)
    requires
        1 <= attempt <= limit,
    ensures
        ({
            let send = RequestStep::<Q, T, E, Seq<char>>::Send { request, token, attempt, limit };
            let refused = client.request_after(
                send,
                RequestEvent::Answered { answer: Err(error), status },
            );
            let recover = RequestStep::<Q, T, E, Seq<char>>::Recover {
                request,
                error,
                status,
                is_retry,
                attempt,
                limit,
            };
            let again = client.request_after(recover, RequestEvent::Recovered(Ok(true)));
            let failed = RequestStep::<Q, T, E, Seq<char>>::Done(Err(error));
            &&& client.requesting::<Q, T, E>(request, limit) == (RequestStep::<
                Q,
                T,
                E,
                Seq<char>,
            >::Send { request, token: client.token(), attempt: 1, limit })
            &&& client.request_after(send, RequestEvent::Answered { answer: Ok(answer), status })
                == RequestStep::<Q, T, E, Seq<char>>::Done(Ok(answer))
            &&& attempt == limit ==> refused == failed
            &&& attempt < limit ==> (refused matches RequestStep::Recover {
                request: q,
                error: e,
                status: s,
                is_retry: retry,
                attempt: a,
                limit: l,
            } && q == request && e == error && s == status && (retry <==> attempt > 1) && a
                == attempt && l == limit)
            &&& attempt < limit ==> (again matches RequestStep::Send {
                request: q,
                token: t,
                attempt: a,
                limit: l,
            } && q == request && t == client.token() && a == attempt + 1 && l == limit)
            &&& client.request_after(recover, RequestEvent::Recovered(Ok(false))) == failed
            &&& client.request_after(recover, RequestEvent::Recovered(Err(m))) == failed
        }),
{
}

/// A message may be sent three times, and any other request twice.
pub proof fn messages_are_sent_three_times<Q, T, E>(
    client: AuthenticatedHttpClient<Seq<char>>,
    request: Q,
)
    ensures
        client.requesting::<Q, T, E>(request, POST_ATTEMPTS) matches RequestStep::Send {
            limit,
            attempt,
            ..
        } && limit - attempt == 2,
        client.requesting::<Q, T, E>(request, REQUEST_ATTEMPTS) matches RequestStep::Send {
            limit,
            attempt,
            ..
        } && limit - attempt == 1,
{
}

/// What happens to a step of a request, or of a recovery, that the event is not about: nothing.
pub proof fn requests_wait_for_their_answers<Q, T, E>(
    client: AuthenticatedHttpClient<Seq<char>>,
    step: RequestStep<Q, T, E, Seq<char>>,
    event: RequestEvent<T, E, Seq<char>>,
    recover: RecoverStep<Seq<char>>,
    recovered: RecoverEvent<Seq<char>>,
)
    ensures
        client.request_after(step, event) != step ==> match step {
            RequestStep::Send { .. } => event is Answered,
            RequestStep::Recover { .. } => event is Recovered,
            RequestStep::Done(_) => false,
        },
        recover.after(recovered) != recover ==> match recover {
            RecoverStep::Refresh => recovered is Refreshed,
            RecoverStep::StartFresh => recovered is Authenticated,
            RecoverStep::Done(_) => false,
        },
{
}

// ---------------------------------------------------------------- serving

/// A server that wants no tokens is served by a client without any; one that does is served with
/// the access token, unless that has expired by then: then with the one that is kept, where it can
/// be had, and with the old one else.
pub proof fn server_is_served_with_a_good_token(
    url: Seq<char>,
    config: AuthConfig<Seq<char>>,
    now: u64,
    kept: Result<AuthConfig<Seq<char>>, AuthError<Seq<char>>>,
    m: Seq<char>,
)
    ensures
        ({
            let connect = StreamableStep::Connect { url };
            let plain = connect.after(StreamableEvent::Connected(Ok(None)));
            let next = connect.after(StreamableEvent::Connected(Ok(Some(config))));
            let timed = next.after(StreamableEvent::Time(now));
            let last = timed.after(StreamableEvent::Config(kept));
            &&& plain matches StreamableStep::Serve { url: to, client } && to == url
                && client.auth_token.len() == 0 && client.server_url_hash is None
            &&& config.access_token is None ==> next == StreamableStep::<Seq<char>>::Done(
                Err("Access token is empty"@),
            )
            &&& config.access_token is Some && config.expires_at is None ==> (next
                matches StreamableStep::Serve { url: to, client } && to == url
                && client.auth_token == config.access_token->0 && client.server_url_hash == Some(
                url_hash(url),
            ))
            &&& config.access_token is Some && config.expires_at is Some && now
                < config.expires_at->0 ==> (timed matches StreamableStep::Serve { url: to, client }
                && to == url && client.auth_token == config.access_token->0
                && client.server_url_hash == Some(url_hash(url)))
            &&& config.access_token is Some && config.expires_at is Some && now
                >= config.expires_at->0 ==> timed is GetConfig && (last
                matches StreamableStep::Serve { url: to, client } && to == url
                && client.server_url_hash == Some(url_hash(url)) && client.auth_token == (if kept
                is Ok && kept->Ok_0.access_token is Some {
                kept->Ok_0.access_token->0
            } else {
                config.access_token->0
            }))
            &&& connect.after(StreamableEvent::Connected(Err(m))) == StreamableStep::<
                Seq<char>,
            >::Done(Err(m))
        }),
{
}

/// A client that has served comes to what the serving came to; and a step that the event is not
/// about stays.
pub proof fn serving_waits_for_its_answers(
    step: StreamableStep<Seq<char>>,
    event: StreamableEvent<Seq<char>>,
)
    ensures
        step is Serve ==> (event matches StreamableEvent::Served(r) ==> step.after(event)
            == StreamableStep::<Seq<char>>::Done(r)),
        step.after(event) != step ==> match step {
            StreamableStep::Connect { .. } => event is Connected,
            StreamableStep::ReadTime { .. } => event is Time,
            StreamableStep::GetConfig { .. } => event is Config,
            StreamableStep::Serve { .. } => event is Served,
            StreamableStep::Done(_) => false,
        },
{
}

} // verus!
