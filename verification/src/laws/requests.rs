//! What holds of the requests of the clients.
use vstd::prelude::*;
use vstd::string::*;
use vstd::utf8::*;

use crate::config::{AuthConfig, ConfigManager};
use crate::connection::{headers_error, headers_of};
use crate::laws::events::lemma_events_stay;
use crate::outside::{is_header_name, is_header_value, lower_name};
use crate::streamable_http_client::{AuthenticatedHttpClient, POST_ATTEMPTS, REQUEST_ATTEMPTS};
use crate::streamable_http_client::{FreshAuthEvent, FreshAuthStep, RecoverEvent, RecoverStep};
use crate::streamable_http_client::{RequestEvent, RequestStep};
use crate::streamable_http_client::{TokenRefreshEvent, TokenRefreshStep};

verus! {

// ---------------------------------------------------------------- headers

/// Pairs are headers if and only if every name and every value is one.
pub proof fn headers_are_refused_for_a_reason(pairs: Seq<(Seq<char>, Seq<char>)>)
    ensures
        headers_error(pairs) is None <==> forall|i: int|
            0 <= i < pairs.len() ==> is_header_name((#[trigger] pairs[i]).0) && is_header_value(
                pairs[i].1,
            ),
    decreases pairs.len(),
{
    if pairs.len() > 0 {
        let before = pairs.drop_last();
        headers_are_refused_for_a_reason(before);
        assert(forall|i: int| 0 <= i < before.len() ==> before[i] == #[trigger] pairs[i]);
        assert(pairs.last() == pairs[pairs.len() - 1]);
        if headers_error(before) is Some {
            let i = choose|i: int|
                0 <= i < before.len() && !(is_header_name((#[trigger] before[i]).0)
                    && is_header_value(before[i].1));
            assert(pairs[i] == before[i]);
        }
    }
}

/// Every header that no later pair of the same name, in whatever case, replaces is sent
/// with its value.
pub proof fn last_header_of_a_name_counts(pairs: Seq<(Seq<char>, Seq<char>)>, at: int)
    requires
        0 <= at < pairs.len(),
        forall|j: int|
            at < j < pairs.len() ==> lower_name((#[trigger] pairs[j]).0) != lower_name(pairs[at].0),
    ensures
        headers_of(pairs).contains_key(lower_name(pairs[at].0)),
        headers_of(pairs)[lower_name(pairs[at].0)] == seq![encode_utf8(pairs[at].1)],
    decreases pairs.len(),
{
    if at < pairs.len() - 1 {
        let before = pairs.drop_last();
        assert forall|j: int| at < j < before.len() implies lower_name((#[trigger] before[j]).0)
            != lower_name(before[at].0) by {
            assert(before[j] == pairs[j]);
        }
        last_header_of_a_name_counts(before, at);
        assert(pairs.last() == pairs[pairs.len() - 1]);
    }
}

/// No header is sent that no pair names.
pub proof fn only_named_headers_are_sent(pairs: Seq<(Seq<char>, Seq<char>)>, name: Seq<char>)
    requires
        headers_of(pairs).contains_key(name),
    ensures
        exists|i: int| 0 <= i < pairs.len() && lower_name((#[trigger] pairs[i]).0) == name,
    decreases pairs.len(),
{
    if pairs.len() > 0 {
        let before = pairs.drop_last();
        if lower_name(pairs.last().0) == name {
            assert(lower_name(pairs[pairs.len() - 1].0) == name);
        } else {
            only_named_headers_are_sent(before, name);
            let i = choose|i: int|
                0 <= i < before.len() && lower_name((#[trigger] before[i]).0) == name;
            assert(lower_name(pairs[i].0) == name);
        }
    }
}

// ---------------------------------------------------------------- attempts

/// An event of a request, and the client as it is when it comes: meanwhile it may have come
/// by another token.
pub type Seen<T, E> = (AuthenticatedHttpClient<Seq<char>>, RequestEvent<T, E, Seq<char>>);

/// A run of a request.
pub open spec fn request_run<Q, T, E>(
    step: RequestStep<Q, T, E, Seq<char>>,
    events: Seq<Seen<T, E>>,
) -> RequestStep<Q, T, E, Seq<char>>
    decreases events.len(),
{
    if events.len() == 0 {
        step
    } else {
        let (client, event) = events.last();
        client.request_after(request_run(step, events.drop_last()), event)
    }
}

/// What was done about an attempt that failed with this status: what came of it, and the
/// client as it then was.
pub struct Recovery {
    pub status: Option<u16>,
    pub is_retry: bool,
    pub outcome: Result<bool, Seq<char>>,
    pub client: AuthenticatedHttpClient<Seq<char>>,
}

/// What happened in a run of a request: what was sent, and with which token; what came back,
/// and with which status; and what was done about it.
pub struct RequestHistory<Q, T, E> {
    pub sent: Seq<(Q, Option<Seq<char>>)>,
    pub answers: Seq<(Result<T, E>, Option<u16>)>,
    pub recoveries: Seq<Recovery>,
}

/// The history of a run of a request. What is being sent counts as sent.
pub open spec fn request_history<Q, T, E>(
    step: RequestStep<Q, T, E, Seq<char>>,
    events: Seq<Seen<T, E>>,
) -> RequestHistory<Q, T, E>
    decreases events.len(),
{
    if events.len() == 0 {
        RequestHistory {
            sent: match step {
                RequestStep::Send { request, token, attempt, limit } => seq![(request, token)],
                _ => Seq::empty(),
            },
            answers: Seq::empty(),
            recoveries: Seq::empty(),
        }
    } else {
        let before = request_history(step, events.drop_last());
        let (client, event) = events.last();
        match (request_run(step, events.drop_last()), event) {
            (
                RequestStep::Send { request, token, attempt, limit },
                RequestEvent::Answered { answer, status },
            ) => RequestHistory { answers: before.answers.push((answer, status)), ..before },
            (
                RequestStep::Recover { request, error, status, is_retry, attempt, limit },
                RequestEvent::Recovered(outcome),
            ) => RequestHistory {
                sent: match request_run(step, events) {
                    RequestStep::Send { request, token, attempt, limit } => before.sent.push(
                        (request, token),
                    ),
                    _ => before.sent,
                },
                recoveries: before.recoveries.push(
                    Recovery { status, is_retry, outcome, client },
                ),
                ..before
            },
            _ => before,
        }
    }
}

/// However a request goes, it is sent at least once and at most `limit` times, every time the
/// same and with the token that the client has then. It is sent again only if the attempt
/// before failed and something could be done about it, where only an attempt that is not the
/// first counts as a retry. It comes to what its last attempt came to, whatever came of
/// dealing with that, and only once that attempt was answered, was the last that may be made,
/// or nothing could be done about it.
pub proof fn request_comes_to_its_last_answer<Q, T, E>(
    client: AuthenticatedHttpClient<Seq<char>>,
    request: Q,
    limit: u8,
    events: Seq<Seen<T, E>>,
)
    requires
        limit > 0,
    ensures
        ({
            let start = client.requesting::<Q, T, E>(request, limit);
            let history = request_history(start, events);
            let n = history.sent.len();
            &&& 1 <= n <= limit
            &&& history.sent[0] == (request, client.token())
            &&& n - 1 <= history.answers.len() <= n
            &&& n - 1 <= history.recoveries.len() <= history.answers.len()
            &&& forall|i: int|
                1 <= i < n ==> (#[trigger] history.sent[i]) == (
                    request,
                    history.recoveries[i - 1].client.token(),
                ) && history.answers[i - 1].0 is Err && history.recoveries[i - 1].outcome == Ok::<
                    bool,
                    Seq<char>,
                >(true)
            &&& forall|i: int|
                0 <= i < history.recoveries.len() ==> (#[trigger] history.recoveries[i]).status
                    == history.answers[i].1 && history.recoveries[i].is_retry == (i > 0)
            &&& match request_run(start, events) {
                RequestStep::Send { request: q, token, attempt, limit: l } => {
                    &&& history.answers.len() == n - 1
                    &&& (q, token) == history.sent.last()
                    &&& attempt == n && l == limit
                },
                RequestStep::Recover { request: q, error, status, is_retry, attempt, limit: l } => {
                    &&& history.answers.len() == n
                    &&& history.recoveries.len() == n - 1
                    &&& history.answers.last() == (Err::<T, E>(error), status)
                    &&& q == request && is_retry == (n > 1) && attempt == n && l == limit
                    &&& n < limit
                },
                RequestStep::Done(r) => {
                    &&& history.answers.len() == n
                    &&& r == history.answers.last().0
                    &&& {
                        ||| r is Ok
                        ||| n == limit
                        ||| history.recoveries.len() == n && history.recoveries.last().outcome
                            != Ok::<bool, Seq<char>>(true)
                    }
                },
            }
        }),
    decreases events.len(),
{
    if events.len() > 0 {
        request_comes_to_its_last_answer(client, request, limit, events.drop_last());
    }
}

/// A message is posted at most three times, any other request sent at most twice.
pub proof fn attempts_are_bounded<Q, T, E>(
    client: AuthenticatedHttpClient<Seq<char>>,
    request: Q,
    events: Seq<Seen<T, E>>,
)
    ensures
        request_history(client.requesting::<Q, T, E>(request, POST_ATTEMPTS), events).sent.len()
            <= 3,
        request_history(client.requesting::<Q, T, E>(request, REQUEST_ATTEMPTS), events).sent.len()
            <= 2,
{
    request_comes_to_its_last_answer(client, request, POST_ATTEMPTS, events);
    request_comes_to_its_last_answer(client, request, REQUEST_ATTEMPTS, events);
}

/// A run of what is done about a request that failed.
pub open spec fn recover_run(
    step: RecoverStep<Seq<char>>,
    events: Seq<RecoverEvent<Seq<char>>>,
) -> RecoverStep<Seq<char>>
    decreases events.len(),
{
    if events.len() == 0 {
        step
    } else {
        recover_run(step, events.drop_last()).after(events.last())
    }
}

/// However it is dealt with a request that failed, it is to be repeated only if it was
/// refused with 401 and the client authenticates, and then only once there is a refreshed
/// or a fresh token. One that was repeated before is never repeated on a refreshed token.
pub proof fn only_refused_requests_are_repeated(
    client: AuthenticatedHttpClient<Seq<char>>,
    status: Option<u16>,
    is_retry: bool,
    events: Seq<RecoverEvent<Seq<char>>>,
)
    ensures
        match recover_run(client.recovering(status, is_retry), events) {
            RecoverStep::Refresh => client.can_recover(status) && !is_retry,
            RecoverStep::StartFresh => client.can_recover(status) && (is_retry || events.contains(
                RecoverEvent::Refreshed(Ok(false)),
            )),
            RecoverStep::Done(Ok(true)) => {
                &&& status == Some(401u16)
                &&& client.server_url_hash is Some
                &&& {
                    ||| (!is_retry && events.contains(RecoverEvent::Refreshed(Ok(true))))
                    ||| events.contains(RecoverEvent::Authenticated(Ok(())))
                }
            },
            RecoverStep::Done(Ok(false)) => !client.can_recover(status),
            RecoverStep::Done(Err(_)) => client.can_recover(status),
        },
    decreases events.len(),
{
    if events.len() > 0 {
        let before = events.drop_last();
        only_refused_requests_are_repeated(client, status, is_retry, before);
        lemma_events_stay(events);
        if let RecoverEvent::Authenticated(Ok(unit)) = events.last() {
            assert(unit == ());
        }
    }
}

// ---------------------------------------------------------------- tokens of a client

/// A repeated request carries the token that was had last; an empty one is not sent.
pub proof fn repeated_request_carries_the_new_token<Q, T, E>(
    client: AuthenticatedHttpClient<Seq<char>>,
    token: Seq<char>,
    request: Q,
    error: E,
    status: Option<u16>,
    is_retry: bool,
    attempt: u8,
    limit: u8,
)
    requires
        attempt < limit,
    ensures
        client.with_token(token).request_after(
            RequestStep::<Q, T, E, Seq<char>>::Recover {
                request,
                error,
                status,
                is_retry,
                attempt,
                limit,
            },
            RequestEvent::Recovered(Ok(true)),
        ) == (RequestStep::<Q, T, E, Seq<char>>::Send {
            request,
            token: if token.len() > 0 {
                Some(token)
            } else {
                None
            },
            attempt: (attempt + 1) as u8,
            limit,
        }),
{
}

/// A run of authenticating anew, and what it makes of the client.
pub open spec fn fresh_auth_run(
    client: AuthenticatedHttpClient<Seq<char>>,
    step: FreshAuthStep<Seq<char>>,
    events: Seq<FreshAuthEvent<Seq<char>>>,
) -> (AuthenticatedHttpClient<Seq<char>>, FreshAuthStep<Seq<char>>)
    decreases events.len(),
{
    if events.len() == 0 {
        (client, step)
    } else {
        let (before, at) = fresh_auth_run(client, step, events.drop_last());
        before.fresh_auth_after(at, events.last())
    }
}

/// How many files were removed in a run of authenticating anew.
pub open spec fn discarded(events: Seq<FreshAuthEvent<Seq<char>>>) -> nat
    decreases events.len(),
{
    if events.len() == 0 {
        0
    } else {
        discarded(events.drop_last()) + if events.last() is Discarded {
            1nat
        } else {
            0nat
        }
    }
}

/// However authenticating anew goes: it starts only once the tokens and the registration
/// of the server were removed, in that order, and the caches cleared; until it has
/// succeeded the token stays; and then it is the one that was had, if there is one.
pub proof fn nothing_old_is_left_to_authenticate_with(
    client: AuthenticatedHttpClient<Seq<char>>,
    files: ConfigManager<Seq<char>>,
    events: Seq<FreshAuthEvent<Seq<char>>>,
)
    requires
        client.server_url_hash is Some,
    ensures
        ({
            let hash = client.server_url_hash->0;
            let (after, step) = fresh_auth_run(client, client.starting_fresh(files), events);
            &&& after.server_url_hash == client.server_url_hash
            &&& !(step matches FreshAuthStep::Done(Ok(_))) ==> after == client
            &&& match step {
                FreshAuthStep::DiscardConfig { path, registration_path, server_url_hash } => path
                    == files.auth_config_path(hash) && registration_path == files.registration_path(
                    hash,
                ) && server_url_hash == hash,
                FreshAuthStep::DiscardRegistration { path, server_url_hash } => path
                    == files.registration_path(hash) && server_url_hash == hash && discarded(events)
                    >= 1,
                FreshAuthStep::ClearCaches { server_url_hash } => server_url_hash == hash
                    && discarded(events) >= 2,
                FreshAuthStep::Authenticate { server_url_hash } => server_url_hash == hash
                    && discarded(events) >= 2 && events.contains(FreshAuthEvent::Cleared),
                FreshAuthStep::Done(Ok(_)) => discarded(events) >= 2 && events.contains(
                    FreshAuthEvent::Cleared,
                ) && exists|
                    config: AuthConfig<Seq<char>>,
                |
                    #[trigger] events.contains(FreshAuthEvent::Authenticated(Ok(config))) && after
                        == match config.access_token {
                        Some(token) => client.with_token(token),
                        None => client,
                    },
                FreshAuthStep::Done(Err(_)) => true,
            }
        }),
    decreases events.len(),
{
    if events.len() > 0 {
        let before = events.drop_last();
        nothing_old_is_left_to_authenticate_with(client, files, before);
        lemma_events_stay(events);
        let (at, step) = fresh_auth_run(client, client.starting_fresh(files), before);
        match (step, events.last()) {
            (
                FreshAuthStep::Authenticate { server_url_hash },
                FreshAuthEvent::Authenticated(Ok(config)),
            ) => {
                assert(events.contains(FreshAuthEvent::Authenticated(Ok(config))));
            },
            _ => {},
        }
    }
}

/// A run of refreshing the token, and what it makes of the client.
pub open spec fn token_refresh_run(
    client: AuthenticatedHttpClient<Seq<char>>,
    step: TokenRefreshStep<Seq<char>>,
    events: Seq<TokenRefreshEvent<Seq<char>>>,
) -> (AuthenticatedHttpClient<Seq<char>>, TokenRefreshStep<Seq<char>>)
    decreases events.len(),
{
    if events.len() == 0 {
        (client, step)
    } else {
        let (before, at) = token_refresh_run(client, step, events.drop_last());
        before.token_refresh_after(at, events.last())
    }
}

/// However refreshing the token goes, the token changes only if a refresh succeeded; and a
/// client that does not authenticate has nothing to refresh.
pub proof fn token_changes_only_by_a_refresh(
    client: AuthenticatedHttpClient<Seq<char>>,
    events: Seq<TokenRefreshEvent<Seq<char>>>,
)
    ensures
        ({
            let (after, step) = token_refresh_run(client, client.refreshing_token(), events);
            &&& after.server_url_hash == client.server_url_hash
            &&& step == TokenRefreshStep::<Seq<char>>::Done(Ok(true)) || after == client
            &&& step == TokenRefreshStep::<Seq<char>>::Done(Ok(true)) ==> client.server_url_hash
                is Some
            &&& client.server_url_hash is None ==> step == TokenRefreshStep::<Seq<char>>::Done(
                Ok(false),
            )
        }),
    decreases events.len(),
{
    if events.len() > 0 {
        token_changes_only_by_a_refresh(client, events.drop_last());
    }
}

} // verus!
