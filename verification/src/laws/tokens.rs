//! What holds of the tokens.
use vstd::prelude::*;
use vstd::string::*;

use crate::auth::{AuthClient, AuthError, AuthTokenResponse};
use crate::config::{AuthConfig, ConfigError, ConfigManager, FilePath};
use crate::config::{LoadEvent, LoadStep, SaveEvent, SaveStep};
use crate::laws::events::lemma_events_stay;
use crate::tokens::{is_expired, refreshing, refresh_refusal};
use crate::tokens::{CallbackStep, GetConfigEvent, GetConfigStep, RefreshStep, TokenEvent};

verus! {

// ---------------------------------------------------------------- the callback

/// A callback is taken up if and only if it carries the state of the authorization
/// under way; before any authorization none is. One that is not taken up is refused at
/// once: nothing is requested, whatever happens.
pub proof fn only_the_awaited_state_is_accepted(
    client: AuthClient<Seq<char>>,
    code: Seq<char>,
    state: Seq<char>,
    events: Seq<TokenEvent<Seq<char>>>,
)
    ensures
        client.awaiting(state).handling(code, state) == (CallbackStep::<Seq<char>>::Discover {
            code,
        }),
        client.auth_state != Some(state) ==> callback_run(
            client,
            client.handling(code, state),
            events,
        ) == CallbackStep::<Seq<char>>::Done(
            Err(AuthError::Other("State mismatch, possible CSRF attack"@)),
        ),
        client.auth_state is None ==> client.handling(code, state) is Done,
    decreases events.len(),
{
    if events.len() > 0 {
        only_the_awaited_state_is_accepted(client, code, state, events.drop_last());
    }
}

/// A run of exchanging the code of a callback.
pub open spec fn callback_run(
    client: AuthClient<Seq<char>>,
    step: CallbackStep<Seq<char>>,
    events: Seq<TokenEvent<Seq<char>>>,
) -> CallbackStep<Seq<char>>
    decreases events.len(),
{
    if events.len() == 0 {
        step
    } else {
        callback_run(client, step, events.drop_last()).after(client, events.last())
    }
}

/// A run of refreshing tokens.
pub open spec fn refresh_run(
    client: AuthClient<Seq<char>>,
    step: RefreshStep<Seq<char>>,
    events: Seq<TokenEvent<Seq<char>>>,
) -> RefreshStep<Seq<char>>
    decreases events.len(),
{
    if events.len() == 0 {
        step
    } else {
        refresh_run(client, step, events.drop_last()).after(client, events.last())
    }
}

/// Whether tokens are the client's, hold an access token, and come from an answer of the
/// server.
pub open spec fn tokens_of(
    client: AuthClient<Seq<char>>,
    events: Seq<TokenEvent<Seq<char>>>,
    kept: Option<Seq<char>>,
    config: AuthConfig<Seq<char>>,
) -> bool {
    &&& config.access_token is Some
    &&& config.server_url == client.server_url
    &&& config.session_id == client.session_id
    &&& exists|tokens: AuthTokenResponse<Seq<char>>, now: u64|
        {
            &&& #[trigger] events.contains(TokenEvent::Tokens { tokens: Ok(tokens), now })
            &&& config == client.token_config(tokens, now, kept)
        }
}

proof fn lemma_tokens_of(
    client: AuthClient<Seq<char>>,
    events: Seq<TokenEvent<Seq<char>>>,
    kept: Option<Seq<char>>,
    config: AuthConfig<Seq<char>>,
)
    requires
        events.len() > 0,
        tokens_of(client, events.drop_last(), kept, config),
    ensures
        tokens_of(client, events, kept, config),
{
    let before = events.drop_last();
    let (tokens, now) = choose|tokens: AuthTokenResponse<Seq<char>>, now: u64|
        {
            &&& #[trigger] before.contains(TokenEvent::Tokens { tokens: Ok(tokens), now })
            &&& config == client.token_config(tokens, now, kept)
        };
    let e = TokenEvent::Tokens { tokens: Ok::<AuthTokenResponse<Seq<char>>, Seq<char>>(tokens), now };
    lemma_events_stay(events);
    assert(events.contains(e));
}

/// However an exchange goes, tokens come out only once they were kept under the hash of the
/// client's server, and they are the ones that were kept: of this client, with an access
/// token, as the server gave them.
pub proof fn exchanged_tokens_are_kept(
    client: AuthClient<Seq<char>>,
    code: Seq<char>,
    state: Seq<char>,
    events: Seq<TokenEvent<Seq<char>>>,
)
    ensures
        match callback_run(client, client.handling(code, state), events) {
            CallbackStep::Save { server_url_hash, config } => server_url_hash
                == client.server_url_hash && tokens_of(client, events, None, config),
            CallbackStep::Done(Ok(config)) => tokens_of(client, events, None, config)
                && events.contains(TokenEvent::Saved(Ok(()))),
            _ => true,
        },
    decreases events.len(),
{
    if events.len() > 0 {
        let before = events.drop_last();
        exchanged_tokens_are_kept(client, code, state, before);
        lemma_events_stay(events);
        let step = callback_run(client, client.handling(code, state), before);
        match (step, events.last()) {
            (CallbackStep::ReadTokens, TokenEvent::Tokens { tokens: Ok(tokens), now }) => {
                assert(events.contains(TokenEvent::Tokens { tokens: Ok(tokens), now }));
            },
            (CallbackStep::Save { server_url_hash: _, config }, e) => {
                lemma_tokens_of(client, events, None, config);
                if let TokenEvent::Saved(Ok(unit)) = e {
                    assert(unit == ());
                    assert(events.contains(TokenEvent::Saved(Ok(()))));
                }
            },
            (CallbackStep::Done(Ok(config)), _) => {
                lemma_tokens_of(client, events, None, config);
            },
            _ => {},
        }
    }
}

/// However a refresh goes, tokens come out only once they were kept under the hash of the
/// client's server, and they are the ones that were kept: of this client, with an access
/// token, as the server gave them, and with the old refresh token where the server gave none.
pub proof fn refreshed_tokens_are_kept(
    client: AuthClient<Seq<char>>,
    config: AuthConfig<Seq<char>>,
    events: Seq<TokenEvent<Seq<char>>>,
)
    ensures
        match refresh_run(client, refreshing(config), events) {
            RefreshStep::Save { server_url_hash, config: new } => server_url_hash
                == client.server_url_hash && tokens_of(client, events, config.refresh_token, new)
                && new.refresh_token is Some,
            RefreshStep::Done(Ok(new)) => tokens_of(client, events, config.refresh_token, new)
                && new.refresh_token is Some && events.contains(TokenEvent::Saved(Ok(()))),
            _ => true,
        },
{
    lemma_refresh_run(client, config, events);
}

proof fn lemma_refresh_run(
    client: AuthClient<Seq<char>>,
    config: AuthConfig<Seq<char>>,
    events: Seq<TokenEvent<Seq<char>>>,
)
    ensures
        match refresh_run(client, refreshing(config), events) {
            RefreshStep::Discover { refresh_token } => config.refresh_token == Some(refresh_token),
            RefreshStep::Register { refresh_token, endpoint } => config.refresh_token == Some(
                refresh_token,
            ),
            RefreshStep::Exchange { refresh_token, endpoint, form } => config.refresh_token == Some(
                refresh_token,
            ),
            RefreshStep::ReadError { status } => true,
            RefreshStep::ReadTokens { refresh_token } => config.refresh_token == Some(
                refresh_token,
            ),
            RefreshStep::Save { server_url_hash, config: new } => server_url_hash
                == client.server_url_hash && tokens_of(client, events, config.refresh_token, new)
                && new.refresh_token is Some,
            RefreshStep::Done(Ok(new)) => tokens_of(client, events, config.refresh_token, new)
                && new.refresh_token is Some && events.contains(TokenEvent::Saved(Ok(()))),
            RefreshStep::Done(Err(_)) => true,
        },
    decreases events.len(),
{
    if events.len() > 0 {
        let before = events.drop_last();
        lemma_refresh_run(client, config, before);
        lemma_events_stay(events);
        let step = refresh_run(client, refreshing(config), before);
        match (step, events.last()) {
            (
                RefreshStep::ReadTokens { refresh_token },
                TokenEvent::Tokens { tokens: Ok(tokens), now },
            ) => {
                assert(events.contains(TokenEvent::Tokens { tokens: Ok(tokens), now }));
            },
            (RefreshStep::Save { server_url_hash: _, config: new }, e) => {
                lemma_tokens_of(client, events, config.refresh_token, new);
                if let TokenEvent::Saved(Ok(unit)) = e {
                    assert(unit == ());
                    assert(events.contains(TokenEvent::Saved(Ok(()))));
                }
            },
            (RefreshStep::Done(Ok(new)), _) => {
                lemma_tokens_of(client, events, config.refresh_token, new);
            },
            _ => {},
        }
    }
}

/// The tokens that an exchange or a refresh keeps are those that the client loads from then
/// on: keeping them writes their JSON text to the file that the client looks at, and the
/// tokens that this text stands for are what comes out of it.
pub proof fn kept_tokens_are_loaded(
    client: AuthClient<Seq<char>>,
    tokens: AuthTokenResponse<Seq<char>>,
    refresh_token: Seq<char>,
    now: u64,
    text: Seq<char>,
)
    requires
        tokens.access_token is Some,
    ensures
        ({
            let event = TokenEvent::Tokens { tokens: Ok(tokens), now };
            let files = client.config_manager;
            let path = files.auth_config_path(client.server_url_hash);
            &&& CallbackStep::ReadTokens.after(client, event) matches CallbackStep::Save {
                server_url_hash,
                config,
            } && config == client.token_config(tokens, now, None) && is_kept_at(
                files,
                server_url_hash,
                config,
                path,
                text,
            )
            &&& (RefreshStep::ReadTokens { refresh_token }).after(client, event)
                matches RefreshStep::Save { server_url_hash, config } && config
                == client.token_config(tokens, now, Some(refresh_token)) && is_kept_at(
                files,
                server_url_hash,
                config,
                path,
                text,
            )
        }),
{
}

/// Whether keeping these tokens under this hash writes their text to the file at this path,
/// and loading those under this hash reads that file and gives the tokens that its text
/// stands for.
pub open spec fn is_kept_at(
    files: ConfigManager<Seq<char>>,
    server_url_hash: Seq<char>,
    config: AuthConfig<Seq<char>>,
    path: FilePath<Seq<char>>,
    text: Seq<char>,
) -> bool {
    let write = files.saving_auth_config(server_url_hash, config).after(
        SaveEvent::Dir(Ok(())),
    ).after(SaveEvent::Serialized(Ok(text)));
    let read = files.loading_auth_config(server_url_hash).after(LoadEvent::Exists(true));
    &&& write == (SaveStep::<Seq<char>>::Write { path, text })
    &&& read == (LoadStep::<AuthConfig<Seq<char>>, Seq<char>>::Read { path })
    &&& read.after(LoadEvent::Contents(Ok(text))).after(LoadEvent::Parsed(Ok(config)))
        == LoadStep::<AuthConfig<Seq<char>>, Seq<char>>::Done(Ok(config))
}

// ---------------------------------------------------------------- validity

/// New tokens are valid from when they were read until the lifetime that the server gave
/// has passed, or an hour where it gave none, and not after.
pub proof fn tokens_are_valid_for_their_lifetime(
    client: AuthClient<Seq<char>>,
    tokens: AuthTokenResponse<Seq<char>>,
    now: u64,
    kept: Option<Seq<char>>,
    later: u64,
)
    requires
        now + tokens.lifetime() <= u64::MAX,
    ensures
        is_expired(client.token_config(tokens, now, kept), later) <==> later >= now
            + tokens.lifetime(),
        tokens.expires_in is None ==> tokens.lifetime() == 3600,
        tokens.expires_in matches Some(secs) ==> tokens.lifetime() == secs,
{
}

/// Tokens that expired stay expired, and tokens without a time never expire.
pub proof fn expired_tokens_stay_expired(config: AuthConfig<Seq<char>>, now: u64, later: u64)
    requires
        now <= later,
    ensures
        is_expired(config, now) ==> is_expired(config, later),
        config.expires_at is None ==> !is_expired(config, now),
{
}

/// A new refresh token takes the place of the old one; without one the old one stays.
pub proof fn refresh_token_is_replaced_or_kept(
    client: AuthClient<Seq<char>>,
    tokens: AuthTokenResponse<Seq<char>>,
    now: u64,
    old_token: Seq<char>,
)
    ensures
        client.token_config(tokens, now, Some(old_token)).refresh_token == match tokens.refresh_token {
            Some(token) => Some(token),
            None => Some(old_token),
        },
{
}

/// Tokens that are kept and still valid are used as they are, without any request; where
/// none are kept, an authentication is required; expired ones are used only refreshed.
pub proof fn valid_tokens_are_used_as_they_are(
    server_url_hash: Seq<char>,
    config: AuthConfig<Seq<char>>,
    now: u64,
    refreshed: Result<AuthConfig<Seq<char>>, AuthError<Seq<char>>>,
)
    ensures
        ({
            let load = GetConfigStep::Load { server_url_hash };
            let loaded = load.after(GetConfigEvent::Loaded { config: Ok(config), now });
            &&& !is_expired(config, now) ==> loaded == GetConfigStep::<Seq<char>>::Done(Ok(config))
            &&& is_expired(config, now) ==> loaded == (GetConfigStep::<Seq<char>>::Refresh {
                config,
            }) && loaded.after(GetConfigEvent::Refreshed(refreshed)) == GetConfigStep::<
                Seq<char>,
            >::Done(refreshed)
            &&& load.after(GetConfigEvent::Loaded { config: Err(ConfigError::NotFound), now })
                == GetConfigStep::<Seq<char>>::Done(Err(AuthError::AuthRequired))
        }),
{
}

/// A refresh that the server refuses with 400 or 401 asks for a new authentication, and
/// no other refusal does.
pub proof fn refused_refresh_requires_authentication(status: u16, text: Option<Seq<char>>)
    ensures
        refresh_refusal(status, text) is AuthRequired <==> (status == 400 || status == 401),
{
}

/// What is done about tokens once it is over stays so.
pub proof fn token_work_ends(
    client: AuthClient<Seq<char>>,
    r: Result<AuthConfig<Seq<char>>, AuthError<Seq<char>>>,
    event: TokenEvent<Seq<char>>,
    config_event: GetConfigEvent<Seq<char>>,
)
    ensures
        CallbackStep::Done(r).after(client, event) == CallbackStep::Done(r),
        RefreshStep::Done(r).after(client, event) == RefreshStep::Done(r),
        GetConfigStep::Done(r).after(config_event) == GetConfigStep::Done(r),
{
}

} // verus!
