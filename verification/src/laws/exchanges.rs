//! What comes of a registration, of an exchange of a code or of a refresh token for tokens, and
//! of getting the tokens that are kept.
use vstd::prelude::*;
use vstd::string::*;

use crate::auth::{AuthClient, AuthError, AuthTokenResponse, ClientRegistration};
use crate::config::{AuthConfig, ConfigError, FilePath};
use crate::oidc::{Field, OidcConfig};
use crate::outside::status_text;
use crate::registration::{RegisterEvent, RegisterStep, RegistrationRequest};
use crate::tokens::{code_form, is_expired, refresh_form, refreshing};
use crate::tokens::{CallbackStep, GetConfigEvent, GetConfigStep, RefreshStep, TokenEvent};

verus! {

/// The text of an answer, or what is told in its place where it could not be read.
pub open spec fn text_or_unknown(text: Option<Seq<char>>) -> Seq<char> {
    match text {
        Some(t) => t,
        None => "Unknown error"@,
    }
}

// ---------------------------------------------------------------- tokens

/// A time is told with its seconds from another one.
pub open spec fn is_after(time: Option<u64>, now: u64, secs: int) -> bool {
    time matches Some(at) && at == now + secs
}

/// Tokens are kept as they were answered: the access token is that of the answer, and so is the
/// refresh token, where the answer has one; they are good for as long as the answer says, or for
/// an hour, where it does not say; and they are those of the client's server and session.
pub proof fn answered_tokens_are_kept(
    client: AuthClient<Seq<char>>,
    tokens: AuthTokenResponse<Seq<char>>,
    now: u64,
    kept: Option<Seq<char>>,
)
    requires
        tokens.expires_in is None ==> now + 3600 <= u64::MAX,
        tokens.expires_in matches Some(secs) ==> now + secs <= u64::MAX,
    ensures
        ({
            let config = client.token_config(tokens, now, kept);
            &&& config.access_token == tokens.access_token
            &&& tokens.refresh_token is Some ==> config.refresh_token == tokens.refresh_token
            &&& tokens.refresh_token is None ==> config.refresh_token == kept
            &&& tokens.expires_in matches Some(secs) ==> is_after(
                config.expires_at,
                now,
                secs as int,
            )
            &&& tokens.expires_in is None ==> is_after(config.expires_at, now, 3600)
            &&& config.server_url == client.server_url
            &&& config.session_id == client.session_id
            &&& config.auth_state is None
        }),
{
}

/// Neither the refresh token of an answer nor the one that was kept bears on the access token;
/// and answers with different access tokens are kept differently.
pub proof fn refresh_token_is_no_access_token(
    client: AuthClient<Seq<char>>,
    a: AuthTokenResponse<Seq<char>>,
    b: AuthTokenResponse<Seq<char>>,
    now: u64,
    x: Option<Seq<char>>,
    y: Option<Seq<char>>,
)
    ensures
        a.access_token == b.access_token <==> client.token_config(a, now, x).access_token
            == client.token_config(b, now, y).access_token,
        a.refresh_token is Some && a.refresh_token == b.refresh_token ==> client.token_config(
            a,
            now,
            x,
        ).refresh_token == client.token_config(b, now, y).refresh_token,
{
}

// ---------------------------------------------------------------- a code

/// Every field of the form for a code stands under its own name.
pub proof fn code_is_sent_with_the_client(
    code: Seq<char>,
    client_id: Seq<char>,
    redirect_uri: Seq<char>,
)
    ensures
        ({
            let form = code_form(code, client_id, redirect_uri);
            &&& form.code == ("code"@, code)
            &&& form.grant_type == ("grant_type"@, "authorization_code"@)
            &&& form.client_id == ("client_id"@, client_id)
            &&& form.redirect_uri == ("redirect_uri"@, redirect_uri)
        }),
{
}

/// A code that came with the awaited state is sent to the token endpoint, with the registered
/// client and the redirect URL; the tokens of the answer are kept under the hash of the server,
/// and handed out once they are.
pub proof fn code_gives_tokens(
    client: AuthClient<Seq<char>>,
    code: Seq<char>,
    state: Seq<char>,
    config: OidcConfig<Seq<char>>,
    endpoint: Seq<char>,
    registration: ClientRegistration<Seq<char>>,
    status: u16,
    tokens: AuthTokenResponse<Seq<char>>,
    now: u64,
)
    requires
        client.auth_state == Some(state),
        config.token_endpoint == Field::Text(endpoint),
        200 <= status <= 299,
        tokens.access_token is Some,
    ensures
        ({
            let discover = client.handling(code, state);
            let register = discover.after(client, TokenEvent::Discovered(Ok(config)));
            let exchange = register.after(client, TokenEvent::Registered(Ok(registration)));
            let read = exchange.after(client, TokenEvent::Sent(Ok(status)));
            let save = read.after(client, TokenEvent::Tokens { tokens: Ok(tokens), now });
            let last = save.after(client, TokenEvent::Saved(Ok(())));
            &&& discover is Discover
            &&& register is Register
            &&& exchange matches CallbackStep::Exchange { endpoint: to, form } && to == endpoint
                && form.code == ("code"@, code) && form.grant_type == (
                "grant_type"@,
                "authorization_code"@,
            ) && form.client_id == ("client_id"@, registration.client_id) && form.redirect_uri == (
                "redirect_uri"@,
                client.redirect_url(),
            )
            &&& read is ReadTokens
            &&& save matches CallbackStep::Save { server_url_hash, config: kept }
                && server_url_hash == client.server_url_hash && kept == client.token_config(
                tokens,
                now,
                None,
            ) && kept.access_token == tokens.access_token && kept.refresh_token
                == tokens.refresh_token && last == CallbackStep::<Seq<char>>::Done(Ok(kept))
        }),
{
}

/// An exchange of a code that goes wrong tells what went wrong: the error of the step that
/// failed, the missing endpoint, the status and the text of a refusal, or the missing token.
pub proof fn failed_exchange_tells_why(
    client: AuthClient<Seq<char>>,
    code: Seq<char>,
    state: Seq<char>,
    endpoint: Seq<char>,
    kept: AuthConfig<Seq<char>>,
    config: OidcConfig<Seq<char>>,
    e: AuthError<Seq<char>>,
    c: ConfigError<Seq<char>>,
    m: Seq<char>,
    text: Option<Seq<char>>,
    status: u16,
    tokens: AuthTokenResponse<Seq<char>>,
    now: u64,
)
    requires
        !(config.token_endpoint is Text),
        !(200 <= status <= 299),
        tokens.access_token is None,
    ensures
        ({
            let discover = CallbackStep::Discover { code };
            let register = CallbackStep::Register { code, endpoint };
            let exchange = CallbackStep::Exchange { endpoint, form: code_form(code, m, m) };
            let refused = exchange.after(client, TokenEvent::Sent(Ok(status)));
            let read = CallbackStep::<Seq<char>>::ReadTokens;
            let save = CallbackStep::Save { server_url_hash: m, config: kept };
            &&& client.auth_state != Some(state) ==> client.handling(code, state)
                == CallbackStep::<Seq<char>>::Done(
                Err(AuthError::Other("State mismatch, possible CSRF attack"@)),
            )
            &&& discover.after(client, TokenEvent::Discovered(Err(e))) == CallbackStep::<
                Seq<char>,
            >::Done(Err(e))
            &&& discover.after(client, TokenEvent::Discovered(Ok(config))) == CallbackStep::<
                Seq<char>,
            >::Done(Err(AuthError::Other("No token_endpoint in OIDC configuration"@)))
            &&& register.after(client, TokenEvent::Registered(Err(e))) == CallbackStep::<
                Seq<char>,
            >::Done(Err(e))
            &&& exchange.after(client, TokenEvent::Sent(Err(m))) == CallbackStep::<
                Seq<char>,
            >::Done(Err(AuthError::Http(m)))
            &&& refused.after(client, TokenEvent::ErrorText(text)) == CallbackStep::<
                Seq<char>,
            >::Done(
                Err(
                    AuthError::Other(
                        "Failed to get tokens"@ + ": "@ + status_text(status) + " - "@
                            + text_or_unknown(text),
                    ),
                ),
            )
            &&& read.after(client, TokenEvent::Tokens { tokens: Err(m), now })
                == CallbackStep::<Seq<char>>::Done(Err(AuthError::Http(m)))
            &&& read.after(client, TokenEvent::Tokens { tokens: Ok(tokens), now })
                == CallbackStep::<Seq<char>>::Done(
                Err(AuthError::Other("No access_token in token response"@)),
            )
            &&& save.after(client, TokenEvent::Saved(Err(c))) == CallbackStep::<Seq<char>>::Done(
                Err(AuthError::Config(c)),
            )
        }),
{
}

/// What happens to a step of an exchange that the event is not about: nothing.
pub proof fn exchange_waits_for_its_answers(
    client: AuthClient<Seq<char>>,
    step: CallbackStep<Seq<char>>,
    event: TokenEvent<Seq<char>>,
)
    ensures
        step.after(client, event) != step ==> match step {
            CallbackStep::Discover { .. } => event is Discovered,
            CallbackStep::Register { .. } => event is Registered,
            CallbackStep::Exchange { .. } => event is Sent,
            CallbackStep::ReadError { .. } => event is ErrorText,
            CallbackStep::ReadTokens => event is Tokens,
            CallbackStep::Save { .. } => event is Saved,
            CallbackStep::Done(_) => false,
        },
{
}

// ---------------------------------------------------------------- a refresh token

/// Every field of the form for a refresh token stands under its own name.
pub proof fn refresh_token_is_sent_with_the_client(refresh_token: Seq<char>, client_id: Seq<char>)
    ensures
        ({
            let form = refresh_form(refresh_token, client_id);
            &&& form.refresh_token == ("refresh_token"@, refresh_token)
            &&& form.grant_type == ("grant_type"@, "refresh_token"@)
            &&& form.client_id == ("client_id"@, client_id)
        }),
{
}

/// The refresh token of a configuration is sent to the token endpoint, with the registered
/// client; the tokens of the answer are kept under the hash of the server, with the refresh
/// token that was sent, where the answer has none, and handed out once they are.
pub proof fn refresh_token_gives_tokens(
    client: AuthClient<Seq<char>>,
    old: AuthConfig<Seq<char>>,
    refresh_token: Seq<char>,
    config: OidcConfig<Seq<char>>,
    endpoint: Seq<char>,
    registration: ClientRegistration<Seq<char>>,
    status: u16,
    tokens: AuthTokenResponse<Seq<char>>,
    now: u64,
)
    requires
        old.refresh_token == Some(refresh_token),
        config.token_endpoint == Field::Text(endpoint),
        200 <= status <= 299,
        tokens.access_token is Some,
    ensures
        ({
            let discover = refreshing(old);
            let register = discover.after(client, TokenEvent::Discovered(Ok(config)));
            let exchange = register.after(client, TokenEvent::Registered(Ok(registration)));
            let read = exchange.after(client, TokenEvent::Sent(Ok(status)));
            let save = read.after(client, TokenEvent::Tokens { tokens: Ok(tokens), now });
            let last = save.after(client, TokenEvent::Saved(Ok(())));
            &&& discover is Discover
            &&& register is Register
            &&& exchange matches RefreshStep::Exchange { refresh_token: sent, endpoint: to, form }
                && sent == refresh_token && to == endpoint && form.refresh_token == (
                "refresh_token"@,
                refresh_token,
            ) && form.grant_type == ("grant_type"@, "refresh_token"@) && form.client_id == (
                "client_id"@,
                registration.client_id,
            )
            &&& read is ReadTokens
            &&& save matches RefreshStep::Save { server_url_hash, config: kept } && server_url_hash
                == client.server_url_hash && kept == client.token_config(
                tokens,
                now,
                Some(refresh_token),
            ) && kept.access_token == tokens.access_token && kept.refresh_token == (
            if tokens.refresh_token is Some {
                tokens.refresh_token
            } else {
                Some(refresh_token)
            }) && last == RefreshStep::<Seq<char>>::Done(Ok(kept))
        }),
{
}

/// A refresh that goes wrong tells what went wrong: the missing refresh token, the error of the
/// step that failed, the missing endpoint, a refusal with its status and text or, where the
/// server no longer takes the refresh token, that an authentication is required.
pub proof fn failed_refresh_tells_why(
    client: AuthClient<Seq<char>>,
    old: AuthConfig<Seq<char>>,
    refresh_token: Seq<char>,
    endpoint: Seq<char>,
    config: OidcConfig<Seq<char>>,
    e: AuthError<Seq<char>>,
    c: ConfigError<Seq<char>>,
    m: Seq<char>,
    text: Option<Seq<char>>,
    status: u16,
    tokens: AuthTokenResponse<Seq<char>>,
    now: u64,
)
    requires
        !(config.token_endpoint is Text),
        !(200 <= status <= 299),
        tokens.access_token is None,
    ensures
        ({
            let discover = RefreshStep::Discover { refresh_token };
            let register = RefreshStep::Register { refresh_token, endpoint };
            let exchange = RefreshStep::Exchange {
                refresh_token,
                endpoint,
                form: refresh_form(refresh_token, m),
            };
            let refused = exchange.after(client, TokenEvent::Sent(Ok(status)));
            let read = RefreshStep::ReadTokens { refresh_token };
            let save = RefreshStep::Save { server_url_hash: m, config: old };
            &&& old.refresh_token is None ==> refreshing(old) == RefreshStep::<Seq<char>>::Done(
                Err(AuthError::Other("No refresh token found"@)),
            )
            &&& discover.after(client, TokenEvent::Discovered(Err(e))) == RefreshStep::<
                Seq<char>,
            >::Done(Err(e))
            &&& discover.after(client, TokenEvent::Discovered(Ok(config))) == RefreshStep::<
                Seq<char>,
            >::Done(Err(AuthError::Other("No token_endpoint in OIDC configuration"@)))
            &&& register.after(client, TokenEvent::Registered(Err(e))) == RefreshStep::<
                Seq<char>,
            >::Done(Err(e))
            &&& exchange.after(client, TokenEvent::Sent(Err(m))) == RefreshStep::<Seq<char>>::Done(
                Err(AuthError::Http(m)),
            )
            &&& refused.after(client, TokenEvent::ErrorText(text)) == RefreshStep::<
                Seq<char>,
            >::Done(
                Err(
                    if status == 400 || status == 401 {
                        AuthError::AuthRequired
                    } else {
                        AuthError::Other(
                            "Failed to refresh token"@ + ": "@ + status_text(status) + " - "@
                                + text_or_unknown(text),
                        )
                    },
                ),
            )
            &&& read.after(client, TokenEvent::Tokens { tokens: Err(m), now })
                == RefreshStep::<Seq<char>>::Done(Err(AuthError::Http(m)))
            &&& read.after(client, TokenEvent::Tokens { tokens: Ok(tokens), now })
                == RefreshStep::<Seq<char>>::Done(
                Err(AuthError::Other("No access_token in refresh response"@)),
            )
            &&& save.after(client, TokenEvent::Saved(Err(c))) == RefreshStep::<Seq<char>>::Done(
                Err(AuthError::Config(c)),
            )
        }),
{
}

/// What happens to a step of a refresh that the event is not about: nothing.
pub proof fn refresh_waits_for_its_answers(
    client: AuthClient<Seq<char>>,
    step: RefreshStep<Seq<char>>,
    event: TokenEvent<Seq<char>>,
)
    ensures
        step.after(client, event) != step ==> match step {
            RefreshStep::Discover { .. } => event is Discovered,
            RefreshStep::Register { .. } => event is Registered,
            RefreshStep::Exchange { .. } => event is Sent,
            RefreshStep::ReadError { .. } => event is ErrorText,
            RefreshStep::ReadTokens { .. } => event is Tokens,
            RefreshStep::Save { .. } => event is Saved,
            RefreshStep::Done(_) => false,
        },
{
}

// ---------------------------------------------------------------- tokens that are kept

/// Tokens have expired from the second on that they name, and never where they name none.
pub proof fn tokens_expire_at_their_time(config: AuthConfig<Seq<char>>, at: u64, now: u64)
    ensures
        config.expires_at == Some(at) ==> (is_expired(config, now) <==> at <= now),
        config.expires_at is None ==> !is_expired(config, now),
{
}

/// Tokens that are kept are handed out as they are before they expire, and what their refresh
/// gives after that; where none are kept, an authentication is required.
pub proof fn kept_tokens_are_handed_out(
    server_url_hash: Seq<char>,
    config: AuthConfig<Seq<char>>,
    now: u64,
    e: ConfigError<Seq<char>>,
    refreshed: Result<AuthConfig<Seq<char>>, AuthError<Seq<char>>>,
)
    ensures
        ({
            let load = GetConfigStep::Load { server_url_hash };
            let loaded = load.after(GetConfigEvent::Loaded { config: Ok(config), now });
            let failed = load.after(GetConfigEvent::Loaded { config: Err(e), now });
            let expired = config.expires_at matches Some(at) && at <= now;
            &&& !expired ==> loaded == GetConfigStep::<Seq<char>>::Done(Ok(config))
            &&& expired ==> loaded == (GetConfigStep::<Seq<char>>::Refresh { config })
            &&& expired ==> loaded.after(GetConfigEvent::Refreshed(refreshed)) == GetConfigStep::<
                Seq<char>,
            >::Done(refreshed)
            &&& e is NotFound ==> failed == GetConfigStep::<Seq<char>>::Done(
                Err(AuthError::AuthRequired),
            )
            &&& !(e is NotFound) ==> failed == GetConfigStep::<Seq<char>>::Done(
                Err(AuthError::Config(e)),
            )
            &&& load.after(GetConfigEvent::Refreshed(refreshed)) == load
        }),
{
}

// ---------------------------------------------------------------- a registration

/// A client registers as a public native one, with the redirect URL given, for codes and refresh
/// tokens.
pub proof fn client_registers_as_a_native_one(redirect_uri: Seq<char>)
    ensures
        ({
            let request = RegistrationRequest::<Seq<char>>::native(redirect_uri);
            &&& request.client_name == "mcp-proxy"@
            &&& request.application_type == "native"@
            &&& request.redirect_uri == redirect_uri
            &&& request.token_endpoint_auth_method == "none"@
            &&& request.grant_types == ("authorization_code"@, "refresh_token"@)
            &&& request.response_type == "code"@
            &&& request.scope == "openid"@
        }),
{
}

/// A registration that a client has is used; else one that is in its file is, and kept; and
/// whatever is wrong with the file, the server is asked for a new one.
pub proof fn registration_is_used_again(
    client: AuthClient<Seq<char>>,
    registration: ClientRegistration<Seq<char>>,
    e: ConfigError<Seq<char>>,
)
    ensures
        client.client_registration == Some(registration) ==> client.registering()
            == RegisterStep::<Seq<char>>::Done(Ok(registration)),
        client.client_registration is None ==> ({
            let load = client.registering();
            let found = client.register_after(load, RegisterEvent::Loaded(Ok(registration)));
            &&& load matches RegisterStep::Load { path } && path == FilePath::Within(
                Box::new(client.config_manager.config_dir),
                "client-registration-"@ + client.server_url_hash + ".json"@,
            )
            &&& found.0.client_registration == Some(registration)
            &&& found.0.server_url == client.server_url
            &&& found.0.auth_state == client.auth_state
            &&& found.0.oidc_config_cache == client.oidc_config_cache
            &&& found.1 == RegisterStep::<Seq<char>>::Done(Ok(registration))
            &&& client.register_after(load, RegisterEvent::Loaded(Err(e))) == (
                client,
                RegisterStep::<Seq<char>>::Discover,
            )
        }),
{
}

/// A new registration is asked for at the registration endpoint, for the client's redirect URL;
/// its text is written to the file of the server's registration, and only then it is kept and
/// handed out.
pub proof fn new_registration_is_kept(
    client: AuthClient<Seq<char>>,
    config: OidcConfig<Seq<char>>,
    endpoint: Seq<char>,
    code: u16,
    registration: ClientRegistration<Seq<char>>,
    text: Seq<char>,
)
    requires
        config.registration_endpoint == Field::Text(endpoint),
        200 <= code <= 299,
    ensures
        ({
            let send = client.register_after(
                RegisterStep::Discover,
                RegisterEvent::Discovered(Ok(config)),
            );
            let read = client.register_after(send.1, RegisterEvent::Sent(Ok(code)));
            let serialize = client.register_after(
                read.1,
                RegisterEvent::Registered(Ok(registration)),
            );
            let dir = client.register_after(serialize.1, RegisterEvent::Serialized(Ok(text)));
            let write = client.register_after(dir.1, RegisterEvent::Dir(Ok(())));
            let last = client.register_after(write.1, RegisterEvent::Written(Ok(())));
            &&& send.0 == client && read.0 == client && serialize.0 == client
            &&& dir.0 == client && write.0 == client
            &&& send.1 matches RegisterStep::Send { endpoint: to, request } && to == endpoint
                && request == RegistrationRequest::<Seq<char>>::native(client.redirect_url())
            &&& read.1 is ReadRegistration
            &&& serialize.1 == (RegisterStep::<Seq<char>>::Serialize { registration })
            &&& dir.1 == (RegisterStep::<Seq<char>>::EnsureDir { registration, text })
            &&& write.1 matches RegisterStep::Write { path, registration: r, text: t } && path
                == FilePath::Within(
                Box::new(client.config_manager.config_dir),
                "client-registration-"@ + client.server_url_hash + ".json"@,
            ) && r == registration && t == text
            &&& last.1 == RegisterStep::<Seq<char>>::Done(Ok(registration))
            &&& last.0.client_registration == Some(registration)
            &&& last.0.server_url == client.server_url
            &&& last.0.auth_state == client.auth_state
            &&& last.0.oidc_config_cache == client.oidc_config_cache
        }),
{
}

/// A registration that goes wrong tells what went wrong, and leaves the client as it was.
pub proof fn failed_registration_tells_why(
    client: AuthClient<Seq<char>>,
    config: OidcConfig<Seq<char>>,
    send: RegisterStep<Seq<char>>,
    write: RegisterStep<Seq<char>>,
    registration: ClientRegistration<Seq<char>>,
    code: u16,
    e: AuthError<Seq<char>>,
    c: ConfigError<Seq<char>>,
    m: Seq<char>,
    text: Option<Seq<char>>,
)
    requires
        !(config.registration_endpoint is Text),
        !(200 <= code <= 299),
        send is Send,
        write is Write,
    ensures
        ({
            let discover = RegisterStep::<Seq<char>>::Discover;
            let refused = client.register_after(send, RegisterEvent::Sent(Ok(code)));
            &&& client.register_after(discover, RegisterEvent::Discovered(Err(e))) == (
                client,
                RegisterStep::<Seq<char>>::Done(Err(e)),
            )
            &&& client.register_after(discover, RegisterEvent::Discovered(Ok(config))) == (
                client,
                RegisterStep::<Seq<char>>::Done(
                    Err(AuthError::Other("No registration_endpoint in OIDC configuration"@)),
                ),
            )
            &&& client.register_after(send, RegisterEvent::Sent(Err(m))) == (
                client,
                RegisterStep::<Seq<char>>::Done(Err(AuthError::Http(m))),
            )
            &&& refused.0 == client
            &&& client.register_after(refused.1, RegisterEvent::ErrorText(text)) == (
                client,
                RegisterStep::<Seq<char>>::Done(
                    Err(
                        AuthError::Other(
                            "Failed to register client"@ + ": "@ + status_text(code) + " - "@
                                + text_or_unknown(text),
                        ),
                    ),
                ),
            )
            &&& client.register_after(
                RegisterStep::ReadRegistration,
                RegisterEvent::Registered(Err(m)),
            ) == (client, RegisterStep::<Seq<char>>::Done(Err(AuthError::Http(m))))
            &&& client.register_after(
                RegisterStep::Serialize { registration },
                RegisterEvent::Serialized(Err(m)),
            ) == (client, RegisterStep::<Seq<char>>::Done(Err(AuthError::Serialization(m))))
            &&& client.register_after(
                RegisterStep::EnsureDir { registration, text: m },
                RegisterEvent::Dir(Err(c)),
            ) == (client, RegisterStep::<Seq<char>>::Done(Err(AuthError::Config(c))))
            &&& client.register_after(write, RegisterEvent::Written(Err(m))) == (
                client,
                RegisterStep::<Seq<char>>::Done(Err(AuthError::Io(m))),
            )
        }),
{
}

/// What happens to a step of a registration that the event is not about: nothing.
pub proof fn registration_waits_for_its_answers(
    client: AuthClient<Seq<char>>,
    step: RegisterStep<Seq<char>>,
    event: RegisterEvent<Seq<char>>,
)
    ensures
        client.register_after(step, event) != (client, step) ==> match step {
            RegisterStep::Load { .. } => event is Loaded,
            RegisterStep::Discover => event is Discovered,
            RegisterStep::Send { .. } => event is Sent,
            RegisterStep::ReadError { .. } => event is ErrorText,
            RegisterStep::ReadRegistration => event is Registered,
            RegisterStep::Serialize { .. } => event is Serialized,
            RegisterStep::EnsureDir { .. } => event is Dir,
            RegisterStep::Write { .. } => event is Written,
            RegisterStep::Done(_) => false,
        },
{
}

} // verus!
