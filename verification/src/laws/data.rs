//! What the views of the data show: every part of it, as its text.
use vstd::prelude::*;
use vstd::string::*;

use crate::auth::{AuthClient, AuthError, AuthTokenResponse, ClientRegistration, DiscoverEvent};
use crate::auth::OidcConfigCache;
use crate::authorize::InitializeEvent;
use crate::callback_page::{OAuthCallback, PageReply, ReplyEvent};
use crate::cli::{entries, Arguments, Plan, PlanTexts, ServerPlan, Transport};
use crate::config::{AuthConfig, ConfigError, ConfigManager, DirEvent, FilePath, LoadEvent};
use crate::config::{LockEvent, LockFile, RemoveEvent, SaveEvent};
use crate::connection::{connected_view, AuthenticateEvent, ConnectEvent};
use crate::coordination::{AuthCoordinationResult, CoordinateEvent, CoordinationError};
use crate::coordination::{HandleAuthEvent, WaitEvent};
use crate::oidc::{Field, OidcConfig};
use crate::outside::{is_header_name, is_header_value, is_token_char, lower_name, pairs_text};
use crate::outside::{JsonMember, UrlParts};
use crate::registration::{RegisterEvent, RegistrationRequest};
use crate::sse_client::{texts, MessageRequest, SseEvent, StreamRequest, WriteError};
use crate::sse_server::ServerEvent;
use crate::streamable_http_client::{AuthenticatedHttpClient, FreshAuthEvent, RecoverEvent};
use crate::streamable_http_client::{RequestEvent, StreamableEvent, TokenRefreshEvent};
use crate::text::{opt_view, result_view};
use crate::tokens::{CodeForm, GetConfigEvent, RefreshForm, TokenEvent};

verus! {

/// A value that may be missing is seen if it is there, and a result is seen as what it is.
pub proof fn optional_values_are_seen<T: View, E: View>(o: Option<T>, r: Result<T, E>)
    ensures
        opt_view(o) is Some <==> o is Some,
        o matches Some(v) ==> opt_view(o) == Some(v@),
        r matches Ok(v) ==> result_view(r) == Ok::<T::V, E::V>(v@),
        r matches Err(e) ==> result_view(r) == Err::<T::V, E::V>(e@),
{
}

/// What connecting came to is seen with the tokens.
pub proof fn connections_are_seen(r: Result<Option<AuthConfig>, String>)
    ensures
        r matches Ok(config) ==> connected_view(r) == Ok::<
            Option<AuthConfig<Seq<char>>>,
            Seq<char>,
        >(opt_view(config)),
        r matches Err(m) ==> connected_view(r) == Err::<Option<AuthConfig<Seq<char>>>, Seq<char>>(
            m@,
        ),
{
}

/// Strings, and pairs of them, are seen one by one.
pub proof fn lists_are_seen(strings: Seq<String>, pairs: Seq<(String, String)>, at: int)
    ensures
        texts(strings).len() == strings.len(),
        0 <= at < strings.len() ==> texts(strings)[at] == strings[at]@,
        pairs_text(pairs).len() == pairs.len(),
        0 <= at < pairs.len() ==> pairs_text(pairs)[at] == (pairs[at].0@, pairs[at].1@),
{
}

/// Tokens are seen whole.
pub proof fn tokens_are_seen(config: AuthConfig, answer: AuthTokenResponse)
    ensures
        config@.server_url == config.server_url@,
        config@.access_token == opt_view(config.access_token),
        config@.refresh_token == opt_view(config.refresh_token),
        config@.expires_at == config.expires_at,
        config@.auth_state == opt_view(config.auth_state),
        config@.session_id == config.session_id@,
        answer@.access_token == opt_view(answer.access_token),
        answer@.refresh_token == opt_view(answer.refresh_token),
        answer@.expires_in == answer.expires_in,
{
}

/// A lock is seen whole.
pub proof fn locks_are_seen(lock: LockFile)
    ensures
        lock@.session_id == lock.session_id@,
        lock@.server_url == lock.server_url@,
        lock@.callback_port == lock.callback_port,
        lock@.created_at == lock.created_at,
        lock@.pid == lock.pid,
{
}

/// A client is seen whole, with its files, its registration and what it has cached.
pub proof fn clients_are_seen(
    client: AuthClient,
    registration: ClientRegistration,
    cache: OidcConfigCache,
    files: ConfigManager,
    http: AuthenticatedHttpClient,
)
    ensures
        client@.server_url == client.server_url@,
        client@.config_manager == client.config_manager@,
        client@.server_url_hash == client.server_url_hash@,
        client@.auth_state == opt_view(client.auth_state),
        client@.session_id == client.session_id@,
        client@.redirect_port == client.redirect_port,
        client@.oidc_config_cache == client.oidc_config_cache@,
        client@.client_registration == opt_view(client.client_registration),
        registration@.client_id == registration.client_id@,
        registration@.client_secret == opt_view(registration.client_secret),
        registration@.registration_access_token == opt_view(
            registration.registration_access_token,
        ),
        registration@.registration_client_uri == opt_view(registration.registration_client_uri),
        registration@.client_id_issued_at == registration.client_id_issued_at,
        registration@.client_secret_expires_at == registration.client_secret_expires_at,
        cache@.config == opt_view(cache.config),
        cache@.last_updated == cache.last_updated,
        cache@.ttl == cache.ttl,
        files@.config_dir == files.config_dir@,
        http@.auth_token == http.auth_token@,
        http@.server_url_hash == opt_view(http.server_url_hash),
{
}

/// A path is seen by its root and by the names below it.
pub proof fn paths_are_seen(root: String, dir: FilePath, name: String)
    ensures
        FilePath::Root(root)@ == FilePath::Root(root@),
        FilePath::Within(Box::new(dir), name)@ == FilePath::Within(Box::new(dir@), name@),
        dir@.join(name@) == FilePath::Within(Box::new(dir@), name@),
{
}

/// A configuration, and a URL, are seen by their parts.
pub proof fn configurations_are_seen(config: OidcConfig, text: String, parts: UrlParts)
    ensures
        config@.authorization_endpoint == config.authorization_endpoint@,
        config@.token_endpoint == config.token_endpoint@,
        config@.issuer == config.issuer@,
        config@.registration_endpoint == config.registration_endpoint@,
        config@.scopes_supported == opt_view(config.scopes_supported),
        Field::Text(text)@ == Field::Text(text@),
        Field::<String>::Absent@ is Absent,
        Field::<String>::Other@ is Other,
        parts@.scheme == parts.scheme@,
        parts@.host == opt_view(parts.host),
        parts@.port == parts.port,
{
}

/// A member of an object is seen as what it is, a list with its items in order.
pub proof fn members_are_seen(text: String, list: Vec<Option<String>>, at: int)
    ensures
        (JsonMember::<String, Vec<Option<String>>>::Text(text))@ == JsonMember::<
            Seq<char>,
            Seq<Option<Seq<char>>>,
        >::Text(text@),
        (JsonMember::<String, Vec<Option<String>>>::List(list))@ matches JsonMember::List(seen)
            && seen.len() == list@.len() && (0 <= at < list@.len() ==> seen[at] == opt_view(
            list@[at],
        )),
        (JsonMember::<String, Vec<Option<String>>>::Absent)@ is Absent,
{
}

/// The command line and what is planned for it are seen whole.
pub proof fn plans_are_seen(arguments: Arguments, server: ServerPlan, plan: Plan)
    ensures
        arguments@.command_or_url == opt_view(arguments.command_or_url),
        arguments@.headers == texts(arguments.headers@),
        arguments@.args == texts(arguments.args@),
        arguments@.env_vars == texts(arguments.env_vars@),
        arguments@.pass_environment == arguments.pass_environment,
        arguments@.sse_port == arguments.sse_port,
        arguments@.sse_host == arguments.sse_host@,
        arguments@.transport == arguments.transport@,
        arguments@.unix_socket_mode == opt_view(arguments.unix_socket_mode),
        server@.command == server.command@,
        server@.args == texts(server.args@),
        server@.env_vars == texts(server.env_vars@),
        server@.pass_environment == server.pass_environment,
        server@.transport == server.transport@,
        server@.bind_addr == server.bind_addr@,
        server@.unix_socket_mode == server.unix_socket_mode,
        plan is Reset <==> plan@ is Reset,
        plan matches Plan::Server(p) ==> plan@ == PlanTexts::Server(p@),
        plan matches Plan::SseClient(c) ==> (plan@ matches PlanTexts::Client {
            transport,
            url,
            headers,
        } && transport == Transport::Sse && url == c.url@ && headers == entries(
            pairs_text(c.headers@),
        )),
        plan matches Plan::StreamableHttpClient(c) ==> (plan@ matches PlanTexts::Client {
            transport,
            url,
            headers,
        } && transport == Transport::StreamableHttp && url == c.url@ && headers == entries(
            pairs_text(c.headers@),
        )),
{
}

/// What is sent is seen whole.
pub proof fn requests_are_seen(
    code: CodeForm,
    refresh: RefreshForm,
    registration: RegistrationRequest,
    message: MessageRequest,
    stream: StreamRequest,
)
    ensures
        code@.code == (code.code.0@, code.code.1@),
        code@.grant_type == (code.grant_type.0@, code.grant_type.1@),
        code@.client_id == (code.client_id.0@, code.client_id.1@),
        code@.redirect_uri == (code.redirect_uri.0@, code.redirect_uri.1@),
        refresh@.refresh_token == (refresh.refresh_token.0@, refresh.refresh_token.1@),
        refresh@.grant_type == (refresh.grant_type.0@, refresh.grant_type.1@),
        refresh@.client_id == (refresh.client_id.0@, refresh.client_id.1@),
        registration@.client_name == registration.client_name@,
        registration@.application_type == registration.application_type@,
        registration@.redirect_uri == registration.redirect_uri@,
        registration@.token_endpoint_auth_method == registration.token_endpoint_auth_method@,
        registration@.grant_types == (
            registration.grant_types.0@,
            registration.grant_types.1@,
        ),
        registration@.response_type == registration.response_type@,
        registration@.scope == registration.scope@,
        message@.url == message.url@,
        message@.content_type == message.content_type@,
        message@.authorization == opt_view(message.authorization),
        message@.body == message.body@,
        stream@.url == stream.url@,
        stream@.accept == stream.accept@,
        stream@.cache_control == stream.cache_control@,
        stream@.authorization == opt_view(stream.authorization),
{
}

/// What comes back, and what is answered, is seen whole.
pub proof fn answers_are_seen(
    params: OAuthCallback,
    reply: PageReply,
    auth_url: String,
    lock_file: LockFile,
    auth_config: AuthConfig,
)
    ensures
        params@.code == opt_view(params.code),
        params@.state == params.state@,
        params@.error == opt_view(params.error),
        params@.error_description == opt_view(params.error_description),
        reply@.status == reply.status,
        reply@.page == reply.page@,
        (AuthCoordinationResult::HandleAuth { auth_url })@ == (AuthCoordinationResult::HandleAuth {
            auth_url: auth_url@,
        }),
        (AuthCoordinationResult::WaitForAuth { lock_file })@ == (
        AuthCoordinationResult::WaitForAuth { lock_file: lock_file@ }),
        (AuthCoordinationResult::AuthDone { auth_config })@ == (AuthCoordinationResult::AuthDone {
            auth_config: auth_config@,
        }),
{
}

/// Errors are seen as what they are, with their messages.
pub proof fn errors_are_seen(m: String, c: ConfigError, a: AuthError)
    ensures
        ConfigError::Io(m)@ == ConfigError::Io(m@),
        ConfigError::Json(m)@ == ConfigError::Json(m@),
        ConfigError::Lock(m)@ == ConfigError::Lock(m@),
        c@ is NotFound <==> c is NotFound,
        AuthError::<String>::Config(c)@ == AuthError::Config(c@),
        AuthError::Http(m)@ == AuthError::Http(m@),
        AuthError::Url(m)@ == AuthError::Url(m@),
        AuthError::Io(m)@ == AuthError::Io(m@),
        AuthError::Serialization(m)@ == AuthError::Serialization(m@),
        AuthError::Other(m)@ == AuthError::Other(m@),
        a@ is AuthRequired <==> a is AuthRequired,
        a@ is InvalidServerUrl <==> a is InvalidServerUrl,
        CoordinationError::<String>::Auth(a)@ == CoordinationError::Auth(a@),
        CoordinationError::<String>::Config(c)@ == CoordinationError::Config(c@),
        CoordinationError::Io(m)@ == CoordinationError::Io(m@),
        CoordinationError::Other(m)@ == CoordinationError::Other(m@),
        CoordinationError::<String>::Timeout@ is Timeout,
        WriteError::InvalidData(m)@ == WriteError::InvalidData(m@),
        WriteError::BrokenPipe(m)@ == WriteError::BrokenPipe(m@),
{
}

// ---------------------------------------------------------------- events

/// What happens while tokens are had is seen as what it is.
pub proof fn token_events_are_seen(
    token: TokenEvent,
    kept: GetConfigEvent,
    refresh: TokenRefreshEvent,
    fresh: FreshAuthEvent,
    recover: RecoverEvent,
)
    ensures
        match token {
            TokenEvent::Discovered(x) => token@ == TokenEvent::<Seq<char>>::Discovered(
                result_view(x),
            ),
            TokenEvent::Registered(x) => token@ == TokenEvent::<Seq<char>>::Registered(
                result_view(x),
            ),
            TokenEvent::Sent(x) => token@ == TokenEvent::<Seq<char>>::Sent(result_view(x)),
            TokenEvent::ErrorText(x) => token@ == TokenEvent::<Seq<char>>::ErrorText(opt_view(x)),
            TokenEvent::Tokens { tokens, now } => token@ == (TokenEvent::<Seq<char>>::Tokens {
                tokens: result_view(tokens),
                now,
            }),
            TokenEvent::Saved(x) => token@ == TokenEvent::<Seq<char>>::Saved(result_view(x)),
        },
        match kept {
            GetConfigEvent::Loaded { config, now } => kept@ == (
            GetConfigEvent::<Seq<char>>::Loaded {
                config: result_view(config),
                now,
            }),
            GetConfigEvent::Refreshed(x) => kept@ == GetConfigEvent::<Seq<char>>::Refreshed(
                result_view(x),
            ),
        },
        match refresh {
            TokenRefreshEvent::Loaded(x) => refresh@ == TokenRefreshEvent::<Seq<char>>::Loaded(
                result_view(x),
            ),
            TokenRefreshEvent::Refreshed(x) => refresh@
                == TokenRefreshEvent::<Seq<char>>::Refreshed(result_view(x)),
        },
        match fresh {
            FreshAuthEvent::Discarded => fresh@ is Discarded,
            FreshAuthEvent::Cleared => fresh@ is Cleared,
            FreshAuthEvent::Authenticated(x) => fresh@
                == FreshAuthEvent::<Seq<char>>::Authenticated(result_view(x)),
        },
        match recover {
            RecoverEvent::Refreshed(x) => recover@ == RecoverEvent::<Seq<char>>::Refreshed(
                result_view(x),
            ),
            RecoverEvent::Authenticated(x) => recover@ == RecoverEvent::<Seq<char>>::Authenticated(
                result_view(x),
            ),
        },
{
}

/// What a server answers, and what happens to one, is seen as what it is.
pub proof fn server_events_are_seen(
    discover: DiscoverEvent,
    initialize: InitializeEvent,
    register: RegisterEvent,
    connect: ConnectEvent,
    sse: SseEvent,
    streamable: StreamableEvent,
    server: ServerEvent,
)
    ensures
        match discover {
            DiscoverEvent::Sent(x) => discover@ == DiscoverEvent::<Seq<char>, Seq<u8>>::Sent(
                result_view(x),
            ),
            DiscoverEvent::ErrorText(x) => discover@
                == DiscoverEvent::<Seq<char>, Seq<u8>>::ErrorText(opt_view(x)),
            DiscoverEvent::Body { body, now } => discover@ == (
            DiscoverEvent::<Seq<char>, Seq<u8>>::Body {
                body: result_view(body),
                now,
            }),
        },
        match initialize {
            InitializeEvent::Discovered(x) => initialize@
                == InitializeEvent::<Seq<char>>::Discovered(result_view(x)),
            InitializeEvent::Registered(x) => initialize@
                == InitializeEvent::<Seq<char>>::Registered(result_view(x)),
        },
        match register {
            RegisterEvent::Loaded(x) => register@ == RegisterEvent::<Seq<char>>::Loaded(
                result_view(x),
            ),
            RegisterEvent::Discovered(x) => register@ == RegisterEvent::<Seq<char>>::Discovered(
                result_view(x),
            ),
            RegisterEvent::Sent(x) => register@ == RegisterEvent::<Seq<char>>::Sent(result_view(x)),
            RegisterEvent::ErrorText(x) => register@ == RegisterEvent::<Seq<char>>::ErrorText(
                opt_view(x),
            ),
            RegisterEvent::Registered(x) => register@ == RegisterEvent::<Seq<char>>::Registered(
                result_view(x),
            ),
            RegisterEvent::Serialized(x) => register@ == RegisterEvent::<Seq<char>>::Serialized(
                result_view(x),
            ),
            RegisterEvent::Dir(x) => register@ == RegisterEvent::<Seq<char>>::Dir(result_view(x)),
            RegisterEvent::Written(x) => register@ == RegisterEvent::<Seq<char>>::Written(
                result_view(x),
            ),
        },
        match connect {
            ConnectEvent::Probed(x) => connect@ == ConnectEvent::<Seq<char>>::Probed(
                result_view(x),
            ),
            ConnectEvent::ClientCreated(x) => connect@ == ConnectEvent::<Seq<char>>::ClientCreated(
                result_view(x),
            ),
            ConnectEvent::Authenticated(x) => connect@ == ConnectEvent::<Seq<char>>::Authenticated(
                result_view(x),
            ),
        },
        match sse {
            SseEvent::Connected(x) => sse@ == SseEvent::<Seq<char>>::Connected(connected_view(x)),
            SseEvent::Opened(x) => sse@ == SseEvent::<Seq<char>>::Opened(result_view(x)),
            SseEvent::Served(x) => sse@ == SseEvent::<Seq<char>>::Served(result_view(x)),
        },
        match streamable {
            StreamableEvent::Connected(x) => streamable@ == StreamableEvent::<Seq<char>>::Connected(
                connected_view(x),
            ),
            StreamableEvent::Time(x) => streamable@ == StreamableEvent::<Seq<char>>::Time(x),
            StreamableEvent::Config(x) => streamable@ == StreamableEvent::<Seq<char>>::Config(
                result_view(x),
            ),
            StreamableEvent::Served(x) => streamable@ == StreamableEvent::<Seq<char>>::Served(
                result_view(x),
            ),
        },
        match server {
            ServerEvent::Started(x) => server@ == ServerEvent::<Seq<char>>::Started(result_view(x)),
            ServerEvent::Exists(x) => server@ == ServerEvent::<Seq<char>>::Exists(x),
            ServerEvent::Removed(x) => server@ == ServerEvent::<Seq<char>>::Removed(result_view(x)),
            ServerEvent::Bound(x) => server@ == ServerEvent::<Seq<char>>::Bound(result_view(x)),
            ServerEvent::ModeSet(x) => server@ == ServerEvent::<Seq<char>>::ModeSet(result_view(x)),
            ServerEvent::Signalled => server@ is Signalled,
            ServerEvent::SessionsEnded => server@ is SessionsEnded,
            ServerEvent::CleanedUp => server@ is CleanedUp,
            ServerEvent::Finished(x) => server@ == ServerEvent::<Seq<char>>::Finished(
                result_view(x),
            ),
        },
{
}

/// What happens to files, and between processes, is seen as what it is.
pub proof fn file_events_are_seen(
    dir: DirEvent,
    save: SaveEvent,
    lock: LockEvent,
    remove: RemoveEvent,
    authenticate: AuthenticateEvent,
    coordinate: CoordinateEvent,
    handle: HandleAuthEvent,
    wait: WaitEvent,
    reply: ReplyEvent,
)
    ensures
        match dir {
            DirEvent::Exists(x) => dir@ == DirEvent::<Seq<char>>::Exists(x),
            DirEvent::Created(x) => dir@ == DirEvent::<Seq<char>>::Created(result_view(x)),
        },
        match save {
            SaveEvent::Dir(x) => save@ == SaveEvent::<Seq<char>>::Dir(result_view(x)),
            SaveEvent::Serialized(x) => save@ == SaveEvent::<Seq<char>>::Serialized(result_view(x)),
            SaveEvent::Written(x) => save@ == SaveEvent::<Seq<char>>::Written(result_view(x)),
        },
        match lock {
            LockEvent::Dir(x) => lock@ == LockEvent::<Seq<char>>::Dir(result_view(x)),
            LockEvent::Existing(x) => lock@ == LockEvent::<Seq<char>>::Existing(result_view(x)),
            LockEvent::Process { running, now } => lock@ == (LockEvent::<Seq<char>>::Process {
                running,
                now,
            }),
            LockEvent::Removed => lock@ is Removed,
            LockEvent::Stamp { session_id, now, pid } => lock@ == (LockEvent::<Seq<char>>::Stamp {
                session_id: session_id@,
                now,
                pid,
            }),
            LockEvent::Serialized(x) => lock@ == LockEvent::<Seq<char>>::Serialized(result_view(x)),
            LockEvent::Created(x) => lock@ == LockEvent::<Seq<char>>::Created(result_view(x)),
        },
        match remove {
            RemoveEvent::Exists(x) => remove@ == RemoveEvent::<Seq<char>>::Exists(x),
            RemoveEvent::Removed(x) => remove@ == RemoveEvent::<Seq<char>>::Removed(result_view(x)),
        },
        match authenticate {
            AuthenticateEvent::Coordinated(x) => authenticate@
                == AuthenticateEvent::<Seq<char>>::Coordinated(result_view(x)),
            AuthenticateEvent::Authenticated(x) => authenticate@
                == AuthenticateEvent::<Seq<char>>::Authenticated(result_view(x)),
        },
        match coordinate {
            CoordinateEvent::Config(x) => coordinate@ == CoordinateEvent::<Seq<char>>::Config(
                result_view(x),
            ),
            CoordinateEvent::Lock { lock, pid } => coordinate@ == (
            CoordinateEvent::<Seq<char>>::Lock {
                lock: result_view(lock),
                pid,
            }),
            CoordinateEvent::Initialized(x) => coordinate@
                == CoordinateEvent::<Seq<char>>::Initialized(result_view(x)),
        },
        match handle {
            HandleAuthEvent::Serving(x) => handle@ == HandleAuthEvent::<Seq<char>>::Serving(
                result_view(x),
            ),
            HandleAuthEvent::BrowserOpened(x) => handle@
                == HandleAuthEvent::<Seq<char>>::BrowserOpened(result_view(x)),
            HandleAuthEvent::Received(x) => handle@ == HandleAuthEvent::<Seq<char>>::Received(x@),
            HandleAuthEvent::ChannelClosed => handle@ is ChannelClosed,
            HandleAuthEvent::TimedOut => handle@ is TimedOut,
            HandleAuthEvent::ShutDown => handle@ is ShutDown,
        },
        match wait {
            WaitEvent::Lock { lock, now } => wait@ == (WaitEvent::<Seq<char>>::Lock {
                lock: result_view(lock),
                now,
            }),
            WaitEvent::Config(x) => wait@ == WaitEvent::<Seq<char>>::Config(result_view(x)),
            WaitEvent::Elapsed(x) => wait@ == WaitEvent::<Seq<char>>::Elapsed(x),
            WaitEvent::Slept => wait@ is Slept,
        },
        match reply {
            ReplyEvent::Handled(x) => reply@ == ReplyEvent::<Seq<char>>::Handled(result_view(x)),
            ReplyEvent::Delivered(x) => reply@ == ReplyEvent::<Seq<char>>::Delivered(x),
        },
{
}

/// What a file holds, and what a request is answered, is seen as what it is.
pub proof fn values_in_events_are_seen<T: View, A, E>(load: LoadEvent<T>, request: RequestEvent<A, E>)
    ensures
        match load {
            LoadEvent::Exists(x) => load@ == LoadEvent::<T::V, Seq<char>>::Exists(x),
            LoadEvent::Contents(x) => load@ == LoadEvent::<T::V, Seq<char>>::Contents(
                result_view(x),
            ),
            LoadEvent::Parsed(x) => load@ == LoadEvent::<T::V, Seq<char>>::Parsed(result_view(x)),
        },
        match request {
            RequestEvent::Answered { answer, status } => request@ == (RequestEvent::<
                A,
                E,
                Seq<char>,
            >::Answered { answer, status }),
            RequestEvent::Recovered(x) => request@ == RequestEvent::<A, E, Seq<char>>::Recovered(
                result_view(x),
            ),
        },
{
}

// ---------------------------------------------------------------- headers

/// A character may stand in the name of a header if and only if it is a visible one of ASCII and
/// none of the delimiters.
pub proof fn header_names_have_no_delimiters(c: char)
    ensures
        is_token_char(c) <==> '!' <= c && c <= '~' && !(c == '"' || c == '(' || c == ')' || c == ','
            || c == '/' || c == ':' || c == ';' || c == '<' || c == '=' || c == '>' || c == '?' || c
            == '@' || c == '[' || c == '\\' || c == ']' || c == '{' || c == '}'),
{
}

/// Parts of a name of a header make a name together, and parts of a value make a value.
pub proof fn headers_are_looked_at_character_by_character(a: Seq<char>, b: Seq<char>)
    ensures
        a.len() > 0 && b.len() > 0 && a.len() + b.len() <= 65535 ==> (is_header_name(a + b) <==>
            is_header_name(a) && is_header_name(b)),
        is_header_name(a) ==> 0 < a.len() <= 65535,
        is_header_value(a + b) <==> is_header_value(a) && is_header_value(b),
        is_header_value(Seq::empty()),
{
    let ab = a + b;
    assert(forall|i: int| 0 <= i < a.len() ==> #[trigger] a[i] == ab[i]);
    assert(forall|i: int| 0 <= i < b.len() ==> #[trigger] b[i] == ab[i + a.len()]);
    assert(forall|i: int| a.len() <= i < ab.len() ==> #[trigger] ab[i] == b[i - a.len()]);
    assert(forall|i: int| 0 <= i < a.len() ==> #[trigger] ab[i] == a[i]);
    if is_header_value(ab) {
        assert forall|i: int| 0 <= i < b.len() implies (32 <= (#[trigger] b[i]) as int && b[i]
            as int != 127) || b[i] == '\t' by {
            assert(b[i] == ab[i + a.len()]);
        }
    }
}

/// The name of a header in lower case is as long as the name, keeps what is no capital letter, and
/// has no capital letter itself.
pub proof fn lower_case_changes_capitals_alone(name: Seq<char>, at: int)
    requires
        0 <= at < name.len(),
    ensures
        lower_name(name).len() == name.len(),
        'A' <= name[at] && name[at] <= 'Z' ==> lower_name(name)[at] as int - 'a' as int == name[at]
            as int - 'A' as int,
        !('A' <= name[at] && name[at] <= 'Z') ==> lower_name(name)[at] == name[at],
        lower_name(lower_name(name)) == lower_name(name),
{
    assert(lower_name(lower_name(name)) =~= lower_name(name));
}

} // verus!
