//! What holds of how the operations move on: none repeats a step, so none goes on
//! forever.
use vstd::prelude::*;
use vstd::string::*;

use crate::auth::{AuthClient, DiscoverEvent, DiscoverStep};
use crate::authorize::{InitializeEvent, InitializeStep};
use crate::callback_page::{ReplyEvent, ReplyStep};
use crate::config::{DirEvent, DirStep, LoadEvent, LoadStep, LockEvent, LockStep};
use crate::config::{RemoveEvent, RemoveStep, SaveEvent, SaveStep};
use crate::connection::{AuthenticateEvent, AuthenticateStep, ConnectEvent, ConnectStep};
use crate::coordination::{CoordinateEvent, CoordinateStep, HandleAuthEvent, HandleAuthStep};
use crate::coordination::{WaitEvent, WaitStep};
use crate::registration::{RegisterEvent, RegisterStep};
use crate::sse_client::{SseEvent, SseStep};
use crate::sse_server::{ServerEvent, ServerStep};
use crate::streamable_http_client::{AuthenticatedHttpClient, FreshAuthEvent, FreshAuthStep};
use crate::streamable_http_client::{RecoverEvent, RecoverStep, RequestEvent, RequestStep};
use crate::streamable_http_client::{StreamableEvent, StreamableStep};
use crate::streamable_http_client::{TokenRefreshEvent, TokenRefreshStep};
use crate::tokens::{CallbackStep, GetConfigEvent, GetConfigStep, RefreshStep, TokenEvent};

verus! {

// ---------------------------------------------------------------- files

/// How many steps are left at most to read a file.
pub open spec fn load_rank<T>(step: LoadStep<T, Seq<char>>) -> nat {
    if step is Probe {
        3
    } else if step is Read {
        2
    } else if step is Parse {
        1
    } else {
        0
    }
}

/// How many steps are left at most to have the directory.
pub open spec fn dir_rank(step: DirStep<Seq<char>>) -> nat {
    if step is Probe {
        2
    } else if step is Create {
        1
    } else {
        0
    }
}

/// How many steps are left at most to keep tokens.
pub open spec fn save_rank(step: SaveStep<Seq<char>>) -> nat {
    if step is EnsureDir {
        3
    } else if step is Serialize {
        2
    } else if step is Write {
        1
    } else {
        0
    }
}

/// How many steps are left at most to take a lock.
pub open spec fn lock_rank(step: LockStep<Seq<char>>) -> nat {
    if step is EnsureDir {
        7
    } else if step is ReadLock {
        6
    } else if step is CheckProcess {
        5
    } else if step is RemoveStale {
        4
    } else if step is Stamp {
        3
    } else if step is Serialize {
        2
    } else if step is Create {
        1
    } else {
        0
    }
}

/// How many steps are left at most to release a lock.
pub open spec fn remove_rank(step: RemoveStep<Seq<char>>) -> nat {
    if step is Probe {
        2
    } else if step is Remove {
        1
    } else {
        0
    }
}

/// Work on files moves on: an event leaves a step as it is, or fewer steps are left.
pub proof fn file_work_moves_on<T>(
    load: LoadStep<T, Seq<char>>,
    load_event: LoadEvent<T, Seq<char>>,
    dir: DirStep<Seq<char>>,
    dir_event: DirEvent<Seq<char>>,
    save: SaveStep<Seq<char>>,
    save_event: SaveEvent<Seq<char>>,
    lock: LockStep<Seq<char>>,
    lock_event: LockEvent<Seq<char>>,
    remove: RemoveStep<Seq<char>>,
    remove_event: RemoveEvent<Seq<char>>,
)
    ensures
        load.after(load_event) == load || load_rank(load.after(load_event)) < load_rank(load),
        dir.after(dir_event) == dir || dir_rank(dir.after(dir_event)) < dir_rank(dir),
        save.after(save_event) == save || save_rank(save.after(save_event)) < save_rank(save),
        lock.after(lock_event) == lock || lock_rank(lock.after(lock_event)) < lock_rank(lock),
        remove.after(remove_event) == remove || remove_rank(remove.after(remove_event))
            < remove_rank(remove),
{
}

// ---------------------------------------------------------------- the OAuth client

/// How many steps are left at most to discover a configuration.
pub open spec fn discover_rank(step: DiscoverStep<Seq<char>>) -> nat {
    if step is Fetch {
        2
    } else if step is ReadError {
        1
    } else if step is ReadBody {
        1
    } else {
        0
    }
}

/// How many steps are left at most to have a registration.
pub open spec fn register_rank(step: RegisterStep<Seq<char>>) -> nat {
    if step is Load {
        7
    } else if step is Discover {
        6
    } else if step is Send {
        5
    } else if step is ReadRegistration {
        4
    } else if step is Serialize {
        3
    } else if step is EnsureDir {
        2
    } else if step is ReadError {
        1
    } else if step is Write {
        1
    } else {
        0
    }
}

/// How many steps are left at most to begin an authorization.
pub open spec fn initialize_rank(step: InitializeStep<Seq<char>>) -> nat {
    if step is Discover {
        2
    } else if step is Register {
        1
    } else {
        0
    }
}

/// How many steps are left at most to exchange a code.
pub open spec fn callback_rank(step: CallbackStep<Seq<char>>) -> nat {
    if step is Discover {
        5
    } else if step is Register {
        4
    } else if step is Exchange {
        3
    } else if step is ReadTokens {
        2
    } else if step is ReadError {
        1
    } else if step is Save {
        1
    } else {
        0
    }
}

/// How many steps are left at most to refresh tokens.
pub open spec fn refresh_rank(step: RefreshStep<Seq<char>>) -> nat {
    if step is Discover {
        5
    } else if step is Register {
        4
    } else if step is Exchange {
        3
    } else if step is ReadTokens {
        2
    } else if step is ReadError {
        1
    } else if step is Save {
        1
    } else {
        0
    }
}

/// How many steps are left at most to have valid tokens.
pub open spec fn get_config_rank(step: GetConfigStep<Seq<char>>) -> nat {
    if step is Load {
        2
    } else if step is Refresh {
        1
    } else {
        0
    }
}

/// Work of the OAuth client moves on: an event leaves a step as it is, or fewer steps are
/// left.
pub proof fn client_work_moves_on(
    client: AuthClient<Seq<char>>,
    discover: DiscoverStep<Seq<char>>,
    discover_event: DiscoverEvent<Seq<char>, Seq<u8>>,
    register: RegisterStep<Seq<char>>,
    register_event: RegisterEvent<Seq<char>>,
    initialize: InitializeStep<Seq<char>>,
    initialize_event: InitializeEvent<Seq<char>>,
)
    ensures
        ({
            let discovered = client.discover_after(discover, discover_event).1;
            discovered == discover || discover_rank(discovered) < discover_rank(discover)
        }),
        ({
            let registered = client.register_after(register, register_event).1;
            registered == register || register_rank(registered) < register_rank(register)
        }),
        initialize.after(initialize_event) == initialize || initialize_rank(
            initialize.after(initialize_event),
        ) < initialize_rank(initialize),
{
}

/// Work on tokens moves on: an event leaves a step as it is, or fewer steps are left.
pub proof fn token_work_moves_on(
    client: AuthClient<Seq<char>>,
    callback: CallbackStep<Seq<char>>,
    refresh: RefreshStep<Seq<char>>,
    event: TokenEvent<Seq<char>>,
    get: GetConfigStep<Seq<char>>,
    get_event: GetConfigEvent<Seq<char>>,
)
    ensures
        callback.after(client, event) == callback || callback_rank(callback.after(client, event))
            < callback_rank(callback),
        refresh.after(client, event) == refresh || refresh_rank(refresh.after(client, event))
            < refresh_rank(refresh),
        get.after(get_event) == get || get_config_rank(get.after(get_event)) < get_config_rank(get),
{
}

// ---------------------------------------------------------------- coordination

/// How many steps are left at most to find out what a process does.
pub open spec fn coordinate_rank(step: CoordinateStep<Seq<char>>) -> nat {
    if step is GetConfig {
        3
    } else if step is CreateLock {
        2
    } else if step is Initialize {
        1
    } else {
        0
    }
}

/// How many steps are left at most to authenticate with the user.
pub open spec fn handle_auth_rank(step: HandleAuthStep<Seq<char>>) -> nat {
    if step is Serve {
        4
    } else if step is OpenBrowser {
        3
    } else if step is AwaitCallback {
        2
    } else if step is Shutdown {
        1
    } else {
        0
    }
}

/// How many steps are left at most to answer a callback.
pub open spec fn reply_rank(step: ReplyStep<Seq<char>>) -> nat {
    if step is Handle {
        2
    } else if step is Deliver {
        1
    } else {
        0
    }
}

/// How many steps are left at most to have the tokens of a server.
pub open spec fn authenticate_rank(step: AuthenticateStep<Seq<char>>) -> nat {
    if step is Coordinate {
        2
    } else if step is HandleAuth {
        1
    } else if step is WaitForAuth {
        1
    } else {
        0
    }
}

/// How many steps are left at most to connect.
pub open spec fn connect_rank(step: ConnectStep<Seq<char>>) -> nat {
    if step is Probe {
        3
    } else if step is CreateClient {
        2
    } else if step is Authenticate {
        1
    } else {
        0
    }
}

/// How many steps are left at most before a process that waits looks again.
pub open spec fn wait_rank(step: WaitStep<Seq<char>>) -> nat {
    if step is ReadLock {
        4
    } else if step is GetConfig {
        3
    } else if step is CheckTime {
        2
    } else if step is Sleep {
        1
    } else {
        0
    }
}

/// Coordination moves on: an event leaves a step as it is, or fewer steps are left. A
/// process that waits looks again only after a sleep.
pub proof fn coordination_moves_on(
    coordinate: CoordinateStep<Seq<char>>,
    coordinate_event: CoordinateEvent<Seq<char>>,
    handle: HandleAuthStep<Seq<char>>,
    handle_event: HandleAuthEvent<Seq<char>>,
    reply: ReplyStep<Seq<char>>,
    reply_event: ReplyEvent<Seq<char>>,
    wait: WaitStep<Seq<char>>,
    wait_event: WaitEvent<Seq<char>>,
)
    ensures
        coordinate.after(coordinate_event) == coordinate || coordinate_rank(
            coordinate.after(coordinate_event),
        ) < coordinate_rank(coordinate),
        handle.after(handle_event) == handle || handle_auth_rank(handle.after(handle_event))
            < handle_auth_rank(handle),
        reply.after(reply_event) == reply || reply_rank(reply.after(reply_event)) < reply_rank(
            reply,
        ),
        wait.after(wait_event) == wait || wait_rank(wait.after(wait_event)) < wait_rank(wait) || (
        wait is Sleep && wait.after(wait_event) is ReadLock),
{
}

/// Connecting moves on: an event leaves a step as it is, or fewer steps are left.
pub proof fn connecting_moves_on(
    authenticate: AuthenticateStep<Seq<char>>,
    authenticate_event: AuthenticateEvent<Seq<char>>,
    connect: ConnectStep<Seq<char>>,
    connect_event: ConnectEvent<Seq<char>>,
)
    ensures
        authenticate.after(authenticate_event) == authenticate || authenticate_rank(
            authenticate.after(authenticate_event),
        ) < authenticate_rank(authenticate),
        connect.after(connect_event) == connect || connect_rank(connect.after(connect_event))
            < connect_rank(connect),
{
}

// ---------------------------------------------------------------- clients and servers

/// How many steps are left at most to have a refreshed token.
pub open spec fn token_refresh_rank(step: TokenRefreshStep<Seq<char>>) -> nat {
    if step is Load {
        2
    } else if step is Refresh {
        1
    } else {
        0
    }
}

/// How many steps are left at most to authenticate anew.
pub open spec fn fresh_auth_rank(step: FreshAuthStep<Seq<char>>) -> nat {
    if step is DiscardConfig {
        4
    } else if step is DiscardRegistration {
        3
    } else if step is ClearCaches {
        2
    } else if step is Authenticate {
        1
    } else {
        0
    }
}

/// How many steps are left at most about a request that failed.
pub open spec fn recover_rank(step: RecoverStep<Seq<char>>) -> nat {
    if step is Refresh {
        2
    } else if step is StartFresh {
        1
    } else {
        0
    }
}

/// How many steps are left at most of a request.
pub open spec fn request_rank<Q, T, E>(step: RequestStep<Q, T, E, Seq<char>>) -> nat {
    match step {
        RequestStep::Send { request, token, attempt, limit } => if attempt < limit {
            (2 * (limit - attempt) + 2) as nat
        } else {
            2
        },
        RequestStep::Recover { request, error, status, is_retry, attempt, limit } => if attempt
            < limit {
            (2 * (limit - attempt) + 1) as nat
        } else {
            1
        },
        RequestStep::Done(_) => 0,
    }
}

/// How many steps are left at most to run the client of a streamable HTTP server.
pub open spec fn streamable_rank(step: StreamableStep<Seq<char>>) -> nat {
    if step is Connect {
        4
    } else if step is ReadTime {
        3
    } else if step is GetConfig {
        2
    } else if step is Serve {
        1
    } else {
        0
    }
}

/// How many steps are left at most to run the client of an SSE server.
pub open spec fn sse_rank(step: SseStep<Seq<char>>) -> nat {
    if step is Connect {
        3
    } else if step is Open {
        2
    } else if step is Serve {
        1
    } else {
        0
    }
}

/// How many steps are left at most to run a server.
pub open spec fn server_rank<A, P>(step: ServerStep<A, P, Seq<char>>) -> nat {
    if step is Start {
        9
    } else if step is ProbeSocket {
        8
    } else if step is RemoveSocket {
        7
    } else if step is BindSocket {
        6
    } else if step is SetMode {
        5
    } else if step is BindAddress {
        5
    } else if step is Serve {
        4
    } else if step is EndSessions {
        3
    } else if step is CleanUp {
        2
    } else if step is Finish {
        1
    } else {
        0
    }
}

/// Requests and what they need move on: an event leaves a step as it is, or fewer steps
/// are left.
pub proof fn requests_move_on<Q, T, E>(
    client: AuthenticatedHttpClient<Seq<char>>,
    refresh: TokenRefreshStep<Seq<char>>,
    refresh_event: TokenRefreshEvent<Seq<char>>,
    fresh: FreshAuthStep<Seq<char>>,
    fresh_event: FreshAuthEvent<Seq<char>>,
    recover: RecoverStep<Seq<char>>,
    recover_event: RecoverEvent<Seq<char>>,
    request: RequestStep<Q, T, E, Seq<char>>,
    request_event: RequestEvent<T, E, Seq<char>>,
)
    ensures
        ({
            let refreshed = client.token_refresh_after(refresh, refresh_event).1;
            refreshed == refresh || token_refresh_rank(refreshed) < token_refresh_rank(refresh)
        }),
        ({
            let authenticated = client.fresh_auth_after(fresh, fresh_event).1;
            authenticated == fresh || fresh_auth_rank(authenticated) < fresh_auth_rank(fresh)
        }),
        recover.after(recover_event) == recover || recover_rank(recover.after(recover_event))
            < recover_rank(recover),
        ({
            let next = client.request_after(request, request_event);
            next == request || request_rank(next) < request_rank(request)
        }),
{
}

/// Clients and servers move on: an event leaves a step as it is, or fewer steps are left.
pub proof fn clients_and_servers_move_on<A, P>(
    streamable: StreamableStep<Seq<char>>,
    streamable_event: StreamableEvent<Seq<char>>,
    sse: SseStep<Seq<char>>,
    sse_event: SseEvent<Seq<char>>,
    server: ServerStep<A, P, Seq<char>>,
    server_event: ServerEvent<Seq<char>>,
)
    ensures
        streamable.after(streamable_event) == streamable || streamable_rank(
            streamable.after(streamable_event),
        ) < streamable_rank(streamable),
        sse.after(sse_event) == sse || sse_rank(sse.after(sse_event)) < sse_rank(sse),
        server.after(server_event) == server || server_rank(server.after(server_event))
            < server_rank(server),
{
}

} // verus!
