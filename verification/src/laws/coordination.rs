//! What holds of processes that authenticate against one server.
use vstd::prelude::*;
use vstd::string::*;

use crate::auth::{callback_url, AuthClient, AuthError, CALLBACK_HOST, CALLBACK_PATH};
use crate::callback_page::{answering, complete_reply};
use crate::callback_page::{OAuthCallback, PageReply, ReplyEvent, ReplyStep};
use crate::config::{AuthConfig, ConfigError, FilePath};
use crate::config::{LockEvent, LockFile, LockRequest, LockStep};
use crate::coordination::{coordinating, handling_auth, waiting};
use crate::coordination::{AuthCoordinationResult, CoordinateEvent, CoordinateStep};
use crate::coordination::{CoordinationError, HandleAuthEvent, HandleAuthStep};
use crate::coordination::{WaitEvent, WaitStep};
use crate::laws::events::lemma_events_stay;
use crate::utils::lock_expired;

verus! {

// ---------------------------------------------------------------- who authenticates

/// A run of finding out what a process does.
pub open spec fn coordinate_run(
    step: CoordinateStep<Seq<char>>,
    events: Seq<CoordinateEvent<Seq<char>>>,
) -> CoordinateStep<Seq<char>>
    decreases events.len(),
{
    if events.len() == 0 {
        step
    } else {
        coordinate_run(step, events.drop_last()).after(events.last())
    }
}

/// Whether the process found itself to hold this lock, or another process to.
pub open spec fn found_lock(
    events: Seq<CoordinateEvent<Seq<char>>>,
    lock: LockFile<Seq<char>>,
    own: bool,
) -> bool {
    exists|pid: u32|
        (lock.pid == pid) == own && #[trigger] events.contains(
            CoordinateEvent::Lock { lock: Ok(lock), pid },
        )
}

/// Whether the process found itself to hold some lock.
pub open spec fn holds_a_lock(events: Seq<CoordinateEvent<Seq<char>>>) -> bool {
    exists|lock: LockFile<Seq<char>>| #[trigger] found_lock(events, lock, true)
}

proof fn lemma_found_lock_stays(
    events: Seq<CoordinateEvent<Seq<char>>>,
    lock: LockFile<Seq<char>>,
    own: bool,
)
    requires
        events.len() > 0,
        found_lock(events.drop_last(), lock, own),
    ensures
        found_lock(events, lock, own),
{
    let before = events.drop_last();
    let pid = choose|pid: u32|
        (lock.pid == pid) == own && #[trigger] before.contains(
            CoordinateEvent::Lock { lock: Ok(lock), pid },
        );
    let e = CoordinateEvent::Lock { lock: Ok::<LockFile<Seq<char>>, ConfigError<Seq<char>>>(lock), pid };
    lemma_events_stay(events);
    assert(events.contains(e));
}

/// However it is found out what a process does: it takes a lock and authenticates only
/// where an authentication is required; it authenticates only if it holds the lock; it
/// waits only for another process that holds the lock; and it uses tokens only if they
/// were there.
pub proof fn holder_of_the_lock_authenticates(
    server_url_hash: Seq<char>,
    server_url: Seq<char>,
    callback_port: u16,
    events: Seq<CoordinateEvent<Seq<char>>>,
)
    ensures
        ({
            let required = events.contains(CoordinateEvent::Config(Err(AuthError::AuthRequired)));
            match coordinate_run(coordinating(server_url_hash, server_url, callback_port), events) {
                CoordinateStep::GetConfig { server_url_hash: h, server_url: u, callback_port: p } => h
                    == server_url_hash && u == server_url && p == callback_port,
                CoordinateStep::CreateLock { server_url_hash: h, server_url: u, callback_port: p } => h
                    == server_url_hash && u == server_url && p == callback_port && required,
                CoordinateStep::Initialize => required && holds_a_lock(events),
                CoordinateStep::Done(Ok(AuthCoordinationResult::HandleAuth { auth_url })) => required
                    && holds_a_lock(events) && events.contains(
                    CoordinateEvent::Initialized(Ok(auth_url)),
                ),
                CoordinateStep::Done(Ok(AuthCoordinationResult::WaitForAuth { lock_file })) => required
                    && found_lock(events, lock_file, false),
                CoordinateStep::Done(Ok(AuthCoordinationResult::AuthDone { auth_config })) => {
                    events.contains(CoordinateEvent::Config(Ok(auth_config)))
                },
                CoordinateStep::Done(Err(_)) => true,
            }
        }),
    decreases events.len(),
{
    if events.len() > 0 {
        let before = events.drop_last();
        holder_of_the_lock_authenticates(server_url_hash, server_url, callback_port, before);
        lemma_events_stay(events);
        let step = coordinate_run(coordinating(server_url_hash, server_url, callback_port), before);
        if holds_a_lock(before) {
            let lock = choose|lock: LockFile<Seq<char>>| #[trigger] found_lock(before, lock, true);
            lemma_found_lock_stays(events, lock, true);
        }
        match (step, events.last()) {
            (
                CoordinateStep::CreateLock { server_url_hash: _, server_url: _, callback_port: _ },
                CoordinateEvent::Lock { lock: Ok(lock), pid },
            ) => {
                assert(events.contains(CoordinateEvent::Lock { lock: Ok(lock), pid }));
                assert(found_lock(events, lock, lock.pid == pid));
                if lock.pid == pid {
                    assert(holds_a_lock(events));
                }
            },
            (CoordinateStep::Done(Ok(AuthCoordinationResult::WaitForAuth { lock_file })), _) => {
                lemma_found_lock_stays(events, lock_file, false);
            },
            _ => {},
        }
    }
}

/// A process that makes a new lock for itself authenticates, and one that finds the lock
/// of another process waits for it.
pub proof fn new_lock_means_to_authenticate(
    request: LockRequest<Seq<char>>,
    session_id: Seq<char>,
    now: u64,
    pid: u32,
    other: LockFile<Seq<char>>,
    server_url_hash: Seq<char>,
    callback_port: u16,
)
    requires
        other.pid != pid,
    ensures
        ({
            let step = CoordinateStep::CreateLock {
                server_url_hash,
                server_url: request.server_url,
                callback_port,
            };
            let own = request.stamped(session_id, now, pid);
            &&& step.after(CoordinateEvent::Lock { lock: Ok(own), pid }) is Initialize
            &&& step.after(CoordinateEvent::Lock { lock: Ok(other), pid }) == CoordinateStep::<
                Seq<char>,
            >::Done(Ok(AuthCoordinationResult::WaitForAuth { lock_file: other }))
        }),
{
}

/// A process that finds no lock, but whose file another process creates first, does not
/// authenticate: it ends with the error of the creation.
pub proof fn loser_of_the_race_does_not_authenticate(
    path: FilePath<Seq<char>>,
    text: Seq<char>,
    lock: LockFile<Seq<char>>,
    message: Seq<char>,
    server_url_hash: Seq<char>,
    server_url: Seq<char>,
    callback_port: u16,
    pid: u32,
)
    ensures
        (LockStep::Create { path, text, lock }).after(LockEvent::Created(Err(message)))
            == LockStep::<Seq<char>>::Done(Err(ConfigError::Io(message))),
        (CoordinateStep::CreateLock { server_url_hash, server_url, callback_port }).after(
            CoordinateEvent::Lock { lock: Err(ConfigError::Io(message)), pid },
        ) == CoordinateStep::<Seq<char>>::Done(
            Err(CoordinationError::Config(ConfigError::Io(message))),
        ),
{
}

// ---------------------------------------------------------------- the callback server

/// A run of authenticating with the user.
pub open spec fn handle_auth_run(
    step: HandleAuthStep<Seq<char>>,
    events: Seq<HandleAuthEvent<Seq<char>>>,
) -> HandleAuthStep<Seq<char>>
    decreases events.len(),
{
    if events.len() == 0 {
        step
    } else {
        handle_auth_run(step, events.drop_last()).after(events.last())
    }
}

/// However authenticating with the user goes, the callback server does not outlive it:
/// once the server runs, nothing comes out before it was shut down, on success and on
/// every error alike. Tokens come out only if the callback brought them.
pub proof fn callback_server_is_shut_down(
    auth_url: Seq<char>,
    callback_port: u16,
    events: Seq<HandleAuthEvent<Seq<char>>>,
)
    ensures
        match handle_auth_run(handling_auth(auth_url, callback_port), events) {
            HandleAuthStep::Serve { host, port, path, auth_url: url } => host == CALLBACK_HOST@
                && port == callback_port && path == CALLBACK_PATH@ && url == auth_url,
            HandleAuthStep::OpenBrowser { auth_url: url } => url == auth_url && events.contains(
                HandleAuthEvent::Serving(Ok(())),
            ),
            HandleAuthStep::AwaitCallback { timeout } => timeout == 60 && events.contains(
                HandleAuthEvent::Serving(Ok(())),
            ),
            HandleAuthStep::Shutdown { result } => {
                &&& events.contains(HandleAuthEvent::Serving(Ok(())))
                &&& result matches Ok(config) ==> events.contains(HandleAuthEvent::Received(config))
            },
            HandleAuthStep::Done(result) => {
                &&& {
                    ||| events.contains(HandleAuthEvent::ShutDown)
                    ||| (result matches Err(CoordinationError::Io(m)) && events.contains(
                        HandleAuthEvent::Serving(Err(m)),
                    ))
                }
                &&& result matches Ok(config) ==> events.contains(HandleAuthEvent::Received(config))
            },
        },
    decreases events.len(),
{
    if events.len() > 0 {
        let before = events.drop_last();
        callback_server_is_shut_down(auth_url, callback_port, before);
        lemma_events_stay(events);
        if let HandleAuthEvent::Serving(Ok(unit)) = events.last() {
            assert(unit == ());
        }
    }
}

/// The callback server is where the authorization server sends the user back to.
pub proof fn user_is_sent_back_to_the_callback_server(
    client: AuthClient<Seq<char>>,
    auth_url: Seq<char>,
)
    ensures
        handling_auth(auth_url, client.redirect_port) matches HandleAuthStep::Serve {
            host,
            port,
            path,
            auth_url: _,
        } && client.redirect_url() == callback_url(host, port, path),
{
}

/// While the callback server runs, the only step that ends the work is its shutdown.
pub proof fn running_server_is_shut_down_first(
    step: HandleAuthStep<Seq<char>>,
    event: HandleAuthEvent<Seq<char>>,
)
    requires
        step.server_runs(),
        step.after(event) is Done,
    ensures
        step is Shutdown,
        event is ShutDown,
{
}

// ---------------------------------------------------------------- waiting

/// A run of waiting for another process.
pub open spec fn wait_run(step: WaitStep<Seq<char>>, events: Seq<WaitEvent<Seq<char>>>) -> WaitStep<
    Seq<char>,
>
    decreases events.len(),
{
    if events.len() == 0 {
        step
    } else {
        wait_run(step, events.drop_last()).after(events.last())
    }
}

/// Whether some event tells that a minute has passed.
pub open spec fn minute_passed(events: Seq<WaitEvent<Seq<char>>>) -> bool {
    exists|secs: u64| secs >= 60 && #[trigger] events.contains(WaitEvent::Elapsed(secs))
}

/// However waiting for another process goes: it is given up for want of time only once a
/// minute has passed; tokens come out only if they were found; and between two looks it
/// sleeps for a second.
pub proof fn waiting_ends_with_tokens_or_after_a_minute(
    server_url_hash: Seq<char>,
    pid: u32,
    events: Seq<WaitEvent<Seq<char>>>,
)
    ensures
        match wait_run(waiting(server_url_hash, pid), events) {
            WaitStep::ReadLock { server_url_hash: h, pid: p } => h == server_url_hash && p == pid,
            WaitStep::GetConfig { server_url_hash: h, pid: p } => h == server_url_hash && p == pid,
            WaitStep::CheckTime { server_url_hash: h, pid: p } => h == server_url_hash && p == pid,
            WaitStep::Sleep { server_url_hash: h, pid: p, secs } => h == server_url_hash && p
                == pid && secs == 1,
            WaitStep::Done(Ok(config)) => events.contains(WaitEvent::Config(Ok(config))),
            WaitStep::Done(Err(CoordinationError::Timeout)) => minute_passed(events),
            WaitStep::Done(Err(_)) => true,
        },
    decreases events.len(),
{
    if events.len() > 0 {
        let before = events.drop_last();
        waiting_ends_with_tokens_or_after_a_minute(server_url_hash, pid, before);
        lemma_events_stay(events);
        if minute_passed(before) {
            let secs = choose|secs: u64|
                secs >= 60 && #[trigger] before.contains(WaitEvent::Elapsed(secs));
            assert(events.contains(WaitEvent::Elapsed(secs)));
        }
        if let WaitEvent::Elapsed(secs) = events.last() {
            assert(events.contains(WaitEvent::Elapsed(secs)));
        }
    }
}

/// A process waits on only while the lock is gone or still that of the process for which
/// it waits, and has not expired.
pub proof fn waiting_goes_on_only_for_the_holder(
    server_url_hash: Seq<char>,
    pid: u32,
    lock: LockFile<Seq<char>>,
    now: u64,
)
    ensures
        ({
            let step = WaitStep::ReadLock { server_url_hash, pid };
            let go_on = WaitStep::<Seq<char>>::GetConfig { server_url_hash, pid };
            &&& step.after(WaitEvent::Lock { lock: Ok(lock), now }) == go_on <==> (lock.pid == pid
                && !lock_expired(lock.created_at, now))
            &&& step.after(WaitEvent::Lock { lock: Err(ConfigError::NotFound), now }) == go_on
        }),
{
}

// ---------------------------------------------------------------- the answer

/// A run of answering a callback.
pub open spec fn reply_run(
    step: ReplyStep<Seq<char>>,
    events: Seq<ReplyEvent<Seq<char>>>,
) -> ReplyStep<Seq<char>>
    decreases events.len(),
{
    if events.len() == 0 {
        step
    } else {
        reply_run(step, events.drop_last()).after(events.last())
    }
}

/// However a callback is answered: a code is exchanged only if the callback carries one
/// and no error, and then with the state of the callback; and the user is told of success
/// only once tokens were had and passed on.
pub proof fn success_is_told_only_of_delivered_tokens(
    params: OAuthCallback<Seq<char>>,
    events: Seq<ReplyEvent<Seq<char>>>,
)
    ensures
        match reply_run(answering(params), events) {
            ReplyStep::Handle { code, state } => params.error is None && params.code == Some(code)
                && state == params.state,
            ReplyStep::Deliver { config } => params.error is None && params.code is Some
                && events.contains(ReplyEvent::Handled(Ok(config))),
            ReplyStep::Done(reply) => {
                &&& reply.status == 200 || reply.status == 400 || reply.status == 500
                &&& reply.status == 200 ==> params.error is None && params.code is Some
                    && events.contains(ReplyEvent::Delivered(true)) && reply == complete_reply()
                &&& reply.status == 400 <==> (params.error is Some || params.code is None)
            },
        },
    decreases events.len(),
{
    if events.len() > 0 {
        let before = events.drop_last();
        success_is_told_only_of_delivered_tokens(params, before);
        lemma_events_stay(events);
    }
}

/// What is done to coordinate once it is over stays so.
pub proof fn coordination_ends(
    coordinated: Result<AuthCoordinationResult<Seq<char>>, CoordinationError<Seq<char>>>,
    coordinate_event: CoordinateEvent<Seq<char>>,
    r: Result<AuthConfig<Seq<char>>, CoordinationError<Seq<char>>>,
    handle_event: HandleAuthEvent<Seq<char>>,
    wait_event: WaitEvent<Seq<char>>,
    reply: PageReply<Seq<char>>,
    reply_event: ReplyEvent<Seq<char>>,
)
    ensures
        CoordinateStep::Done(coordinated).after(coordinate_event) == CoordinateStep::Done(
            coordinated,
        ),
        HandleAuthStep::Done(r).after(handle_event) == HandleAuthStep::Done(r),
        WaitStep::Done(r).after(wait_event) == WaitStep::Done(r),
        ReplyStep::Done(reply).after(reply_event) == ReplyStep::Done(reply),
{
}

} // verus!
