//! What comes of connecting to a server, of authenticating against it, and of answering the
//! callback.
use vstd::prelude::*;
use vstd::string::*;
use vstd::utf8::*;

use crate::auth::AuthError;
use crate::callback_page::{answering, complete_reply, error_reply, failure_reply};
use crate::callback_page::{missing_code_reply, page_text, undelivered_reply};
use crate::callback_page::{OAuthCallback, PageReply, ReplyEvent, ReplyStep, STYLE};
use crate::config::{AuthConfig, ConfigError, LockFile};
use crate::connection::{authenticating, built, headers_error, headers_of};
use crate::connection::{AuthenticateEvent, AuthenticateStep, ConnectEvent, ConnectStep};
use crate::coordination::{auth_timeout, coordinating, handling_auth, waiting};
use crate::coordination::{AuthCoordinationResult, CoordinateEvent, CoordinateStep};
use crate::coordination::{CoordinationError, HandleAuthEvent, HandleAuthStep, WaitEvent, WaitStep};
use crate::outside::{header_refusal, is_header_name, is_header_value, lower_name};
use crate::outside::{HeaderEntries, HeaderError};
use crate::text::{contains_text, decimal_text, occurs_at};

verus! {

// ---------------------------------------------------------------- connecting

/// A server that answers 200 needs no tokens, and one that answers 401 does; any other answer, and
/// anything that goes wrong, is told of.
pub proof fn answer_says_whether_tokens_are_needed(url: Seq<char>, code: u16, m: Seq<char>)
    ensures
        ({
            let probe = ConnectStep::Probe { url };
            let next = probe.after(ConnectEvent::Probed(Ok(code)));
            &&& code == 200 ==> next == ConnectStep::<Seq<char>>::Done(Ok(None))
            &&& code == 401 ==> next == (ConnectStep::<Seq<char>>::CreateClient {
                url,
                redirect_port: 9292,
            })
            &&& code != 200 && code != 401 ==> next == ConnectStep::<Seq<char>>::Done(
                Err("Unexpected response: "@ + decimal_text(code as nat)),
            )
            &&& probe.after(ConnectEvent::Probed(Err(m))) == ConnectStep::<Seq<char>>::Done(Err(m))
        }),
{
}

/// With a client for the server its tokens are had; what goes wrong is told of.
pub proof fn client_is_made_before_it_authenticates(
    url: Seq<char>,
    redirect_port: u16,
    config: AuthConfig<Seq<char>>,
    e: AuthError<Seq<char>>,
    c: CoordinationError<Seq<char>>,
)
    ensures
        ({
            let create = ConnectStep::CreateClient { url, redirect_port };
            let authenticate = create.after(ConnectEvent::ClientCreated(Ok(())));
            &&& authenticate is Authenticate
            &&& create.after(ConnectEvent::ClientCreated(Err(e))) == ConnectStep::<Seq<char>>::Done(
                Err(e.text()),
            )
            &&& authenticate.after(ConnectEvent::Authenticated(Ok(config))) == ConnectStep::<
                Seq<char>,
            >::Done(Ok(Some(config)))
            &&& authenticate.after(ConnectEvent::Authenticated(Err(c))) == ConnectStep::<
                Seq<char>,
            >::Done(Err(c.text()))
        }),
{
}

/// What happens to a step of connecting that the event is not about: nothing.
pub proof fn connection_waits_for_its_answers(
    step: ConnectStep<Seq<char>>,
    event: ConnectEvent<Seq<char>>,
)
    ensures
        step.after(event) != step ==> match step {
            ConnectStep::Probe { .. } => event is Probed,
            ConnectStep::CreateClient { .. } => event is ClientCreated,
            ConnectStep::Authenticate => event is Authenticated,
            ConnectStep::Done(_) => false,
        },
{
}

/// What was found out about this process is done: it authenticates at the URL, waits for the
/// holder of the lock, or takes the tokens that are there.
pub proof fn process_does_its_part(
    server_url_hash: Seq<char>,
    auth_url: Seq<char>,
    lock_file: LockFile<Seq<char>>,
    config: AuthConfig<Seq<char>>,
    e: CoordinationError<Seq<char>>,
    r: Result<AuthConfig<Seq<char>>, CoordinationError<Seq<char>>>,
)
    ensures
        ({
            let first = authenticating(server_url_hash);
            let handle = first.after(
                AuthenticateEvent::Coordinated(Ok(AuthCoordinationResult::HandleAuth { auth_url })),
            );
            let wait = first.after(
                AuthenticateEvent::Coordinated(
                    Ok(AuthCoordinationResult::WaitForAuth { lock_file }),
                ),
            );
            let done = first.after(
                AuthenticateEvent::Coordinated(
                    Ok(AuthCoordinationResult::AuthDone { auth_config: config }),
                ),
            );
            &&& first == (AuthenticateStep::<Seq<char>>::Coordinate {
                server_url_hash,
                callback_port: 9292,
            })
            &&& handle == (AuthenticateStep::<Seq<char>>::HandleAuth {
                auth_url,
                callback_port: 9292,
            })
            &&& wait == (AuthenticateStep::<Seq<char>>::WaitForAuth { lock_file })
            &&& done == AuthenticateStep::<Seq<char>>::Done(Ok(config))
            &&& first.after(AuthenticateEvent::Coordinated(Err(e))) == AuthenticateStep::<
                Seq<char>,
            >::Done(Err(e))
            &&& handle.after(AuthenticateEvent::Authenticated(r)) == AuthenticateStep::<
                Seq<char>,
            >::Done(r)
            &&& wait.after(AuthenticateEvent::Authenticated(r)) == AuthenticateStep::<
                Seq<char>,
            >::Done(r)
            &&& first.after(AuthenticateEvent::Authenticated(r)) == first
        }),
{
}

/// What happens to a step of authenticating that the event is not about: nothing.
pub proof fn process_waits_for_its_answers(
    step: AuthenticateStep<Seq<char>>,
    event: AuthenticateEvent<Seq<char>>,
)
    ensures
        step.after(event) != step ==> match step {
            AuthenticateStep::Coordinate { .. } => event is Coordinated,
            AuthenticateStep::HandleAuth { .. } => event is Authenticated,
            AuthenticateStep::WaitForAuth { .. } => event is Authenticated,
            AuthenticateStep::Done(_) => false,
        },
{
}

// ---------------------------------------------------------------- coordinating

/// Tokens that are there are used. Where an authentication is required the lock of the server is
/// taken, for its URL and the port; who holds it authenticates, and everyone else waits for its
/// holder.
pub proof fn one_process_authenticates(
    hash: Seq<char>,
    server_url: Seq<char>,
    port: u16,
    config: AuthConfig<Seq<char>>,
    lock: LockFile<Seq<char>>,
    pid: u32,
    auth_url: Seq<char>,
)
    ensures
        ({
            let first = coordinating(hash, server_url, port);
            let create = first.after(CoordinateEvent::Config(Err(AuthError::AuthRequired)));
            let next = create.after(CoordinateEvent::Lock { lock: Ok(lock), pid });
            &&& first == (CoordinateStep::<Seq<char>>::GetConfig {
                server_url_hash: hash,
                server_url,
                callback_port: port,
            })
            &&& first.after(CoordinateEvent::Config(Ok(config))) == CoordinateStep::<
                Seq<char>,
            >::Done(Ok(AuthCoordinationResult::AuthDone { auth_config: config }))
            &&& create == (CoordinateStep::<Seq<char>>::CreateLock {
                server_url_hash: hash,
                server_url,
                callback_port: port,
            })
            &&& lock.pid == pid ==> next is Initialize && next.after(
                CoordinateEvent::Initialized(Ok(auth_url)),
            ) == CoordinateStep::<Seq<char>>::Done(
                Ok(AuthCoordinationResult::HandleAuth { auth_url }),
            )
            &&& lock.pid != pid ==> next == CoordinateStep::<Seq<char>>::Done(
                Ok(AuthCoordinationResult::WaitForAuth { lock_file: lock }),
            )
        }),
{
}

/// A coordination that goes wrong tells what went wrong.
pub proof fn failed_coordination_tells_why(
    hash: Seq<char>,
    server_url: Seq<char>,
    port: u16,
    pid: u32,
    e: AuthError<Seq<char>>,
    c: ConfigError<Seq<char>>,
)
    ensures
        ({
            let get = CoordinateStep::GetConfig {
                server_url_hash: hash,
                server_url,
                callback_port: port,
            };
            let create = CoordinateStep::CreateLock {
                server_url_hash: hash,
                server_url,
                callback_port: port,
            };
            &&& !(e is AuthRequired) ==> get.after(CoordinateEvent::Config(Err(e)))
                == CoordinateStep::<Seq<char>>::Done(Err(CoordinationError::Auth(e)))
            &&& create.after(CoordinateEvent::Lock { lock: Err(c), pid }) == CoordinateStep::<
                Seq<char>,
            >::Done(Err(CoordinationError::Config(c)))
            &&& CoordinateStep::<Seq<char>>::Initialize.after(
                CoordinateEvent::Initialized(Err(e)),
            ) == CoordinateStep::<Seq<char>>::Done(Err(CoordinationError::Auth(e)))
        }),
{
}

/// What happens to a step of a coordination that the event is not about: nothing.
pub proof fn coordination_waits_for_its_answers(
    step: CoordinateStep<Seq<char>>,
    event: CoordinateEvent<Seq<char>>,
)
    ensures
        step.after(event) != step ==> match step {
            CoordinateStep::GetConfig { .. } => event is Config,
            CoordinateStep::CreateLock { .. } => event is Lock,
            CoordinateStep::Initialize => event is Initialized,
            CoordinateStep::Done(_) => false,
        },
{
}

/// The callback is served on the port of this machine before the browser is opened at the URL;
/// then the tokens are awaited for a minute, and whatever comes of it is handed out once the
/// callback server has ended.
pub proof fn tokens_are_awaited_for_a_minute(
    auth_url: Seq<char>,
    port: u16,
    config: AuthConfig<Seq<char>>,
    m: Seq<char>,
)
    ensures
        ({
            let serve = handling_auth(auth_url, port);
            let browser = serve.after(HandleAuthEvent::Serving(Ok(())));
            let wait = browser.after(HandleAuthEvent::BrowserOpened(Ok(())));
            let end = HandleAuthEvent::<Seq<char>>::ShutDown;
            &&& serve == (HandleAuthStep::<Seq<char>>::Serve {
                host: "127.0.0.1"@,
                port,
                path: "/oauth/callback"@,
                auth_url,
            })
            &&& browser == (HandleAuthStep::<Seq<char>>::OpenBrowser { auth_url })
            &&& wait == (HandleAuthStep::<Seq<char>>::AwaitCallback { timeout: 60 })
            &&& wait.after(HandleAuthEvent::Received(config)).after(end) == HandleAuthStep::<
                Seq<char>,
            >::Done(Ok(config))
            &&& wait.after(HandleAuthEvent::ChannelClosed).after(end) == HandleAuthStep::<
                Seq<char>,
            >::Done(Err(CoordinationError::Other("Auth channel closed unexpectedly"@)))
            &&& wait.after(HandleAuthEvent::TimedOut).after(end) == HandleAuthStep::<
                Seq<char>,
            >::Done(Err(CoordinationError::Timeout))
            &&& wait.after(HandleAuthEvent::Received(config)) is Shutdown
            &&& wait.after(HandleAuthEvent::ChannelClosed) is Shutdown
            &&& wait.after(HandleAuthEvent::TimedOut) is Shutdown
            &&& serve.after(HandleAuthEvent::Serving(Err(m))) == HandleAuthStep::<Seq<char>>::Done(
                Err(CoordinationError::Io(m)),
            )
            &&& browser.after(HandleAuthEvent::BrowserOpened(Err(m))).after(end)
                == HandleAuthStep::<Seq<char>>::Done(Err(CoordinationError::Io(m)))
            &&& auth_timeout() == 60
        }),
{
}

/// What happens to a step of an authentication that the event is not about: nothing.
pub proof fn authentication_waits_for_its_answers(
    step: HandleAuthStep<Seq<char>>,
    event: HandleAuthEvent<Seq<char>>,
)
    ensures
        step.after(event) != step ==> match step {
            HandleAuthStep::Serve { .. } => event is Serving,
            HandleAuthStep::OpenBrowser { .. } => event is BrowserOpened,
            HandleAuthStep::AwaitCallback { .. } => event is Received || event is ChannelClosed
                || event is TimedOut,
            HandleAuthStep::Shutdown { .. } => event is ShutDown,
            HandleAuthStep::Done(_) => false,
        },
{
}

/// While the holder of the lock is at work, and where the lock is gone, the tokens are looked for;
/// where there are none yet they are looked for again a second later, for a minute.
pub proof fn tokens_are_looked_for_every_second(
    hash: Seq<char>,
    pid: u32,
    lock: LockFile<Seq<char>>,
    now: u64,
    secs: u64,
    config: AuthConfig<Seq<char>>,
)
    requires
        lock.created_at + 600 <= u64::MAX,
    ensures
        ({
            let read = waiting(hash, pid);
            let found = read.after(WaitEvent::Lock { lock: Ok(lock), now });
            let gone = read.after(WaitEvent::Lock { lock: Err(ConfigError::NotFound), now });
            let get = WaitStep::<Seq<char>>::GetConfig { server_url_hash: hash, pid };
            let check = get.after(WaitEvent::Config(Err(AuthError::AuthRequired)));
            let next = check.after(WaitEvent::Elapsed(secs));
            &&& read == (WaitStep::<Seq<char>>::ReadLock { server_url_hash: hash, pid })
            &&& lock.pid == pid && now <= lock.created_at + 600 ==> found == get
            &&& lock.pid != pid || now > lock.created_at + 600 ==> found == WaitStep::<
                Seq<char>,
            >::Done(Err(CoordinationError::Other("Lock changed or expired"@)))
            &&& gone == get
            &&& get.after(WaitEvent::Config(Ok(config))) == WaitStep::<Seq<char>>::Done(Ok(config))
            &&& check == (WaitStep::<Seq<char>>::CheckTime { server_url_hash: hash, pid })
            &&& secs >= 60 ==> next == WaitStep::<Seq<char>>::Done(Err(CoordinationError::Timeout))
            &&& secs < 60 ==> next == (WaitStep::<Seq<char>>::Sleep {
                server_url_hash: hash,
                pid,
                secs: 1,
            }) && next.after(WaitEvent::Slept) == read
        }),
{
}

/// The time of the lock that is waited for is asked to be one that ten minutes can be added to;
/// nothing else is asked of an event.
pub proof fn waited_for_lock_is_in_reach(
    step: WaitStep<Seq<char>>,
    event: WaitEvent<Seq<char>>,
    hash: Seq<char>,
    pid: u32,
    lock: LockFile<Seq<char>>,
    now: u64,
)
    ensures
        !(step is ReadLock && event is Lock) ==> step.accepts(event),
        (WaitStep::ReadLock { server_url_hash: hash, pid }).accepts(
            WaitEvent::Lock { lock: Ok(lock), now },
        ) <==> lock.pid != pid || lock.created_at + 600 <= u64::MAX,
{
}

/// A wait that goes wrong tells what went wrong.
pub proof fn failed_wait_tells_why(
    hash: Seq<char>,
    pid: u32,
    now: u64,
    c: ConfigError<Seq<char>>,
    e: AuthError<Seq<char>>,
)
    requires
        !(c is NotFound),
        !(e is AuthRequired),
    ensures
        waiting(hash, pid).after(WaitEvent::Lock { lock: Err(c), now }) == WaitStep::<
            Seq<char>,
        >::Done(Err(CoordinationError::Config(c))),
        (WaitStep::GetConfig { server_url_hash: hash, pid }).after(WaitEvent::Config(Err(e)))
            == WaitStep::<Seq<char>>::Done(Err(CoordinationError::Auth(e))),
{
}

/// What happens to a step of a wait that the event is not about: nothing.
pub proof fn wait_waits_for_its_answers(step: WaitStep<Seq<char>>, event: WaitEvent<Seq<char>>)
    ensures
        step.after(event) != step ==> match step {
            WaitStep::ReadLock { .. } => event is Lock,
            WaitStep::GetConfig { .. } => event is Config,
            WaitStep::CheckTime { .. } => event is Elapsed,
            WaitStep::Sleep { .. } => event is Slept,
            WaitStep::Done(_) => false,
        },
{
}

// ---------------------------------------------------------------- answering the callback

proof fn lemma_between(before: Seq<char>, part: Seq<char>, after: Seq<char>)
    ensures
        contains_text(before + part + after, part),
{
    let whole = before + part + after;
    assert(whole.subrange(before.len() as int, (before.len() + part.len()) as int) =~= part);
    assert(occurs_at(whole, part, before.len() as int));
}

/// A page holds its content whole, within its body.
pub proof fn page_holds_its_content(content: Seq<char>)
    ensures
        page_text(content) == "<html>"@ + STYLE@ + "<body>"@ + content + "</body></html>"@,
        contains_text(page_text(content), content),
{
    lemma_between("<html>"@ + STYLE@ + "<body>"@, content, "</body></html>"@);
}

/// A user who comes back with an error is told of it, and of its description, where there is one,
/// with the status of a bad request.
pub proof fn error_is_shown_to_the_user(error: Seq<char>, description: Option<Seq<char>>)
    ensures
        ({
            let reply = error_reply(error, description);
            let shown = if description is Some {
                description->0
            } else {
                "Unknown error"@
            };
            &&& reply.status == 400
            &&& contains_text(reply.page, shown)
            &&& error != "invalid_client"@ ==> reply.page == page_text(
                "<h1>Authentication Error</h1><p>"@ + error + ": "@ + shown + "</p>"@,
            )
            &&& error == "invalid_client"@ ==> reply.page == page_text(
                "<h1>Authentication Error</h1>\n                    <p>Client registration error: "@
                    + shown
                    + "</p>\n                    <p>Please restart the application to trigger client registration.</p>\n                    "@,
            )
        }),
{
    let shown = if description is Some {
        description->0
    } else {
        "Unknown error"@
    };
    let page = error_reply(error, description).page;
    let (top, end) = ("<html>"@ + STYLE@ + "<body>"@, "</body></html>"@);
    if error == "invalid_client"@ {
        let before =
            "<h1>Authentication Error</h1>\n                    <p>Client registration error: "@;
        let after =
            "</p>\n                    <p>Please restart the application to trigger client registration.</p>\n                    "@;
        assert(page =~= top + before + shown + (after + end));
        lemma_between(top + before, shown, after + end);
    } else {
        let before = "<h1>Authentication Error</h1><p>"@ + error + ": "@;
        assert(page =~= top + before + shown + ("</p>"@ + end));
        lemma_between(top + before, shown, "</p>"@ + end);
    }
}

/// What else a user who comes back is told: that the code is missing, why it was not taken, that
/// nobody awaits the tokens any more, or that all is done.
pub proof fn outcome_is_shown_to_the_user(e: AuthError<Seq<char>>)
    ensures
        missing_code_reply() == (PageReply {
            status: 400,
            page: page_text("<h1>Authentication Error</h1><p>Missing authorization code</p>"@),
        }),
        failure_reply(e) == (PageReply {
            status: 500,
            page: page_text("<h1>Authentication Error</h1><p>"@ + e.text() + "</p>"@),
        }),
        undelivered_reply() == (PageReply {
            status: 500,
            page: page_text("<h1>Error</h1><p>Internal server error</p>"@),
        }),
        complete_reply() == (PageReply {
            status: 200,
            page: page_text("<h1>Authentication Complete</h1><p>You can close this window.</p>"@),
        }),
{
}

/// A callback with an error, and one without a code, is answered at once; any other has its code
/// handled with its state, and the tokens delivered, before it is answered.
pub proof fn callback_is_answered(
    params: OAuthCallback<Seq<char>>,
    config: AuthConfig<Seq<char>>,
    e: AuthError<Seq<char>>,
)
    ensures
        params.error matches Some(error) ==> answering(params) == ReplyStep::<Seq<char>>::Done(
            error_reply(error, params.error_description),
        ),
        params.error is None && params.code is None ==> answering(params) == ReplyStep::<
            Seq<char>,
        >::Done(missing_code_reply()),
        params.error is None && params.code is Some ==> ({
            let handle = answering(params);
            let deliver = handle.after(ReplyEvent::Handled(Ok(config)));
            &&& handle == (ReplyStep::<Seq<char>>::Handle {
                code: params.code->0,
                state: params.state,
            })
            &&& deliver == (ReplyStep::<Seq<char>>::Deliver { config })
            &&& deliver.after(ReplyEvent::Delivered(true)) == ReplyStep::<Seq<char>>::Done(
                complete_reply(),
            )
            &&& deliver.after(ReplyEvent::Delivered(false)) == ReplyStep::<Seq<char>>::Done(
                undelivered_reply(),
            )
            &&& handle.after(ReplyEvent::Handled(Err(e))) == ReplyStep::<Seq<char>>::Done(
                failure_reply(e),
            )
        }),
{
}

/// What happens to a step of answering that the event is not about: nothing.
pub proof fn reply_waits_for_its_answers(step: ReplyStep<Seq<char>>, event: ReplyEvent<Seq<char>>)
    ensures
        step.after(event) != step ==> match step {
            ReplyStep::Handle { .. } => event is Handled,
            ReplyStep::Deliver { .. } => event is Delivered,
            ReplyStep::Done(_) => false,
        },
{
}

// ---------------------------------------------------------------- headers

/// The first header that is none is the one that is complained about, whatever follows it.
pub proof fn first_bad_header_is_refused(
    before: Seq<(Seq<char>, Seq<char>)>,
    name: Seq<char>,
    value: Seq<char>,
    after: Seq<(Seq<char>, Seq<char>)>,
)
    requires
        forall|i: int|
            0 <= i < before.len() ==> is_header_name((#[trigger] before[i]).0) && is_header_value(
                before[i].1,
            ),
        !is_header_name(name) || !is_header_value(value),
    ensures
        headers_error(before) is None,
        headers_error(before.push((name, value)) + after) == Some(header_refusal(name)),
    decreases before.len() + after.len(),
{
    if after.len() > 0 {
        first_bad_header_is_refused(before, name, value, after.drop_last());
        assert((before.push((name, value)) + after).drop_last() =~= before.push((name, value))
            + after.drop_last());
    } else {
        assert(before.push((name, value)) + after =~= before.push((name, value)));
        assert(before.push((name, value)).drop_last() =~= before);
        if before.len() > 0 {
            let (n, v) = before.last();
            assert(before[before.len() - 1] == (n, v));
            lemma_good_headers(before);
        }
    }
}

proof fn lemma_good_headers(pairs: Seq<(Seq<char>, Seq<char>)>)
    requires
        forall|i: int|
            0 <= i < pairs.len() ==> is_header_name((#[trigger] pairs[i]).0) && is_header_value(
                pairs[i].1,
            ),
    ensures
        headers_error(pairs) is None,
    decreases pairs.len(),
{
    if pairs.len() > 0 {
        let before = pairs.drop_last();
        assert forall|i: int| 0 <= i < before.len() implies is_header_name(
            (#[trigger] before[i]).0,
        ) && is_header_value(before[i].1) by {
            assert(before[i] == pairs[i]);
        }
        lemma_good_headers(before);
        assert(pairs[pairs.len() - 1] == pairs.last());
    }
}

/// Headers that are not too many are either built whole or refused for the first that is none.
pub proof fn headers_are_built_or_refused(
    pairs: Seq<(Seq<char>, Seq<char>)>,
    r: Result<HeaderEntries, HeaderError<Seq<char>>>,
)
    requires
        built(pairs, r),
        pairs.len() <= 6_553,
    ensures
        headers_error(pairs) is None ==> r == Ok::<HeaderEntries, HeaderError<Seq<char>>>(
            headers_of(pairs),
        ),
        headers_error(pairs) matches Some(m) ==> r == Err::<HeaderEntries, HeaderError<Seq<char>>>(
            HeaderError::Refused(m),
        ),
{
}

/// Headers that are all good, and not too many, are built, each name in lower case with the bytes
/// of its last value; headers of which one is none are refused.
pub proof fn good_headers_are_built(
    pairs: Seq<(Seq<char>, Seq<char>)>,
    name: Seq<char>,
    value: Seq<char>,
    r: Result<HeaderEntries, HeaderError<Seq<char>>>,
)
    requires
        built(pairs.push((name, value)), r),
        pairs.len() < 6_553,
        forall|i: int|
            0 <= i < pairs.len() ==> is_header_name((#[trigger] pairs[i]).0) && is_header_value(
                pairs[i].1,
            ),
    ensures
        r is Ok <==> is_header_name(name) && is_header_value(value),
        r matches Ok(headers) ==> headers.contains_key(lower_name(name)) && headers[lower_name(
            name,
        )] == seq![encode_utf8(value)],
        r matches Ok(headers) ==> headers == headers_of(pairs.push((name, value))),
        r matches Err(e) ==> e == HeaderError::Refused(header_refusal(name)),
{
    let all = pairs.push((name, value));
    lemma_good_headers(pairs);
    assert(all.drop_last() =~= pairs);
}

/// One more header changes the value of its own name, and of no other.
pub proof fn header_changes_its_own_name(
    pairs: Seq<(Seq<char>, Seq<char>)>,
    name: Seq<char>,
    value: Seq<char>,
    other: Seq<char>,
)
    ensures
        headers_of(Seq::empty()) == HeaderEntries::empty(),
        headers_of(pairs.push((name, value))).contains_key(lower_name(name)),
        headers_of(pairs.push((name, value)))[lower_name(name)] == seq![encode_utf8(value)],
        other != lower_name(name) ==> {
            &&& headers_of(pairs.push((name, value))).contains_key(other) <==> headers_of(
                pairs,
            ).contains_key(other)
            &&& headers_of(pairs).contains_key(other) ==> headers_of(
                pairs.push((name, value)),
            )[other] == headers_of(pairs)[other]
        },
{
    assert(pairs.push((name, value)).drop_last() =~= pairs);
}

} // verus!
