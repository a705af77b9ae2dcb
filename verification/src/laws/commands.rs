//! What holds of the command line and of the servers that it starts.
use vstd::prelude::*;
use vstd::string::*;

use crate::cli::{client_transport_of, mode_in, server_env, server_transport_of, with_all};
use crate::cli::{is_url, transport_named, with_pairs, ArgumentTexts, CliError};
use crate::cli::{PlanTexts, ServerPlanTexts, Transport};
use crate::laws::events::lemma_events_stay;
use crate::sse_server::{ServerEvent, ServerStep, SseServerSettings, StdioServerParameters};
use crate::text::contains_text;

verus! {

// ---------------------------------------------------------------- names and values

/// Whether a name stands before a value at this position of a list in which names and
/// values stand in turn.
pub open spec fn names_at(items: Seq<Seq<char>>, name: Seq<char>, i: int) -> bool {
    0 <= i && 2 * i + 1 < items.len() && items[2 * i] == name
}

/// A name that does not occur in a list keeps its value.
pub proof fn unnamed_stays(
    map: Map<Seq<char>, Seq<char>>,
    items: Seq<Seq<char>>,
    name: Seq<char>,
)
    requires
        forall|i: int| !names_at(items, name, i),
    ensures
        with_pairs(map, items).contains_key(name) == map.contains_key(name),
        map.contains_key(name) ==> with_pairs(map, items)[name] == map[name],
    decreases items.len(),
{
    if items.len() >= 2 {
        let rest = items.skip(2);
        assert(!names_at(items, name, 0));
        assert forall|i: int| !names_at(rest, name, i) by {
            if names_at(rest, name, i) {
                assert(rest[2 * i] == items[2 * (i + 1)]);
                assert(names_at(items, name, i + 1));
            }
        }
        unnamed_stays(map.insert(items[0], items[1]), rest, name);
    }
}

/// A name has the value that stands behind it last, whatever it had before.
pub proof fn last_value_counts(
    map: Map<Seq<char>, Seq<char>>,
    items: Seq<Seq<char>>,
    name: Seq<char>,
    at: int,
)
    requires
        names_at(items, name, at),
        forall|i: int| at < i ==> !names_at(items, name, i),
    ensures
        with_pairs(map, items).contains_key(name),
        with_pairs(map, items)[name] == items[2 * at + 1],
    decreases items.len(),
{
    let rest = items.skip(2);
    let more = map.insert(items[0], items[1]);
    assert forall|i: int| names_at(rest, name, i) implies names_at(items, name, i + 1) by {
        assert(rest[2 * i] == items[2 * (i + 1)]);
    }
    if at == 0 {
        assert forall|i: int| !names_at(rest, name, i) by {
            if names_at(rest, name, i) {
                assert(names_at(items, name, i + 1));
            }
        }
        unnamed_stays(more, rest, name);
    } else {
        assert(rest[2 * (at - 1)] == items[2 * at]);
        assert(names_at(rest, name, at - 1));
        assert forall|i: int| at - 1 < i implies !names_at(rest, name, i) by {
            if names_at(rest, name, i) {
                assert(names_at(items, name, i + 1));
            }
        }
        last_value_counts(more, rest, name, at - 1);
        assert(rest[2 * (at - 1) + 1] == items[2 * at + 1]);
    }
}

/// A variable of the command line overrides the one that the command would inherit.
pub proof fn command_line_overrides_the_environment(
    plan: ServerPlanTexts,
    inherited: Seq<(Seq<char>, Seq<char>)>,
    name: Seq<char>,
    at: int,
)
    requires
        names_at(plan.env_vars, name, at),
        forall|i: int| at < i ==> !names_at(plan.env_vars, name, i),
    ensures
        server_env(plan, inherited).contains_key(name),
        server_env(plan, inherited)[name] == plan.env_vars[2 * at + 1],
{
    let map = if plan.pass_environment {
        with_all(Map::empty(), inherited)
    } else {
        Map::empty()
    };
    last_value_counts(map, plan.env_vars, name, at);
}

/// A command inherits a variable if and only if the environment is passed on and holds
/// it, unless the command line names it.
pub proof fn environment_is_passed_on_only_if_asked_for(
    plan: ServerPlanTexts,
    inherited: Seq<(Seq<char>, Seq<char>)>,
    name: Seq<char>,
)
    requires
        forall|i: int| !names_at(plan.env_vars, name, i),
    ensures
        ({
            let passed = with_all(Map::empty(), inherited);
            let env = server_env(plan, inherited);
            &&& env.contains_key(name) <==> plan.pass_environment && passed.contains_key(name)
            &&& env.contains_key(name) ==> env[name] == passed[name]
        }),
{
    let map = if plan.pass_environment {
        with_all(Map::empty(), inherited)
    } else {
        Map::empty()
    };
    unnamed_stays(map, plan.env_vars, name);
}

// ---------------------------------------------------------------- the plan

/// A transport that is asked for by name is used, whatever the URL; one that is left open
/// follows the URL for a client, and is SSE for a server.
pub proof fn named_transport_is_used(name: Seq<char>, url: Seq<char>)
    ensures
        name != "auto"@ ==> client_transport_of(name, url) == transport_named(name),
        name != "auto"@ ==> server_transport_of(name) == transport_named(name),
        client_transport_of("auto"@, url) == Some(Transport::Sse) <==> contains_text(url, "/sse"@),
        client_transport_of("auto"@, url) is Some,
        server_transport_of("auto"@) == Some(Transport::Sse),
        transport_named("sse"@) == Some(Transport::Sse),
        transport_named("streamable-http"@) == Some(Transport::StreamableHttp),
{
    reveal_strlit("sse");
    reveal_strlit("streamable-http");
    assert("sse"@.len() != "streamable-http"@.len());
}

/// Nothing is run with permissions that are no octal number, nor without a command or
/// URL; and a URL is always that of a client.
pub proof fn plan_fits_the_target(arguments: ArgumentTexts)
    ensures
        arguments.mode() is Err ==> arguments.planned() == Err::<PlanTexts, CliError<Seq<char>>>(
            CliError::InvalidMode,
        ),
        arguments.mode() is Ok && arguments.target() is None ==> arguments.planned() == Err::<
            PlanTexts,
            CliError<Seq<char>>,
        >(CliError::MissingCommand),
        arguments.planned() matches Ok(PlanTexts::Client { transport, url, headers }) ==> is_url(url)
            && (arguments.target() matches Some((target, _)) && target == url),
        arguments.planned() matches Ok(PlanTexts::Server(plan)) ==> !is_url(plan.command)
            && plan.command != "reset"@ && arguments.target() == Some((plan.command, plan.args)),
        arguments.planned() is Ok && arguments.planned()->Ok_0 is Reset ==> (arguments.target() matches Some(
            (target, _),
        ) && target == "reset"@),
{
}

/// It makes no difference whether permissions are given with `0o` before them.
pub proof fn mode_prefix_may_be_left_out(text: Seq<char>)
    ensures
        mode_in("0o"@ + text) == mode_in(text),
{
    reveal_strlit("0o");
    let whole = "0o"@ + text;
    assert(whole.subrange(0, 2) =~= "0o"@);
    assert(whole.skip(2) =~= text);
}

// ---------------------------------------------------------------- servers

/// A run of a server.
pub open spec fn server_run<A, P>(
    step: ServerStep<A, P, Seq<char>>,
    events: Seq<ServerEvent<Seq<char>>>,
) -> ServerStep<A, P, Seq<char>>
    decreases events.len(),
{
    if events.len() == 0 {
        step
    } else {
        server_run(step, events.drop_last()).after(events.last())
    }
}

/// However a server that listens on a socket runs: the address is never used; the file
/// that is removed, bound, and given permissions is that of the socket; it is served only
/// with the permissions that are asked for; and a server that ends as it should has
/// removed the file.
pub proof fn socket_is_cleaned_up<A, P>(
    stdio_params: StdioServerParameters,
    settings: SseServerSettings<A, P>,
    events: Seq<ServerEvent<Seq<char>>>,
)
    requires
        settings.unix_socket is Some,
    ensures
        ({
            let socket = settings.unix_socket->0;
            match server_run(ServerStep::Start { stdio_params, settings }, events) {
                ServerStep::Start { stdio_params: p, settings: s } => p == stdio_params && s
                    == settings,
                ServerStep::ProbeSocket { path, mode } => path == socket && mode
                    == settings.unix_socket_mode,
                ServerStep::RemoveSocket { path, mode } => path == socket && mode
                    == settings.unix_socket_mode,
                ServerStep::BindSocket { path, mode } => path == socket && mode
                    == settings.unix_socket_mode,
                ServerStep::SetMode { path, permissions } => path == socket && Some(permissions)
                    == settings.unix_socket_mode,
                ServerStep::BindAddress { bind_addr } => false,
                ServerStep::Serve { socket: at } => at == Some(socket) && (
                settings.unix_socket_mode is Some ==> events.contains(ServerEvent::ModeSet(Ok(())))),
                ServerStep::EndSessions { socket: at } => at == Some(socket),
                ServerStep::CleanUp { path } => path == socket,
                ServerStep::Finish => events.contains(ServerEvent::CleanedUp),
                ServerStep::Done(r) => r is Ok ==> events.contains(ServerEvent::CleanedUp),
            }
        }),
    decreases events.len(),
{
    if events.len() > 0 {
        let before = events.drop_last();
        socket_is_cleaned_up(stdio_params, settings, before);
        lemma_events_stay(events);
        if let ServerEvent::ModeSet(Ok(unit)) = events.last() {
            assert(unit == ());
        }
    }
}

/// However a server without a socket runs, it listens at its address, and no file is
/// touched.
pub proof fn without_a_socket_the_address_is_used<A, P>(
    stdio_params: StdioServerParameters,
    settings: SseServerSettings<A, P>,
    events: Seq<ServerEvent<Seq<char>>>,
)
    requires
        settings.unix_socket is None,
    ensures
        match server_run(ServerStep::Start { stdio_params, settings }, events) {
            ServerStep::Start { stdio_params: p, settings: s } => p == stdio_params && s
                == settings,
            ServerStep::BindAddress { bind_addr } => bind_addr == settings.bind_addr,
            ServerStep::Serve { socket } => socket is None && events.contains(
                ServerEvent::Bound(Ok(())),
            ),
            ServerStep::EndSessions { socket } => socket is None,
            ServerStep::Finish => true,
            ServerStep::Done(_) => true,
            _ => false,
        },
    decreases events.len(),
{
    if events.len() > 0 {
        let before = events.drop_last();
        without_a_socket_the_address_is_used(stdio_params, settings, before);
        lemma_events_stay(events);
        if let ServerEvent::Bound(Ok(unit)) = events.last() {
            assert(unit == ());
        }
    }
}

} // verus!
