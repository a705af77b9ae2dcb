//! What is planned for a command line, and what comes of running a server.
use vstd::prelude::*;
use vstd::string::*;

use crate::cli::{address, client_transport_of, entries, is_url, mode_in, named_at};
use crate::cli::{distinct_names, octal_value, server_env, server_transport_of, transport_named};
use crate::cli::{with_all, with_pairs, ArgumentTexts, CliError, PlanTexts, ServerPlanTexts};
use crate::cli::Transport;
use crate::laws::discovery::lemma_same_middle;
use crate::laws::texts::{are_digits, different_numbers_are_written_differently, digit_value};
use crate::laws::texts::{numeral_value, only_copies_of_the_prefix_go};
use crate::sse_server::{ServerEvent, ServerStep, SseServerSettings, StdioServerParameters};
use crate::text::{contains_text, decimal_text};

verus! {

// ---------------------------------------------------------------- errors

/// What is wrong with a command line is shown as it is.
pub proof fn command_line_errors_are_shown(transport: Seq<char>)
    ensures
        CliError::<Seq<char>>::InvalidMode.text() == "invalid octal mode for --unix-socket-mode"@,
        CliError::<Seq<char>>::MissingCommand.text() == "command or URL is required"@,
        CliError::UnsupportedTransport(transport).text() == "unsupported transport type: "@
            + transport,
{
}

// ---------------------------------------------------------------- the address

/// The address of a server begins with its host, whatever that is, and goes on with a colon and
/// the port in decimal.
pub proof fn address_begins_with_the_host(host: Seq<char>, port: u16)
    ensures
        host.is_prefix_of(address(host, port)),
        address(host, port).len() > host.len(),
        address(host, port)[host.len() as int] == ':',
        address(host, port).skip(host.len() as int + 1) == decimal_text(port as nat),
{
    reveal_strlit(":");
    let whole = address(host, port);
    assert(whole.subrange(0, host.len() as int) =~= host);
    assert(whole.skip(host.len() as int + 1) =~= decimal_text(port as nat));
}

/// Servers on different hosts with the same port have different addresses, and so have servers
/// on the same host with different ports.
pub proof fn addresses_differ(a: Seq<char>, b: Seq<char>, port: u16, other: u16)
    ensures
        a != b ==> address(a, port) != address(b, port),
        port != other ==> address(a, port) != address(a, other),
{
    let tail = ":"@ + decimal_text(port as nat);
    let none = Seq::<char>::empty();
    assert(address(a, port) =~= none + a + tail);
    assert(address(b, port) =~= none + b + tail);
    if address(a, port) == address(b, port) {
        lemma_same_middle(none, a, b, tail);
    }
    different_numbers_are_written_differently(port as nat, other as nat);
    let (x, y) = (decimal_text(port as nat), decimal_text(other as nat));
    assert(address(a, port) =~= (a + ":"@) + x + none);
    assert(address(a, other) =~= (a + ":"@) + y + none);
    if address(a, port) == address(a, other) {
        lemma_same_middle(a + ":"@, x, y, none);
    }
}

/// The address of a planned server begins with the host of the command line, and goes on with a
/// colon and the port of the command line in decimal; so plans for different hosts and the same
/// port have different addresses.
pub proof fn planned_server_listens_at_the_host(a: ArgumentTexts, b: ArgumentTexts)
    ensures
        a.planned() matches Ok(PlanTexts::Server(plan)) ==> plan.bind_addr == a.sse_host + ":"@
            + decimal_text(a.sse_port as nat) && a.sse_host.is_prefix_of(plan.bind_addr),
        a.planned() matches Ok(PlanTexts::Server(x)) ==> b.planned() matches Ok(
            PlanTexts::Server(y),
        ) ==> a.sse_port == b.sse_port ==> a.sse_host != b.sse_host ==> x.bind_addr != y.bind_addr,
        a.planned() matches Ok(PlanTexts::Server(x)) ==> b.planned() matches Ok(
            PlanTexts::Server(y),
        ) ==> a.sse_host == b.sse_host ==> a.sse_port != b.sse_port ==> x.bind_addr != y.bind_addr,
{
    address_begins_with_the_host(a.sse_host, a.sse_port);
    addresses_differ(a.sse_host, b.sse_host, a.sse_port, b.sse_port);
}

// ---------------------------------------------------------------- the plan

/// A target is a URL if and only if it begins with `http://` or `https://`.
pub proof fn url_begins_with_its_scheme(target: Seq<char>, rest: Seq<char>)
    ensures
        is_url("http://"@ + rest),
        is_url("https://"@ + rest),
        is_url(target) ==> exists|r: Seq<char>|
            target == #[trigger] ("http://"@ + r) || target == "https://"@ + r,
{
    reveal_strlit("http://");
    reveal_strlit("https://");
    assert(("http://"@ + rest).subrange(0, 7) =~= "http://"@);
    assert(("https://"@ + rest).subrange(0, 8) =~= "https://"@);
    if "http://"@.is_prefix_of(target) {
        assert(target =~= "http://"@ + target.skip(7));
    }
    if "https://"@.is_prefix_of(target) {
        let r = target.skip(8);
        assert(target =~= "https://"@ + r);
        let other = "http://"@ + r;
        assert(target == other || target == "https://"@ + r);
    }
}

/// The target is what stands first, whether or not that was taken as one, and what follows it is
/// the rest; without anything there is none.
pub proof fn target_comes_first(arguments: ArgumentTexts, first: Seq<char>)
    ensures
        arguments.command_or_url == Some(first) ==> arguments.target() == Some(
            (first, arguments.args),
        ),
        arguments.command_or_url is None && arguments.args.len() > 0 ==> arguments.target() == Some(
            (arguments.args[0], arguments.args.skip(1)),
        ),
        arguments.command_or_url is None && arguments.args.len() == 0 ==> arguments.target()
            is None,
{
    assert(arguments.args.drop_first() =~= arguments.args.skip(1));
}

/// Any target that is neither a URL nor `reset` is a command, which is run with what follows it,
/// and with everything else as the command line says.
pub proof fn command_is_served(arguments: ArgumentTexts, command: Seq<char>, args: Seq<Seq<char>>)
    requires
        arguments.target() == Some((command, args)),
        !"http://"@.is_prefix_of(command) && !"https://"@.is_prefix_of(command),
        command != "reset"@,
        arguments.unix_socket_mode matches Some(text) ==> mode_in(text) is Some,
    ensures
        arguments.planned() matches Ok(PlanTexts::Server(plan)) && plan.command == command
            && plan.args == args && plan.env_vars == arguments.env_vars && plan.pass_environment
            == arguments.pass_environment && plan.transport == arguments.transport
            && plan.bind_addr == arguments.sse_host + ":"@ + decimal_text(
            arguments.sse_port as nat,
        ) && plan.unix_socket_mode == (match arguments.unix_socket_mode {
            Some(text) => mode_in(text),
            None => None,
        }),
{
}

/// A URL is connected to, with the headers of the command line, by the transport that it names or,
/// where that is `auto`, by events if and only if `/sse` stands in the URL; any other transport is
/// refused by its name.
pub proof fn url_is_connected_to(arguments: ArgumentTexts, url: Seq<char>, args: Seq<Seq<char>>)
    requires
        arguments.target() == Some((url, args)),
        "http://"@.is_prefix_of(url) || "https://"@.is_prefix_of(url),
        arguments.unix_socket_mode matches Some(text) ==> mode_in(text) is Some,
    ensures
        arguments.planned() matches Ok(plan) ==> (plan matches PlanTexts::Client {
            transport,
            url: to,
            headers,
        } && to == url && headers == with_pairs(Map::empty(), arguments.headers) && (transport
            is Sse <==> arguments.transport == "sse"@ || (arguments.transport == "auto"@
            && contains_text(url, "/sse"@)))),
        arguments.planned() matches Err(e) ==> e == CliError::UnsupportedTransport(
            arguments.transport,
        ),
        arguments.planned() is Ok <==> arguments.transport == "auto"@ || arguments.transport
            == "sse"@ || arguments.transport == "streamable-http"@,
{
    lemma_names_differ();
}

/// The files are deleted for `reset`.
pub proof fn reset_is_planned(arguments: ArgumentTexts, args: Seq<Seq<char>>)
    requires
        arguments.target() == Some(("reset"@, args)),
        arguments.unix_socket_mode matches Some(text) ==> mode_in(text) is Some,
    ensures
        arguments.planned() == Ok::<PlanTexts, CliError<Seq<char>>>(PlanTexts::Reset),
{
    reveal_strlit("reset");
    reveal_strlit("http://");
    reveal_strlit("https://");
}

/// A mode that is none is refused first, and then a missing command.
pub proof fn mode_is_looked_at_first(arguments: ArgumentTexts, text: Seq<char>)
    ensures
        arguments.unix_socket_mode == Some(text) && mode_in(text) is None ==> arguments.planned()
            == Err::<PlanTexts, CliError<Seq<char>>>(CliError::InvalidMode),
        (arguments.unix_socket_mode matches Some(t) ==> mode_in(t) is Some)
            && arguments.target() is None ==> arguments.planned() == Err::<
            PlanTexts,
            CliError<Seq<char>>,
        >(CliError::MissingCommand),
{
}

proof fn lemma_names_differ()
    ensures
        "auto"@ != "sse"@,
        "auto"@ != "streamable-http"@,
        "sse"@ != "streamable-http"@,
{
    reveal_strlit("auto");
    reveal_strlit("sse");
    reveal_strlit("streamable-http");
    assert("auto"@.len() == 4 && "sse"@.len() == 3 && "streamable-http"@.len() == 15);
}

/// There are two transports, each with one name; `auto` stands for events on a server, and on a
/// client for events if and only if `/sse` stands in the URL.
pub proof fn transports_have_their_names(name: Seq<char>, url: Seq<char>)
    ensures
        transport_named(name) == Some(Transport::Sse) <==> name == "sse"@,
        transport_named(name) == Some(Transport::StreamableHttp) <==> name == "streamable-http"@,
        server_transport_of(name) == Some(Transport::Sse) <==> name == "sse"@ || name == "auto"@,
        server_transport_of(name) == Some(Transport::StreamableHttp) <==> name
            == "streamable-http"@,
        client_transport_of(name, url) == Some(Transport::Sse) <==> name == "sse"@ || (name
            == "auto"@ && contains_text(url, "/sse"@)),
        client_transport_of(name, url) == Some(Transport::StreamableHttp) <==> name
            == "streamable-http"@ || (name == "auto"@ && !contains_text(url, "/sse"@)),
{
    lemma_names_differ();
}

// ---------------------------------------------------------------- modes

proof fn lemma_octal(digits: Seq<char>)
    requires
        are_digits(digits, 8),
    ensures
        octal_value(digits) == numeral_value(digits, 8),
        numeral_value(digits, 8) >= 0,
    decreases digits.len(),
{
    if digits.len() > 0 {
        let before = digits.drop_last();
        assert forall|i: int| 0 <= i < before.len() implies 0 <= digit_value(#[trigger] before[i])
            < 8 by {
            assert(before[i] == digits[i]);
        }
        lemma_octal(before);
        assert(0 <= digit_value(digits[digits.len() - 1]) < 8);
    }
}

/// A mode is read as the number that its octal digits count; a sign and any prefixes `0o` before
/// them change nothing; what is no such number, or too large for one of 32 bits, is no mode.
pub proof fn mode_is_read_in_octal(digits: Seq<char>)
    requires
        digits.len() > 0,
        are_digits(digits, 8),
    ensures
        numeral_value(digits, 8) <= u32::MAX ==> (mode_in(digits) matches Some(mode) && mode
            == numeral_value(digits, 8)),
        numeral_value(digits, 8) > u32::MAX ==> mode_in(digits) is None,
        mode_in("0o"@ + digits) == mode_in(digits),
        mode_in("+"@ + digits) == mode_in(digits),
{
    reveal_strlit("0o");
    reveal_strlit("+");
    lemma_octal(digits);
    assert forall|i: int| 0 <= i < digits.len() implies '0' <= #[trigger] digits[i] && digits[i]
        <= '7' by {
        assert(0 <= digit_value(digits[i]) < 8);
    }
    only_copies_of_the_prefix_go(digits, "0o"@);
    if "0o"@.is_prefix_of(digits) {
        assert(digits.subrange(0, 2)[1] == 'o');
        assert(digits[1] == 'o');
    }
    let signed = "+"@ + digits;
    assert(signed[0] == '+');
    only_copies_of_the_prefix_go(signed, "0o"@);
    if "0o"@.is_prefix_of(signed) {
        assert(signed.subrange(0, 2)[0] == '0');
    }
    assert(signed.drop_first() =~= digits);
    assert(digits.first() == digits[0]);
}

/// A mode that is read was written in octal digits alone, behind prefixes and a sign at most.
pub proof fn only_octal_digits_are_a_mode(text: Seq<char>)
    requires
        !"0o"@.is_prefix_of(text),
        mode_in(text) is Some,
    ensures
        ({
            let digits = if text[0] == '+' {
                text.skip(1)
            } else {
                text
            };
            &&& digits.len() > 0
            &&& are_digits(digits, 8)
            &&& mode_in(text)->0 == numeral_value(digits, 8)
        }),
{
    reveal_strlit("0o");
    only_copies_of_the_prefix_go(text, "0o"@);
    let digits = if text[0] == '+' {
        text.skip(1)
    } else {
        text
    };
    assert(text.drop_first() =~= text.skip(1));
    assert forall|i: int| 0 <= i < digits.len() implies 0 <= digit_value(#[trigger] digits[i])
        < 8 by {
        assert('0' <= digits[i] && digits[i] <= '7');
    }
    lemma_octal(digits);
}

// ---------------------------------------------------------------- names and values

/// Pairs with different names are a table: each name has the value of its pair, and there are no
/// other names.
pub proof fn pairs_are_a_table(pairs: Seq<(Seq<char>, Seq<char>)>, at: int, name: Seq<char>)
    requires
        distinct_names(pairs),
    ensures
        0 <= at < pairs.len() ==> entries(pairs).contains_key(pairs[at].0) && entries(
            pairs,
        )[pairs[at].0] == pairs[at].1,
        entries(pairs).contains_key(name) ==> exists|i: int|
            0 <= i < pairs.len() && (#[trigger] pairs[i]).0 == name,
{
    if 0 <= at < pairs.len() {
        let n = pairs[at].0;
        assert(named_at(pairs, n, at));
        let i = choose|i: int| named_at(pairs, n, i);
        assert(named_at(pairs, n, i));
        if i < at {
            assert(pairs[i].0 != pairs[at].0);
        } else if at < i {
            assert(pairs[at].0 != pairs[i].0);
        }
    }
    if entries(pairs).contains_key(name) {
        let i = choose|i: int| named_at(pairs, name, i);
        assert(named_at(pairs, name, i));
        assert(pairs[i].0 == name);
    }
}

/// A list of names and values is taken in twos, each name before its value; one more name and
/// value count over all before them, and a name without a value is left out.
pub proof fn names_and_values_come_in_twos(
    map: Map<Seq<char>, Seq<char>>,
    items: Seq<Seq<char>>,
    name: Seq<char>,
    value: Seq<char>,
)
    requires
        items.len() % 2 == 0,
    ensures
        with_pairs(map, items.push(name).push(value)) == with_pairs(map, items).insert(name, value),
        with_pairs(map, items.push(name)) == with_pairs(map, items),
        with_pairs(map, Seq::empty()) == map,
    decreases items.len(),
{
    let longer = items.push(name).push(value);
    let odd = items.push(name);
    if items.len() == 0 {
        reveal_with_fuel(with_pairs, 2);
        assert(longer[0] == name && longer[1] == value);
        assert(longer.skip(2).len() == 0);
    } else {
        names_and_values_come_in_twos(map.insert(items[0], items[1]), items.skip(2), name, value);
        assert(longer[0] == items[0] && longer[1] == items[1]);
        assert(odd[0] == items[0] && odd[1] == items[1]);
        assert(longer.skip(2) =~= items.skip(2).push(name).push(value));
        assert(odd.skip(2) =~= items.skip(2).push(name));
    }
}

/// One more pair counts over all before it.
pub proof fn later_pair_counts(
    map: Map<Seq<char>, Seq<char>>,
    pairs: Seq<(Seq<char>, Seq<char>)>,
    name: Seq<char>,
    value: Seq<char>,
)
    ensures
        with_all(map, pairs.push((name, value))) == with_all(map, pairs).insert(name, value),
        with_all(map, Seq::empty()) == map,
{
    assert(pairs.push((name, value)).drop_last() =~= pairs);
}

/// The environment of a command is what the command line names, over the one that it passes on,
/// where it does.
pub proof fn environment_is_that_of_the_command_line(
    plan: ServerPlanTexts,
    inherited: Seq<(Seq<char>, Seq<char>)>,
)
    ensures
        !plan.pass_environment ==> server_env(plan, inherited) == with_pairs(
            Map::empty(),
            plan.env_vars,
        ),
        plan.pass_environment ==> server_env(plan, inherited) == with_pairs(
            with_all(Map::empty(), inherited),
            plan.env_vars,
        ),
{
}

// ---------------------------------------------------------------- running a server

/// A server that has started listens on its socket, where it has one: a file in its place is
/// removed first, and permissions are set where they are asked for. Without a socket it listens
/// at its address.
pub proof fn server_listens_where_it_is_told<A, P>(
    stdio_params: StdioServerParameters,
    settings: SseServerSettings<A, P>,
    path: P,
    permissions: u32,
)
    ensures
        ({
            let start = ServerStep::<A, P, Seq<char>>::Start { stdio_params, settings };
            let next = start.after(ServerEvent::Started(Ok(())));
            &&& settings.unix_socket is None ==> next == (ServerStep::<
                A,
                P,
                Seq<char>,
            >::BindAddress { bind_addr: settings.bind_addr }) && next.after(
                ServerEvent::Bound(Ok(())),
            ) == (ServerStep::<A, P, Seq<char>>::Serve { socket: None })
            &&& settings.unix_socket == Some(path) ==> ({
                let mode = settings.unix_socket_mode;
                let bind = ServerStep::<A, P, Seq<char>>::BindSocket { path, mode };
                let remove = next.after(ServerEvent::Exists(true));
                let bound = bind.after(ServerEvent::Bound(Ok(())));
                let serve = ServerStep::<A, P, Seq<char>>::Serve { socket: Some(path) };
                &&& next == (ServerStep::<A, P, Seq<char>>::ProbeSocket { path, mode })
                &&& next.after(ServerEvent::Exists(false)) == bind
                &&& remove == (ServerStep::<A, P, Seq<char>>::RemoveSocket { path, mode })
                &&& remove.after(ServerEvent::Removed(Ok(()))) == bind
                &&& mode is None ==> bound == serve
                &&& mode == Some(permissions) ==> bound == (ServerStep::<
                    A,
                    P,
                    Seq<char>,
                >::SetMode { path, permissions }) && bound.after(ServerEvent::ModeSet(Ok(())))
                    == serve
            })
        }),
{
}

/// A server that is signalled to stop ends its sessions, removes the file of its socket, where it
/// has one, and ends with what it came to.
pub proof fn signalled_server_ends<A, P>(path: P, r: Result<(), Seq<char>>)
    ensures
        ({
            let serve = ServerStep::<A, P, Seq<char>>::Serve { socket: Some(path) };
            let end = serve.after(ServerEvent::Signalled);
            let clean = end.after(ServerEvent::SessionsEnded);
            let plain = ServerStep::<A, P, Seq<char>>::Serve { socket: None };
            let plain_end = plain.after(ServerEvent::Signalled);
            let finish = ServerStep::<A, P, Seq<char>>::Finish;
            &&& end == (ServerStep::<A, P, Seq<char>>::EndSessions { socket: Some(path) })
            &&& clean == (ServerStep::<A, P, Seq<char>>::CleanUp { path })
            &&& clean.after(ServerEvent::CleanedUp) == finish
            &&& plain_end == (ServerStep::<A, P, Seq<char>>::EndSessions { socket: None })
            &&& plain_end.after(ServerEvent::SessionsEnded) == finish
            &&& finish.after(ServerEvent::Finished(r)) == ServerStep::<A, P, Seq<char>>::Done(r)
        }),
{
}

/// A server that cannot start, or cannot listen, ends with the reason.
pub proof fn failed_server_tells_why<A, P>(
    stdio_params: StdioServerParameters,
    settings: SseServerSettings<A, P>,
    bind_addr: A,
    path: P,
    mode: Option<u32>,
    permissions: u32,
    m: Seq<char>,
)
    ensures
        ({
            let failed = ServerStep::<A, P, Seq<char>>::Done(Err(m));
            &&& (ServerStep::<A, P, Seq<char>>::Start { stdio_params, settings }).after(
                ServerEvent::Started(Err(m)),
            ) == failed
            &&& (ServerStep::<A, P, Seq<char>>::RemoveSocket { path, mode }).after(
                ServerEvent::Removed(Err(m)),
            ) == failed
            &&& (ServerStep::<A, P, Seq<char>>::BindSocket { path, mode }).after(
                ServerEvent::Bound(Err(m)),
            ) == failed
            &&& (ServerStep::<A, P, Seq<char>>::SetMode { path, permissions }).after(
                ServerEvent::ModeSet(Err(m)),
            ) == failed
            &&& (ServerStep::<A, P, Seq<char>>::BindAddress { bind_addr }).after(
                ServerEvent::Bound(Err(m)),
            ) == failed
        }),
{
}

/// What happens to a step of a server that the event is not about: nothing.
pub proof fn server_waits_for_its_events<A, P>(
    step: ServerStep<A, P, Seq<char>>,
    event: ServerEvent<Seq<char>>,
)
    ensures
        step.after(event) != step ==> match step {
            ServerStep::Start { .. } => event is Started,
            ServerStep::ProbeSocket { .. } => event is Exists,
            ServerStep::RemoveSocket { .. } => event is Removed,
            ServerStep::BindSocket { .. } => event is Bound,
            ServerStep::SetMode { .. } => event is ModeSet,
            ServerStep::BindAddress { .. } => event is Bound,
            ServerStep::Serve { .. } => event is Signalled,
            ServerStep::EndSessions { .. } => event is SessionsEnded,
            ServerStep::CleanUp { .. } => event is CleanedUp,
            ServerStep::Finish => event is Finished,
            ServerStep::Done(_) => false,
        },
{
}

} // verus!
