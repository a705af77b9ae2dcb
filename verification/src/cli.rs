//! What the command line asks for.
use vstd::prelude::*;
use vstd::string::*;

use crate::outside::pairs_text;
use crate::sse_client::{texts, SseClientConfig};
use crate::sse_server::StdioServerParameters;
use crate::streamable_http_client::StreamableHttpClientConfig;
use crate::text::{chars_of, contains_text, decimal, decimal_text, has_prefix, has_text, opt_view};
use crate::text::{same_text, trim_prefixes, without_prefixes};

verus! {

/// Why nothing can be run.
#[derive(Debug)]
pub enum CliError<S = String> {
    InvalidMode,
    MissingCommand,
    UnsupportedTransport(S),
}

impl View for CliError {
    type V = CliError<Seq<char>>;

    open spec fn view(&self) -> CliError<Seq<char>> {
        match *self {
            CliError::InvalidMode => CliError::InvalidMode,
            CliError::MissingCommand => CliError::MissingCommand,
            CliError::UnsupportedTransport(t) => CliError::UnsupportedTransport(t@),
        }
    }
}

impl CliError<Seq<char>> {
    /// The error as it is shown to a user.
    pub open spec fn text(self) -> Seq<char> {
        match self {
            CliError::InvalidMode => "invalid octal mode for --unix-socket-mode"@,
            CliError::MissingCommand => "command or URL is required"@,
            CliError::UnsupportedTransport(t) => "unsupported transport type: "@ + t,
        }
    }
}

impl CliError {
    /// The error as it is shown to a user.
    pub fn message(&self) -> (r: String)
        ensures
            r@ == self@.text(),
    {
        match self {
            CliError::InvalidMode => "invalid octal mode for --unix-socket-mode".to_string(),
            CliError::MissingCommand => "command or URL is required".to_string(),
            CliError::UnsupportedTransport(t) => "unsupported transport type: ".to_string().concat(
                t.as_str(),
            ),
        }
    }
}

// ---------------------------------------------------------------- permissions

/// Whether a character is an octal digit.
pub open spec fn is_octal_digit(c: char) -> bool {
    '0' <= c && c <= '7'
}

/// The number that octal digits write.
pub open spec fn octal_value(digits: Seq<char>) -> nat
    decreases digits.len(),
{
    if digits.len() == 0 {
        0
    } else {
        (octal_value(digits.drop_last()) * 8 + (digits.last() as int - '0' as int)) as nat
    }
}

/// Whether all characters are octal digits.
pub open spec fn all_octal(digits: Seq<char>) -> bool {
    forall|i: int| 0 <= i < digits.len() ==> is_octal_digit(#[trigger] digits[i])
}

/// The number that octal digits write, where there are any and it has 32 bits.
pub open spec fn octal_digits(digits: Seq<char>) -> Option<u32> {
    if digits.len() > 0 && all_octal(digits) && octal_value(digits) <= u32::MAX {
        Some(octal_value(digits) as u32)
    } else {
        None
    }
}

/// The number that an octal numeral, which may begin with a plus sign, writes, where
/// it has 32 bits.
pub open spec fn octal_number(numeral: Seq<char>) -> Option<u32> {
    if numeral.len() > 0 && numeral.first() == '+' {
        octal_digits(numeral.drop_first())
    } else {
        octal_digits(numeral)
    }
}

/// The permissions that a text gives: an octal number, with or without `0o` before it.
pub open spec fn mode_in(text: Seq<char>) -> Option<u32> {
    octal_number(without_prefixes(text, "0o"@))
}

/// More digits do not write a smaller number.
proof fn lemma_value_grows(digits: Seq<char>, n: int)
    requires
        0 <= n <= digits.len(),
        forall|i: int| n <= i < digits.len() ==> is_octal_digit(#[trigger] digits[i]),
    ensures
        octal_value(digits.take(n)) <= octal_value(digits),
    decreases digits.len(),
{
    if n < digits.len() {
        lemma_value_grows(digits.drop_last(), n);
        assert(digits.drop_last().take(n) =~= digits.take(n));
        assert(is_octal_digit(digits[digits.len() - 1]));
    } else {
        assert(digits.take(n) =~= digits);
    }
}

/// The number that the octal digits `v[start..]` write.
fn parse_digits(v: &Vec<char>, start: usize) -> (r: Option<u32>)
    requires
        start <= v@.len(),
    ensures
        r == octal_digits(v@.skip(start as int)),
{
    let ghost digits = v@.skip(start as int);
    if start == v.len() {
        return None;
    }
    let mut value: u32 = 0;
    let mut i: usize = start;
    assert(digits.take(0) =~= Seq::empty());
    while i < v.len()
        invariant
            start <= i <= v@.len(),
            start < v@.len(),
            digits == v@.skip(start as int),
            value == octal_value(digits.take(i - start)),
            all_octal(digits.take(i - start)),
        decreases v@.len() - i,
    {
        let c: char = v[i];
        let ghost more = digits.take(i - start + 1);
        assert(digits[i - start] == c);
        assert(more.drop_last() =~= digits.take(i - start));
        assert(more.last() == c);
        if c < '0' || c > '7' {
            assert(!is_octal_digit(digits[i - start]));
            return None;
        }
        let d: u32 = c as u32 - 48;
        assert(octal_value(more) == value * 8 + d);
        if value as u64 * 8 + d as u64 > u32::MAX as u64 {
            proof {
                if all_octal(digits) {
                    lemma_value_grows(digits, i - start + 1);
                }
            }
            return None;
        }
        value = value * 8 + d;
        assert(all_octal(more)) by {
            assert forall|k: int| 0 <= k < more.len() implies is_octal_digit(#[trigger] more[k]) by {
                if k < i - start {
                    assert(digits.take(i - start)[k] == more[k]);
                }
            }
        }
        i = i + 1;
    }
    assert(digits.take(i - start) =~= digits);
    Some(value)
}

/// The number that an octal numeral writes.
fn parse_octal(numeral: &str) -> (r: Option<u32>)
    ensures
        r == octal_number(numeral@),
{
    let v = chars_of(numeral);
    assert(v@.skip(0) =~= v@);
    if v.len() > 0 && v[0] == '+' {
        assert(v@.skip(1) =~= v@.drop_first());
        parse_digits(&v, 1)
    } else {
        parse_digits(&v, 0)
    }
}

/// The permissions that the command line gives for the socket.
pub fn socket_mode(text: &Option<String>) -> (r: Result<Option<u32>, CliError>)
    ensures
        match opt_view(*text) {
            None => r == Ok::<Option<u32>, CliError>(None),
            Some(given) => match mode_in(given) {
                Some(mode) => r == Ok::<Option<u32>, CliError>(Some(mode)),
                None => r == Err::<Option<u32>, CliError>(CliError::InvalidMode),
            },
        },
{
    match text {
        None => Ok(None),
        Some(given) => {
            let numeral: String = trim_prefixes(given.as_str(), "0o");
            match parse_octal(numeral.as_str()) {
                Some(mode) => Ok(Some(mode)),
                None => Err(CliError::InvalidMode),
            }
        },
    }
}

// ---------------------------------------------------------------- pairs

/// Whether each name occurs once.
pub open spec fn distinct_names(pairs: Seq<(Seq<char>, Seq<char>)>) -> bool {
    forall|i: int, j: int|
        0 <= i < j < pairs.len() ==> (#[trigger] pairs[i]).0 != (#[trigger] pairs[j]).0
}

/// Whether a name occurs at a position.
pub open spec fn named_at(pairs: Seq<(Seq<char>, Seq<char>)>, name: Seq<char>, i: int) -> bool {
    0 <= i < pairs.len() && pairs[i].0 == name
}

/// The values under the names of pairs, of which each occurs once.
pub open spec fn entries(pairs: Seq<(Seq<char>, Seq<char>)>) -> Map<Seq<char>, Seq<char>> {
    Map::new(
        |name: Seq<char>| exists|i: int| named_at(pairs, name, i),
        |name: Seq<char>| pairs[choose|i: int| named_at(pairs, name, i)].1,
    )
}

/// A name that occurs has the value beside it.
proof fn lemma_entry(pairs: Seq<(Seq<char>, Seq<char>)>, i: int)
    requires
        distinct_names(pairs),
        0 <= i < pairs.len(),
    ensures
        entries(pairs).contains_key(pairs[i].0),
        entries(pairs)[pairs[i].0] == pairs[i].1,
{
    let name = pairs[i].0;
    assert(named_at(pairs, name, i));
    let j = choose|j: int| named_at(pairs, name, j);
    assert(named_at(pairs, name, j));
}

/// Sets the value under a name.
fn set_pair(pairs: &mut Vec<(String, String)>, name: &String, value: &String)
    requires
        distinct_names(pairs_text(old(pairs)@)),
    ensures
        distinct_names(pairs_text(final(pairs)@)),
        entries(pairs_text(final(pairs)@)) == entries(pairs_text(old(pairs)@)).insert(name@, value@),
{
    let ghost before = pairs_text(pairs@);
    let mut i: usize = 0;
    while i < pairs.len()
        invariant
            before == pairs_text(pairs@),
            before == pairs_text(old(pairs)@),
            distinct_names(before),
            i <= pairs@.len(),
            forall|k: int| 0 <= k < i ==> (#[trigger] before[k]).0 != name@,
        decreases pairs@.len() - i,
    {
        if same_text(pairs[i].0.as_str(), name.as_str()) {
            pairs.set(i, (name.clone(), value.clone()));
            proof {
                let now = pairs_text(pairs@);
                assert(now =~= before.update(i as int, (name@, value@)));
                lemma_replaced(before, i as int, value@);
            }
            return;
        }
        assert(before[i as int].0 != name@);
        i = i + 1;
    }
    pairs.push((name.clone(), value.clone()));
    proof {
        let now = pairs_text(pairs@);
        assert(now =~= before.push((name@, value@)));
        lemma_added(before, name@, value@);
    }
}

/// Another value under a name that occurs.
proof fn lemma_replaced(pairs: Seq<(Seq<char>, Seq<char>)>, at: int, value: Seq<char>)
    requires
        distinct_names(pairs),
        0 <= at < pairs.len(),
    ensures
        distinct_names(pairs.update(at, (pairs[at].0, value))),
        entries(pairs.update(at, (pairs[at].0, value))) == entries(pairs).insert(pairs[at].0, value),
{
    let name = pairs[at].0;
    let now = pairs.update(at, (name, value));
    assert forall|i: int, j: int| 0 <= i < j < now.len() implies (#[trigger] now[i]).0 != (
    #[trigger] now[j]).0 by {
        assert(now[i].0 == pairs[i].0 && now[j].0 == pairs[j].0);
    }
    let a = entries(now);
    let b = entries(pairs).insert(name, value);
    assert forall|key: Seq<char>| a.contains_key(key) <==> #[trigger] b.contains_key(key) by {
        if a.contains_key(key) {
            let i = choose|i: int| named_at(now, key, i);
            assert(named_at(pairs, key, i));
        }
        if b.contains_key(key) {
            if key == name {
                assert(named_at(now, key, at));
            } else {
                let i = choose|i: int| named_at(pairs, key, i);
                assert(named_at(now, key, i));
            }
        }
    }
    assert forall|key: Seq<char>| #[trigger] a.contains_key(key) implies a[key] == b[key] by {
        let i = choose|i: int| named_at(now, key, i);
        lemma_entry(now, i);
        lemma_entry(pairs, i);
    }
    assert(a =~= b);
}

/// A value under a name that did not occur.
proof fn lemma_added(pairs: Seq<(Seq<char>, Seq<char>)>, name: Seq<char>, value: Seq<char>)
    requires
        distinct_names(pairs),
        forall|i: int| 0 <= i < pairs.len() ==> (#[trigger] pairs[i]).0 != name,
    ensures
        distinct_names(pairs.push((name, value))),
        entries(pairs.push((name, value))) == entries(pairs).insert(name, value),
{
    let now = pairs.push((name, value));
    let a = entries(now);
    let b = entries(pairs).insert(name, value);
    assert forall|key: Seq<char>| a.contains_key(key) <==> #[trigger] b.contains_key(key) by {
        if a.contains_key(key) {
            let i = choose|i: int| named_at(now, key, i);
            if i < pairs.len() {
                assert(named_at(pairs, key, i));
            }
        }
        if b.contains_key(key) {
            if key == name {
                assert(named_at(now, key, pairs.len() as int));
            } else {
                let i = choose|i: int| named_at(pairs, key, i);
                assert(named_at(now, key, i));
            }
        }
    }
    assert forall|key: Seq<char>| #[trigger] a.contains_key(key) implies a[key] == b[key] by {
        let i = choose|i: int| named_at(now, key, i);
        lemma_entry(now, i);
        if i < pairs.len() {
            lemma_entry(pairs, i);
        }
    }
    assert(a =~= b);
}

/// A map with the names and values that stand in turn in a list; of two values under
/// one name the later one counts, and a name without a value does not.
pub open spec fn with_pairs(
    map: Map<Seq<char>, Seq<char>>,
    items: Seq<Seq<char>>,
) -> Map<Seq<char>, Seq<char>>
    decreases items.len(),
{
    if items.len() < 2 {
        map
    } else {
        with_pairs(map.insert(items[0], items[1]), items.skip(2))
    }
}

/// Sets the names and values that stand in turn in a list.
pub fn set_pairs(pairs: &mut Vec<(String, String)>, items: &Vec<String>)
    requires
        distinct_names(pairs_text(old(pairs)@)),
    ensures
        distinct_names(pairs_text(final(pairs)@)),
        entries(pairs_text(final(pairs)@)) == with_pairs(
            entries(pairs_text(old(pairs)@)),
            texts(items@),
        ),
{
    let ghost all = texts(items@);
    let ghost whole = with_pairs(entries(pairs_text(pairs@)), all);
    let size: usize = items.len();
    let mut i: usize = 0;
    assert(all.skip(0) =~= all);
    while i < size && 1 < size - i
        invariant
            size == items@.len(),
            all == texts(items@),
            i <= size,
            distinct_names(pairs_text(pairs@)),
            with_pairs(entries(pairs_text(pairs@)), all.skip(i as int)) == whole,
        decreases size - i,
    {
        proof {
            assert(all.skip(i as int).skip(2) =~= all.skip(i + 2));
            assert(all.skip(i as int)[0] == items@[i as int]@);
            assert(all.skip(i as int)[1] == items@[i + 1]@);
        }
        set_pair(pairs, &items[i], &items[i + 1]);
        i = i + 2;
    }
}

/// A map with pairs in it; of two values under one name the later one counts.
pub open spec fn with_all(
    map: Map<Seq<char>, Seq<char>>,
    pairs: Seq<(Seq<char>, Seq<char>)>,
) -> Map<Seq<char>, Seq<char>>
    decreases pairs.len(),
{
    if pairs.len() == 0 {
        map
    } else {
        with_all(map, pairs.drop_last()).insert(pairs.last().0, pairs.last().1)
    }
}

/// The pairs, each name once.
fn distinct_pairs(given: &Vec<(String, String)>) -> (r: Vec<(String, String)>)
    ensures
        distinct_names(pairs_text(r@)),
        entries(pairs_text(r@)) == with_all(Map::empty(), pairs_text(given@)),
{
    let ghost all = pairs_text(given@);
    let mut pairs: Vec<(String, String)> = Vec::new();
    proof {
        assert(pairs_text(pairs@) =~= Seq::empty());
        assert(all.take(0) =~= Seq::empty());
        lemma_no_entries();
    }
    let mut i: usize = 0;
    while i < given.len()
        invariant
            i <= given@.len(),
            all == pairs_text(given@),
            distinct_names(pairs_text(pairs@)),
            entries(pairs_text(pairs@)) == with_all(Map::empty(), all.take(i as int)),
        decreases given@.len() - i,
    {
        assert(all.take(i + 1).drop_last() =~= all.take(i as int));
        set_pair(&mut pairs, &given[i].0, &given[i].1);
        i = i + 1;
    }
    assert(all.take(i as int) =~= all);
    pairs
}

/// Nothing is named by no pairs.
proof fn lemma_no_entries()
    ensures
        distinct_names(Seq::empty()),
        entries(Seq::empty()) == Map::<Seq<char>, Seq<char>>::empty(),
{
    let none = Seq::<(Seq<char>, Seq<char>)>::empty();
    assert forall|name: Seq<char>| !(#[trigger] entries(none).contains_key(name)) by {
        if entries(none).contains_key(name) {
            let i = choose|i: int| named_at(none, name, i);
        }
    }
    assert(entries(none) =~= Map::empty());
}

/// The headers that stand on the command line, each name once.
fn header_pairs(items: &Vec<String>) -> (r: Vec<(String, String)>)
    ensures
        distinct_names(pairs_text(r@)),
        entries(pairs_text(r@)) == with_pairs(Map::empty(), texts(items@)),
{
    let mut pairs: Vec<(String, String)> = Vec::new();
    proof {
        assert(pairs_text(pairs@) =~= Seq::empty());
        lemma_no_entries();
    }
    set_pairs(&mut pairs, items);
    pairs
}

// ---------------------------------------------------------------- transports

/// How messages are carried.
#[derive(Debug, Clone, Copy, PartialEq, Eq, Structural)]
pub enum Transport {
    Sse,
    StreamableHttp,
}

/// The transport of a name.
pub open spec fn transport_named(name: Seq<char>) -> Option<Transport> {
    if name == "sse"@ {
        Some(Transport::Sse)
    } else if name == "streamable-http"@ {
        Some(Transport::StreamableHttp)
    } else {
        None
    }
}

/// The transport of a client of the server at `url`: the one that is asked for, or
/// the one that the URL suggests.
pub open spec fn client_transport_of(name: Seq<char>, url: Seq<char>) -> Option<Transport> {
    if name == "auto"@ {
        if contains_text(url, "/sse"@) {
            Some(Transport::Sse)
        } else {
            Some(Transport::StreamableHttp)
        }
    } else {
        transport_named(name)
    }
}

/// The transport of a server: the one that is asked for, or SSE.
pub open spec fn server_transport_of(name: Seq<char>) -> Option<Transport> {
    if name == "auto"@ {
        Some(Transport::Sse)
    } else {
        transport_named(name)
    }
}

fn named_transport(name: &str) -> (r: Option<Transport>)
    ensures
        r == transport_named(name@),
{
    if same_text(name, "sse") {
        Some(Transport::Sse)
    } else if same_text(name, "streamable-http") {
        Some(Transport::StreamableHttp)
    } else {
        None
    }
}

/// The transport of a client of the server at `url`.
pub fn client_transport(name: &str, url: &str) -> (r: Option<Transport>)
    ensures
        r == client_transport_of(name@, url@),
{
    if same_text(name, "auto") {
        if has_text(url, "/sse") {
            Some(Transport::Sse)
        } else {
            Some(Transport::StreamableHttp)
        }
    } else {
        named_transport(name)
    }
}

/// The transport of a server.
pub fn server_transport(name: &str) -> (r: Option<Transport>)
    ensures
        r == server_transport_of(name@),
{
    if same_text(name, "auto") {
        Some(Transport::Sse)
    } else {
        named_transport(name)
    }
}

// ---------------------------------------------------------------- the plan

/// What stands on the command line.
#[derive(Debug)]
pub struct Arguments {
    pub command_or_url: Option<String>,
    pub headers: Vec<String>,
    pub args: Vec<String>,
    pub env_vars: Vec<String>,
    pub pass_environment: bool,
    pub sse_port: u16,
    pub sse_host: String,
    pub transport: String,
    pub unix_socket_mode: Option<String>,
}

/// What stands on the command line, as texts.
pub struct ArgumentTexts {
    pub command_or_url: Option<Seq<char>>,
    pub headers: Seq<Seq<char>>,
    pub args: Seq<Seq<char>>,
    pub env_vars: Seq<Seq<char>>,
    pub pass_environment: bool,
    pub sse_port: u16,
    pub sse_host: Seq<char>,
    pub transport: Seq<char>,
    pub unix_socket_mode: Option<Seq<char>>,
}

impl View for Arguments {
    type V = ArgumentTexts;

    open spec fn view(&self) -> ArgumentTexts {
        ArgumentTexts {
            command_or_url: opt_view(self.command_or_url),
            headers: texts(self.headers@),
            args: texts(self.args@),
            env_vars: texts(self.env_vars@),
            pass_environment: self.pass_environment,
            sse_port: self.sse_port,
            sse_host: self.sse_host@,
            transport: self.transport@,
            unix_socket_mode: opt_view(self.unix_socket_mode),
        }
    }
}

/// A server that is to be run, as far as the command line tells.
#[derive(Debug)]
pub struct ServerPlan {
    pub command: String,
    pub args: Vec<String>,
    pub env_vars: Vec<String>,
    /// Whether the command gets the environment of the proxy.
    pub pass_environment: bool,
    pub transport: String,
    /// The host and the port at which the server listens.
    pub bind_addr: String,
    pub unix_socket_mode: Option<u32>,
}

/// A server that is to be run, as texts.
pub struct ServerPlanTexts {
    pub command: Seq<char>,
    pub args: Seq<Seq<char>>,
    pub env_vars: Seq<Seq<char>>,
    pub pass_environment: bool,
    pub transport: Seq<char>,
    pub bind_addr: Seq<char>,
    pub unix_socket_mode: Option<u32>,
}

impl View for ServerPlan {
    type V = ServerPlanTexts;

    open spec fn view(&self) -> ServerPlanTexts {
        ServerPlanTexts {
            command: self.command@,
            args: texts(self.args@),
            env_vars: texts(self.env_vars@),
            pass_environment: self.pass_environment,
            transport: self.transport@,
            bind_addr: self.bind_addr@,
            unix_socket_mode: self.unix_socket_mode,
        }
    }
}

/// What the command line asks for.
#[derive(Debug)]
pub enum Plan {
    SseClient(SseClientConfig),
    StreamableHttpClient(StreamableHttpClientConfig),
    /// Delete the directory of the proxy's files.
    Reset,
    Server(ServerPlan),
}

/// What the command line asks for, as texts. Headers are given by their names.
pub enum PlanTexts {
    Client { transport: Transport, url: Seq<char>, headers: Map<Seq<char>, Seq<char>> },
    Reset,
    Server(ServerPlanTexts),
}

impl View for Plan {
    type V = PlanTexts;

    open spec fn view(&self) -> PlanTexts {
        match *self {
            Plan::SseClient(config) => PlanTexts::Client {
                transport: Transport::Sse,
                url: config.url@,
                headers: entries(pairs_text(config.headers@)),
            },
            Plan::StreamableHttpClient(config) => PlanTexts::Client {
                transport: Transport::StreamableHttp,
                url: config.url@,
                headers: entries(pairs_text(config.headers@)),
            },
            Plan::Reset => PlanTexts::Reset,
            Plan::Server(plan) => PlanTexts::Server(plan@),
        }
    }
}

impl Plan {
    /// Whether each header of a client is given once.
    pub open spec fn wf(self) -> bool {
        match self {
            Plan::SseClient(config) => distinct_names(pairs_text(config.headers@)),
            Plan::StreamableHttpClient(config) => distinct_names(pairs_text(config.headers@)),
            _ => true,
        }
    }
}

/// Whether a command or URL is a URL.
pub open spec fn is_url(target: Seq<char>) -> bool {
    "http://"@.is_prefix_of(target) || "https://"@.is_prefix_of(target)
}

/// The address that a host and a port give.
pub open spec fn address(host: Seq<char>, port: u16) -> Seq<char> {
    host + ":"@ + decimal_text(port as nat)
}

impl ArgumentTexts {
    /// The command or URL, and the arguments that are left for the command: where none
    /// is named, it is the first argument.
    pub open spec fn target(self) -> Option<(Seq<char>, Seq<Seq<char>>)> {
        match self.command_or_url {
            Some(target) => Some((target, self.args)),
            None => if self.args.len() == 0 {
                None
            } else {
                Some((self.args.first(), self.args.drop_first()))
            },
        }
    }

    /// The permissions of the socket, or why there are none.
    pub open spec fn mode(self) -> Result<Option<u32>, CliError<Seq<char>>> {
        match self.unix_socket_mode {
            None => Ok(None),
            Some(text) => match mode_in(text) {
                Some(mode) => Ok(Some(mode)),
                None => Err(CliError::InvalidMode),
            },
        }
    }

    /// What the command line asks for, or why that cannot be run.
    pub open spec fn planned(self) -> Result<PlanTexts, CliError<Seq<char>>> {
        match self.mode() {
            Err(e) => Err(e),
            Ok(unix_socket_mode) => match self.target() {
                None => Err(CliError::MissingCommand),
                Some((target, args)) => if is_url(target) {
                    match client_transport_of(self.transport, target) {
                        Some(transport) => Ok(
                            PlanTexts::Client {
                                transport,
                                url: target,
                                headers: with_pairs(Map::empty(), self.headers),
                            },
                        ),
                        None => Err(CliError::UnsupportedTransport(self.transport)),
                    }
                } else if target == "reset"@ {
                    Ok(PlanTexts::Reset)
                } else {
                    Ok(
                        PlanTexts::Server(
                            ServerPlanTexts {
                                command: target,
                                args,
                                env_vars: self.env_vars,
                                pass_environment: self.pass_environment,
                                transport: self.transport,
                                bind_addr: address(self.sse_host, self.sse_port),
                                unix_socket_mode,
                            },
                        ),
                    )
                },
            },
        }
    }
}

/// The command or URL, taken from the arguments where none is named.
fn take_target(command_or_url: Option<String>, args: &mut Vec<String>) -> (r: Option<String>)
    ensures
        match opt_view(command_or_url) {
            Some(target) => opt_view(r) == Some(target) && final(args)@ == old(args)@,
            None => if old(args)@.len() == 0 {
                r is None && final(args)@ == old(args)@
            } else {
                opt_view(r) == Some(old(args)@.first()@) && final(args)@ == old(args)@.drop_first()
            },
        },
{
    match command_or_url {
        Some(target) => Some(target),
        None => {
            if args.len() == 0 {
                None
            } else {
                let target: String = args.remove(0);
                assert(args@ =~= old(args)@.drop_first());
                Some(target)
            }
        },
    }
}

/// What the command line asks for, or why that cannot be run.
pub fn plan(arguments: Arguments) -> (r: Result<Plan, CliError>)
    ensures
        match arguments@.planned() {
            Ok(planned) => r matches Ok(plan) && plan@ == planned && plan.wf(),
            Err(e) => r matches Err(given) && given@ == e,
        },
{
    let unix_socket_mode: Option<u32> = match socket_mode(&arguments.unix_socket_mode) {
        Ok(mode) => mode,
        Err(e) => {
            return Err(e);
        },
    };
    let mut args: Vec<String> = arguments.args;
    let ghost given = args@;
    let target: String = match take_target(arguments.command_or_url, &mut args) {
        Some(target) => target,
        None => {
            return Err(CliError::MissingCommand);
        },
    };
    proof {
        if opt_view(arguments.command_or_url) is None {
            assert(texts(args@) =~= texts(given).drop_first());
        }
    }
    if has_prefix(target.as_str(), "http://") || has_prefix(target.as_str(), "https://") {
        let headers: Vec<(String, String)> = header_pairs(&arguments.headers);
        match client_transport(arguments.transport.as_str(), target.as_str()) {
            Some(Transport::Sse) => Ok(Plan::SseClient(SseClientConfig { url: target, headers })),
            Some(Transport::StreamableHttp) => Ok(
                Plan::StreamableHttpClient(StreamableHttpClientConfig { url: target, headers }),
            ),
            None => Err(CliError::UnsupportedTransport(arguments.transport)),
        }
    } else if same_text(target.as_str(), "reset") {
        Ok(Plan::Reset)
    } else {
        let bind_addr: String = arguments.sse_host.concat(":").concat(
            decimal(arguments.sse_port as u64).as_str(),
        );
        Ok(
            Plan::Server(
                ServerPlan {
                    command: target,
                    args,
                    env_vars: arguments.env_vars,
                    pass_environment: arguments.pass_environment,
                    transport: arguments.transport,
                    bind_addr,
                    unix_socket_mode,
                },
            ),
        )
    }
}

/// The environment of the command of a server: that of the proxy, if it is passed on,
/// with the variables of the command line.
pub open spec fn server_env(
    plan: ServerPlanTexts,
    inherited: Seq<(Seq<char>, Seq<char>)>,
) -> Map<Seq<char>, Seq<char>> {
    with_pairs(
        if plan.pass_environment {
            with_all(Map::empty(), inherited)
        } else {
            Map::empty()
        },
        plan.env_vars,
    )
}

impl ServerPlan {
    /// The transport of the server and its command, given the environment of the
    /// proxy, which counts only if it is passed on.
    pub fn with_environment(self, inherited: &Vec<(String, String)>) -> (r: Result<
        (Transport, StdioServerParameters),
        CliError,
    >)
        ensures
            match server_transport_of(self@.transport) {
                None => r matches Err(e) && e@ == CliError::UnsupportedTransport(self@.transport),
                Some(transport) => r matches Ok((given, params)) && given == transport
                    && params.command@ == self@.command && texts(params.args@) == self@.args
                    && distinct_names(pairs_text(params.env@)) && entries(pairs_text(params.env@))
                    == server_env(self@, pairs_text(inherited@)),
            },
    {
        let mut env: Vec<(String, String)> = Vec::new();
        if self.pass_environment {
            env = distinct_pairs(inherited);
        } else {
            proof {
                assert(pairs_text(env@) =~= Seq::empty());
                lemma_no_entries();
            }
        }
        set_pairs(&mut env, &self.env_vars);
        match server_transport(self.transport.as_str()) {
            None => Err(CliError::UnsupportedTransport(self.transport)),
            Some(transport) => Ok(
                (transport, StdioServerParameters { command: self.command, args: self.args, env }),
            ),
        }
    }
}

} // verus!
