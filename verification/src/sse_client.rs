//! The client of an SSE server: its endpoints, the messages that it sends and the
//! events that it receives.
use reqwest::header::{HeaderMap, HeaderValue};
use tokio::sync::mpsc::Sender;
use vstd::prelude::*;
use vstd::string::*;
use vstd::utf8::*;

use crate::auth::is_success;
use crate::config::AuthConfig;
use crate::connection::{build_headers, built, connected_view};
use crate::outside::{check_json, print_status, text_from_utf8};
use crate::outside::{header_entries, is_status, json_error, pairs_text};
use crate::outside::{status_text, utf8_error, Handed, HeaderError, MessageChannel, SendOutcome};
use crate::text::{chars_of, is_white_space, is_whitespace, opt_view, result_view, string_of};
use crate::text::{trim_suffixes, without_suffixes};

verus! {

/// Where a client connects, and the headers that it sends with every request: names
/// and values, each name once.
#[derive(Debug)]
pub struct SseClientConfig {
    pub url: String,
    pub headers: Vec<(String, String)>,
}

/// How many messages wait to be sent at most.
pub const SSE_WRITE_CHANNEL_CAPACITY: usize = 256;

// ---------------------------------------------------------------- messages in a text

/// A text without the white space at its start.
pub open spec fn trim_start(text: Seq<char>) -> Seq<char>
    decreases text.len(),
{
    if text.len() > 0 && is_white_space(text.first()) {
        trim_start(text.drop_first())
    } else {
        text
    }
}

/// A text without the white space at its end.
pub open spec fn trim_end(text: Seq<char>) -> Seq<char>
    decreases text.len(),
{
    if text.len() > 0 && is_white_space(text.last()) {
        trim_end(text.drop_last())
    } else {
        text
    }
}

/// A text without the white space at its start and at its end.
pub open spec fn trimmed(text: Seq<char>) -> Seq<char> {
    trim_end(trim_start(text))
}

/// What stands between the line breaks of a text, and before the first and behind
/// the last.
pub open spec fn pieces(text: Seq<char>) -> Seq<Seq<char>>
    decreases text.len(),
{
    if text.len() == 0 {
        seq![Seq::empty()]
    } else {
        let before = pieces(text.drop_last());
        if text.last() == '\n' {
            before.push(Seq::empty())
        } else {
            before.drop_last().push(before.last().push(text.last()))
        }
    }
}

/// The pieces without the white space around them, as far as anything is left.
pub open spec fn non_blank(pieces: Seq<Seq<char>>) -> Seq<Seq<char>>
    decreases pieces.len(),
{
    if pieces.len() == 0 {
        Seq::empty()
    } else {
        let before = non_blank(pieces.drop_last());
        let last = trimmed(pieces.last());
        if last.len() == 0 {
            before
        } else {
            before.push(last)
        }
    }
}

/// The messages in a text: its lines without the white space around them, as far as
/// anything is left.
pub open spec fn messages(text: Seq<char>) -> Seq<Seq<char>> {
    non_blank(pieces(text))
}

/// The texts that strings hold.
pub open spec fn texts(strings: Seq<String>) -> Seq<Seq<char>> {
    strings.map_values(|s: String| s@)
}

/// The bounds of `v[from..to]` without the white space around it.
fn trim_bounds(v: &Vec<char>, from: usize, to: usize) -> (r: (usize, usize))
    requires
        from <= to <= v@.len(),
    ensures
        from <= r.0 <= r.1 <= to,
        v@.subrange(r.0 as int, r.1 as int) == trimmed(v@.subrange(from as int, to as int)),
{
    let ghost all = v@.subrange(from as int, to as int);
    let mut a: usize = from;
    while a < to && is_whitespace(v[a])
        invariant
            from <= a <= to <= v@.len(),
            trim_start(v@.subrange(a as int, to as int)) == trim_start(all),
        decreases to - a,
    {
        assert(v@.subrange(a as int, to as int).drop_first() =~= v@.subrange(a + 1, to as int));
        a = a + 1;
    }
    let ghost middle = v@.subrange(a as int, to as int);
    assert(trim_start(all) == middle);
    let mut b: usize = to;
    while a < b && is_whitespace(v[b - 1])
        invariant
            from <= a <= b <= to <= v@.len(),
            trim_end(v@.subrange(a as int, b as int)) == trim_end(middle),
        decreases b - a,
    {
        assert(v@.subrange(a as int, b as int).drop_last() =~= v@.subrange(a as int, b - 1));
        b = b - 1;
    }
    (a, b)
}

/// Adds the message in `v[from..to]`, if there is one.
fn add_message(found: &mut Vec<String>, v: &Vec<char>, from: usize, to: usize)
    requires
        from <= to <= v@.len(),
    ensures
        texts(final(found)@) == {
            let message = trimmed(v@.subrange(from as int, to as int));
            if message.len() == 0 {
                texts(old(found)@)
            } else {
                texts(old(found)@).push(message)
            }
        },
{
    let (a, b) = trim_bounds(v, from, to);
    if a < b {
        let ghost before = found@;
        found.push(string_of(v, a, b));
        assert(texts(found@) =~= texts(before).push(v@.subrange(a as int, b as int)));
    }
}

/// The messages in a text.
pub fn messages_in(text: &str) -> (r: Vec<String>)
    ensures
        texts(r@) == messages(text@),
{
    let v = chars_of(text);
    let mut found: Vec<String> = Vec::new();
    let mut from: usize = 0;
    let mut i: usize = 0;
    let ghost mut complete: Seq<Seq<char>> = Seq::empty();
    assert(v@.take(0) =~= Seq::empty());
    assert(pieces(v@.take(0)) =~= complete.push(v@.subrange(0, 0)));
    assert(texts(found@) =~= non_blank(complete));
    while i < v.len()
        invariant
            v@ == text@,
            from <= i <= v@.len(),
            pieces(v@.take(i as int)) == complete.push(v@.subrange(from as int, i as int)),
            texts(found@) == non_blank(complete),
        decreases v@.len() - i,
    {
        let ghost piece = v@.subrange(from as int, i as int);
        proof {
            assert(v@.take(i + 1).drop_last() =~= v@.take(i as int));
            assert(complete.push(piece).drop_last() =~= complete);
        }
        if v[i] == '\n' {
            add_message(&mut found, &v, from, i);
            proof {
                assert(pieces(v@.take(i + 1)) == complete.push(piece).push(Seq::empty()));
                complete = complete.push(piece);
                assert(v@.subrange(i + 1, i + 1) =~= Seq::empty());
            }
            from = i + 1;
        } else {
            assert(v@.subrange(from as int, i + 1) =~= piece.push(v@[i as int]));
        }
        i = i + 1;
    }
    assert(v@.take(i as int) =~= v@);
    let ghost piece = v@.subrange(from as int, i as int);
    assert(complete.push(piece).drop_last() =~= complete);
    add_message(&mut found, &v, from, i);
    found
}

// ---------------------------------------------------------------- writing

/// Why bytes could not be written.
#[derive(Debug)]
pub enum WriteError<S = String> {
    /// They are no text, or a message in them is no JSON.
    InvalidData(S),
    /// Nobody sends the messages any more.
    BrokenPipe(S),
}

impl View for WriteError {
    type V = WriteError<Seq<char>>;

    open spec fn view(&self) -> WriteError<Seq<char>> {
        match *self {
            WriteError::InvalidData(m) => WriteError::InvalidData(m@),
            WriteError::BrokenPipe(m) => WriteError::BrokenPipe(m@),
        }
    }
}

/// The messages in bytes, or why there are none.
pub open spec fn messages_of(bytes: Seq<u8>) -> Result<Seq<Seq<char>>, WriteError<Seq<char>>> {
    if valid_utf8(bytes) {
        Ok(messages(decode_utf8(bytes)))
    } else {
        Err(WriteError::InvalidData(utf8_error(bytes)))
    }
}

/// The messages in bytes.
pub fn read_messages(bytes: &[u8]) -> (r: Result<Vec<String>, WriteError>)
    ensures
        match messages_of(bytes@) {
            Ok(found) => r matches Ok(given) && texts(given@) == found,
            Err(e) => r matches Err(given) && given@ == e,
        },
{
    match text_from_utf8(bytes) {
        Ok(text) => {
            proof {
                encode_utf8_decode_utf8(text@);
            }
            Ok(messages_in(text))
        },
        Err(m) => Err(WriteError::InvalidData(m)),
    }
}

/// Why a message is not sent.
pub open spec fn message_error(message: Seq<char>) -> Option<WriteError<Seq<char>>> {
    match json_error(message) {
        Some(m) => Some(WriteError::InvalidData(m)),
        None => None,
    }
}

/// Tells why a message is not sent.
pub fn check_message(message: &str) -> (r: Option<WriteError>)
    ensures
        opt_view(r) == message_error(message@),
{
    match check_json(message) {
        Ok(_) => None,
        Err(m) => Some(WriteError::InvalidData(m)),
    }
}

/// What an outcome means for who writes: a message that found no room is dropped.
pub open spec fn send_error(outcome: SendOutcome) -> Option<WriteError<Seq<char>>> {
    match outcome {
        SendOutcome::Closed => Some(WriteError::BrokenPipe("send channel closed"@)),
        _ => None,
    }
}

/// Tells what an outcome means for who writes.
pub fn check_outcome(outcome: SendOutcome) -> (r: Option<WriteError>)
    ensures
        opt_view(r) == send_error(outcome),
{
    match outcome {
        SendOutcome::Closed => Some(WriteError::BrokenPipe("send channel closed".to_string())),
        _ => None,
    }
}

/// Whether, of these messages, exactly those in `handed` were handed to the channel,
/// in order, and the writing ended with `r`.
pub open spec fn handed_on(
    messages: Seq<Seq<char>>,
    handed: Seq<Handed>,
    size: nat,
    r: Result<usize, WriteError<Seq<char>>>,
) -> bool
    decreases messages.len(),
{
    if messages.len() == 0 {
        handed.len() == 0 && r == Ok::<usize, WriteError<Seq<char>>>(size as usize)
    } else {
        match message_error(messages.first()) {
            Some(e) => handed.len() == 0 && r == Err::<usize, WriteError<Seq<char>>>(e),
            None => handed.len() > 0 && handed.first().0 == messages.first() && match send_error(
                handed.first().1,
            ) {
                Some(e) => handed.len() == 1 && r == Err::<usize, WriteError<Seq<char>>>(e),
                None => handed_on(messages.drop_first(), handed.drop_first(), size, r),
            },
        }
    }
}

/// Whether writing `bytes` hands exactly `handed` to the channel, in order, and ends
/// with `r`.
pub open spec fn written(
    bytes: Seq<u8>,
    handed: Seq<Handed>,
    r: Result<usize, WriteError<Seq<char>>>,
) -> bool {
    match messages_of(bytes) {
        Ok(messages) => handed_on(messages, handed, bytes.len(), r),
        Err(e) => handed.len() == 0 && r == Err::<usize, WriteError<Seq<char>>>(e),
    }
}

/// How many messages found no room in the channel.
pub open spec fn without_room(handed: Seq<Handed>) -> nat
    decreases handed.len(),
{
    if handed.len() == 0 {
        0
    } else {
        without_room(handed.drop_last()) + if handed.last().1 == SendOutcome::Full {
            1nat
        } else {
            0nat
        }
    }
}

/// Writes messages to the channel from which they are sent.
pub struct SseWriter {
    pub channel: MessageChannel,
    /// How many messages of the last write found no room in the channel, and were dropped.
    pub dropped: usize,
}

impl SseWriter {
    /// A writer that hands its messages to this channel.
    pub fn new(tx: Sender<String>) -> (r: Self)
        ensures
            r.channel.sender() == tx,
            r.channel.log() == Seq::<Handed>::empty(),
            r.dropped == 0,
    {
        SseWriter { channel: MessageChannel::new(tx), dropped: 0 }
    }

    /// Hands the messages in `bytes` to the channel, in order and as they are, up to the
    /// first that is no JSON or that nobody can receive any more; else tells that all of
    /// `bytes` was written. Whether the channel has room for a message depends on what was
    /// taken from it until then; the messages that find none are counted.
    pub fn poll_write(&mut self, bytes: &[u8]) -> (r: Result<usize, WriteError>)
        ensures
            final(self).channel.sender() == old(self).channel.sender(),
            old(self).channel.log().is_prefix_of(final(self).channel.log()),
            written(
                bytes@,
                final(self).channel.log().skip(old(self).channel.log().len() as int),
                result_view(r),
            ),
            final(self).dropped == without_room(
                final(self).channel.log().skip(old(self).channel.log().len() as int),
            ),
    {
        self.dropped = 0;
        let ghost start = self.channel.log();
        let ghost mut handed: Seq<Handed> = Seq::empty();
        let size: usize = bytes.len();
        assert(start.skip(start.len() as int) =~= Seq::empty());
        let found: Vec<String> = match read_messages(bytes) {
            Ok(found) => found,
            Err(e) => {
                return Err(e);
            },
        };
        let ghost all = texts(found@);
        let mut i: usize = 0;
        proof {
            assert(all.skip(0) =~= all);
            assert forall|rest: Seq<Handed>, end: Result<usize, WriteError<Seq<char>>>|
                #[trigger] handed_on(all.skip(0), rest, size as nat, end) implies handed_on(
                all,
                handed + rest,
                size as nat,
                end,
            ) by {
                assert(handed + rest =~= rest);
            }
            assert(self.channel.log() =~= start + handed);
        }
        while i < found.len()
            invariant
                all == texts(found@),
                size == bytes@.len(),
                messages_of(bytes@) == Ok::<Seq<Seq<char>>, WriteError<Seq<char>>>(all),
                i <= found@.len(),
                self.channel.sender() == old(self).channel.sender(),
                start == old(self).channel.log(),
                self.channel.log() == start + handed,
                self.dropped == without_room(handed),
                self.dropped <= i,
                forall|rest: Seq<Handed>, end: Result<usize, WriteError<Seq<char>>>|
                    #[trigger] handed_on(all.skip(i as int), rest, size as nat, end) ==> handed_on(
                        all,
                        handed + rest,
                        size as nat,
                        end,
                    ),
            decreases found@.len() - i,
        {
            let ghost message = all[i as int];
            let ghost left = all.skip(i as int);
            proof {
                assert(left.first() == message);
                assert(left.drop_first() =~= all.skip(i + 1));
                assert((start + handed).skip(start.len() as int) =~= handed);
                assert(handed + Seq::<Handed>::empty() =~= handed);
            }
            match check_message(found[i].as_str()) {
                Some(e) => {
                    assert(handed_on(left, Seq::empty(), size as nat, Err(e@)));
                    return Err(e);
                },
                None => {},
            }
            let outcome: SendOutcome = self.channel.hand_over(found[i].clone());
            let ghost one = seq![(message, outcome)];
            proof {
                assert(handed + one =~= handed.push((message, outcome)));
                assert((start + handed).push((message, outcome)) =~= start + handed.push(
                    (message, outcome),
                ));
                assert((start + handed.push((message, outcome))).skip(start.len() as int)
                    =~= handed.push((message, outcome)));
                assert(handed.push((message, outcome)).drop_last() =~= handed);
            }
            match outcome {
                SendOutcome::Full => {
                    self.dropped = self.dropped + 1;
                },
                _ => {},
            }
            match check_outcome(outcome) {
                Some(e) => {
                    assert(handed_on(left, one, size as nat, Err(e@)));
                    return Err(e);
                },
                None => {},
            }
            proof {
                let more = handed.push((message, outcome));
                assert forall|rest: Seq<Handed>, end: Result<usize, WriteError<Seq<char>>>|
                    #[trigger] handed_on(all.skip(i + 1), rest, size as nat, end) implies handed_on(
                    all,
                    more + rest,
                    size as nat,
                    end,
                ) by {
                    assert((one + rest).drop_first() =~= rest);
                    assert(handed_on(left, one + rest, size as nat, end));
                    assert(handed + (one + rest) =~= more + rest);
                }
                handed = more;
            }
            i = i + 1;
        }
        proof {
            assert(all.skip(i as int) =~= Seq::empty());
            assert(handed_on(all.skip(i as int), Seq::empty(), size as nat, Ok(size)));
            assert(handed + Seq::<Handed>::empty() =~= handed);
            assert((start + handed).skip(start.len() as int) =~= handed);
        }
        Ok(size)
    }
}

// ---------------------------------------------------------------- sending

/// A message on its way to the server. The content type and the authorization are
/// the values of the headers of those names.
#[derive(Debug)]
pub struct MessageRequest<S = String> {
    pub url: S,
    pub content_type: S,
    pub authorization: Option<S>,
    pub body: S,
}

impl View for MessageRequest {
    type V = MessageRequest<Seq<char>>;

    open spec fn view(&self) -> MessageRequest<Seq<char>> {
        MessageRequest {
            url: self.url@,
            content_type: self.content_type@,
            authorization: opt_view(self.authorization),
            body: self.body@,
        }
    }
}

/// The request that sends a message; an empty one is not sent.
pub open spec fn message_request_of(
    message_url: Seq<char>,
    auth_header: Option<Seq<char>>,
    body: Seq<char>,
) -> Option<MessageRequest<Seq<char>>> {
    if body.len() == 0 {
        None
    } else {
        Some(
            MessageRequest {
                url: message_url,
                content_type: "application/json"@,
                authorization: auth_header,
                body,
            },
        )
    }
}

/// The request that posts a message to the server.
pub fn message_request(message_url: &str, auth_header: &Option<String>, body: String) -> (r: Option<
    MessageRequest,
>)
    ensures
        opt_view(r) == message_request_of(message_url@, opt_view(*auth_header), body@),
{
    if body.as_str().unicode_len() == 0 {
        None
    } else {
        Some(
            MessageRequest {
                url: message_url.to_string(),
                content_type: "application/json".to_string(),
                authorization: auth_header.clone(),
                body,
            },
        )
    }
}

/// The bytes that the data of an event gives: one line.
pub fn event_line(data: &str) -> (r: Vec<u8>)
    ensures
        r@ == encode_utf8(data@).push(10),
{
    let bytes: &[u8] = data.as_bytes();
    let mut line: Vec<u8> = Vec::new();
    let mut i: usize = 0;
    while i < bytes.len()
        invariant
            bytes@ == encode_utf8(data@),
            i <= bytes@.len(),
            line@ == bytes@.take(i as int),
        decreases bytes@.len() - i,
    {
        line.push(bytes[i]);
        i = i + 1;
        assert(bytes@.take(i as int) =~= bytes@.take(i - 1).push(bytes@[i - 1]));
    }
    assert(bytes@.take(i as int) =~= bytes@);
    line.push(10);
    line
}

// ---------------------------------------------------------------- running

/// The URL of a server without its endpoint.
pub open spec fn base_url(url: Seq<char>) -> Seq<char> {
    without_suffixes(url, "/sse"@)
}

/// Where the events of a server come from.
pub open spec fn sse_url(url: Seq<char>) -> Seq<char> {
    base_url(url) + "/sse"@
}

/// Where the messages to a server go.
pub open spec fn message_url(url: Seq<char>) -> Seq<char> {
    base_url(url) + "/message"@
}

/// The request that opens the stream of events. All but the URL are the values of the
/// headers of those names.
#[derive(Debug)]
pub struct StreamRequest<S = String> {
    pub url: S,
    pub accept: S,
    pub cache_control: S,
    pub authorization: Option<S>,
}

impl View for StreamRequest {
    type V = StreamRequest<Seq<char>>;

    open spec fn view(&self) -> StreamRequest<Seq<char>> {
        StreamRequest {
            url: self.url@,
            accept: self.accept@,
            cache_control: self.cache_control@,
            authorization: opt_view(self.authorization),
        }
    }
}

/// The request that opens the stream of events of the server at `url`.
pub open spec fn stream_request(url: Seq<char>, auth_header: Option<Seq<char>>) -> StreamRequest<
    Seq<char>,
> {
    StreamRequest {
        url: sse_url(url),
        accept: "text/event-stream"@,
        cache_control: "no-cache"@,
        authorization: auth_header,
    }
}

/// The value of the header that carries a token.
pub open spec fn bearer(token: Seq<char>) -> Seq<char> {
    "Bearer "@ + token
}

/// What is to be done next to run the client.
#[derive(Debug)]
pub enum SseStep<S = String> {
    /// Find out whether the server wants an authentication, and have one.
    Connect { url: S },
    /// Send the request that opens the stream of events.
    Open { request: StreamRequest<S>, message_url: S },
    /// Serve the server on the standard streams; messages go to the URL, with this
    /// value of the header that authorizes them.
    Serve { message_url: S, auth_header: Option<S> },
    Done(Result<(), S>),
}

/// What came of such a step.
#[derive(Debug)]
pub enum SseEvent<S = String> {
    Connected(Result<Option<AuthConfig<S>>, S>),
    Opened(Result<u16, S>),
    Served(Result<(), S>),
}

impl View for SseStep {
    type V = SseStep<Seq<char>>;

    open spec fn view(&self) -> SseStep<Seq<char>> {
        match *self {
            SseStep::Connect { url } => SseStep::Connect { url: url@ },
            SseStep::Open { request, message_url } => SseStep::Open {
                request: request@,
                message_url: message_url@,
            },
            SseStep::Serve { message_url, auth_header } => SseStep::Serve {
                message_url: message_url@,
                auth_header: opt_view(auth_header),
            },
            SseStep::Done(r) => SseStep::Done(result_view(r)),
        }
    }
}

impl View for SseEvent {
    type V = SseEvent<Seq<char>>;

    open spec fn view(&self) -> SseEvent<Seq<char>> {
        match *self {
            SseEvent::Connected(r) => SseEvent::Connected(connected_view(r)),
            SseEvent::Opened(r) => SseEvent::Opened(result_view(r)),
            SseEvent::Served(r) => SseEvent::Served(result_view(r)),
        }
    }
}

impl SseEvent<Seq<char>> {
    /// Whether a status that the event tells of is one.
    pub open spec fn wf(self) -> bool {
        self matches SseEvent::Opened(Ok(code)) ==> is_status(code)
    }
}

/// The step that opens the stream of events of the server at `url`.
pub open spec fn opening(url: Seq<char>, auth_header: Option<Seq<char>>) -> SseStep<Seq<char>> {
    SseStep::Open { request: stream_request(url, auth_header), message_url: message_url(url) }
}

impl SseStep<Seq<char>> {
    /// The step that follows an event.
    pub open spec fn after(self, event: SseEvent<Seq<char>>) -> Self {
        match (self, event) {
            (SseStep::Connect { url }, SseEvent::Connected(connected)) => match connected {
                Err(m) => SseStep::Done(Err(m)),
                Ok(None) => opening(url, None),
                Ok(Some(config)) => match config.access_token {
                    Some(token) => opening(url, Some(bearer(token))),
                    None => SseStep::Done(Err("Access token is empty"@)),
                },
            },
            (SseStep::Open { request, message_url }, SseEvent::Opened(opened)) => match opened {
                Err(m) => SseStep::Done(Err(m)),
                Ok(code) => if is_success(code) {
                    SseStep::Serve { message_url, auth_header: request.authorization }
                } else {
                    SseStep::Done(
                        Err("SSE connection failed with status: "@ + status_text(code)),
                    )
                },
            },
            (SseStep::Serve { message_url, auth_header }, SseEvent::Served(served)) => {
                SseStep::Done(served)
            },
            _ => self,
        }
    }
}

/// The step that opens the stream of events of the server at `url`.
fn open_stream(url: &str, auth_header: Option<String>) -> (r: SseStep)
    ensures
        r@ == opening(url@, opt_view(auth_header)),
{
    let base: String = trim_suffixes(url, "/sse");
    let message_url: String = base.clone().concat("/message");
    SseStep::Open {
        request: StreamRequest {
            url: base.concat("/sse"),
            accept: "text/event-stream".to_string(),
            cache_control: "no-cache".to_string(),
            authorization: auth_header,
        },
        message_url,
    }
}

impl SseStep {
    /// The step that follows an event.
    pub fn next(self, event: SseEvent) -> (r: Self)
        requires
            event@.wf(),
        ensures
            r@ == self@.after(event@),
    {
        match (self, event) {
            (SseStep::Connect { url }, SseEvent::Connected(connected)) => match connected {
                Err(m) => SseStep::Done(Err(m)),
                Ok(None) => open_stream(url.as_str(), None),
                Ok(Some(config)) => match config.access_token {
                    Some(token) => {
                        let auth_header: String = "Bearer ".to_string().concat(token.as_str());
                        open_stream(url.as_str(), Some(auth_header))
                    },
                    None => SseStep::Done(Err("Access token is empty".to_string())),
                },
            },
            (SseStep::Open { request, message_url }, SseEvent::Opened(opened)) => match opened {
                Err(m) => SseStep::Done(Err(m)),
                Ok(code) => {
                    if 200 <= code && code < 300 {
                        SseStep::Serve { message_url, auth_header: request.authorization }
                    } else {
                        SseStep::Done(
                            Err(
                                "SSE connection failed with status: ".to_string().concat(
                                    print_status(code).as_str(),
                                ),
                            ),
                        )
                    }
                },
            },
            (
                SseStep::Serve { message_url: _, auth_header: _ },
                SseEvent::Served(served),
            ) => SseStep::Done(served),
            (step, _) => step,
        }
    }
}

/// Runs the client of an SSE server: the headers of its requests, and its first step.
pub fn run_sse_client(config: &SseClientConfig) -> (r: Result<
    (HeaderMap<HeaderValue>, SseStep),
    HeaderError,
>)
    ensures
        match r {
            Ok((headers, step)) => built(
                pairs_text(config.headers@),
                Ok(header_entries(headers)),
            ) && step@ == (SseStep::Connect { url: config.url@ }),
            Err(e) => built(pairs_text(config.headers@), Err(e@)),
        },
{
    match build_headers(&config.headers) {
        Err(e) => Err(e),
        Ok(headers) => Ok((headers, SseStep::Connect { url: config.url.clone() })),
    }
}

} // verus!
