//! What the lines of a text are, what becomes of them, and what is sent over event streams.
use vstd::prelude::*;
use vstd::string::*;
use vstd::utf8::*;

use crate::config::AuthConfig;
use crate::outside::{json_error, status_text, utf8_error, Handed, SendOutcome};
use crate::sse_client::{handed_on, message_request_of, message_url, messages, messages_of};
use crate::sse_client::{non_blank, opening, pieces, sse_url, trim_end, trim_start, trimmed};
use crate::sse_client::{without_room, written, SseEvent, SseStep, WriteError};
use crate::text::is_white_space;

verus! {

// ---------------------------------------------------------------- white space

/// Whether a text is nothing but white space.
pub open spec fn is_blank(text: Seq<char>) -> bool {
    forall|i: int| 0 <= i < text.len() ==> is_white_space(#[trigger] text[i])
}

/// Whether a text neither begins nor ends with white space.
pub open spec fn is_bare(text: Seq<char>) -> bool {
    text.len() > 0 ==> !is_white_space(text.first()) && !is_white_space(text.last())
}

proof fn lemma_trim_start(before: Seq<char>, rest: Seq<char>)
    requires
        is_blank(before),
        rest.len() > 0 ==> !is_white_space(rest.first()),
    ensures
        trim_start(before + rest) == rest,
    decreases before.len(),
{
    if before.len() == 0 {
        assert(before + rest =~= rest);
    } else {
        assert((before + rest).first() == before[0]);
        assert((before + rest).drop_first() =~= before.drop_first() + rest);
        assert forall|i: int| 0 <= i < before.drop_first().len() implies is_white_space(
            #[trigger] before.drop_first()[i],
        ) by {
            assert(before.drop_first()[i] == before[i + 1]);
        }
        lemma_trim_start(before.drop_first(), rest);
    }
}

proof fn lemma_trim_end(rest: Seq<char>, after: Seq<char>)
    requires
        is_blank(after),
        rest.len() > 0 ==> !is_white_space(rest.last()),
    ensures
        trim_end(rest + after) == rest,
    decreases after.len(),
{
    if after.len() == 0 {
        assert(rest + after =~= rest);
    } else {
        assert((rest + after).last() == after[after.len() - 1]);
        assert((rest + after).drop_last() =~= rest + after.drop_last());
        assert forall|i: int| 0 <= i < after.drop_last().len() implies is_white_space(
            #[trigger] after.drop_last()[i],
        ) by {
            assert(after.drop_last()[i] == after[i]);
        }
        lemma_trim_end(rest, after.drop_last());
    }
}

/// White space goes from both ends of a text, and nothing else does.
pub proof fn white_space_goes_from_both_ends(before: Seq<char>, text: Seq<char>, after: Seq<char>)
    requires
        is_blank(before),
        is_blank(after),
        is_bare(text),
    ensures
        trimmed(before + text + after) == text,
{
    if text.len() == 0 {
        let all = before + text + after;
        assert forall|i: int| 0 <= i < all.len() implies is_white_space(#[trigger] all[i]) by {
            if i < before.len() {
                assert(all[i] == before[i]);
            } else {
                assert(all[i] == after[i - before.len()]);
            }
        }
        assert(all + Seq::<char>::empty() =~= all);
        lemma_trim_start(all, Seq::empty());
        assert(trimmed(all) =~= text);
    } else {
        assert(before + text + after =~= before + (text + after));
        assert((text + after).first() == text.first());
        lemma_trim_start(before, text + after);
        lemma_trim_end(text, after);
    }
}

// ---------------------------------------------------------------- lines

proof fn lemma_pieces(text: Seq<char>)
    ensures
        pieces(text).len() > 0,
    decreases text.len(),
{
    if text.len() > 0 {
        lemma_pieces(text.drop_last());
    }
}

/// A text is cut at its line ends, and nowhere else.
pub proof fn text_is_cut_at_line_ends(a: Seq<char>, b: Seq<char>)
    ensures
        pieces(a.push('\n') + b) == pieces(a) + pieces(b),
        !b.contains('\n') ==> pieces(b) == seq![b],
    decreases b.len(),
{
    let text = a.push('\n') + b;
    if b.len() == 0 {
        assert(text =~= a.push('\n'));
        assert(text.drop_last() =~= a);
        assert(pieces(text) =~= pieces(a) + pieces(b));
        assert(b =~= Seq::empty());
        assert(pieces(b) =~= seq![b]);
    } else {
        let before = b.drop_last();
        text_is_cut_at_line_ends(a, before);
        lemma_pieces(before);
        assert(text.drop_last() =~= a.push('\n') + before);
        assert(text.last() == b.last());
        let (x, y) = (pieces(a), pieces(before));
        if b.last() == '\n' {
            assert(pieces(text) =~= x + pieces(b));
            assert(b[b.len() - 1] == '\n');
            assert(b.contains('\n'));
        } else {
            assert((x + y).drop_last() =~= x + y.drop_last());
            assert((x + y).last() == y.last());
            assert(pieces(text) =~= x + pieces(b));
            if !b.contains('\n') {
                if before.contains('\n') {
                    let i = choose|i: int| 0 <= i < before.len() && before[i] == '\n';
                    assert(b[i] == '\n');
                }
                assert(before.push(b.last()) =~= b);
                assert(pieces(b) =~= seq![b]);
            }
        }
    }
}

proof fn lemma_non_blank(a: Seq<Seq<char>>, b: Seq<Seq<char>>)
    ensures
        non_blank(a + b) == non_blank(a) + non_blank(b),
    decreases b.len(),
{
    if b.len() == 0 {
        assert(a + b =~= a);
        assert(non_blank(a) + non_blank(b) =~= non_blank(a));
    } else {
        lemma_non_blank(a, b.drop_last());
        assert((a + b).drop_last() =~= a + b.drop_last());
        assert((a + b).last() == b.last());
        assert(non_blank(a + b) =~= non_blank(a) + non_blank(b));
    }
}

/// The messages of two texts with a line end between them are those of the first and then those
/// of the second; a text without a line end is one message, without the white space around it,
/// or none, where there is nothing else.
pub proof fn every_line_is_a_message(
    a: Seq<char>,
    b: Seq<char>,
    before: Seq<char>,
    line: Seq<char>,
    after: Seq<char>,
)
    requires
        is_blank(before) && is_blank(after) && is_bare(line),
        !(before + line + after).contains('\n'),
    ensures
        messages(a.push('\n') + b) == messages(a) + messages(b),
        line.len() > 0 ==> messages(before + line + after) == seq![line],
        line.len() == 0 ==> messages(before + line + after) == Seq::<Seq<char>>::empty(),
{
    text_is_cut_at_line_ends(a, b);
    lemma_non_blank(pieces(a), pieces(b));
    let text = before + line + after;
    text_is_cut_at_line_ends(a, text);
    white_space_goes_from_both_ends(before, line, after);
    reveal_with_fuel(non_blank, 2);
    assert(seq![text].drop_last() =~= Seq::empty());
    assert(seq![text].last() == text);
    if line.len() > 0 {
        assert(messages(text) =~= seq![line]);
    }
}

/// Bytes that are a text have its messages; any others are refused.
pub proof fn bytes_are_read_as_text(bytes: Seq<u8>)
    ensures
        valid_utf8(bytes) ==> messages_of(bytes) == Ok::<Seq<Seq<char>>, WriteError<Seq<char>>>(
            messages(decode_utf8(bytes)),
        ),
        !valid_utf8(bytes) ==> messages_of(bytes) == Err::<Seq<Seq<char>>, WriteError<Seq<char>>>(
            WriteError::InvalidData(utf8_error(bytes)),
        ),
{
}

// ---------------------------------------------------------------- handing on

/// Messages are handed on in their order, each as it is, up to the first that is no JSON or that
/// finds the channel closed: that one says what comes of the whole write. If there is none, all
/// bytes were written.
pub proof fn first_failure_ends_the_write(
    lines: Seq<Seq<char>>,
    handed: Seq<Handed>,
    size: nat,
    r: Result<usize, WriteError<Seq<char>>>,
)
    requires
        handed_on(lines, handed, size, r),
        size <= usize::MAX,
    ensures
        handed.len() <= lines.len(),
        forall|i: int|
            0 <= i < handed.len() ==> (#[trigger] handed[i]).0 == lines[i] && json_error(lines[i])
                is None,
        forall|i: int| 0 <= i < handed.len() - 1 ==> (#[trigger] handed[i]).1 != SendOutcome::Closed,
        handed.len() > 0 && handed.last().1 == SendOutcome::Closed ==> r == Err::<
            usize,
            WriteError<Seq<char>>,
        >(WriteError::BrokenPipe("send channel closed"@)),
        !(handed.len() > 0 && handed.last().1 == SendOutcome::Closed) && handed.len() < lines.len()
            ==> json_error(lines[handed.len() as int]) is Some && r == Err::<
            usize,
            WriteError<Seq<char>>,
        >(WriteError::InvalidData(json_error(lines[handed.len() as int])->0)),
        !(handed.len() > 0 && handed.last().1 == SendOutcome::Closed) && handed.len() == lines.len()
            ==> (r matches Ok(n) && n == size),
    decreases lines.len(),
{
    if lines.len() > 0 && json_error(lines.first()) is None && handed.first().1
        != SendOutcome::Closed {
        let (later, rest) = (lines.drop_first(), handed.drop_first());
        first_failure_ends_the_write(later, rest, size, r);
        assert forall|i: int| 0 <= i < handed.len() implies (#[trigger] handed[i]).0 == lines[i]
            && json_error(lines[i]) is None by {
            if i > 0 {
                assert(handed[i] == rest[i - 1] && lines[i] == later[i - 1]);
            }
        }
        assert forall|i: int| 0 <= i < handed.len() - 1 implies (#[trigger] handed[i]).1
            != SendOutcome::Closed by {
            if i > 0 {
                assert(handed[i] == rest[i - 1]);
            }
        }
        if rest.len() > 0 {
            assert(rest.last() == handed.last());
        }
        if handed.len() < lines.len() {
            assert(later[rest.len() as int] == lines[handed.len() as int]);
        }
    }
}

/// A write hands the messages of its bytes on; bytes that are no text hand on nothing.
pub proof fn bytes_are_handed_on(
    bytes: Seq<u8>,
    handed: Seq<Handed>,
    r: Result<usize, WriteError<Seq<char>>>,
)
    requires
        written(bytes, handed, r),
    ensures
        valid_utf8(bytes) ==> handed_on(messages(decode_utf8(bytes)), handed, bytes.len(), r),
        !valid_utf8(bytes) ==> handed.len() == 0 && r == Err::<usize, WriteError<Seq<char>>>(
            WriteError::InvalidData(utf8_error(bytes)),
        ),
{
}

/// Of two runs of messages as many found no room as of each together, and a message counts if and
/// only if the channel was full.
pub proof fn dropped_messages_add_up(a: Seq<Handed>, b: Seq<Handed>, message: Handed)
    ensures
        without_room(a + b) == without_room(a) + without_room(b),
        without_room(seq![message]) == (if message.1 == SendOutcome::Full {
            1nat
        } else {
            0nat
        }),
    decreases b.len(),
{
    reveal_with_fuel(without_room, 2);
    assert(seq![message].drop_last() =~= Seq::empty());
    if b.len() == 0 {
        assert(a + b =~= a);
    } else {
        dropped_messages_add_up(a, b.drop_last(), message);
        assert((a + b).drop_last() =~= a + b.drop_last());
        assert((a + b).last() == b.last());
    }
}

// ---------------------------------------------------------------- requests

/// A message is posted as JSON, whole, to the URL for messages, with the header that authorizes
/// it; an empty one is not posted.
pub proof fn message_is_posted_as_json(
    url: Seq<char>,
    auth_header: Option<Seq<char>>,
    body: Seq<char>,
)
    ensures
        body.len() == 0 <==> message_request_of(url, auth_header, body) is None,
        message_request_of(url, auth_header, body) matches Some(request) ==> request.url == url
            && request.content_type == "application/json"@ && request.authorization == auth_header
            && request.body == body,
{
}

/// A URL that does not end in the path of the events gets that path, and the path of the messages
/// in its place; one that does is the same server.
pub proof fn paths_follow_the_url(url: Seq<char>)
    ensures
        !"/sse"@.is_suffix_of(url) ==> sse_url(url) == url + "/sse"@ && message_url(url) == url
            + "/message"@,
        sse_url(url + "/sse"@) == sse_url(url),
        message_url(url + "/sse"@) == message_url(url),
{
    reveal_strlit("/sse");
    let whole = url + "/sse"@;
    assert(whole.subrange(whole.len() - 4, whole.len() as int) =~= "/sse"@);
    assert(whole.take(whole.len() - 4) =~= url);
}

/// The stream of a server is asked for at the URL of its events, as events that no cache answers.
/// With tokens, their access token authorizes it and the messages; a server that wants none gets
/// none; and tokens without an access token are of no use.
pub proof fn stream_is_opened(url: Seq<char>, config: AuthConfig<Seq<char>>, m: Seq<char>)
    ensures
        ({
            let connect = SseStep::Connect { url };
            let plain = connect.after(SseEvent::Connected(Ok(None)));
            let with_tokens = connect.after(SseEvent::Connected(Ok(Some(config))));
            &&& plain matches SseStep::Open { request, message_url: to } && request.url == sse_url(
                url,
            ) && request.accept == "text/event-stream"@ && request.cache_control == "no-cache"@
                && request.authorization is None && to == message_url(url)
            &&& config.access_token matches Some(token) ==> (with_tokens matches SseStep::Open {
                request,
                message_url: to,
            } && request.url == sse_url(url) && request.accept == "text/event-stream"@
                && request.cache_control == "no-cache"@ && request.authorization == Some(
                "Bearer "@ + token,
            ) && to == message_url(url))
            &&& config.access_token is None ==> with_tokens == SseStep::<Seq<char>>::Done(
                Err("Access token is empty"@),
            )
            &&& connect.after(SseEvent::Connected(Err(m))) == SseStep::<Seq<char>>::Done(Err(m))
        }),
{
}

/// A stream that opens with success is served, with the authorization with which it was opened;
/// one that does not is told of with its status.
pub proof fn opened_stream_is_served(
    url: Seq<char>,
    auth_header: Option<Seq<char>>,
    code: u16,
    m: Seq<char>,
    served: Result<(), Seq<char>>,
)
    ensures
        ({
            let open = opening(url, auth_header);
            let next = open.after(SseEvent::Opened(Ok(code)));
            &&& 200 <= code <= 299 ==> next == (SseStep::<Seq<char>>::Serve {
                message_url: message_url(url),
                auth_header,
            }) && next.after(SseEvent::Served(served)) == SseStep::<Seq<char>>::Done(served)
            &&& !(200 <= code <= 299) ==> next == SseStep::<Seq<char>>::Done(
                Err("SSE connection failed with status: "@ + status_text(code)),
            )
            &&& open.after(SseEvent::Opened(Err(m))) == SseStep::<Seq<char>>::Done(Err(m))
        }),
{
}

/// What happens to a step of a client that the event is not about: nothing.
pub proof fn stream_waits_for_its_answers(step: SseStep<Seq<char>>, event: SseEvent<Seq<char>>)
    ensures
        step.after(event) != step ==> match step {
            SseStep::Connect { .. } => event is Connected,
            SseStep::Open { .. } => event is Opened,
            SseStep::Serve { .. } => event is Served,
            SseStep::Done(_) => false,
        },
{
}

} // verus!
