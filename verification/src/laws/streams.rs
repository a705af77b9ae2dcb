//! What holds of the messages and events of an SSE server.
use vstd::prelude::*;
use vstd::string::*;
use vstd::utf8::*;

use crate::outside::{json_error, Handed, SendOutcome};
use crate::sse_client::{base_url, handed_on, message_error, message_request_of, message_url};
use crate::sse_client::{messages, messages_of, non_blank, pieces, send_error, sse_url};
use crate::sse_client::{trim_end, trim_start, trimmed, without_room, written, WriteError};
use crate::sse_server::{POST_PATH, SSE_PATH};
use crate::text::{is_white_space, without_suffixes};

verus! {

// ---------------------------------------------------------------- endpoints

/// Once the copies of a suffix are gone, none is left.
proof fn lemma_no_suffix_left(text: Seq<char>, suffix: Seq<char>)
    requires
        suffix.len() > 0,
    ensures
        !suffix.is_suffix_of(without_suffixes(text, suffix)),
        without_suffixes(text, suffix).is_prefix_of(text),
    decreases text.len(),
{
    if suffix.is_suffix_of(text) {
        let shorter = text.take(text.len() - suffix.len());
        lemma_no_suffix_left(shorter, suffix);
        let left = without_suffixes(text, suffix);
        assert(text.subrange(0, left.len() as int) =~= shorter.subrange(0, left.len() as int));
    } else {
        assert(text.subrange(0, text.len() as int) =~= text);
    }
}

/// A copy of a suffix at the end goes first.
proof fn lemma_suffix_goes(text: Seq<char>, suffix: Seq<char>)
    requires
        suffix.len() > 0,
    ensures
        without_suffixes(text + suffix, suffix) == without_suffixes(text, suffix),
{
    let whole = text + suffix;
    assert(whole.subrange(whole.len() - suffix.len(), whole.len() as int) =~= suffix);
    assert(whole.take(whole.len() - suffix.len()) =~= text);
}

/// It makes no difference whether the URL of a server is given with its endpoint or
/// without: the events come from the same place, and the messages go to the same place.
pub proof fn endpoint_may_be_left_out(url: Seq<char>)
    ensures
        sse_url(url + "/sse"@) == sse_url(url),
        message_url(url + "/sse"@) == message_url(url),
        sse_url(sse_url(url)) == sse_url(url),
        message_url(sse_url(url)) == message_url(url),
{
    reveal_strlit("/sse");
    lemma_suffix_goes(url, "/sse"@);
    lemma_no_suffix_left(url, "/sse"@);
    lemma_suffix_goes(base_url(url), "/sse"@);
}

/// A client of a URL that does not end in the endpoint asks for the paths that a server
/// offers under that URL.
pub proof fn client_and_server_agree_on_paths(url: Seq<char>)
    requires
        !"/sse"@.is_suffix_of(url),
    ensures
        sse_url(url) == url + SSE_PATH@,
        message_url(url) == url + POST_PATH@,
{
}

// ---------------------------------------------------------------- messages in a text

/// Nothing between line breaks holds one.
proof fn lemma_pieces_have_no_breaks(text: Seq<char>)
    ensures
        pieces(text).len() > 0,
        forall|i: int, j: int|
            0 <= i < pieces(text).len() && 0 <= j < pieces(text)[i].len() ==> #[trigger] pieces(
                text,
            )[i][j] != '\n',
    decreases text.len(),
{
    if text.len() > 0 {
        let before = pieces(text.drop_last());
        lemma_pieces_have_no_breaks(text.drop_last());
        let all = pieces(text);
        assert forall|i: int, j: int| 0 <= i < all.len() && 0 <= j < all[i].len() implies #[trigger]
        all[i][j] != '\n' by {
            if text.last() == '\n' {
                if i < before.len() {
                    assert(all[i] == before[i]);
                    assert(before[i][j] != '\n');
                }
            } else if i < before.len() - 1 {
                assert(all[i] == before[i]);
                assert(before[i][j] != '\n');
            } else {
                assert(all[i] == before.last().push(text.last()));
                if j < before.last().len() {
                    assert(before[before.len() - 1][j] != '\n');
                }
            }
        }
    }
}

/// What is left of a text without the white space around it is a part of it, and neither
/// begins nor ends with white space.
proof fn lemma_trimmed(text: Seq<char>) -> (from: int)
    ensures
        0 <= from <= from + trimmed(text).len() <= text.len(),
        trimmed(text) == text.subrange(from, from + trimmed(text).len()),
        trimmed(text).len() > 0 ==> !is_white_space(trimmed(text).first()) && !is_white_space(
            trimmed(text).last(),
        ),
{
    lemma_trim_start(text);
    lemma_trim_end(trim_start(text));
    let from = text.len() - trim_start(text).len();
    assert(trimmed(text) =~= text.subrange(from, from + trimmed(text).len()));
    from
}

proof fn lemma_trim_start(text: Seq<char>)
    ensures
        trim_start(text).len() <= text.len(),
        trim_start(text) == text.skip(text.len() - trim_start(text).len()),
        trim_start(text).len() > 0 ==> !is_white_space(trim_start(text).first()),
    decreases text.len(),
{
    if text.len() > 0 && is_white_space(text.first()) {
        lemma_trim_start(text.drop_first());
        let n = trim_start(text).len();
        assert(text.drop_first().skip(text.drop_first().len() - n) =~= text.skip(text.len() - n));
    } else {
        assert(text.skip(0) =~= text);
    }
}

proof fn lemma_trim_end(text: Seq<char>)
    ensures
        trim_end(text).len() <= text.len(),
        trim_end(text) == text.take(trim_end(text).len() as int),
        trim_end(text).len() > 0 ==> !is_white_space(trim_end(text).last()),
    decreases text.len(),
{
    if text.len() > 0 && is_white_space(text.last()) {
        lemma_trim_end(text.drop_last());
        let n = trim_end(text).len() as int;
        assert(text.drop_last().take(n) =~= text.take(n));
    } else {
        assert(text.take(text.len() as int) =~= text);
    }
}

/// Whether a text is a message: not empty, one line, without white space around it.
pub open spec fn is_message(text: Seq<char>) -> bool {
    &&& text.len() > 0
    &&& !is_white_space(text.first())
    &&& !is_white_space(text.last())
    &&& forall|j: int| 0 <= j < text.len() ==> #[trigger] text[j] != '\n'
}

proof fn lemma_non_blank(lines: Seq<Seq<char>>)
    requires
        forall|i: int, j: int|
            0 <= i < lines.len() && 0 <= j < lines[i].len() ==> #[trigger] lines[i][j] != '\n',
    ensures
        forall|i: int| 0 <= i < non_blank(lines).len() ==> is_message(#[trigger] non_blank(lines)[i]),
    decreases lines.len(),
{
    if lines.len() > 0 {
        let before = lines.drop_last();
        assert forall|i: int, j: int| 0 <= i < before.len() && 0 <= j < before[i].len() implies
            #[trigger] before[i][j] != '\n' by {
            assert(lines[i][j] != '\n');
        }
        lemma_non_blank(before);
        let last = lines.last();
        let from = lemma_trimmed(last);
        let message = trimmed(last);
        assert forall|j: int| 0 <= j < message.len() implies #[trigger] message[j] != '\n' by {
            assert(message[j] == last[from + j]);
            assert(lines[lines.len() - 1][from + j] != '\n');
        }
        let found = non_blank(lines);
        assert forall|i: int| 0 <= i < found.len() implies is_message(#[trigger] found[i]) by {
            if i < non_blank(before).len() {
                assert(found[i] == non_blank(before)[i]);
            } else {
                assert(found[i] == message);
            }
        }
    }
}

/// The messages in a text are not empty, hold no line break, and have no white space
/// around them.
pub proof fn messages_are_single_lines(text: Seq<char>)
    ensures
        forall|i: int| 0 <= i < messages(text).len() ==> is_message(#[trigger] messages(text)[i]),
{
    lemma_pieces_have_no_breaks(text);
    lemma_non_blank(pieces(text));
}

/// A text that is a message is the one message in it.
pub proof fn a_message_is_its_own(text: Seq<char>)
    requires
        is_message(text),
    ensures
        messages(text) == seq![text],
{
    lemma_one_piece(text);
    assert(pieces(text) =~= seq![text]);
    assert(seq![text].drop_last() =~= Seq::<Seq<char>>::empty());
    assert(non_blank(Seq::empty()) =~= Seq::<Seq<char>>::empty());
    assert(seq![text].last() == text);
    assert(trim_start(text) == text);
    assert(trim_end(text) == text);
    assert(messages(text) =~= seq![text]);
}

proof fn lemma_one_piece(text: Seq<char>)
    requires
        forall|j: int| 0 <= j < text.len() ==> #[trigger] text[j] != '\n',
    ensures
        pieces(text) == seq![text],
    decreases text.len(),
{
    if text.len() > 0 {
        let before = text.drop_last();
        assert forall|j: int| 0 <= j < before.len() implies #[trigger] before[j] != '\n' by {
            assert(text[j] != '\n');
        }
        lemma_one_piece(before);
        assert(before.push(text.last()) =~= text);
        assert(pieces(text) =~= seq![text]);
    } else {
        assert(text =~= Seq::empty());
    }
}

/// The data of an event is passed on as one or more lines that hold the messages in the
/// data and no others.
pub proof fn event_is_passed_on_whole(data: Seq<char>)
    ensures
        valid_utf8(encode_utf8(data).push(10)),
        messages_of(encode_utf8(data).push(10)) == Ok::<Seq<Seq<char>>, WriteError<Seq<char>>>(
            messages(data),
        ),
{
    let line = data.push('\n');
    lemma_encoded_line(data);
    encode_utf8_valid_utf8(line);
    encode_utf8_decode_utf8(line);
    assert(line.drop_last() =~= data);
    let before = pieces(data);
    assert(pieces(line) == before.push(Seq::empty()));
    assert(pieces(line).drop_last() =~= before);
    assert(trimmed(Seq::<char>::empty()) =~= Seq::empty());
}

/// A line break at the end of a text is one more byte at the end of its bytes.
proof fn lemma_encoded_line(data: Seq<char>)
    ensures
        encode_utf8(data.push('\n')) == encode_utf8(data).push(10),
    decreases data.len(),
{
    reveal_with_fuel(encode_utf8, 2);
    let line = data.push('\n');
    if data.len() == 0 {
        assert(line.drop_first() =~= Seq::<char>::empty());
        assert(encode_scalar('\n' as u32) =~= seq![10u8]) by {
            assert(10u32 & 0x7F == 10) by (bit_vector);
        }
        assert(encode_utf8(line) =~= encode_utf8(data).push(10));
    } else {
        lemma_encoded_line(data.drop_first());
        assert(line.drop_first() =~= data.drop_first().push('\n'));
        assert(encode_utf8(line) =~= encode_utf8(data).push(10));
    }
}

// ---------------------------------------------------------------- writing

/// However the channel takes the messages: those that are handed to it are messages of
/// the text, in order and as they are, and every one is JSON. If writing succeeds, all of
/// them were handed over and no channel was closed; a message for which there was no room
/// does not count as a failure.
pub proof fn written_messages_are_json(
    bytes: Seq<u8>,
    handed: Seq<Handed>,
    r: Result<usize, WriteError<Seq<char>>>,
)
    requires
        written(bytes, handed, r),
    ensures
        match messages_of(bytes) {
            Ok(found) => {
                &&& handed.len() <= found.len()
                &&& forall|i: int|
                    0 <= i < handed.len() ==> (#[trigger] handed[i]).0 == found[i] && json_error(
                        handed[i].0,
                    ) is None && is_message(handed[i].0)
                &&& r is Ok ==> handed.len() == found.len() && r->Ok_0 == bytes.len() as usize
                    && forall|i: int|
                    0 <= i < handed.len() ==> (#[trigger] handed[i]).1 != SendOutcome::Closed
            },
            Err(e) => handed.len() == 0 && r == Err::<usize, WriteError<Seq<char>>>(e),
        },
{
    if let Ok(found) = messages_of(bytes) {
        lemma_handed_on(found, handed, bytes.len(), r);
        messages_are_single_lines(decode_utf8(bytes));
    }
}

proof fn lemma_handed_on(
    found: Seq<Seq<char>>,
    handed: Seq<Handed>,
    size: nat,
    r: Result<usize, WriteError<Seq<char>>>,
)
    requires
        handed_on(found, handed, size, r),
    ensures
        handed.len() <= found.len(),
        forall|i: int|
            0 <= i < handed.len() ==> (#[trigger] handed[i]).0 == found[i] && json_error(
                handed[i].0,
            ) is None,
        r is Ok ==> handed.len() == found.len() && r->Ok_0 == size as usize,
        r is Ok ==> forall|i: int|
            0 <= i < handed.len() ==> (#[trigger] handed[i]).1 != SendOutcome::Closed,
    decreases found.len(),
{
    if found.len() > 0 && message_error(found.first()) is None && send_error(handed.first().1)
        is None {
        lemma_handed_on(found.drop_first(), handed.drop_first(), size, r);
        assert forall|i: int| 0 <= i < handed.len() implies (#[trigger] handed[i]).0 == found[i]
            && json_error(handed[i].0) is None && (r is Ok ==> handed[i].1 != SendOutcome::Closed) by {
            if i > 0 {
                assert(handed.drop_first()[i - 1] == handed[i]);
                assert(found.drop_first()[i - 1] == found[i]);
            }
        }
    }
}

/// A message that was handed to the channel makes, when it is taken from there, a request
/// with the message as its body. One that found no room was dropped, and is never taken
/// from there.
pub proof fn handed_messages_make_requests(
    bytes: Seq<u8>,
    handed: Seq<Handed>,
    r: Result<usize, WriteError<Seq<char>>>,
    i: int,
    url: Seq<char>,
    auth_header: Option<Seq<char>>,
)
    requires
        written(bytes, handed, r),
        0 <= i < handed.len(),
    ensures
        message_request_of(url, auth_header, handed[i].0) matches Some(request) && request.body
            == handed[i].0 && request.url == url && request.authorization == auth_header,
{
    written_messages_are_json(bytes, handed, r);
    assert(is_message(handed[i].0));
}

/// Where every message is JSON and the channel is open, writing succeeds.
pub proof fn open_channel_takes_json(
    found: Seq<Seq<char>>,
    handed: Seq<Handed>,
    size: nat,
    r: Result<usize, WriteError<Seq<char>>>,
)
    requires
        handed_on(found, handed, size, r),
        forall|i: int| 0 <= i < found.len() ==> json_error(#[trigger] found[i]) is None,
        forall|i: int| 0 <= i < handed.len() ==> (#[trigger] handed[i]).1 != SendOutcome::Closed,
    ensures
        r == Ok::<usize, WriteError<Seq<char>>>(size as usize),
        handed.len() == found.len(),
    decreases found.len(),
{
    if found.len() > 0 {
        assert(found.first() == found[0]);
        assert(handed.first() == handed[0]);
        let (rest, later) = (found.drop_first(), handed.drop_first());
        assert forall|i: int| 0 <= i < rest.len() implies json_error(#[trigger] rest[i]) is None by {
            assert(rest[i] == found[i + 1]);
        }
        assert forall|i: int| 0 <= i < later.len() implies (#[trigger] later[i]).1
            != SendOutcome::Closed by {
            assert(later[i] == handed[i + 1]);
        }
        open_channel_takes_json(rest, later, size, r);
    }
}

/// The messages that the channel took, in order.
pub open spec fn queued(handed: Seq<Handed>) -> Seq<Seq<char>>
    decreases handed.len(),
{
    if handed.len() == 0 {
        Seq::empty()
    } else {
        let before = queued(handed.drop_last());
        if handed.last().1 == SendOutcome::Sent {
            before.push(handed.last().0)
        } else {
            before
        }
    }
}

/// Whether these are the outcomes of a channel that has so much room and from which nothing
/// is taken meanwhile.
pub open spec fn fills(handed: Seq<Handed>, room: nat) -> bool {
    forall|i: int|
        0 <= i < handed.len() ==> (#[trigger] handed[i]).1 == if i < room {
            SendOutcome::Sent
        } else {
            SendOutcome::Full
        }
}

proof fn lemma_queued(found: Seq<Seq<char>>, handed: Seq<Handed>, room: nat)
    requires
        handed.len() <= found.len(),
        forall|i: int| 0 <= i < handed.len() ==> (#[trigger] handed[i]).0 == found[i],
        fills(handed, room),
    ensures
        queued(handed) == found.take(
            if room <= handed.len() {
                room as int
            } else {
                handed.len() as int
            },
        ),
    decreases handed.len(),
{
    if handed.len() > 0 {
        let before = handed.drop_last();
        assert forall|i: int| 0 <= i < before.len() implies (#[trigger] before[i]).0 == found[i]
            && before[i].1 == (if i < room {
            SendOutcome::Sent
        } else {
            SendOutcome::Full
        }) by {
            assert(before[i] == handed[i]);
        }
        lemma_queued(found, before, room);
        let n = handed.len() as int;
        assert(handed.last() == handed[n - 1]);
        if n <= room {
            assert(found.take(n) =~= found.take(n - 1).push(found[n - 1]));
        }
    } else {
        assert(found.take(0) =~= Seq::<Seq<char>>::empty());
    }
}

/// A message that an open channel is handed is taken or counted as dropped.
proof fn lemma_dropped(handed: Seq<Handed>)
    requires
        forall|i: int| 0 <= i < handed.len() ==> (#[trigger] handed[i]).1 != SendOutcome::Closed,
    ensures
        queued(handed).len() + without_room(handed) == handed.len(),
    decreases handed.len(),
{
    if handed.len() > 0 {
        let before = handed.drop_last();
        assert forall|i: int| 0 <= i < before.len() implies (#[trigger] before[i]).1
            != SendOutcome::Closed by {
            assert(before[i] == handed[i]);
        }
        lemma_dropped(before);
        assert(handed.last() == handed[handed.len() - 1]);
    }
}

/// Where every message is JSON and the channel is open, has so much room and nothing is
/// taken from it meanwhile, it takes the first messages, as many as there is room for, and
/// writing succeeds: the others are dropped without an error, and counted.
pub proof fn full_channel_keeps_the_first_messages(
    bytes: Seq<u8>,
    handed: Seq<Handed>,
    r: Result<usize, WriteError<Seq<char>>>,
    room: nat,
)
    requires
        written(bytes, handed, r),
        messages_of(bytes) is Ok,
        forall|i: int|
            0 <= i < messages_of(bytes)->Ok_0.len() ==> json_error(
                #[trigger] messages_of(bytes)->Ok_0[i],
            ) is None,
        fills(handed, room),
    ensures
        ({
            let found = messages_of(bytes)->Ok_0;
            &&& r == Ok::<usize, WriteError<Seq<char>>>(bytes.len() as usize)
            &&& queued(handed) == found.take(
                if room <= found.len() {
                    room as int
                } else {
                    found.len() as int
                },
            )
            &&& forall|i: int|
                0 <= i < queued(handed).len() ==> is_message(#[trigger] queued(handed)[i])
            &&& queued(handed).len() + without_room(handed) == found.len()
        }),
{
    let found = messages_of(bytes)->Ok_0;
    open_channel_takes_json(found, handed, bytes.len(), r);
    lemma_handed_on(found, handed, bytes.len(), r);
    lemma_queued(found, handed, room);
    lemma_dropped(handed);
    messages_are_single_lines(decode_utf8(bytes));
}

/// Where a message is the first that is no JSON and the channel is open, exactly the
/// messages before it are handed over, and writing fails with the reason.
pub proof fn messages_before_a_bad_one_are_handed_over(
    found: Seq<Seq<char>>,
    handed: Seq<Handed>,
    size: nat,
    r: Result<usize, WriteError<Seq<char>>>,
    bad: int,
)
    requires
        handed_on(found, handed, size, r),
        0 <= bad < found.len(),
        json_error(found[bad]) is Some,
        forall|i: int| 0 <= i < bad ==> json_error(#[trigger] found[i]) is None,
        forall|i: int| 0 <= i < handed.len() ==> (#[trigger] handed[i]).1 != SendOutcome::Closed,
    ensures
        handed.len() == bad,
        forall|i: int| 0 <= i < bad ==> (#[trigger] handed[i]).0 == found[i],
        r == Err::<usize, WriteError<Seq<char>>>(
            WriteError::InvalidData(json_error(found[bad])->0),
        ),
    decreases found.len(),
{
    lemma_handed_on(found, handed, size, r);
    assert(found.first() == found[0]);
    if bad > 0 {
        assert(handed.first() == handed[0]);
        let (rest, later) = (found.drop_first(), handed.drop_first());
        assert(rest[bad - 1] == found[bad]);
        assert forall|i: int| 0 <= i < bad - 1 implies json_error(#[trigger] rest[i]) is None by {
            assert(rest[i] == found[i + 1]);
        }
        assert forall|i: int| 0 <= i < later.len() implies (#[trigger] later[i]).1
            != SendOutcome::Closed by {
            assert(later[i] == handed[i + 1]);
        }
        messages_before_a_bad_one_are_handed_over(rest, later, size, r, bad - 1);
    }
}

/// Where a message is the first that is no JSON and the channel is open, has so much room and
/// nothing is taken from it meanwhile, it takes the messages before that one, as many as there
/// is room for, and none from that one on.
pub proof fn channel_takes_what_is_before_a_bad_message(
    bytes: Seq<u8>,
    handed: Seq<Handed>,
    r: Result<usize, WriteError<Seq<char>>>,
    room: nat,
    bad: int,
)
    requires
        written(bytes, handed, r),
        messages_of(bytes) is Ok,
        0 <= bad < messages_of(bytes)->Ok_0.len(),
        json_error(messages_of(bytes)->Ok_0[bad]) is Some,
        forall|i: int|
            0 <= i < bad ==> json_error(#[trigger] messages_of(bytes)->Ok_0[i]) is None,
        fills(handed, room),
    ensures
        ({
            let found = messages_of(bytes)->Ok_0;
            &&& r == Err::<usize, WriteError<Seq<char>>>(
                WriteError::InvalidData(json_error(found[bad])->0),
            )
            &&& queued(handed) == found.take(
                if room <= bad {
                    room as int
                } else {
                    bad
                },
            )
        }),
{
    let found = messages_of(bytes)->Ok_0;
    messages_before_a_bad_one_are_handed_over(found, handed, bytes.len(), r, bad);
    lemma_queued(found, handed, room);
}

/// Bytes that are no text are not written: nothing is handed to the channel.
pub proof fn only_text_is_written(
    bytes: Seq<u8>,
    handed: Seq<Handed>,
    r: Result<usize, WriteError<Seq<char>>>,
)
    requires
        written(bytes, handed, r),
        !valid_utf8(bytes),
    ensures
        handed.len() == 0,
        r matches Err(WriteError::InvalidData(_)),
{
}

/// Where every message is JSON and nobody receives from the channel any more, writing fails
/// if and only if there is a message, and the channel takes nothing.
pub proof fn closed_channel_fails_the_first_message(
    found: Seq<Seq<char>>,
    handed: Seq<Handed>,
    size: nat,
    r: Result<usize, WriteError<Seq<char>>>,
)
    requires
        handed_on(found, handed, size, r),
        forall|i: int| 0 <= i < found.len() ==> json_error(#[trigger] found[i]) is None,
        forall|i: int| 0 <= i < handed.len() ==> (#[trigger] handed[i]).1 == SendOutcome::Closed,
    ensures
        found.len() > 0 <==> r == Err::<usize, WriteError<Seq<char>>>(
            WriteError::BrokenPipe("send channel closed"@),
        ),
        found.len() == 0 ==> r == Ok::<usize, WriteError<Seq<char>>>(size as usize),
        queued(handed) == Seq::<Seq<char>>::empty(),
{
    if found.len() > 0 {
        assert(found.first() == found[0]);
        assert(handed.first() == handed[0]);
        assert(handed.last() == handed[0]);
        assert(queued(handed.drop_last()) =~= Seq::empty());
    }
}

} // verus!
