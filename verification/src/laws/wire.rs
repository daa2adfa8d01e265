//! From the bytes of a streamed answer to its events.

use vstd::prelude::*;
use vstd::utf8::*;

use crate::json::JsonView;
use crate::normalized::StreamEventView;
use crate::stream::{ArrivalView, StreamView};

verus! {

/// Two line feeds stand at the given place.
pub open spec fn short_blank_at(bytes: Seq<u8>, i: int) -> bool {
    0 <= i && i + 2 <= bytes.len() && bytes[i] == 10 && bytes[i + 1] == 10
}

/// Two line feeds, each behind a carriage return, stand at the given place.
pub open spec fn long_blank_at(bytes: Seq<u8>, i: int) -> bool {
    0 <= i && i + 4 <= bytes.len() && bytes[i] == 13 && bytes[i + 1] == 10 && bytes[i + 2] == 13
        && bytes[i + 3] == 10
}

proof fn lemma_marks_are_blanks(bytes: Seq<u8>, i: int)
    ensures
        crate::sse::mark_at(bytes, crate::sse::lf_mark(), i) <==> short_blank_at(bytes, i),
        crate::sse::mark_at(bytes, crate::sse::crlf_mark(), i) <==> long_blank_at(bytes, i),
{
    let lf = crate::sse::lf_mark();
    let crlf = crate::sse::crlf_mark();
    if 0 <= i && i + 2 <= bytes.len() {
        let found = bytes.subrange(i, i + 2);
        if found == lf {
            assert(found[0] == 10u8 && found[1] == 10u8);
        }
        if short_blank_at(bytes, i) {
            assert(found =~= lf);
        }
    }
    if 0 <= i && i + 4 <= bytes.len() {
        let found = bytes.subrange(i, i + 4);
        if found == crlf {
            assert(found[0] == 13u8 && found[1] == 10u8 && found[2] == 13u8 && found[3] == 10u8);
        }
        if long_blank_at(bytes, i) {
            assert(found =~= crlf);
        }
    }
}

/// An event ends at the first blank line with carriage returns; where there is none, at the first
/// without; and where there is neither, it has not ended.
pub proof fn law_where_an_event_ends(bytes: Seq<u8>, i: int)
    ensures
        long_blank_at(bytes, i) && (forall|j: int| 0 <= j < i ==> !long_blank_at(bytes, j))
            ==> crate::sse::event_boundary(bytes) == Some(i),
        short_blank_at(bytes, i) && (forall|j: int| 0 <= j < i ==> !short_blank_at(bytes, j)) && (
        forall|j: int| !long_blank_at(bytes, j)) ==> crate::sse::event_boundary(bytes) == Some(i),
        (forall|j: int| !long_blank_at(bytes, j)) && (forall|j: int| !short_blank_at(bytes, j))
            ==> crate::sse::event_boundary(bytes) is None,
{
    let lf = crate::sse::lf_mark();
    let crlf = crate::sse::crlf_mark();
    lemma_marks_are_blanks(bytes, i);
    assert forall|j: int| #[trigger]
        crate::sse::mark_at(bytes, lf, j) <==> short_blank_at(bytes, j) by {
        lemma_marks_are_blanks(bytes, j);
    }
    assert forall|j: int| #[trigger]
        crate::sse::mark_at(bytes, crlf, j) <==> long_blank_at(bytes, j) by {
        lemma_marks_are_blanks(bytes, j);
    }
    if long_blank_at(bytes, i) && (forall|j: int| 0 <= j < i ==> !long_blank_at(bytes, j)) {
        assert(crate::sse::mark_at(bytes, crlf, i));
        assert(crate::sse::first_mark_at(bytes, crlf, i));
        crate::sse::lemma_first_mark(bytes, crlf, i);
    }
    if short_blank_at(bytes, i) && (forall|j: int| 0 <= j < i ==> !short_blank_at(bytes, j)) && (
    forall|j: int| !long_blank_at(bytes, j)) {
        assert(crate::sse::mark_at(bytes, lf, i));
        assert(crate::sse::first_mark_at(bytes, lf, i));
        crate::sse::lemma_first_mark(bytes, lf, i);
    }
}

/// A blank line at the start of the bytes is taken off, all of it, and nothing else.
pub proof fn law_blank_lines_are_taken_off(bytes: Seq<u8>)
    ensures
        crate::sse::boundary_len(bytes) == (if long_blank_at(bytes, 0) {
            4int
        } else if short_blank_at(bytes, 0) {
            2int
        } else {
            0int
        }),
{
    lemma_marks_are_blanks(bytes, 0);
}

/// An event is what stands before its blank line, and what follows is what stands behind it.
pub proof fn law_events_are_cut_out(event: Seq<u8>, rest: Seq<u8>)
    ensures
        ({
            let bytes = event + seq![13u8, 10, 13, 10] + rest;
            (forall|j: int| 0 <= j < event.len() ==> !long_blank_at(bytes, j))
                ==> crate::stream::next_event(bytes) == Some((event, rest))
        }),
        ({
            let bytes = event + seq![10u8, 10] + rest;
            (forall|j: int| 0 <= j < event.len() ==> !short_blank_at(bytes, j)) && (forall|j: int|
                !long_blank_at(bytes, j)) ==> crate::stream::next_event(bytes) == Some(
                (event, rest),
            )
        }),
{
    let n = event.len() as int;
    let long = event + seq![13u8, 10, 13, 10] + rest;
    if forall|j: int| 0 <= j < event.len() ==> !long_blank_at(long, j) {
        assert(long_blank_at(long, n));
        law_where_an_event_ends(long, n);
        law_blank_lines_are_taken_off(long.skip(n));
        assert(long_blank_at(long.skip(n), 0));
        assert(long.take(n) =~= event);
        assert(long.skip(n).skip(4) =~= rest);
    }
    let short = event + seq![10u8, 10] + rest;
    if (forall|j: int| 0 <= j < event.len() ==> !short_blank_at(short, j)) && (forall|j: int|
        !long_blank_at(short, j)) {
        assert(short_blank_at(short, n));
        law_where_an_event_ends(short, n);
        law_blank_lines_are_taken_off(short.skip(n));
        assert(short_blank_at(short.skip(n), 0));
        assert(short.take(n) =~= event);
        assert(short.skip(n).skip(2) =~= rest);
    }
}

/// Bytes without a blank line hold no event yet.
pub proof fn law_unfinished_events_wait(bytes: Seq<u8>)
    requires
        forall|j: int| !long_blank_at(bytes, j),
        forall|j: int| !short_blank_at(bytes, j),
    ensures
        crate::stream::next_event(bytes) is None,
{
    law_where_an_event_ends(bytes, 0);
}

/// The text holds no line feed.
pub open spec fn is_line(text: Seq<char>) -> bool {
    forall|i: int| 0 <= i < text.len() ==> text[i] != '\n'
}

/// The text starts with `data:`.
pub open spec fn is_data(text: Seq<char>) -> bool {
    text.len() >= 5 && text[0] == 'd' && text[1] == 'a' && text[2] == 't' && text[3] == 'a'
        && text[4] == ':'
}

proof fn lemma_starts_with_data(text: Seq<char>)
    ensures
        crate::sse::starts_with(text, "data:"@) <==> is_data(text),
        "data:"@.len() == 5,
{
    reveal_strlit("data:");
    if text.len() >= 5 {
        let head = text.take(5);
        if head == "data:"@ {
            assert(head[0] == 'd' && head[1] == 'a' && head[2] == 't' && head[3] == 'a' && head[4]
                == ':');
        }
        if is_data(text) {
            assert(head =~= "data:"@);
        }
    }
}

proof fn lemma_spaces_are_dropped(n: nat, data: Seq<char>)
    requires
        data.len() > 0 ==> data[0] != ' ',
    ensures
        crate::sse::without_leading_spaces(crate::laws::texts::copies(' ', n) + data) == data,
    decreases n,
{
    let text = crate::laws::texts::copies(' ', n) + data;
    if n == 0 {
        assert(text =~= data);
    } else {
        let fewer = (n - 1) as nat;
        assert(text.skip(1) =~= crate::laws::texts::copies(' ', fewer) + data);
        lemma_spaces_are_dropped(fewer, data);
    }
}

/// The data of an event is what stands on its first line, where that starts with `data:`, behind
/// that and any spaces, unchanged, up to the end of the line.
pub proof fn law_data_stands_on_its_line(spaces: nat, data: Seq<char>, rest: Seq<char>)
    requires
        is_line(data),
        data.len() > 0 ==> data[0] != ' ',
    ensures
        ({
            let line = "data:"@ + crate::laws::texts::copies(' ', spaces) + data;
            &&& crate::sse::event_data(line) == Some(data)
            &&& data.len() == 0 || data.last() != '\r' ==> crate::sse::event_data(
                line + seq!['\n'] + rest,
            ) == Some(data)
            &&& crate::sse::event_data(line + seq!['\r', '\n'] + rest) == Some(data)
        }),
{
    lemma_starts_with_data(Seq::empty());
    reveal_strlit("data:");
    let pad = crate::laws::texts::copies(' ', spaces);
    let line = "data:"@ + pad + data;
    let n = line.len() as int;
    assert(is_line(line));
    lemma_spaces_are_dropped(spaces, data);
    assert(line.skip(5) =~= pad + data);
    lemma_starts_with_data(line);
    assert(is_data(line));
    crate::sse::lemma_line_len_is(line, n);
    assert(line.take(n) =~= line);
    assert(crate::sse::first_line(line) == line);
    if data.len() == 0 || data.last() != '\r' {
        let text = line + seq!['\n'] + rest;
        crate::sse::lemma_line_len_is(text, n);
        assert(text[n - 1] == line[n - 1]);
        if data.len() > 0 {
            assert(line[n - 1] == data.last());
        } else if spaces > 0 {
            assert(line[n - 1] == ' ');
        } else {
            assert(line[n - 1] == ':');
        }
        assert(text.take(n) =~= line);
        assert(crate::sse::first_line(text) == line);
    }
    let text = line + seq!['\r', '\n'] + rest;
    assert(text[n] == '\r' && text[n + 1] == '\n');
    crate::sse::lemma_line_len_is(text, n + 1);
    assert(text.take(n) =~= line);
    assert(crate::sse::first_line(text) == line);
}

/// A line that does not start with `data:` is passed over, and a text without lines has no data.
pub proof fn law_other_lines_are_passed_over(line: Seq<char>, rest: Seq<char>)
    requires
        is_line(line),
        !is_data(line),
    ensures
        crate::sse::event_data(Seq::empty()) is None,
        crate::sse::event_data(line) is None,
        crate::sse::event_data(line + seq!['\n'] + rest) == crate::sse::event_data(rest),
{
    let n = line.len() as int;
    crate::sse::lemma_line_len_is(line, n);
    assert(line.take(n) =~= line);
    lemma_starts_with_data(line);
    assert(crate::sse::event_data(crate::sse::after_line(line)) is None);
    let text = line + seq!['\n'] + rest;
    crate::sse::lemma_line_len_is(text, n);
    let first = crate::sse::first_line(text);
    lemma_starts_with_data(first);
    if n > 0 && text[n - 1] == '\r' {
        assert(first =~= line.take(n - 1));
    } else {
        assert(first =~= line);
    }
    assert(crate::sse::after_line(text) =~= rest);
}

/// An event of the wire says what its data reads as. One that is not UTF-8, or has no data, or whose
/// data is not JSON, says nothing.
pub proof fn law_events_say_their_data(bytes: Seq<u8>, text: Seq<char>, data: Seq<char>)
    ensures
        !valid_utf8(bytes) ==> crate::stream::event_json(bytes) is None,
        crate::sse::event_data(text) is None ==> crate::stream::event_json(encode_utf8(text))
            is None,
        crate::sse::event_data(text) == Some(data) ==> crate::stream::event_json(encode_utf8(text))
            == crate::value::text_json(data),
{
    encode_utf8_valid_utf8(text);
    encode_utf8_decode_utf8(text);
}

/// The first event of the bytes is acted on, exactly where it says something, before what follows;
/// what follows is then treated in the same way, until the answer has ended.
pub proof fn law_events_one_after_the_other(state: StreamView, chunk: Seq<u8>)
    requires
        !state.stopped,
    ensures
        match crate::stream::next_event(state.buffer + chunk) {
            None => crate::stream::fed(state, chunk) == (
                StreamView { buffer: state.buffer + chunk, ..state },
                Seq::<StreamEventView>::empty(),
            ),
            Some((event, rest)) => {
                let waiting = StreamView { buffer: rest, ..state };
                let (next, told) = match crate::stream::event_json(event) {
                    Some(said) => crate::stream::on_event(waiting, said),
                    None => (waiting, Seq::empty()),
                };
                let (after, more) = crate::stream::fed(next, Seq::empty());
                crate::stream::fed(state, chunk) == (after, told + more)
            },
        },
{
    if let Some((event, rest)) = crate::stream::next_event(state.buffer + chunk) {
        let waiting = StreamView { buffer: rest, ..state };
        let step = crate::stream::on_wire_event(waiting, crate::stream::event_json(event));
        crate::stream::lemma_on_wire_event_keeps(waiting, crate::stream::event_json(event));
        assert(step.0.buffer + Seq::<u8>::empty() =~= step.0.buffer);
        assert(StreamView { buffer: step.0.buffer + Seq::<u8>::empty(), ..step.0 } == step.0);
    }
}

/// A line has no line feed among its bytes either.
proof fn lemma_no_line_feed(text: Seq<char>)
    requires
        is_line(text),
    ensures
        forall|i: int| 0 <= i < encode_utf8(text).len() ==> encode_utf8(text)[i] != 10,
    decreases text.len(),
{
    if text.len() > 0 {
        let tail = text.drop_first();
        assert forall|i: int| 0 <= i < tail.len() implies tail[i] != '\n' by {
            assert(tail[i] == text[i + 1]);
        }
        lemma_no_line_feed(tail);
        let c = text[0] as u32;
        assert(text[0] != '\n');
        char_is_scalar(text[0]);
        char_u32_cast(text[0], c);
        assert(c != 10);
        assert(leading_byte_width_1(c) == (c & 0x7F) as u8);
        assert(c < 0x80 && c != 10 ==> (c & 0x7F) as u8 != 10) by (bit_vector);
        assert((0xC0u8 | ((c >> 6) & 0x1F) as u8) != 10) by (bit_vector);
        assert((0xE0u8 | ((c >> 12) & 0x0F) as u8) != 10) by (bit_vector);
        assert((0xF0u8 | ((c >> 18) & 0x7) as u8) != 10) by (bit_vector);
        assert((0x80u8 | (c & 0x3F) as u8) != 10) by (bit_vector);
        assert((0x80u8 | ((c >> 6) & 0x3F) as u8) != 10) by (bit_vector);
        assert((0x80u8 | ((c >> 12) & 0x3F) as u8) != 10) by (bit_vector);
        let head = encode_scalar(c);
        assert forall|i: int| 0 <= i < head.len() implies head[i] != 10 by {}
        assert(encode_utf8(text) == head + encode_utf8(tail));
    }
}

/// A whole event of one data line, from its bytes to what it does: it is read, acted on, and told of.
pub proof fn law_one_data_line(
    state: StreamView,
    spaces: nat,
    data: Seq<char>,
    event: JsonView,
)
    requires
        !state.stopped,
        state.buffer.len() == 0,
        is_line(data),
        data.len() > 0 ==> data[0] != ' ',
        crate::value::text_json(data) == Some(event),
    ensures
        ({
            let line = encode_utf8("data:"@ + crate::laws::texts::copies(' ', spaces) + data);
            let (after, told) = crate::stream::on_event(state, event);
            crate::stream::fed(state, line + seq![10u8, 10]) == (
                StreamView { buffer: Seq::empty(), ..after },
                told,
            )
        }),
{
    let text = "data:"@ + crate::laws::texts::copies(' ', spaces) + data;
    let line = encode_utf8(text);
    let chunk = line + seq![10u8, 10];
    reveal_strlit("data:");
    assert(is_line(text));
    lemma_no_line_feed(text);
    assert(chunk + Seq::<u8>::empty() =~= chunk);
    assert forall|j: int| !long_blank_at(chunk, j) by {
        if 0 <= j && j + 4 <= chunk.len() {
            assert(j + 1 < line.len() ==> chunk[j + 1] == line[j + 1]);
            assert(j + 2 < line.len() ==> chunk[j + 2] == line[j + 2]);
        }
    }
    assert forall|j: int| 0 <= j < line.len() implies !short_blank_at(chunk, j) by {
        assert(chunk[j] == line[j]);
    }
    law_events_are_cut_out(line, Seq::empty());
    assert(state.buffer + chunk =~= chunk);
    law_data_stands_on_its_line(spaces, data, Seq::empty());
    law_events_say_their_data(line, text, data);
    let waiting = StreamView { buffer: Seq::empty(), ..state };
    assert(state.buffer =~= Seq::<u8>::empty());
    law_events_one_after_the_other(state, chunk);
    let (next, told) = crate::stream::on_event(state, event);
    crate::stream::lemma_on_wire_event_keeps(state, Some(event));
    assert(next.buffer + Seq::<u8>::empty() =~= Seq::<u8>::empty());
    law_unfinished_events_wait(Seq::empty());
    if !next.stopped {
        law_events_one_after_the_other(next, Seq::empty());
    } else {
        crate::laws::streaming::law_nothing_behind_the_end(next, Seq::empty());
    }
    assert(told + Seq::<StreamEventView>::empty() =~= told);
}

/// The engine is told of the event.
pub open spec fn tells(
    item: Result<StreamEventView, crate::error::ErrorView>,
    event: StreamEventView,
) -> bool {
    item matches Ok(told) && told == event
}

/// Bytes are worked off, and end the turn where they end the answer; a failure ends it with an error
/// that gives the reason; and the end of the bytes ends it with what is known.
pub proof fn law_what_an_arrival_comes_to(state: StreamView, chunk: Seq<u8>, reason: Seq<char>)
    ensures
        ({
            let (after, told) = crate::stream::fed(state, chunk);
            let (next, items, done) = crate::stream::on_arrival(state, ArrivalView::Bytes(chunk));
            &&& next == after
            &&& done == after.stopped
            &&& items.len() == told.len() + (if done {
                1int
            } else {
                0int
            })
            &&& forall|i: int| 0 <= i < told.len() ==> tells(#[trigger] items[i], told[i])
            &&& done ==> tells(items.last(), crate::stream::finish_event(after))
        }),
        ({
            let (next, items, done) = crate::stream::on_arrival(state, ArrivalView::Failed(reason));
            &&& next == state
            &&& done
            &&& items.len() == 1
            &&& items[0] matches Err(error) && error.kind is Network && error.message
                == "read sse chunk: "@ + reason
        }),
        ({
            let (next, items, done) = crate::stream::on_arrival(state, ArrivalView::Ended);
            &&& next == state
            &&& done
            &&& items.len() == 1
            &&& tells(items[0], crate::stream::finish_event(state))
        }),
{
}

} // verus!
