//! How the bytes of a streamed answer are cut into chunks makes no difference.

use vstd::prelude::*;

use crate::json::JsonView;
use crate::normalized::StreamEventView;
use crate::stream::StreamView;

verus! {

/// A blank line with carriage returns that is not complete in `buffer` comes with `more`, and
/// `buffer` ends with events that blank lines without carriage returns have ended. Only here does
/// it matter where the bytes are cut: in one piece, the later blank line would have come first.
pub open spec fn torn(buffer: Seq<u8>, more: Seq<u8>) -> bool {
    exists|i: int, j: int|
        {
            &&& #[trigger] crate::sse::mark_at(buffer, crate::sse::lf_mark(), i)
            &&& #[trigger] crate::sse::mark_at(buffer + more, crate::sse::crlf_mark(), j)
            &&& j + 4 > buffer.len()
            &&& forall|k: int|
                #[trigger] crate::sse::mark_at(buffer, crate::sse::crlf_mark(), k) ==> k < i
        }
}

/// No blank line with carriage returns stands behind one without.
pub open spec fn uniform(bytes: Seq<u8>) -> bool {
    forall|i: int, j: int|
        #[trigger] crate::sse::mark_at(bytes, crate::sse::lf_mark(), i)
            && #[trigger] crate::sse::mark_at(bytes, crate::sse::crlf_mark(), j) ==> j < i
}

/// What comes of chunk after chunk.
pub open spec fn fed_all(state: StreamView, chunks: Seq<Seq<u8>>) -> (
    StreamView,
    Seq<StreamEventView>,
)
    decreases chunks.len(),
{
    if chunks.len() == 0 {
        (state, Seq::empty())
    } else {
        let before = fed_all(state, chunks.drop_last());
        let last = crate::stream::fed(before.0, chunks.last());
        (last.0, before.1 + last.1)
    }
}

/// All bytes of the chunks.
pub open spec fn all_bytes(chunks: Seq<Seq<u8>>) -> Seq<u8>
    decreases chunks.len(),
{
    if chunks.len() == 0 {
        Seq::empty()
    } else {
        all_bytes(chunks.drop_last()) + chunks.last()
    }
}

/// A mark stands where it stood, whatever follows.
proof fn lemma_mark_in_prefix(buffer: Seq<u8>, more: Seq<u8>, mark: Seq<u8>, i: int)
    ensures
        crate::sse::mark_at(buffer, mark, i) <==> (crate::sse::mark_at(buffer + more, mark, i) && i
            + mark.len() <= buffer.len()),
{
    if 0 <= i && i + mark.len() <= buffer.len() {
        assert((buffer + more).subrange(i, i + mark.len()) =~= buffer.subrange(i, i + mark.len()));
    }
}

/// A mark stands at the same place, counted from another start.
proof fn lemma_mark_skipped(buffer: Seq<u8>, offset: int, mark: Seq<u8>, i: int)
    requires
        0 <= offset <= buffer.len(),
        0 <= i,
    ensures
        crate::sse::mark_at(buffer.skip(offset), mark, i) <==> crate::sse::mark_at(
            buffer,
            mark,
            offset + i,
        ),
{
    if i + mark.len() <= buffer.len() - offset {
        assert(buffer.skip(offset).subrange(i, i + mark.len()) =~= buffer.subrange(
            offset + i,
            offset + i + mark.len(),
        ));
    }
}

/// The first mark of a buffer stays the first, whatever follows.
proof fn lemma_first_in_prefix(buffer: Seq<u8>, more: Seq<u8>, mark: Seq<u8>)
    requires
        crate::sse::has_mark(buffer, mark),
    ensures
        crate::sse::has_mark(buffer + more, mark),
        crate::sse::first_mark(buffer + more, mark) == crate::sse::first_mark(buffer, mark),
{
    crate::sse::lemma_first_mark_is(buffer, mark);
    let i = crate::sse::first_mark(buffer, mark)->0;
    lemma_mark_in_prefix(buffer, more, mark, i);
    assert forall|j: int| 0 <= j < i implies !crate::sse::mark_at(buffer + more, mark, j) by {
        lemma_mark_in_prefix(buffer, more, mark, j);
    }
    crate::sse::lemma_first_mark(buffer + more, mark, i);
}

/// An event that is complete stays the first event, whatever follows.
proof fn lemma_next_event_in_prefix(buffer: Seq<u8>, more: Seq<u8>)
    requires
        crate::stream::next_event(buffer) is Some,
        !torn(buffer, more),
    ensures
        crate::stream::next_event(buffer) matches Some((event, rest)) ==> {
            &&& crate::stream::next_event(buffer + more) == Some((event, rest + more))
            &&& !torn(rest, more)
        },
{
    let crlf = crate::sse::crlf_mark();
    let lf = crate::sse::lf_mark();
    let whole = buffer + more;
    if crate::sse::has_mark(buffer, crlf) {
        lemma_first_in_prefix(buffer, more, crlf);
        crate::sse::lemma_first_mark_is(buffer, crlf);
    } else {
        lemma_first_in_prefix(buffer, more, lf);
        crate::sse::lemma_first_mark_is(buffer, lf);
        if crate::sse::has_mark(whole, crlf) {
            let j = choose|j: int| crate::sse::mark_at(whole, crlf, j);
            lemma_mark_in_prefix(buffer, more, crlf, j);
            let i = crate::sse::first_mark(buffer, lf)->0;
            assert(crate::sse::mark_at(buffer, lf, i));
            assert(torn(buffer, more));
        }
    }
    let end = crate::sse::event_boundary(buffer)->0;
    assert(crate::sse::event_boundary(whole) == Some(end));
    assert(0 <= end && end + 2 <= buffer.len());
    lemma_mark_skipped(buffer, end, crlf, 0);
    lemma_mark_skipped(whole, end, crlf, 0);
    lemma_mark_skipped(buffer, end, lf, 0);
    lemma_mark_skipped(whole, end, lf, 0);
    lemma_mark_in_prefix(buffer, more, crlf, end);
    lemma_mark_in_prefix(buffer, more, lf, end);
    if !crate::sse::has_mark(buffer, crlf) {
        assert(buffer.subrange(end, end + 2)[0] == 10u8);
        assert(buffer[end] == 10u8);
        if crate::sse::mark_at(whole, crlf, end) {
            assert(whole.subrange(end, end + 4)[0] == 13u8);
        }
    }
    let taken = crate::sse::boundary_len(buffer.skip(end));
    assert(crate::sse::boundary_len(whole.skip(end)) == taken);
    let (event, rest) = crate::stream::next_event(buffer)->0;
    let offset = end + taken;
    assert(whole.take(end) =~= buffer.take(end));
    assert(whole.skip(end).skip(taken) =~= rest + more);
    assert(rest =~= buffer.skip(offset));
    assert(rest + more =~= whole.skip(offset));
    if torn(rest, more) {
        let (i, j) = choose|i: int, j: int|
            {
                &&& #[trigger] crate::sse::mark_at(rest, lf, i)
                &&& #[trigger] crate::sse::mark_at(rest + more, crlf, j)
                &&& j + 4 > rest.len()
                &&& forall|k: int| #[trigger] crate::sse::mark_at(rest, crlf, k) ==> k < i
            };
        lemma_mark_skipped(buffer, offset, lf, i);
        lemma_mark_skipped(whole, offset, crlf, j);
        assert forall|k: int| #[trigger] crate::sse::mark_at(buffer, crlf, k) implies k < offset
            + i by {
            if k >= offset {
                lemma_mark_skipped(buffer, offset, crlf, k - offset);
                assert(crate::sse::mark_at(rest, crlf, k - offset));
            }
        }
        assert(crate::sse::mark_at(buffer, lf, offset + i));
        assert(crate::sse::mark_at(whole, crlf, offset + j));
        assert(torn(buffer, more));
    }
}

/// What an event does has nothing to do with the bytes that follow it.
proof fn lemma_event_ignores_buffer(state: StreamView, event: Option<JsonView>, buffer: Seq<u8>)
    ensures
        crate::stream::on_wire_event(StreamView { buffer, ..state }, event) == (
            StreamView { buffer, ..crate::stream::on_wire_event(state, event).0 },
            crate::stream::on_wire_event(state, event).1,
        ),
{
}

/// What the events of a buffer come to does not change when more bytes follow.
proof fn lemma_drained_in_prefix(state: StreamView, more: Seq<u8>)
    requires
        !torn(state.buffer, more),
    ensures
        ({
            let first = crate::stream::drained(state);
            let second = crate::stream::fed(first.0, more);
            crate::stream::drained(StreamView { buffer: state.buffer + more, ..state }) == (
                second.0,
                first.1 + second.1,
            )
        }),
    decreases state.buffer.len(),
{
    let whole = StreamView { buffer: state.buffer + more, ..state };
    let first = crate::stream::drained(state);
    let second = crate::stream::fed(first.0, more);
    if state.stopped || crate::stream::next_event(state.buffer) is None {
        assert(first.1 + second.1 =~= second.1);
    } else {
        let (event, rest) = crate::stream::next_event(state.buffer)->0;
        let said = crate::stream::event_json(event);
        crate::stream::lemma_next_event_shorter(state.buffer);
        lemma_next_event_in_prefix(state.buffer, more);
        let short = StreamView { buffer: rest, ..state };
        let long = StreamView { buffer: rest + more, ..state };
        crate::stream::lemma_on_wire_event_keeps(short, said);
        lemma_event_ignores_buffer(short, said, rest + more);
        let step = crate::stream::on_wire_event(short, said);
        assert(StreamView { buffer: rest + more, ..short } == long);
        lemma_drained_in_prefix(step.0, more);
        let after = crate::stream::drained(step.0);
        assert(first == (after.0, step.1 + after.1));
        assert(step.1 + (after.1 + second.1) =~= (step.1 + after.1) + second.1);
    }
}

/// Two chunks, one after the other, come to the same as both in one, unless they tear a stream
/// that mixes the two kinds of blank line.
pub proof fn law_two_chunks(state: StreamView, first: Seq<u8>, second: Seq<u8>)
    requires
        !torn(state.buffer + first, second),
    ensures
        ({
            let before = crate::stream::fed(state, first);
            let after = crate::stream::fed(before.0, second);
            crate::stream::fed(state, first + second) == (after.0, before.1 + after.1)
        }),
{
    lemma_drained_in_prefix(StreamView { buffer: state.buffer + first, ..state }, second);
    assert(state.buffer + first + second =~= state.buffer + (first + second));
}

/// A stream whose blank lines are all of one kind, or that goes over from the longer to the
/// shorter, is not torn anywhere.
proof fn lemma_uniform_is_not_torn(buffer: Seq<u8>, more: Seq<u8>)
    requires
        uniform(buffer + more),
    ensures
        !torn(buffer, more),
        uniform(buffer),
{
    assert forall|i: int, j: int|
        #[trigger] crate::sse::mark_at(buffer, crate::sse::lf_mark(), i)
            && #[trigger] crate::sse::mark_at(buffer, crate::sse::crlf_mark(), j) implies j < i by {
        lemma_mark_in_prefix(buffer, more, crate::sse::lf_mark(), i);
        lemma_mark_in_prefix(buffer, more, crate::sse::crlf_mark(), j);
    }
    if torn(buffer, more) {
        let (i, j) = choose|i: int, j: int|
            {
                &&& #[trigger] crate::sse::mark_at(buffer, crate::sse::lf_mark(), i)
                &&& #[trigger] crate::sse::mark_at(buffer + more, crate::sse::crlf_mark(), j)
                &&& j + 4 > buffer.len()
                &&& forall|k: int|
                    #[trigger] crate::sse::mark_at(buffer, crate::sse::crlf_mark(), k) ==> k < i
            };
        lemma_mark_in_prefix(buffer, more, crate::sse::lf_mark(), i);
        assert(j < i);
        assert(buffer.subrange(i, i + 2) == crate::sse::lf_mark());
        assert(buffer.subrange(i, i + 2)[0] == 10u8);
        assert(buffer.subrange(i, i + 2)[1] == 10u8);
        let mark = (buffer + more).subrange(j, j + 4);
        assert(mark[1] == 10u8 && mark[2] == 13u8);
        assert(buffer[i] == 10u8 && buffer[i + 1] == 10u8);
        assert((buffer + more)[j + 2] == 13u8);
        assert(false);
    }
}

/// However a stream with one kind of blank line is cut into chunks, the same comes of it.
pub proof fn law_any_chunks(state: StreamView, chunks: Seq<Seq<u8>>)
    requires
        chunks.len() > 0,
        uniform(state.buffer + all_bytes(chunks)),
    ensures
        fed_all(state, chunks) == crate::stream::fed(state, all_bytes(chunks)),
    decreases chunks.len(),
{
    let head = chunks.drop_last();
    if head.len() == 0 {
        assert(all_bytes(head) == Seq::<u8>::empty());
        assert(all_bytes(chunks) =~= chunks.last());
        assert(fed_all(state, head) == (state, Seq::<StreamEventView>::empty()));
        assert(fed_all(state, chunks).1 =~= crate::stream::fed(state, chunks.last()).1);
    } else {
        let before = all_bytes(head);
        assert(state.buffer + all_bytes(chunks) =~= (state.buffer + before) + chunks.last());
        lemma_uniform_is_not_torn(state.buffer + before, chunks.last());
        law_any_chunks(state, head);
        law_two_chunks(state, before, chunks.last());
    }
}

} // verus!
