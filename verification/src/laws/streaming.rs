//! What the engine can rely on while an answer arrives in pieces.

use vstd::prelude::*;

use crate::encode::RESPOND_TOOL_NAME;
use crate::error::ErrorView;
use crate::json::JsonView;
use crate::normalized::{FinishReason, StreamEventView, ToolCallView};
use crate::stream::{ArrivalView, BlockView, StreamView};

verus! {

/// A call of the synthetic tool.
pub open spec fn is_respond_call(event: StreamEventView) -> bool {
    event matches StreamEventView::ToolCallReady(call) && call.name == RESPOND_TOOL_NAME@
}

/// The end of the turn, good or bad.
pub open spec fn is_terminal(item: Result<StreamEventView, ErrorView>) -> bool {
    match item {
        Ok(event) => event is Finish,
        Err(_) => true,
    }
}

/// The type that an event gives itself.
pub open spec fn event_kind(event: JsonView) -> Seq<char> {
    crate::stream::text_or_empty(event.text_field("type"@))
}

/// What holds of a stream from one moment to a later one, and of what was told in between.
pub open spec fn progress(
    before: StreamView,
    after: StreamView,
    told: Seq<StreamEventView>,
) -> bool {
    &&& after.expects_respond == before.expects_respond
    &&& before.stopped ==> after.stopped
    &&& before.respond_text_emitted ==> after.respond_text_emitted
    &&& forall|i: int| 0 <= i < told.len() ==> !(#[trigger] told[i] is Finish)
    &&& before.expects_respond ==> forall|i: int|
        0 <= i < told.len() ==> !is_respond_call(#[trigger] told[i])
}

/// One event is progress.
proof fn lemma_event_progress(state: StreamView, event: Option<JsonView>)
    ensures
        ({
            let (after, told) = crate::stream::on_wire_event(state, event);
            progress(state, after, told)
        }),
{
}

/// Working off the buffer is progress.
proof fn lemma_drained_progress(state: StreamView)
    ensures
        ({
            let (after, told) = crate::stream::drained(state);
            progress(state, after, told)
        }),
    decreases state.buffer.len(),
{
    if !state.stopped && crate::stream::next_event(state.buffer) is Some {
        let (event, rest) = crate::stream::next_event(state.buffer)->0;
        let said = crate::stream::event_json(event);
        let start = StreamView { buffer: rest, ..state };
        crate::stream::lemma_next_event_shorter(state.buffer);
        crate::stream::lemma_on_wire_event_keeps(start, said);
        lemma_event_progress(start, said);
        let step = crate::stream::on_wire_event(start, said);
        lemma_drained_progress(step.0);
    }
}

/// Bytes never take anything back: the end of the answer stays its end, structured output that was
/// handed on stays handed on, and what the request asked for stays the same. They never tell the
/// engine of the end of the turn. And where the request declared an output schema, the engine is
/// never handed a call of the synthetic tool.
pub proof fn law_bytes_are_progress(state: StreamView, chunk: Seq<u8>)
    ensures
        ({
            let (after, told) = crate::stream::fed(state, chunk);
            progress(state, after, told)
        }),
{
    lemma_drained_progress(StreamView { buffer: state.buffer + chunk, ..state });
}

/// Behind the end of the answer nothing is read.
pub proof fn law_nothing_behind_the_end(state: StreamView, chunk: Seq<u8>)
    requires
        state.stopped,
    ensures
        crate::stream::fed(state, chunk) == (
            StreamView { buffer: Seq::empty(), ..state },
            Seq::<StreamEventView>::empty(),
        ),
{
}

/// Structured output ends the turn, whatever reason the provider gives afterwards.
pub proof fn law_structured_output_ends_the_turn(state: StreamView, event: JsonView)
    requires
        state.respond_text_emitted,
        event_kind(event) == "message_delta"@,
        event.field("delta"@) matches Some(delta) && delta.text_field("stop_reason"@) is Some,
    ensures
        crate::stream::on_event(state, event).0.final_finish == Some(FinishReason::Stop),
{
    lemma_kinds_differ();
}

/// The types of the events that are acted on are six different ones.
proof fn lemma_kinds_differ()
    ensures
        "message_start"@ != "message_delta"@,
        "message_start"@ != "content_block_start"@,
        "message_start"@ != "content_block_delta"@,
        "message_start"@ != "content_block_stop"@,
        "message_delta"@ != "content_block_start"@,
        "message_delta"@ != "content_block_delta"@,
        "message_delta"@ != "content_block_stop"@,
        "content_block_start"@ != "content_block_delta"@,
        "content_block_start"@ != "content_block_stop"@,
        "content_block_delta"@ != "content_block_stop"@,
{
    reveal_strlit("message_start");
    reveal_strlit("message_delta");
    reveal_strlit("content_block_start");
    reveal_strlit("content_block_delta");
    reveal_strlit("content_block_stop");
    assert("message_start"@[8] != "message_delta"@[8]);
    assert("content_block_start"@[14] != "content_block_delta"@[14]);
    assert("content_block_start"@.len() != "content_block_stop"@.len());
}

/// The count of the tokens of the conversation comes from the beginning of the answer and from
/// nothing else; the count of the tokens of the answer, and why it stopped, from news of the whole
/// answer and from nothing else.
pub proof fn law_who_sets_the_counts(state: StreamView, event: JsonView)
    ensures
        ({
            let after = crate::stream::on_event(state, event).0;
            &&& event_kind(event) != "message_start"@ ==> after.input_tokens == state.input_tokens
            &&& event_kind(event) != "message_delta"@ ==> after.output_tokens
                == state.output_tokens && after.final_finish == state.final_finish
        }),
{
}

/// What comes of event after event.
pub open spec fn applied(state: StreamView, events: Seq<JsonView>) -> StreamView
    decreases events.len(),
{
    if events.len() == 0 {
        state
    } else {
        crate::stream::on_event(applied(state, events.drop_last()), events.last()).0
    }
}

/// The count of the tokens of the conversation, where the event is the beginning of the answer and
/// gives one.
pub open spec fn prompt_count(event: JsonView) -> Option<u64> {
    match event.field("message"@) {
        Some(message) => match message.field("usage"@) {
            Some(usage) => usage.unsigned_field("input_tokens"@),
            None => None,
        },
        None => None,
    }
}

/// The event speaks of the tokens of the conversation.
pub open spec fn brings_usage(event: JsonView) -> bool {
    event.field("message"@) matches Some(message) && message.field("usage"@) is Some
}

/// The count of the tokens of the answer, where the event gives one.
pub open spec fn answer_count(event: JsonView) -> Option<u64> {
    match event.field("usage"@) {
        Some(usage) => usage.unsigned_field("output_tokens"@),
        None => None,
    }
}

/// The end of the turn carries the last count of the tokens of the conversation that arrived.
pub proof fn law_the_end_carries_the_prompt_count(
    state: StreamView,
    events: Seq<JsonView>,
    i: int,
    count: u64,
)
    requires
        0 <= i < events.len(),
        event_kind(events[i]) == "message_start"@,
        prompt_count(events[i]) == Some(count),
        forall|j: int|
            i < j < events.len() ==> event_kind(#[trigger] events[j]) != "message_start"@
                || !brings_usage(events[j]),
    ensures
        crate::stream::finish_event(applied(state, events)) matches StreamEventView::Finish {
            usage,
            ..
        } && usage.input_tokens == crate::stream::low_u32(count),
    decreases events.len(),
{
    let head = events.drop_last();
    if i < events.len() - 1 {
        assert forall|j: int| i < j < head.len() implies event_kind(#[trigger] head[j])
            != "message_start"@ || !brings_usage(head[j]) by {
            assert(head[j] == events[j]);
        }
        law_the_end_carries_the_prompt_count(state, head, i, count);
        assert(event_kind(events[events.len() - 1]) != "message_start"@ || !brings_usage(
            events[events.len() - 1],
        ));
        law_who_sets_the_counts(applied(state, head), events.last());
    }
}

/// The end of the turn carries the last count of the tokens of the answer that arrived.
pub proof fn law_the_end_carries_the_answer_count(
    state: StreamView,
    events: Seq<JsonView>,
    i: int,
    count: u64,
)
    requires
        0 <= i < events.len(),
        event_kind(events[i]) == "message_delta"@,
        answer_count(events[i]) == Some(count),
        forall|j: int|
            i < j < events.len() ==> event_kind(#[trigger] events[j]) != "message_delta"@
                || answer_count(events[j]) is None,
    ensures
        crate::stream::finish_event(applied(state, events)) matches StreamEventView::Finish {
            usage,
            ..
        } && usage.output_tokens == crate::stream::low_u32(count),
    decreases events.len(),
{
    lemma_kinds_differ();
    let head = events.drop_last();
    if i < events.len() - 1 {
        assert forall|j: int| i < j < head.len() implies event_kind(#[trigger] head[j])
            != "message_delta"@ || answer_count(head[j]) is None by {
            assert(head[j] == events[j]);
        }
        law_the_end_carries_the_answer_count(state, head, i, count);
        assert(event_kind(events[events.len() - 1]) != "message_delta"@ || answer_count(
            events[events.len() - 1],
        ) is None);
        law_who_sets_the_counts(applied(state, head), events.last());
    }
}

/// The beginning of a tool block.
pub open spec fn begins_tool(
    event: JsonView,
    index: u64,
    id: Seq<char>,
    name: Seq<char>,
) -> bool {
    &&& event_kind(event) == "content_block_start"@
    &&& crate::stream::block_index(event) == index
    &&& event.field("content_block"@) matches Some(block) && {
        &&& block.text_field("type"@) == Some("tool_use"@)
        &&& block.text_field("id"@) == Some(id)
        &&& block.text_field("name"@) == Some(name)
    }
}

/// The beginning of some block with the given index, or its end.
pub open spec fn begins_or_ends(event: JsonView, index: u64) -> bool {
    &&& event_kind(event) == "content_block_start"@ || event_kind(event) == "content_block_stop"@
    &&& crate::stream::block_index(event) == index
}

/// The piece of a tool's input that an event brings to the block with the given index.
pub open spec fn piece_of(event: JsonView, index: u64) -> Seq<char> {
    match event.field("delta"@) {
        Some(delta) => {
            let piece = delta.text_field("partial_json"@);
            if event_kind(event) == "content_block_delta"@ && crate::stream::block_index(event)
                == index && delta.text_field("type"@) == Some("input_json_delta"@) && piece is Some {
                piece->0
            } else {
                Seq::empty()
            }
        },
        None => Seq::empty(),
    }
}

/// All pieces of a tool's input, put together.
pub open spec fn pieces_of(events: Seq<JsonView>, index: u64) -> Seq<char>
    decreases events.len(),
{
    if events.len() == 0 {
        Seq::empty()
    } else {
        pieces_of(events.drop_last(), index) + piece_of(events.last(), index)
    }
}

/// A tool block that has begun keeps its description and gathers its pieces.
proof fn lemma_block_gathers(state: StreamView, events: Seq<JsonView>, index: u64)
    requires
        state.blocks.contains_key(index),
        forall|i: int| 0 <= i < events.len() ==> !begins_or_ends(#[trigger] events[i], index),
    ensures
        ({
            let after = applied(state, events);
            &&& after.expects_respond == state.expects_respond
            &&& after.blocks.contains_key(index)
            &&& after.blocks[index] == (BlockView {
                json_buffer: state.blocks[index].json_buffer + pieces_of(events, index),
                ..state.blocks[index]
            })
        }),
    decreases events.len(),
{
    let block = state.blocks[index];
    if events.len() == 0 {
        assert(block.json_buffer + Seq::<char>::empty() =~= block.json_buffer);
    } else {
        let head = events.drop_last();
        let last = events.last();
        assert forall|i: int| 0 <= i < head.len() implies !begins_or_ends(
            #[trigger] head[i],
            index,
        ) by {
            assert(head[i] == events[i]);
        }
        assert(!begins_or_ends(events[events.len() - 1], index));
        lemma_block_gathers(state, head, index);
        lemma_kinds_differ();
        reveal_strlit("input_json_delta");
        let so_far = block.json_buffer + pieces_of(head, index);
        assert(so_far + Seq::<char>::empty() =~= so_far);
        assert(so_far + piece_of(last, index) =~= block.json_buffer + pieces_of(events, index));
    }
}

/// The input of a tool is made of all pieces that arrive between the beginning and the end of its
/// block, in order, whatever else arrives in between. At the end the engine is handed the call with
/// the input that the pieces read as, or the structured output where the tool is the synthetic one.
pub proof fn law_tool_input_is_put_together(
    state: StreamView,
    index: u64,
    id: Seq<char>,
    name: Seq<char>,
    start: JsonView,
    middle: Seq<JsonView>,
    end: JsonView,
)
    requires
        !state.blocks.contains_key(index),
        begins_tool(start, index, id, name),
        forall|i: int| 0 <= i < middle.len() ==> !begins_or_ends(#[trigger] middle[i], index),
        event_kind(end) == "content_block_stop"@,
        crate::stream::block_index(end) == index,
    ensures
        ({
            let before = applied(crate::stream::on_event(state, start).0, middle);
            let arguments = crate::stream::tool_arguments(
                crate::value::text_json(pieces_of(middle, index)),
            );
            crate::stream::on_event(before, end).1 == seq![
                if state.expects_respond && name == RESPOND_TOOL_NAME@ {
                    StreamEventView::TextDelta(
                        crate::stream::printed_or_empty(crate::value::json_text(arguments)),
                    )
                } else {
                    StreamEventView::ToolCallReady(ToolCallView { id, name, arguments })
                },
            ]
        }),
{
    lemma_kinds_differ();
    let begun = crate::stream::on_event(state, start).0;
    lemma_block_gathers(begun, middle, index);
    assert(Seq::<char>::empty() + pieces_of(middle, index) =~= pieces_of(middle, index));
}

/// All that the engine is told as one thing after the other arrives, until the turn is over, and
/// whether it is.
pub open spec fn run(state: StreamView, arrivals: Seq<ArrivalView>) -> (
    Seq<Result<StreamEventView, ErrorView>>,
    bool,
)
    decreases arrivals.len(),
{
    if arrivals.len() == 0 {
        (Seq::empty(), false)
    } else {
        let (next, items, done) = crate::stream::on_arrival(state, arrivals[0]);
        if done {
            (items, true)
        } else {
            let rest = run(next, arrivals.skip(1));
            (items + rest.0, rest.1)
        }
    }
}

/// A turn that is over ends with exactly one terminal item, which is the last thing that the engine
/// is told; before that there is none. A turn is over at the latest when the provider has nothing
/// more to send or the answer cannot be read on.
pub proof fn law_the_turn_ends_once(state: StreamView, arrivals: Seq<ArrivalView>)
    ensures
        ({
            let (items, done) = run(state, arrivals);
            &&& done ==> items.len() > 0 && is_terminal(items.last()) && forall|i: int|
                0 <= i < items.len() - 1 ==> !is_terminal(#[trigger] items[i])
            &&& !done ==> forall|i: int| 0 <= i < items.len() ==> !is_terminal(#[trigger] items[i])
            &&& arrivals.len() > 0 && !(arrivals.last() is Bytes) ==> done
        }),
    decreases arrivals.len(),
{
    if arrivals.len() > 0 {
        let (next, items, done) = crate::stream::on_arrival(state, arrivals[0]);
        if let ArrivalView::Bytes(chunk) = arrivals[0] {
            law_bytes_are_progress(state, chunk);
        }
        if !done {
            let tail = arrivals.skip(1);
            law_the_turn_ends_once(next, tail);
            if tail.len() > 0 {
                assert(tail.last() == arrivals.last());
            } else {
                assert(arrivals.last() == arrivals[0]);
            }
            let rest = run(next, tail).0;
            assert forall|i: int| 0 <= i < items.len() + rest.len() implies is_terminal(
                #[trigger] (items + rest)[i],
            ) == (i >= items.len() && is_terminal(rest[i - items.len()])) by {}
        }
    }
}

} // verus!
