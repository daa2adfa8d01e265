//! What every event of a streamed answer does, and what it leaves alone.

use vstd::prelude::*;

use crate::encode::RESPOND_TOOL_NAME;
use crate::json::JsonView;
use crate::normalized::{FinishReason, StreamEventView};
use crate::stream::{BlockView, StreamView};

verus! {

/// The event is of the given type.
pub open spec fn is_of(event: JsonView, kind: Seq<char>) -> bool {
    event.text_field("type"@) == Some(kind)
}

/// The event speaks of the block with the given index, which is zero where it names none.
pub open spec fn speaks_of(event: JsonView, index: u64) -> bool {
    match event.unsigned_field("index"@) {
        Some(named) => named == index,
        None => index == 0,
    }
}

/// What was known of a block: nothing, where it had not begun.
pub open spec fn known(state: StreamView, index: u64) -> BlockView {
    if state.blocks.contains_key(index) {
        state.blocks[index]
    } else {
        BlockView { kind: None, tool_id: None, tool_name: None, json_buffer: Seq::empty() }
    }
}

/// Nothing changed but the block with the given index, which is now the given one.
pub open spec fn only_block_changed(
    before: StreamView,
    after: StreamView,
    index: u64,
    block: BlockView,
) -> bool {
    &&& after == (StreamView { blocks: after.blocks, ..before })
    &&& after.blocks.contains_key(index)
    &&& after.blocks[index] == block
    &&& forall|other: u64|
        other != index ==> (#[trigger] after.blocks.contains_key(other)
            == before.blocks.contains_key(other)) && (before.blocks.contains_key(other)
            ==> after.blocks[other] == before.blocks[other])
}

/// Nothing changed but that the block with the given index is gone.
pub open spec fn only_block_gone(before: StreamView, after: StreamView, index: u64) -> bool {
    &&& after == (StreamView { blocks: after.blocks, ..before })
    &&& !after.blocks.contains_key(index)
    &&& forall|other: u64|
        other != index ==> (#[trigger] after.blocks.contains_key(other)
            == before.blocks.contains_key(other)) && (before.blocks.contains_key(other)
            ==> after.blocks[other] == before.blocks[other])
}

/// The types of the events that are acted on are six different ones, and not the empty text.
proof fn lemma_types_differ()
    ensures
        "message_start"@ != "message_delta"@,
        "message_start"@ != "message_stop"@,
        "message_start"@ != "content_block_start"@,
        "message_start"@ != "content_block_delta"@,
        "message_start"@ != "content_block_stop"@,
        "message_delta"@ != "message_stop"@,
        "message_delta"@ != "content_block_start"@,
        "message_delta"@ != "content_block_delta"@,
        "message_delta"@ != "content_block_stop"@,
        "message_stop"@ != "content_block_start"@,
        "message_stop"@ != "content_block_delta"@,
        "message_stop"@ != "content_block_stop"@,
        "content_block_start"@ != "content_block_delta"@,
        "content_block_start"@ != "content_block_stop"@,
        "content_block_delta"@ != "content_block_stop"@,
        "text_delta"@ != "input_json_delta"@,
        "message_start"@.len() > 0,
        "message_delta"@.len() > 0,
        "message_stop"@.len() > 0,
        "content_block_start"@.len() > 0,
        "content_block_delta"@.len() > 0,
        "content_block_stop"@.len() > 0,
        "text_delta"@.len() > 0,
        "input_json_delta"@.len() > 0,
        "respond"@.len() > 0,
{
    reveal_strlit("message_start");
    reveal_strlit("message_delta");
    reveal_strlit("message_stop");
    reveal_strlit("content_block_start");
    reveal_strlit("content_block_delta");
    reveal_strlit("content_block_stop");
    reveal_strlit("text_delta");
    reveal_strlit("input_json_delta");
    reveal_strlit("respond");
    assert("message_start"@[8] != "message_delta"@[8]);
    assert("content_block_start"@[14] != "content_block_delta"@[14]);
    assert("message_start"@.len() == 13 && "message_delta"@.len() == 13 && "message_stop"@.len()
        == 12);
    assert("content_block_start"@.len() == 19 && "content_block_delta"@.len() == 19
        && "content_block_stop"@.len() == 18);
    assert("text_delta"@.len() == 10 && "input_json_delta"@.len() == 16);
}

/// The beginning of the answer sets the count of the tokens of the conversation, where it speaks of
/// tokens, and does nothing else.
pub proof fn law_beginning_of_an_answer(state: StreamView, event: JsonView)
    requires
        is_of(event, "message_start"@),
    ensures
        ({
            let (after, told) = crate::stream::on_event(state, event);
            &&& told.len() == 0
            &&& after == (StreamView { input_tokens: after.input_tokens, ..state })
            &&& match event.field("message"@) {
                Some(message) => match message.field("usage"@) {
                    Some(usage) => crate::laws::response::is_count(
                        after.input_tokens,
                        usage.unsigned_field("input_tokens"@),
                    ),
                    None => after == state,
                },
                None => after == state,
            }
        }),
{
    lemma_types_differ();
}

/// The beginning of a block sets its kind, and its id and its name where they are given; the rest of
/// it, and every other block, stays as it was.
pub proof fn law_beginning_of_a_block(state: StreamView, event: JsonView, index: u64)
    requires
        is_of(event, "content_block_start"@),
        speaks_of(event, index),
    ensures
        ({
            let (after, told) = crate::stream::on_event(state, event);
            let before = known(state, index);
            let now = after.blocks[index];
            &&& told.len() == 0
            &&& only_block_changed(state, after, index, now)
            &&& now.json_buffer == before.json_buffer
            &&& match event.field("content_block"@) {
                Some(given) => {
                    &&& now.kind == Some(
                        match given.text_field("type"@) {
                            Some(kind) => kind,
                            None => Seq::empty(),
                        },
                    )
                    &&& now.tool_id == (match given.text_field("id"@) {
                        Some(id) => Some(id),
                        None => before.tool_id,
                    })
                    &&& now.tool_name == (match given.text_field("name"@) {
                        Some(name) => Some(name),
                        None => before.tool_name,
                    })
                },
                None => now == before,
            }
        }),
{
    lemma_types_differ();
}

/// More text is handed on exactly as it arrived, and nothing else is.
pub proof fn law_more_text(
    state: StreamView,
    event: JsonView,
    index: u64,
    delta: JsonView,
    text: Seq<char>,
)
    requires
        is_of(event, "content_block_delta"@),
        speaks_of(event, index),
        event.field("delta"@) == Some(delta),
        delta.text_field("type"@) == Some("text_delta"@),
        delta.text_field("text"@) == Some(text),
    ensures
        ({
            let (after, told) = crate::stream::on_event(state, event);
            &&& told.len() == 1
            &&& told[0] == StreamEventView::TextDelta(text)
            &&& only_block_changed(state, after, index, known(state, index))
        }),
{
    lemma_types_differ();
}

/// A piece of a tool's input is kept behind the pieces before it, exactly as it arrived, and nothing
/// is handed on.
pub proof fn law_more_input(
    state: StreamView,
    event: JsonView,
    index: u64,
    delta: JsonView,
    piece: Seq<char>,
)
    requires
        is_of(event, "content_block_delta"@),
        speaks_of(event, index),
        event.field("delta"@) == Some(delta),
        delta.text_field("type"@) == Some("input_json_delta"@),
        delta.text_field("partial_json"@) == Some(piece),
    ensures
        ({
            let (after, told) = crate::stream::on_event(state, event);
            let before = known(state, index);
            let now = after.blocks[index];
            &&& told.len() == 0
            &&& only_block_changed(state, after, index, now)
            &&& now.json_buffer == before.json_buffer + piece
            &&& now.kind == before.kind
            &&& now.tool_id == before.tool_id
            &&& now.tool_name == before.tool_name
        }),
{
    lemma_types_differ();
}

/// More of a block that is neither text nor a piece of input changes nothing that is known.
pub proof fn law_more_of_something_else(state: StreamView, event: JsonView, index: u64)
    requires
        is_of(event, "content_block_delta"@),
        speaks_of(event, index),
        !(event.field("delta"@) matches Some(delta) && delta.text_field("type"@) == Some(
            "text_delta"@,
        ) && delta.text_field("text"@) is Some),
        !(event.field("delta"@) matches Some(delta) && delta.text_field("type"@) == Some(
            "input_json_delta"@,
        ) && delta.text_field("partial_json"@) is Some),
    ensures
        ({
            let (after, told) = crate::stream::on_event(state, event);
            &&& told.len() == 0
            &&& event.field("delta"@) is None ==> after == state
            &&& event.field("delta"@) is Some ==> only_block_changed(
                state,
                after,
                index,
                known(state, index),
            )
        }),
{
    lemma_types_differ();
}

/// The end of a block that is no tool block says nothing; the block is forgotten.
pub proof fn law_end_of_a_block(state: StreamView, event: JsonView, index: u64)
    requires
        is_of(event, "content_block_stop"@),
        speaks_of(event, index),
        !(state.blocks.contains_key(index) && state.blocks[index].kind == Some("tool_use"@)),
    ensures
        ({
            let (after, told) = crate::stream::on_event(state, event);
            &&& told.len() == 0
            &&& only_block_gone(state, after, index)
        }),
{
    lemma_types_differ();
}

/// The end of a tool block hands on the call with its id, its name and what its pieces read as, or
/// the empty object where they are not JSON. Where the tool is the one that carries structured output
/// that was asked for, that is written out and handed on as text instead.
pub proof fn law_end_of_a_tool_block(state: StreamView, event: JsonView, index: u64)
    requires
        is_of(event, "content_block_stop"@),
        speaks_of(event, index),
        state.blocks.contains_key(index),
        state.blocks[index].kind == Some("tool_use"@),
    ensures
        ({
            let (after, told) = crate::stream::on_event(state, event);
            let block = state.blocks[index];
            let input = match crate::value::text_json(block.json_buffer) {
                Some(input) => input,
                None => JsonView::Object(Map::empty()),
            };
            let answers = state.expects_respond && block.tool_name == Some("respond"@);
            &&& told.len() == 1
            &&& only_block_gone(
                (StreamView {
                    respond_text_emitted: state.respond_text_emitted || answers,
                    ..state
                }),
                after,
                index,
            )
            &&& answers ==> told[0] == StreamEventView::TextDelta(
                match crate::value::json_text(input) {
                    Ok(text) => text,
                    Err(_) => Seq::empty(),
                },
            )
            &&& !answers ==> (told[0] matches StreamEventView::ToolCallReady(call) && {
                &&& call.arguments == input
                &&& call.id == (match block.tool_id {
                    Some(id) => id,
                    None => Seq::empty(),
                })
                &&& call.name == (match block.tool_name {
                    Some(name) => name,
                    None => Seq::empty(),
                })
            })
        }),
{
    lemma_types_differ();
}

/// News of the whole answer sets why it stopped and how many tokens it took, each where it is given,
/// and does nothing else.
pub proof fn law_news_of_the_answer(state: StreamView, event: JsonView)
    requires
        is_of(event, "message_delta"@),
    ensures
        ({
            let (after, told) = crate::stream::on_event(state, event);
            let stop = match event.field("delta"@) {
                Some(delta) => delta.text_field("stop_reason"@),
                None => None,
            };
            let tokens = match event.field("usage"@) {
                Some(usage) => usage.unsigned_field("output_tokens"@),
                None => None,
            };
            &&& told.len() == 0
            &&& after == (StreamView {
                final_finish: after.final_finish,
                output_tokens: after.output_tokens,
                ..state
            })
            &&& tokens is None ==> after.output_tokens == state.output_tokens
            &&& tokens is Some ==> crate::laws::response::is_count(after.output_tokens, tokens)
            &&& stop is None ==> after.final_finish == state.final_finish
            &&& stop is Some && state.respond_text_emitted ==> after.final_finish == Some(
                FinishReason::Stop,
            )
            &&& !state.respond_text_emitted ==> {
                &&& stop == Some("end_turn"@) ==> after.final_finish == Some(FinishReason::Stop)
                &&& stop == Some("stop_sequence"@) ==> after.final_finish == Some(
                    FinishReason::Stop,
                )
                &&& stop == Some("tool_use"@) ==> after.final_finish == Some(
                    FinishReason::ToolCalls,
                )
                &&& stop == Some("max_tokens"@) ==> after.final_finish == Some(
                    FinishReason::Length,
                )
                &&& stop is Some && stop != Some("end_turn"@) && stop != Some("stop_sequence"@)
                    && stop != Some("tool_use"@) && stop != Some("max_tokens"@)
                    ==> after.final_finish == Some(FinishReason::Other)
            }
        }),
{
    lemma_types_differ();
    reveal_strlit("tool_use");
    reveal_strlit("max_tokens");
    reveal_strlit("end_turn");
    reveal_strlit("stop_sequence");
    assert("tool_use"@[0] != "end_turn"@[0]);
    assert("tool_use"@.len() == 8 && "end_turn"@.len() == 8 && "max_tokens"@.len() == 10
        && "stop_sequence"@.len() == 13);
}

/// The end of the answer is remembered, and nothing else happens.
pub proof fn law_end_of_an_answer(state: StreamView, event: JsonView)
    requires
        is_of(event, "message_stop"@),
    ensures
        ({
            let (after, told) = crate::stream::on_event(state, event);
            &&& told.len() == 0
            &&& after == (StreamView { stopped: true, ..state })
        }),
{
    lemma_types_differ();
}

/// An event of any other type, or of none, does nothing.
pub proof fn law_other_events(state: StreamView, event: JsonView)
    requires
        !is_of(event, "message_start"@),
        !is_of(event, "content_block_start"@),
        !is_of(event, "content_block_delta"@),
        !is_of(event, "content_block_stop"@),
        !is_of(event, "message_delta"@),
        !is_of(event, "message_stop"@),
    ensures
        ({
            let (after, told) = crate::stream::on_event(state, event);
            &&& told.len() == 0
            &&& after == state
        }),
{
    lemma_types_differ();
}

/// All that the engine is told, event after event.
pub open spec fn told_over(state: StreamView, events: Seq<JsonView>) -> Seq<StreamEventView>
    decreases events.len(),
{
    if events.len() == 0 {
        Seq::empty()
    } else {
        told_over(state, events.drop_last()) + crate::stream::on_event(
            crate::laws::streaming::applied(state, events.drop_last()),
            events.last(),
        ).1
    }
}

/// The text that an event brings.
pub open spec fn text_of(event: JsonView) -> Seq<char> {
    match event.field("delta"@) {
        Some(delta) => if is_of(event, "content_block_delta"@) && delta.text_field("type"@) == Some(
            "text_delta"@,
        ) {
            match delta.text_field("text"@) {
                Some(text) => text,
                None => Seq::empty(),
            }
        } else {
            Seq::empty()
        },
        None => Seq::empty(),
    }
}

/// The texts of all events, put together.
pub open spec fn text_brought(events: Seq<JsonView>) -> Seq<char>
    decreases events.len(),
{
    if events.len() == 0 {
        Seq::empty()
    } else {
        text_brought(events.drop_last()) + text_of(events.last())
    }
}

/// The texts that the engine is handed, put together.
pub open spec fn text_told(told: Seq<StreamEventView>) -> Seq<char>
    decreases told.len(),
{
    if told.len() == 0 {
        Seq::empty()
    } else {
        text_told(told.drop_last()) + (match told.last() {
            StreamEventView::TextDelta(text) => text,
            _ => Seq::empty(),
        })
    }
}

proof fn lemma_text_told_adds(a: Seq<StreamEventView>, b: Seq<StreamEventView>)
    ensures
        text_told(a + b) == text_told(a) + text_told(b),
    decreases b.len(),
{
    if b.len() == 0 {
        assert(a + b =~= a);
        assert(text_told(a) + text_told(b) =~= text_told(a));
    } else {
        lemma_text_told_adds(a, b.drop_last());
        assert((a + b).drop_last() =~= a + b.drop_last());
        assert((a + b).last() == b.last());
        assert(text_told(a + b) =~= text_told(a) + text_told(b));
    }
}

/// The event ends a block that carries structured output that was asked for.
pub open spec fn ends_an_answer(state: StreamView, event: JsonView) -> bool {
    let index = match event.unsigned_field("index"@) {
        Some(index) => index,
        None => 0,
    };
    &&& state.expects_respond
    &&& is_of(event, "content_block_stop"@)
    &&& state.blocks.contains_key(index)
    &&& state.blocks[index].kind == Some("tool_use"@)
    &&& state.blocks[index].tool_name == Some("respond"@)
}

/// Of text an event hands on exactly what it brings, unless it ends structured output.
proof fn lemma_text_of_one_event(state: StreamView, event: JsonView)
    requires
        !ends_an_answer(state, event),
    ensures
        text_told(crate::stream::on_event(state, event).1) == text_of(event),
{
    lemma_types_differ();
    reveal_with_fuel(text_told, 2);
    let told = crate::stream::on_event(state, event).1;
    if told.len() == 1 {
        assert(told.drop_last() =~= Seq::empty());
        assert(text_told(told) =~= text_of(event));
    } else {
        assert(text_told(told) =~= text_of(event));
    }
}

/// Of a run of events the engine is handed exactly the text that they bring, in order and unchanged,
/// where no structured output ends among them.
pub proof fn law_text_is_handed_on_unchanged(state: StreamView, events: Seq<JsonView>)
    requires
        forall|i: int|
            0 <= i < events.len() ==> !ends_an_answer(
                crate::laws::streaming::applied(state, events.take(i)),
                #[trigger] events[i],
            ),
    ensures
        text_told(told_over(state, events)) == text_brought(events),
    decreases events.len(),
{
    if events.len() > 0 {
        let head = events.drop_last();
        assert forall|i: int| 0 <= i < head.len() implies !ends_an_answer(
            crate::laws::streaming::applied(state, head.take(i)),
            #[trigger] head[i],
        ) by {
            assert(head[i] == events[i]);
            assert(head.take(i) =~= events.take(i));
        }
        law_text_is_handed_on_unchanged(state, head);
        let before = crate::laws::streaming::applied(state, head);
        assert(events.take(events.len() - 1) =~= head);
        assert(!ends_an_answer(before, events[events.len() - 1]));
        lemma_text_of_one_event(before, events.last());
        lemma_text_told_adds(
            told_over(state, head),
            crate::stream::on_event(before, events.last()).1,
        );
    }
}

/// A stream begins with nothing known.
pub proof fn law_beginning_of_a_stream(expects_respond: bool)
    ensures
        ({
            let state = crate::stream::stream_start(expects_respond);
            &&& state.expects_respond == expects_respond
            &&& state.buffer.len() == 0
            &&& state.blocks.dom().is_empty()
            &&& state.final_finish is None
            &&& state.input_tokens == 0
            &&& state.output_tokens == 0
            &&& !state.respond_text_emitted
            &&& !state.stopped
        }),
{
}

/// The end of the turn says why it stopped, or that the reason is not known, and carries the counts
/// of the stream.
pub proof fn law_end_of_a_turn(state: StreamView)
    ensures
        crate::stream::finish_event(state) matches StreamEventView::Finish { reason, usage } && {
            &&& reason == (match state.final_finish {
                Some(reason) => reason,
                None => FinishReason::Other,
            })
            &&& usage.input_tokens == state.input_tokens
            &&& usage.output_tokens == state.output_tokens
            &&& usage.cached_input_tokens == 0
        },
{
}

/// What a tool block comes to when it is completed by itself, given what its pieces read as.
pub proof fn law_completed_tools(state: StreamView, block: BlockView, parsed: Option<JsonView>)
    ensures
        ({
            let (after, told) = crate::stream::on_tool_ready(state, block, parsed);
            let input = match parsed {
                Some(input) => input,
                None => JsonView::Object(Map::empty()),
            };
            let answers = state.expects_respond && block.tool_name == Some("respond"@);
            &&& told.len() == 1
            &&& after == (StreamView {
                respond_text_emitted: state.respond_text_emitted || answers,
                ..state
            })
            &&& answers ==> told[0] == StreamEventView::TextDelta(
                match crate::value::json_text(input) {
                    Ok(text) => text,
                    Err(_) => Seq::empty(),
                },
            )
            &&& !answers ==> (told[0] matches StreamEventView::ToolCallReady(call)
                && call.arguments == input)
        }),
{
    lemma_types_differ();
    assert(RESPOND_TOOL_NAME@ == "respond"@);
}

/// Structured output that was written out is handed on as that text, or as the empty text where it
/// could not be.
pub proof fn law_delivered_output(state: StreamView, printed: Result<Seq<char>, Seq<char>>)
    ensures
        ({
            let (after, told) = crate::stream::on_respond(state, printed);
            &&& after == (StreamView { respond_text_emitted: true, ..state })
            &&& told.len() == 1
            &&& told[0] == StreamEventView::TextDelta(
                match printed {
                    Ok(text) => text,
                    Err(_) => Seq::empty(),
                },
            )
        }),
{
}

/// The small helpers of the stream: the low 32 bits of a count, and a text that may be missing.
pub proof fn law_counts_and_texts(count: u64, text: Seq<char>, string: String)
    ensures
        crate::stream::low_u32(count) as int == count as int % 4294967296,
        crate::stream::count_or_zero(Some(count)) as int == count as int % 4294967296,
        crate::stream::count_or_zero(None) == 0,
        crate::stream::text_or_empty(Some(text)) == text,
        crate::stream::text_or_empty(None) == Seq::<char>::empty(),
        crate::stream::opt_view(Some(string)) == Some(string@),
        crate::stream::opt_view(None) is None,
{
}

} // verus!
