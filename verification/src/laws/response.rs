//! What the engine can rely on in every response and every failure.

use vstd::prelude::*;

use crate::encode::RESPOND_TOOL_NAME;
use crate::error::ErrorKind;
use crate::json::JsonView;
use crate::normalized::{FinishReason, TokenUsage, ToolCallView};

verus! {

/// Where the request declared an output schema, no tool call of the response is one of the
/// synthetic tool.
pub proof fn law_respond_is_never_a_call(blocks: Seq<JsonView>)
    ensures
        forall|i: int|
            0 <= i < crate::decode::gathered(blocks, true).tool_calls.len()
                ==> (#[trigger] crate::decode::gathered(blocks, true).tool_calls[i]).name
                != RESPOND_TOOL_NAME@,
    decreases blocks.len(),
{
    if blocks.len() > 0 {
        law_respond_is_never_a_call(blocks.drop_last());
    }
}

/// Where it did not, the name means nothing: every tool block is a tool call, in order, and there
/// is no structured output.
pub proof fn law_without_a_schema_every_tool_block_is_a_call(blocks: Seq<JsonView>)
    ensures
        crate::decode::gathered(blocks, false).respond_input is None,
        crate::decode::gathered(blocks, false).tool_calls == blocks.filter(
            |block: JsonView| crate::decode::block_kind(block) == "tool_use"@,
        ).map_values(|block: JsonView| crate::decode::block_call(block)),
    decreases blocks.len(),
{
    let is_tool = |block: JsonView| crate::decode::block_kind(block) == "tool_use"@;
    let call = |block: JsonView| crate::decode::block_call(block);
    reveal(Seq::filter);
    if blocks.len() > 0 {
        let head = blocks.drop_last();
        law_without_a_schema_every_tool_block_is_a_call(head);
        reveal_strlit("text");
        reveal_strlit("tool_use");
        assert("text"@.len() != "tool_use"@.len());
        if is_tool(blocks.last()) {
            assert(head.filter(is_tool).push(blocks.last()).map_values(call) =~= head.filter(
                is_tool,
            ).map_values(call).push(call(blocks.last())));
        }
    } else {
        assert(blocks.filter(is_tool).map_values(call) =~= Seq::empty());
    }
}

/// Structured output is unwrapped: where the answer holds a call of the synthetic tool, the content
/// is the input of the last one, written out, whatever text stands beside it, and the turn is over,
/// whatever reason the provider gives.
pub proof fn law_structured_output_is_unwrapped(value: JsonView, blocks: Seq<JsonView>, i: int)
    requires
        crate::decode::content_blocks(value) == Some(blocks),
        0 <= i < blocks.len(),
        crate::decode::is_respond_block(blocks[i], true),
        forall|j: int|
            i < j < blocks.len() ==> !crate::decode::is_respond_block(#[trigger] blocks[j], true),
    ensures
        crate::decode::gathered(blocks, true).respond_input == Some(
            crate::decode::block_call(blocks[i]).arguments,
        ),
        crate::decode::decoded(value, true) matches Ok(response) ==> {
            &&& response.finish_reason == FinishReason::Stop
            &&& crate::value::json_text(crate::decode::block_call(blocks[i]).arguments) == Ok::<
                Seq<char>,
                Seq<char>,
            >(response.content)
        },
{
    lemma_last_respond(blocks, i);
}

/// The last block that carries structured output is the one that counts.
proof fn lemma_last_respond(blocks: Seq<JsonView>, i: int)
    requires
        0 <= i < blocks.len(),
        crate::decode::is_respond_block(blocks[i], true),
        forall|j: int|
            i < j < blocks.len() ==> !crate::decode::is_respond_block(#[trigger] blocks[j], true),
    ensures
        crate::decode::gathered(blocks, true).respond_input == Some(
            crate::decode::block_call(blocks[i]).arguments,
        ),
    decreases blocks.len(),
{
    reveal_strlit("text");
    reveal_strlit("tool_use");
    assert("text"@.len() != "tool_use"@.len());
    if i < blocks.len() - 1 {
        let head = blocks.drop_last();
        assert forall|j: int| i < j < head.len() implies !crate::decode::is_respond_block(
            #[trigger] head[j],
            true,
        ) by {
            assert(head[j] == blocks[j]);
        }
        assert(head[i] == blocks[i]);
        lemma_last_respond(head, i);
        assert(!crate::decode::is_respond_block(blocks[blocks.len() - 1], true));
    }
}

/// A response that stops for tools calls some.
pub proof fn law_stopping_for_tools_means_calls(value: JsonView, expects_respond: bool)
    ensures
        crate::decode::decoded(value, expects_respond) matches Ok(response) ==> (
        response.finish_reason == FinishReason::ToolCalls ==> response.tool_calls.len() > 0),
{
}

/// An answer that arrives in pieces stops for the same reason as one that arrives whole, where it
/// calls tools or does not say that it does.
pub proof fn law_streaming_stops_for_the_same_reason(stop: Seq<char>, called: bool)
    requires
        called || stop != "tool_use"@,
    ensures
        crate::decode::finish_of(Some(stop), false, called) == crate::stream::stream_finish(stop),
{
    reveal_strlit("tool_use");
    reveal_strlit("max_tokens");
    reveal_strlit("end_turn");
    reveal_strlit("stop_sequence");
    assert("tool_use"@[0] != "end_turn"@[0]);
    assert("tool_use"@.len() == 8 && "max_tokens"@.len() == 10 && "stop_sequence"@.len() == 13);
}

/// Which statuses are worth another try: all but those that blame the request or the key.
pub proof fn law_statuses_worth_another_try(code: u16, message: Seq<char>)
    ensures
        crate::error::retryable(crate::status::status_kind(code, message)) <==> code != 400 && code
            != 401 && code != 403 && code != 413,
{
}

/// The block says something.
pub open spec fn says(block: JsonView) -> bool {
    block.text_field("type"@) == Some("text"@) && block.text_field("text"@) is Some
}

/// The block is a call of some tool.
pub open spec fn calls_a_tool(block: JsonView) -> bool {
    block.text_field("type"@) == Some("tool_use"@)
}

/// The block is a call of the tool that carries structured output.
pub open spec fn answers(block: JsonView) -> bool {
    calls_a_tool(block) && block.text_field("name"@) == Some("respond"@)
}

/// The texts of an answer, in order.
pub open spec fn texts_said(blocks: Seq<JsonView>) -> Seq<Seq<char>> {
    blocks.filter(|block: JsonView| says(block)).map_values(
        |block: JsonView| block.text_field("text"@)->0,
    )
}

/// The tool calls of an answer, in order, but for those that carry structured output where it was
/// asked for.
pub open spec fn calls_made(blocks: Seq<JsonView>, expects_respond: bool) -> Seq<JsonView> {
    blocks.filter(
        |block: JsonView| calls_a_tool(block) && !(expects_respond && answers(block)),
    )
}

/// The call says what the block says: its id and name, empty where they are missing, and its input,
/// null where it is missing.
pub open spec fn is_call_of(call: ToolCallView, block: JsonView) -> bool {
    &&& call.id == (match block.text_field("id"@) {
        Some(id) => id,
        None => Seq::empty(),
    })
    &&& call.name == (match block.text_field("name"@) {
        Some(name) => name,
        None => Seq::empty(),
    })
    &&& call.arguments == (match block.field("input"@) {
        Some(input) => input,
        None => JsonView::Null,
    })
}

/// The names of the blocks are what they are read as.
proof fn lemma_kinds_of_blocks(block: JsonView, expects_respond: bool)
    ensures
        crate::decode::block_kind(block) == "text"@ <==> block.text_field("type"@) == Some("text"@),
        crate::decode::block_kind(block) == "tool_use"@ <==> calls_a_tool(block),
        crate::decode::is_respond_block(block, expects_respond) <==> expects_respond && answers(
            block,
        ),
        is_call_of(crate::decode::block_call(block), block),
        "text"@ != "tool_use"@,
{
    reveal_strlit("text");
    reveal_strlit("tool_use");
    reveal_strlit("respond");
    assert("text"@.len() == 4 && "tool_use"@.len() == 8 && "respond"@.len() == 7);
}

proof fn lemma_gathered(blocks: Seq<JsonView>, expects_respond: bool)
    ensures
        ({
            let parts = crate::decode::gathered(blocks, expects_respond);
            let made = calls_made(blocks, expects_respond);
            &&& parts.texts == texts_said(blocks)
            &&& parts.tool_calls.len() == made.len()
            &&& forall|i: int|
                0 <= i < made.len() ==> is_call_of(#[trigger] parts.tool_calls[i], made[i])
            &&& parts.respond_input is Some <==> expects_respond && exists|i: int|
                0 <= i < blocks.len() && answers(#[trigger] blocks[i])
        }),
    decreases blocks.len(),
{
    let speaks = |block: JsonView| says(block);
    let text = |block: JsonView| block.text_field("text"@)->0;
    let calls = |block: JsonView| calls_a_tool(block) && !(expects_respond && answers(block));
    reveal(Seq::filter);
    if blocks.len() == 0 {
        assert(texts_said(blocks) =~= Seq::empty());
    } else {
        let head = blocks.drop_last();
        let last = blocks.last();
        lemma_gathered(head, expects_respond);
        lemma_kinds_of_blocks(last, expects_respond);
        if speaks(last) {
            assert(head.filter(speaks).push(last).map_values(text) =~= head.filter(
                speaks,
            ).map_values(text).push(text(last)));
        }
        assert(texts_said(blocks) == if speaks(last) {
            texts_said(head).push(text(last))
        } else {
            texts_said(head)
        });
        if exists|i: int| 0 <= i < blocks.len() && answers(#[trigger] blocks[i]) {
            let i = choose|i: int| 0 <= i < blocks.len() && answers(#[trigger] blocks[i]);
            if i < head.len() {
                assert(answers(head[i]));
            }
        }
        if exists|i: int| 0 <= i < head.len() && answers(#[trigger] head[i]) {
            let i = choose|i: int| 0 <= i < head.len() && answers(#[trigger] head[i]);
            assert(answers(blocks[i]));
        }
        if answers(last) {
            assert(answers(blocks[blocks.len() - 1]));
        }
    }
}

/// Where no block carries structured output, there is a response, and its content is all that the
/// blocks say, in order and with nothing in between, whatever other blocks stand beside them.
pub proof fn law_content_is_all_that_is_said(
    value: JsonView,
    blocks: Seq<JsonView>,
    expects_respond: bool,
)
    requires
        value.field("content"@) == Some(JsonView::Array(blocks)),
        expects_respond ==> forall|i: int|
            0 <= i < blocks.len() ==> !answers(#[trigger] blocks[i]),
    ensures
        crate::decode::decoded(value, expects_respond) matches Ok(response) && response.content
            == crate::text::joined(texts_said(blocks), Seq::empty()),
{
    lemma_gathered(blocks, expects_respond);
}

/// The tool calls of a response are those of the blocks, every one and in order, each with the id,
/// the name and the input of its block.
pub proof fn law_calls_are_all_that_are_made(
    value: JsonView,
    blocks: Seq<JsonView>,
    expects_respond: bool,
)
    requires
        value.field("content"@) == Some(JsonView::Array(blocks)),
    ensures
        crate::decode::decoded(value, expects_respond) matches Ok(response) ==> {
            let made = calls_made(blocks, expects_respond);
            &&& response.tool_calls.len() == made.len()
            &&& forall|i: int|
                0 <= i < made.len() ==> is_call_of(#[trigger] response.tool_calls[i], made[i])
        },
{
    lemma_gathered(blocks, expects_respond);
}

/// Where a block carries structured output that was asked for, the content is the input of the last
/// such block, written out, and the turn is over.
pub proof fn law_content_is_the_last_answer(value: JsonView, blocks: Seq<JsonView>, last: int)
    requires
        value.field("content"@) == Some(JsonView::Array(blocks)),
        0 <= last < blocks.len(),
        answers(blocks[last]),
        forall|j: int| last < j < blocks.len() ==> !answers(#[trigger] blocks[j]),
    ensures
        ({
            let input = match blocks[last].field("input"@) {
                Some(input) => input,
                None => JsonView::Null,
            };
            match crate::value::json_text(input) {
                Ok(text) => crate::decode::decoded(value, true) matches Ok(response)
                    && response.content == text && response.finish_reason == FinishReason::Stop,
                Err(reason) => crate::decode::decoded(value, true) matches Err(error) && error.kind
                    == ErrorKind::Malformed && error.message == "serialize respond.input: "@
                    + reason,
            }
        }),
{
    lemma_kinds_of_blocks(blocks[last], true);
    assert forall|j: int| last < j < blocks.len() implies !crate::decode::is_respond_block(
        #[trigger] blocks[j],
        true,
    ) by {
        lemma_kinds_of_blocks(blocks[j], true);
    }
    lemma_last_respond(blocks, last);
}

/// Why a turn stopped, by the provider's word for it, where it carries no structured output.
pub proof fn law_reasons_to_stop(value: JsonView, blocks: Seq<JsonView>, expects_respond: bool)
    requires
        value.field("content"@) == Some(JsonView::Array(blocks)),
        expects_respond ==> forall|i: int|
            0 <= i < blocks.len() ==> !answers(#[trigger] blocks[i]),
    ensures
        ({
            let stop = value.text_field("stop_reason"@);
            let called = calls_made(blocks, expects_respond).len() > 0;
            crate::decode::decoded(value, expects_respond) matches Ok(response) && {
                &&& stop == Some("end_turn"@) ==> response.finish_reason == FinishReason::Stop
                &&& stop == Some("stop_sequence"@) ==> response.finish_reason == FinishReason::Stop
                &&& stop == Some("max_tokens"@) ==> response.finish_reason == FinishReason::Length
                &&& stop == Some("tool_use"@) && called ==> response.finish_reason
                    == FinishReason::ToolCalls
                &&& stop == Some("tool_use"@) && !called ==> response.finish_reason
                    == FinishReason::Other
                &&& stop is None ==> response.finish_reason == FinishReason::Other
                &&& stop is Some && stop != Some("end_turn"@) && stop != Some("stop_sequence"@)
                    && stop != Some("max_tokens"@) && stop != Some("tool_use"@)
                    ==> response.finish_reason == FinishReason::Other
            }
        }),
{
    lemma_gathered(blocks, expects_respond);
    reveal_strlit("tool_use");
    reveal_strlit("max_tokens");
    reveal_strlit("end_turn");
    reveal_strlit("stop_sequence");
    assert("tool_use"@[0] != "end_turn"@[0]);
    assert("tool_use"@.len() == 8 && "end_turn"@.len() == 8 && "max_tokens"@.len() == 10
        && "stop_sequence"@.len() == 13);
}

/// A count as it is kept: its low 32 bits, or zero where it is no unsigned integer.
pub open spec fn is_count(kept: u32, count: Option<u64>) -> bool {
    kept as int == (match count {
        Some(count) => count as int % 4294967296,
        None => 0,
    })
}

/// The tokens of a response are the three counts of the answer, or zero.
pub proof fn law_tokens_are_counted(value: JsonView, expects_respond: bool)
    ensures
        crate::decode::decoded(value, expects_respond) matches Ok(response) ==> match value.field(
            "usage"@,
        ) {
            Some(usage) => {
                &&& is_count(
                    response.usage.input_tokens,
                    usage.unsigned_field("input_tokens"@),
                )
                &&& is_count(
                    response.usage.output_tokens,
                    usage.unsigned_field("output_tokens"@),
                )
                &&& is_count(
                    response.usage.cached_input_tokens,
                    usage.unsigned_field("cache_read_input_tokens"@),
                )
            },
            None => response.usage.input_tokens == 0 && response.usage.output_tokens == 0
                && response.usage.cached_input_tokens == 0,
        },
{
}

/// An answer without a list of blocks is refused.
pub proof fn law_which_answers_are_refused(value: JsonView, expects_respond: bool)
    requires
        !(value.field("content"@) matches Some(content) && content is Array),
    ensures
        crate::decode::decoded(value, expects_respond) matches Err(error) && error.kind
            == ErrorKind::Malformed && error.message == "response has no `content` array"@,
{
}

/// The counts of a usage, taken by themselves.
pub proof fn law_counts_of_a_usage(usage: JsonView)
    ensures
        ({
            let tokens = crate::decode::usage_of(Some(usage));
            &&& is_count(tokens.input_tokens, usage.unsigned_field("input_tokens"@))
            &&& is_count(tokens.output_tokens, usage.unsigned_field("output_tokens"@))
            &&& is_count(
                tokens.cached_input_tokens,
                usage.unsigned_field("cache_read_input_tokens"@),
            )
            &&& crate::decode::usage_of(None) == (TokenUsage {
                input_tokens: 0,
                output_tokens: 0,
                cached_input_tokens: 0,
            })
        }),
{
}

/// What the reading functions return when they are called by themselves: the reason to stop, the
/// content, and what the blocks add up to.
pub proof fn law_parts_of_a_reading(
    blocks: Seq<JsonView>,
    expects_respond: bool,
    stop: Option<Seq<char>>,
    responded: bool,
    called: bool,
    texts: Seq<Seq<char>>,
    text: Seq<char>,
    printed: Result<String, String>,
)
    ensures
        crate::decode::gathered(blocks, expects_respond).texts == texts_said(blocks),
        crate::decode::gathered(blocks, expects_respond).tool_calls.len() == calls_made(
            blocks,
            expects_respond,
        ).len(),
        responded ==> crate::decode::finish_of(stop, responded, called) == FinishReason::Stop,
        crate::decode::content_of(texts, None) matches Ok(content) && content
            == crate::text::joined(texts, Seq::empty()),
        crate::decode::content_of(texts, Some(Ok(text))) matches Ok(content) && content == text,
        crate::decode::content_of(texts, Some(Err(text))) matches Err(error) && error.kind
            == ErrorKind::Malformed && error.message == "serialize respond.input: "@ + text,
        crate::decode::printed_view(printed) == (match printed {
            Ok(text) => Ok::<Seq<char>, Seq<char>>(text@),
            Err(reason) => Err(reason@),
        }),
{
    lemma_gathered(blocks, expects_respond);
}

} // verus!
