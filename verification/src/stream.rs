//! A model turn that arrives in pieces: from the bytes of the answer to the engine's events.

use std::collections::BTreeMap;

use vstd::prelude::*;
use vstd::string::*;
use vstd::utf8::*;

use crate::encode::RESPOND_TOOL_NAME;
use crate::error::{ErrorKind, ErrorView, ProviderError};
use crate::json::{Json, JsonView};
use crate::normalized::{
    FinishReason, NormalizedStreamEvent, StreamEventView, TokenUsage, ToolCall, ToolCallView,
};
use crate::sse::{find_event_boundary, find_event_data, strip_boundary_prefix, utf8_text};
use crate::text::{text_concat, text_eq};

verus! {

broadcast use {vstd::string::group_string_axioms, vstd::std_specs::btree::group_btree_axioms};

/// What is known of a content block that has begun and not ended.
pub struct BlockState {
    pub kind: Option<String>,
    pub tool_id: Option<String>,
    pub tool_name: Option<String>,
    /// The pieces of the tool's input that have arrived, put together.
    pub json_buffer: String,
}

/// The model of a [`BlockState`].
#[verifier::ext_equal]
pub struct BlockView {
    pub kind: Option<Seq<char>>,
    pub tool_id: Option<Seq<char>>,
    pub tool_name: Option<Seq<char>>,
    pub json_buffer: Seq<char>,
}

/// The characters of a string that may be missing.
pub open spec fn opt_view(text: Option<String>) -> Option<Seq<char>> {
    match text {
        Some(text) => Some(text@),
        None => None,
    }
}

impl View for BlockState {
    type V = BlockView;

    open spec fn view(&self) -> BlockView {
        BlockView {
            kind: opt_view(self.kind),
            tool_id: opt_view(self.tool_id),
            tool_name: opt_view(self.tool_name),
            json_buffer: self.json_buffer@,
        }
    }
}

/// Turns the bytes of a streamed answer into events.
pub struct StreamDecoder {
    /// Whether the request declared an output schema.
    pub expects_respond: bool,
    /// The bytes that have arrived and do not make up an event yet.
    pub buffer: Vec<u8>,
    /// The content blocks that have begun and not ended, by their index.
    pub blocks: BTreeMap<u64, BlockState>,
    pub final_finish: Option<FinishReason>,
    pub input_tokens: u32,
    pub output_tokens: u32,
    /// Whether structured output has been handed on as text.
    pub respond_text_emitted: bool,
    /// Whether the answer has said that it is complete.
    pub stopped: bool,
}

/// The model of a [`StreamDecoder`].
#[verifier::ext_equal]
pub struct StreamView {
    pub expects_respond: bool,
    pub buffer: Seq<u8>,
    pub blocks: Map<u64, BlockView>,
    pub final_finish: Option<FinishReason>,
    pub input_tokens: u32,
    pub output_tokens: u32,
    pub respond_text_emitted: bool,
    pub stopped: bool,
}

/// The models of the blocks.
pub open spec fn block_views(blocks: Map<u64, BlockState>) -> Map<u64, BlockView> {
    blocks.map_values(|block: BlockState| block@)
}

impl View for StreamDecoder {
    type V = StreamView;

    open spec fn view(&self) -> StreamView {
        StreamView {
            expects_respond: self.expects_respond,
            buffer: self.buffer@,
            blocks: block_views(self.blocks@),
            final_finish: self.final_finish,
            input_tokens: self.input_tokens,
            output_tokens: self.output_tokens,
            respond_text_emitted: self.respond_text_emitted,
            stopped: self.stopped,
        }
    }
}

/// The state before any byte has arrived.
pub open spec fn stream_start(expects_respond: bool) -> StreamView {
    StreamView {
        expects_respond,
        buffer: Seq::empty(),
        blocks: Map::empty(),
        final_finish: None,
        input_tokens: 0,
        output_tokens: 0,
        respond_text_emitted: false,
        stopped: false,
    }
}

/// The low 32 bits of a count.
pub open spec fn low_u32(count: u64) -> u32 {
    (count % 0x1_0000_0000) as u32
}

/// A count that may be missing, in 32 bits.
pub open spec fn count_or_zero(count: Option<u64>) -> u32 {
    match count {
        Some(count) => low_u32(count),
        None => 0,
    }
}

/// A text that may be missing, or else the empty one.
pub open spec fn text_or_empty(text: Option<Seq<char>>) -> Seq<char> {
    match text {
        Some(text) => text,
        None => Seq::empty(),
    }
}

/// The block that an event speaks of.
pub open spec fn block_index(event: JsonView) -> u64 {
    match event.unsigned_field("index"@) {
        Some(index) => index,
        None => 0,
    }
}

/// A block of which nothing is known.
pub open spec fn new_block() -> BlockView {
    BlockView { kind: None, tool_id: None, tool_name: None, json_buffer: Seq::empty() }
}

/// The block with the given index, or a new one.
pub open spec fn block_or_new(blocks: Map<u64, BlockView>, index: u64) -> BlockView {
    if blocks.contains_key(index) {
        blocks[index]
    } else {
        new_block()
    }
}

/// The beginning of the answer, which counts the tokens of the conversation.
pub open spec fn on_message_start(state: StreamView, event: JsonView) -> StreamView {
    match event.field("message"@) {
        Some(message) => match message.field("usage"@) {
            Some(usage) => StreamView {
                input_tokens: count_or_zero(usage.unsigned_field("input_tokens"@)),
                ..state
            },
            None => state,
        },
        None => state,
    }
}

/// What the beginning of a block says of it.
pub open spec fn described_block(block: BlockView, description: JsonView) -> BlockView {
    BlockView {
        kind: Some(text_or_empty(description.text_field("type"@))),
        tool_id: match description.text_field("id"@) {
            Some(id) => Some(id),
            None => block.tool_id,
        },
        tool_name: match description.text_field("name"@) {
            Some(name) => Some(name),
            None => block.tool_name,
        },
        json_buffer: block.json_buffer,
    }
}

/// The beginning of a block.
pub open spec fn on_block_start(state: StreamView, event: JsonView) -> StreamView {
    let index = block_index(event);
    let block = block_or_new(state.blocks, index);
    StreamView {
        blocks: state.blocks.insert(
            index,
            match event.field("content_block"@) {
                Some(description) => described_block(block, description),
                None => block,
            },
        ),
        ..state
    }
}

/// More of a block: text, which is handed on, or a piece of a tool's input, which is kept.
pub open spec fn on_block_delta(state: StreamView, event: JsonView) -> (
    StreamView,
    Seq<StreamEventView>,
) {
    let index = block_index(event);
    match event.field("delta"@) {
        None => (state, Seq::empty()),
        Some(delta) => {
            let kind = text_or_empty(delta.text_field("type"@));
            let block = block_or_new(state.blocks, index);
            let piece = delta.text_field("partial_json"@);
            let kept = if kind == "input_json_delta"@ && piece is Some {
                BlockView { json_buffer: block.json_buffer + piece->0, ..block }
            } else {
                block
            };
            let text = delta.text_field("text"@);
            (
                StreamView { blocks: state.blocks.insert(index, kept), ..state },
                if kind == "text_delta"@ && text is Some {
                    seq![StreamEventView::TextDelta(text->0)]
                } else {
                    Seq::empty()
                },
            )
        },
    }
}

/// The input of a tool, given what its pieces read as: the empty object where they are not JSON.
pub open spec fn tool_arguments(parsed: Option<JsonView>) -> JsonView {
    match parsed {
        Some(arguments) => arguments,
        None => JsonView::Object(Map::empty()),
    }
}

/// Structured output as text, given what writing it out gave: nothing where that failed.
pub open spec fn printed_or_empty(printed: Result<Seq<char>, Seq<char>>) -> Seq<char> {
    match printed {
        Ok(text) => text,
        Err(_) => Seq::empty(),
    }
}

/// Structured output that has been written out is handed on as text.
pub open spec fn on_respond(state: StreamView, printed: Result<Seq<char>, Seq<char>>) -> (
    StreamView,
    Seq<StreamEventView>,
) {
    (
        StreamView { respond_text_emitted: true, ..state },
        seq![StreamEventView::TextDelta(printed_or_empty(printed))],
    )
}

/// The end of a tool block, given what its input reads as: structured output, or a tool call.
pub open spec fn on_tool_ready(
    state: StreamView,
    block: BlockView,
    parsed: Option<JsonView>,
) -> (StreamView, Seq<StreamEventView>) {
    let name = text_or_empty(block.tool_name);
    let arguments = tool_arguments(parsed);
    if state.expects_respond && name == RESPOND_TOOL_NAME@ {
        on_respond(state, crate::value::json_text(arguments))
    } else {
        (
            state,
            seq![
                StreamEventView::ToolCallReady(
                    ToolCallView { id: text_or_empty(block.tool_id), name, arguments },
                ),
            ],
        )
    }
}

/// The end of a block, which is then forgotten.
pub open spec fn on_block_stop(state: StreamView, event: JsonView) -> (
    StreamView,
    Seq<StreamEventView>,
) {
    let index = block_index(event);
    let rest = StreamView { blocks: state.blocks.remove(index), ..state };
    if state.blocks.contains_key(index) && state.blocks[index].kind == Some("tool_use"@) {
        let block = state.blocks[index];
        on_tool_ready(rest, block, crate::value::text_json(block.json_buffer))
    } else {
        (rest, Seq::empty())
    }
}

/// What a reason to stop means where no structured output has been handed on.
pub open spec fn stream_finish(stop: Seq<char>) -> FinishReason {
    if stop == "end_turn"@ || stop == "stop_sequence"@ {
        FinishReason::Stop
    } else if stop == "tool_use"@ {
        FinishReason::ToolCalls
    } else if stop == "max_tokens"@ {
        FinishReason::Length
    } else {
        FinishReason::Other
    }
}

/// News of the whole answer: why it stopped, and how many tokens it took so far.
pub open spec fn on_message_delta(state: StreamView, event: JsonView) -> StreamView {
    let stop = match event.field("delta"@) {
        Some(delta) => delta.text_field("stop_reason"@),
        None => None,
    };
    let tokens = match event.field("usage"@) {
        Some(usage) => usage.unsigned_field("output_tokens"@),
        None => None,
    };
    StreamView {
        final_finish: match stop {
            Some(stop) => Some(
                if state.respond_text_emitted {
                    FinishReason::Stop
                } else {
                    stream_finish(stop)
                },
            ),
            None => state.final_finish,
        },
        output_tokens: match tokens {
            Some(tokens) => low_u32(tokens),
            None => state.output_tokens,
        },
        ..state
    }
}

/// One event of the answer.
pub open spec fn on_event(state: StreamView, event: JsonView) -> (
    StreamView,
    Seq<StreamEventView>,
) {
    let kind = text_or_empty(event.text_field("type"@));
    if kind == "message_start"@ {
        (on_message_start(state, event), Seq::empty())
    } else if kind == "content_block_start"@ {
        (on_block_start(state, event), Seq::empty())
    } else if kind == "content_block_delta"@ {
        on_block_delta(state, event)
    } else if kind == "content_block_stop"@ {
        on_block_stop(state, event)
    } else if kind == "message_delta"@ {
        (on_message_delta(state, event), Seq::empty())
    } else if kind == "message_stop"@ {
        (StreamView { stopped: true, ..state }, Seq::empty())
    } else {
        (state, Seq::empty())
    }
}

/// What an event of the wire says, where it is UTF-8, has a `data:` line, and that is JSON.
pub open spec fn event_json(event: Seq<u8>) -> Option<JsonView> {
    if valid_utf8(event) {
        match crate::sse::event_data(decode_utf8(event)) {
            Some(data) => crate::value::text_json(data),
            None => None,
        }
    } else {
        None
    }
}

/// The first event of a buffer and what follows it, where all of the event has arrived.
pub open spec fn next_event(buffer: Seq<u8>) -> Option<(Seq<u8>, Seq<u8>)> {
    match crate::sse::event_boundary(buffer) {
        Some(end) => {
            let rest = buffer.skip(end);
            Some((buffer.take(end), rest.skip(crate::sse::boundary_len(rest))))
        },
        None => None,
    }
}

/// What comes of an event of the wire, given what it says, if anything.
pub open spec fn on_wire_event(state: StreamView, event: Option<JsonView>) -> (
    StreamView,
    Seq<StreamEventView>,
) {
    match event {
        Some(event) => on_event(state, event),
        None => (state, Seq::empty()),
    }
}

/// All that comes of the events in the buffer. Behind the end of the answer nothing is read.
pub open spec fn drained(state: StreamView) -> (StreamView, Seq<StreamEventView>)
    decreases state.buffer.len(),
{
    if state.stopped {
        (StreamView { buffer: Seq::empty(), ..state }, Seq::empty())
    } else {
        match next_event(state.buffer) {
            None => (state, Seq::empty()),
            Some((event, rest)) => {
                proof {
                    lemma_next_event_shorter(state.buffer);
                    lemma_on_wire_event_keeps(StreamView { buffer: rest, ..state }, event_json(event));
                }
                let step = on_wire_event(StreamView { buffer: rest, ..state }, event_json(event));
                let more = drained(step.0);
                (more.0, step.1 + more.1)
            },
        }
    }
}

/// What comes of more bytes of the answer.
pub open spec fn fed(state: StreamView, chunk: Seq<u8>) -> (StreamView, Seq<StreamEventView>) {
    drained(StreamView { buffer: state.buffer + chunk, ..state })
}

/// The structured output that an event completes, if it completes any.
pub open spec fn completed_output(state: StreamView, event: JsonView) -> Option<JsonView> {
    let index = block_index(event);
    let block = state.blocks[index];
    if text_or_empty(event.text_field("type"@)) == "content_block_stop"@
        && state.blocks.contains_key(index) && block.kind == Some("tool_use"@)
        && state.expects_respond && text_or_empty(block.tool_name) == RESPOND_TOOL_NAME@ {
        Some(tool_arguments(crate::value::text_json(block.json_buffer)))
    } else {
        None
    }
}

/// Where structured output survives being written out and read, it can be read from the text that
/// the engine is handed.
pub open spec fn reads_back_from(told: Seq<StreamEventView>, output: JsonView) -> bool {
    crate::value::reads_back(output, crate::value::READ_DEPTH as nat) ==> told.len() == 1 && (
    told[0] matches StreamEventView::TextDelta(text) && crate::value::text_json(text) == Some(
        output,
    ))
}

/// All structured output that the events in the buffer complete can be read back.
pub open spec fn drained_reads_back(state: StreamView) -> bool
    decreases state.buffer.len(),
{
    state.stopped || match next_event(state.buffer) {
        None => true,
        Some((event, rest)) => {
            proof {
                lemma_next_event_shorter(state.buffer);
                lemma_on_wire_event_keeps(StreamView { buffer: rest, ..state }, event_json(event));
            }
            let start = StreamView { buffer: rest, ..state };
            let step = on_wire_event(start, event_json(event));
            &&& event_json(event) matches Some(said) ==> completed_output(start, said) matches Some(
                output,
            ) ==> reads_back_from(step.1, output)
            &&& drained_reads_back(step.0)
        },
    }
}

/// What comes from the provider next.
pub enum Arrival {
    /// More bytes of the answer.
    Bytes(Vec<u8>),
    /// The answer could not be read on, for the given reason.
    Failed(String),
    /// The provider has nothing more to send.
    Ended,
}

/// The model of an [`Arrival`].
#[verifier::ext_equal]
pub enum ArrivalView {
    Bytes(Seq<u8>),
    Failed(Seq<char>),
    Ended,
}

impl View for Arrival {
    type V = ArrivalView;

    open spec fn view(&self) -> ArrivalView {
        match self {
            Arrival::Bytes(chunk) => ArrivalView::Bytes(chunk@),
            Arrival::Failed(reason) => ArrivalView::Failed(reason@),
            Arrival::Ended => ArrivalView::Ended,
        }
    }
}

/// The model of what the engine is told: an event, or the error that ends the turn.
pub open spec fn item_view(item: Result<NormalizedStreamEvent, ProviderError>) -> Result<
    StreamEventView,
    ErrorView,
> {
    match item {
        Ok(event) => Ok(event@),
        Err(error) => Err(error@),
    }
}

/// The models of all that the engine is told.
pub open spec fn item_views(items: Seq<Result<NormalizedStreamEvent, ProviderError>>) -> Seq<
    Result<StreamEventView, ErrorView>,
> {
    items.map_values(|item: Result<NormalizedStreamEvent, ProviderError>| item_view(item))
}

/// Events as the engine is told of them.
pub open spec fn event_items(events: Seq<StreamEventView>) -> Seq<
    Result<StreamEventView, ErrorView>,
> {
    events.map_values(|event: StreamEventView| Ok::<StreamEventView, ErrorView>(event))
}

/// The end of the turn, with all that is known of why it stopped and of the tokens it took.
pub open spec fn finish_event(state: StreamView) -> StreamEventView {
    StreamEventView::Finish {
        reason: match state.final_finish {
            Some(reason) => reason,
            None => FinishReason::Other,
        },
        usage: TokenUsage {
            input_tokens: state.input_tokens,
            output_tokens: state.output_tokens,
            cached_input_tokens: 0,
        },
    }
}

/// The error that ends a turn whose answer could not be read on.
pub open spec fn read_error(reason: Seq<char>) -> ErrorView {
    ErrorView { kind: ErrorKind::Network, message: "read sse chunk: "@ + reason }
}

/// What comes of an arrival: the new state, what the engine is told, and whether that is all.
pub open spec fn on_arrival(state: StreamView, arrival: ArrivalView) -> (
    StreamView,
    Seq<Result<StreamEventView, ErrorView>>,
    bool,
) {
    match arrival {
        ArrivalView::Bytes(chunk) => {
            let (next, events) = fed(state, chunk);
            if next.stopped {
                (next, event_items(events).push(Ok(finish_event(next))), true)
            } else {
                (next, event_items(events), false)
            }
        },
        ArrivalView::Failed(reason) => (state, seq![Err(read_error(reason))], true),
        ArrivalView::Ended => (state, seq![Ok(finish_event(state))], true),
    }
}

/// An event and its blank line take up bytes.
pub proof fn lemma_next_event_shorter(buffer: Seq<u8>)
    ensures
        next_event(buffer) matches Some((event, rest)) ==> rest.len() < buffer.len(),
{
    if crate::sse::has_mark(buffer, crate::sse::crlf_mark()) {
        crate::sse::lemma_first_mark_is(buffer, crate::sse::crlf_mark());
        let end = crate::sse::event_boundary(buffer)->0;
        assert(crate::sse::mark_at(buffer, crate::sse::crlf_mark(), end));
        assert(buffer.skip(end).subrange(0, 4) =~= buffer.subrange(end, end + 4));
    } else if crate::sse::has_mark(buffer, crate::sse::lf_mark()) {
        crate::sse::lemma_first_mark_is(buffer, crate::sse::lf_mark());
        let end = crate::sse::event_boundary(buffer)->0;
        assert(crate::sse::mark_at(buffer, crate::sse::lf_mark(), end));
        assert(buffer.skip(end).subrange(0, 2) =~= buffer.subrange(end, end + 2));
    }
}

/// An event touches neither the buffer nor what the request asked for.
pub proof fn lemma_on_wire_event_keeps(state: StreamView, event: Option<JsonView>)
    ensures
        on_wire_event(state, event).0.buffer == state.buffer,
        on_wire_event(state, event).0.expects_respond == state.expects_respond,
{
}

/// The low 32 bits of a count.
fn low_bits(count: u64) -> (low: u32)
    ensures
        low == low_u32(count),
{
    assert(count as u32 == count % 0x1_0000_0000) by (bit_vector);
    count as u32
}

/// The count in 32 bits, or zero.
pub fn count_bits(count: Option<u64>) -> (low: u32)
    ensures
        low == count_or_zero(count),
{
    match count {
        Some(count) => low_bits(count),
        None => 0,
    }
}

/// The text as an owned string, or the empty one.
pub fn text_or_default(text: Option<&str>) -> (owned: String)
    ensures
        owned@ == text_or_empty(
            match text {
                Some(text) => Some(text@),
                None => None,
            },
        ),
{
    match text {
        Some(text) => text.to_owned(),
        None => String::new(),
    }
}

/// The block that an event speaks of.
fn index_of(event: &Json) -> (index: u64)
    ensures
        index == block_index(event@),
{
    match event.get_u64("index") {
        Some(index) => index,
        None => 0,
    }
}

/// What a reason to stop means where no structured output has been handed on.
fn stream_finish_reason(stop: &str) -> (reason: FinishReason)
    ensures
        reason == stream_finish(stop@),
{
    if text_eq(stop, "end_turn") || text_eq(stop, "stop_sequence") {
        FinishReason::Stop
    } else if text_eq(stop, "tool_use") {
        FinishReason::ToolCalls
    } else if text_eq(stop, "max_tokens") {
        FinishReason::Length
    } else {
        FinishReason::Other
    }
}

impl StreamDecoder {
    /// A decoder for an answer of which nothing has arrived.
    pub fn new(expects_respond: bool) -> (decoder: StreamDecoder)
        ensures
            decoder@ == stream_start(expects_respond),
    {
        let decoder = StreamDecoder {
            expects_respond,
            buffer: Vec::new(),
            blocks: BTreeMap::new(),
            final_finish: None,
            input_tokens: 0,
            output_tokens: 0,
            respond_text_emitted: false,
            stopped: false,
        };
        assert(block_views(decoder.blocks@) =~= Map::empty());
        decoder
    }

    /// Takes the block with the given index out, or makes a new one.
    fn take_block(&mut self, index: u64) -> (block: BlockState)
        ensures
            block@ == block_or_new(old(self)@.blocks, index),
            final(self)@ == (StreamView { blocks: old(self)@.blocks.remove(index), ..old(self)@ }),
    {
        let taken = self.blocks.remove(&index);
        assert(block_views(self.blocks@) =~= block_views(old(self).blocks@).remove(index));
        match taken {
            Some(block) => block,
            None => BlockState {
                kind: None,
                tool_id: None,
                tool_name: None,
                json_buffer: String::new(),
            },
        }
    }

    /// Puts a block in place.
    fn put_block(&mut self, index: u64, block: BlockState)
        ensures
            final(self)@ == (StreamView {
                blocks: old(self)@.blocks.insert(index, block@),
                ..old(self)@
            }),
    {
        self.blocks.insert(index, block);
        assert(block_views(self.blocks@) =~= block_views(old(self).blocks@).insert(index, block@));
    }

    /// The beginning of the answer.
    fn message_start(&mut self, event: &Json)
        ensures
            final(self)@ == on_message_start(old(self)@, event@),
    {
        if let Some(message) = event.get("message") {
            if let Some(usage) = message.get("usage") {
                self.input_tokens = count_bits(usage.get_u64("input_tokens"));
            }
        }
    }

    /// The beginning of a block.
    fn block_start(&mut self, event: &Json)
        ensures
            final(self)@ == on_block_start(old(self)@, event@),
    {
        let index: u64 = index_of(event);
        let mut block: BlockState = self.take_block(index);
        if let Some(description) = event.get("content_block") {
            block.kind = Some(text_or_default(description.get_str("type")));
            if let Some(id) = description.get_str("id") {
                block.tool_id = Some(id.to_owned());
            }
            if let Some(name) = description.get_str("name") {
                block.tool_name = Some(name.to_owned());
            }
        }
        let ghost kept = block@;
        self.put_block(index, block);
        assert(self@.blocks =~= old(self)@.blocks.insert(index, kept));
    }

    /// More of a block.
    fn block_delta(&mut self, event: &Json) -> (events: Vec<NormalizedStreamEvent>)
        ensures
            (final(self)@, crate::normalized::event_views(events@)) == on_block_delta(
                old(self)@,
                event@,
            ),
    {
        let mut events: Vec<NormalizedStreamEvent> = Vec::new();
        let index: u64 = index_of(event);
        if let Some(delta) = event.get("delta") {
            let kind: String = text_or_default(delta.get_str("type"));
            let mut block: BlockState = self.take_block(index);
            if text_eq(kind.as_str(), "text_delta") {
                if let Some(text) = delta.get_str("text") {
                    events.push(NormalizedStreamEvent::TextDelta(text.to_owned()));
                }
            } else if text_eq(kind.as_str(), "input_json_delta") {
                if let Some(piece) = delta.get_str("partial_json") {
                    block.json_buffer.append(piece);
                }
            }
            proof {
                reveal_strlit("text_delta");
                reveal_strlit("input_json_delta");
                assert("text_delta"@.len() != "input_json_delta"@.len());
            }
            let ghost kept = block@;
            self.put_block(index, block);
            assert(self@.blocks =~= old(self)@.blocks.insert(index, kept));
        }
        assert(crate::normalized::event_views(events@) =~= on_block_delta(old(self)@, event@).1);
        events
    }

    /// Hands structured output on as text, given what writing it out gave.
    pub fn deliver_respond(&mut self, printed: Result<String, String>) -> (events: Vec<
        NormalizedStreamEvent,
    >)
        ensures
            (final(self)@, crate::normalized::event_views(events@)) == on_respond(
                old(self)@,
                match printed {
                    Ok(text) => Ok(text@),
                    Err(reason) => Err(reason@),
                },
            ),
    {
        self.respond_text_emitted = true;
        let text: String = match printed {
            Ok(text) => text,
            Err(_) => String::new(),
        };
        let mut events: Vec<NormalizedStreamEvent> = Vec::new();
        events.push(NormalizedStreamEvent::TextDelta(text));
        assert(crate::normalized::event_views(events@) =~= seq![
            StreamEventView::TextDelta(text@),
        ]);
        events
    }

    /// Completes a tool block, given what its input reads as. Without an input that is JSON the
    /// tool gets the empty object.
    pub fn complete_tool(&mut self, block: BlockState, parsed: Option<Json>) -> (events: Vec<
        NormalizedStreamEvent,
    >)
        ensures
            (final(self)@, crate::normalized::event_views(events@)) == on_tool_ready(
                old(self)@,
                block@,
                match parsed {
                    Some(arguments) => Some(arguments@),
                    None => None,
                },
            ),
            old(self)@.expects_respond && text_or_empty(block@.tool_name) == RESPOND_TOOL_NAME@
                ==> reads_back_from(
                crate::normalized::event_views(events@),
                tool_arguments(
                    match parsed {
                        Some(arguments) => Some(arguments@),
                        None => None,
                    },
                ),
            ),
    {
        let arguments: Json = match parsed {
            Some(arguments) => arguments,
            None => Json::Object(Vec::new()),
        };
        let name: String = match block.tool_name {
            Some(name) => name,
            None => String::new(),
        };
        if self.expects_respond && text_eq(name.as_str(), RESPOND_TOOL_NAME) {
            return self.deliver_respond(arguments.to_json_text());
        }
        let id: String = match block.tool_id {
            Some(id) => id,
            None => String::new(),
        };
        let mut events: Vec<NormalizedStreamEvent> = Vec::new();
        let ghost call = ToolCallView { id: id@, name: name@, arguments: arguments@ };
        events.push(NormalizedStreamEvent::ToolCallReady(ToolCall { id, name, arguments }));
        assert(crate::normalized::event_views(events@) =~= seq![
            StreamEventView::ToolCallReady(call),
        ]);
        events
    }

    /// The end of a block.
    fn block_stop(&mut self, event: &Json) -> (events: Vec<NormalizedStreamEvent>)
        ensures
            (final(self)@, crate::normalized::event_views(events@)) == on_block_stop(
                old(self)@,
                event@,
            ),
            completed_output(old(self)@, event@) matches Some(output) ==> reads_back_from(
                crate::normalized::event_views(events@),
                output,
            ),
    {
        let index: u64 = index_of(event);
        let block: BlockState = self.take_block(index);
        let is_tool: bool = match &block.kind {
            Some(kind) => text_eq(kind.as_str(), "tool_use"),
            None => false,
        };
        if is_tool {
            let parsed: Option<Json> = Json::from_json_text(block.json_buffer.as_str());
            return self.complete_tool(block, parsed);
        }
        let events: Vec<NormalizedStreamEvent> = Vec::new();
        assert(crate::normalized::event_views(events@) =~= Seq::empty());
        events
    }

    /// News of the whole answer.
    fn message_delta(&mut self, event: &Json)
        ensures
            final(self)@ == on_message_delta(old(self)@, event@),
    {
        if let Some(delta) = event.get("delta") {
            if let Some(stop) = delta.get_str("stop_reason") {
                self.final_finish = Some(
                    if self.respond_text_emitted {
                        FinishReason::Stop
                    } else {
                        stream_finish_reason(stop)
                    },
                );
            }
        }
        if let Some(usage) = event.get("usage") {
            if let Some(tokens) = usage.get_u64("output_tokens") {
                self.output_tokens = low_bits(tokens);
            }
        }
    }

    /// Takes in one event of the answer and returns what the engine is to be told.
    pub fn apply_event(&mut self, event: &Json) -> (events: Vec<NormalizedStreamEvent>)
        ensures
            (final(self)@, crate::normalized::event_views(events@)) == on_event(
                old(self)@,
                event@,
            ),
            completed_output(old(self)@, event@) matches Some(output) ==> reads_back_from(
                crate::normalized::event_views(events@),
                output,
            ),
    {
        let kind: String = text_or_default(event.get_str("type"));
        let none: Vec<NormalizedStreamEvent> = Vec::new();
        assert(crate::normalized::event_views(none@) =~= Seq::empty());
        proof {
            reveal_strlit("message_start");
            reveal_strlit("content_block_start");
            reveal_strlit("content_block_delta");
            reveal_strlit("content_block_stop");
            reveal_strlit("message_delta");
            reveal_strlit("message_stop");
            assert("content_block_stop"@.len() == 18);
        }
        if text_eq(kind.as_str(), "message_start") {
            self.message_start(event);
        } else if text_eq(kind.as_str(), "content_block_start") {
            self.block_start(event);
        } else if text_eq(kind.as_str(), "content_block_delta") {
            return self.block_delta(event);
        } else if text_eq(kind.as_str(), "content_block_stop") {
            return self.block_stop(event);
        } else if text_eq(kind.as_str(), "message_delta") {
            self.message_delta(event);
        } else if text_eq(kind.as_str(), "message_stop") {
            self.stopped = true;
        }
        none
    }

    /// Takes the first event out of the buffer, where all of it has arrived.
    fn take_event(&mut self) -> (event: Option<Vec<u8>>)
        ensures
            match event {
                Some(event) => next_event(old(self)@.buffer) == Some((event@, final(self)@.buffer))
                    && final(self)@ == (StreamView { buffer: final(self)@.buffer, ..old(self)@ }),
                None => next_event(old(self)@.buffer) is None && final(self)@ == old(self)@,
            },
    {
        match find_event_boundary(self.buffer.as_slice()) {
            Some(end) => {
                let mut rest: Vec<u8> = self.buffer.split_off(end);
                assert(rest@ =~= old(self).buffer@.skip(end as int));
                strip_boundary_prefix(&mut rest);
                let mut event: Vec<u8> = Vec::new();
                event.append(&mut self.buffer);
                assert(event@ =~= old(self).buffer@.take(end as int));
                self.buffer.append(&mut rest);
                Some(event)
            },
            None => None,
        }
    }

    /// Takes in one event of the wire. One that is not UTF-8, has no data, or whose data is not
    /// JSON, is passed over.
    fn apply_wire_event(&mut self, event: &[u8]) -> (events: Vec<NormalizedStreamEvent>)
        ensures
            (final(self)@, crate::normalized::event_views(events@)) == on_wire_event(
                old(self)@,
                event_json(event@),
            ),
            event_json(event@) matches Some(said) ==> completed_output(old(self)@, said) matches Some(
                output,
            ) ==> reads_back_from(crate::normalized::event_views(events@), output),
    {
        if let Some(text) = utf8_text(event) {
            if let Some(data) = find_event_data(text) {
                if let Some(json) = Json::from_json_text(data) {
                    return self.apply_event(&json);
                }
            }
        }
        let none: Vec<NormalizedStreamEvent> = Vec::new();
        assert(crate::normalized::event_views(none@) =~= Seq::empty());
        none
    }

    /// Takes in more bytes of the answer and returns what the engine is to be told, in order.
    pub fn feed(&mut self, chunk: &[u8]) -> (events: Vec<NormalizedStreamEvent>)
        ensures
            (final(self)@, crate::normalized::event_views(events@)) == fed(old(self)@, chunk@),
            drained_reads_back(
                (StreamView { buffer: old(self)@.buffer + chunk@, ..old(self)@ }),
            ),
    {
        self.buffer.extend_from_slice(chunk);
        assert(self.buffer@ =~= old(self).buffer@ + chunk@);
        let ghost whole = self@;
        assert(whole == StreamView { buffer: old(self)@.buffer + chunk@, ..old(self)@ });
        let mut events: Vec<NormalizedStreamEvent> = Vec::new();
        assert(crate::normalized::event_views(events@) + drained(whole).1 =~= drained(whole).1);
        while !self.stopped
            invariant
                drained(whole) == (
                    drained(self@).0,
                    crate::normalized::event_views(events@) + drained(self@).1,
                ),
                drained_reads_back(self@) ==> drained_reads_back(whole),
            ensures
                drained(whole) == (
                    drained(self@).0,
                    crate::normalized::event_views(events@) + drained(self@).1,
                ),
                drained_reads_back(self@) ==> drained_reads_back(whole),
                self.stopped || next_event(self@.buffer) is None,
            decreases self@.buffer.len(),
        {
            let ghost before = self@;
            let ghost told = crate::normalized::event_views(events@);
            match self.take_event() {
                Some(event) => {
                    proof {
                        lemma_next_event_shorter(before.buffer);
                        lemma_on_wire_event_keeps(self@, event_json(event@));
                    }
                    let mut more: Vec<NormalizedStreamEvent> = self.apply_wire_event(
                        event.as_slice(),
                    );
                    let ghost step = crate::normalized::event_views(more@);
                    events.append(&mut more);
                    assert(crate::normalized::event_views(events@) =~= told + step);
                    assert(told + (step + drained(self@).1) =~= (told + step) + drained(self@).1);
                },
                None => {
                    break;
                },
            }
        }
        if self.stopped {
            self.buffer.clear();
        }
        assert(crate::normalized::event_views(events@) + Seq::empty()
            =~= crate::normalized::event_views(events@));
        events
    }

    /// The end of the turn.
    fn finish(&self) -> (event: NormalizedStreamEvent)
        ensures
            event@ == finish_event(self@),
    {
        NormalizedStreamEvent::Finish {
            reason: match self.final_finish {
                Some(reason) => reason,
                None => FinishReason::Other,
            },
            usage: TokenUsage {
                input_tokens: self.input_tokens,
                output_tokens: self.output_tokens,
                cached_input_tokens: 0,
            },
        }
    }

    /// Takes in what comes from the provider next. The result is what the engine is to be told, in
    /// order, and whether the turn is over.
    pub fn advance(&mut self, arrival: Arrival) -> (result: (
        Vec<Result<NormalizedStreamEvent, ProviderError>>,
        bool,
    ))
        ensures
            (final(self)@, item_views(result.0@), result.1) == on_arrival(old(self)@, arrival@),
            arrival@ matches ArrivalView::Bytes(chunk) ==> drained_reads_back(
                (StreamView { buffer: old(self)@.buffer + chunk, ..old(self)@ }),
            ),
    {
        let mut items: Vec<Result<NormalizedStreamEvent, ProviderError>> = Vec::new();
        let done: bool = match arrival {
            Arrival::Bytes(chunk) => {
                let events: Vec<NormalizedStreamEvent> = self.feed(chunk.as_slice());
                items = as_items(events);
                if self.stopped {
                    items.push(Ok(self.finish()));
                }
                self.stopped
            },
            Arrival::Failed(reason) => {
                items.push(
                    Err(
                        ProviderError::Network {
                            message: text_concat("read sse chunk: ", reason.as_str()),
                        },
                    ),
                );
                true
            },
            Arrival::Ended => {
                items.push(Ok(self.finish()));
                true
            },
        };
        assert(item_views(items@) =~= on_arrival(old(self)@, arrival@).1);
        (items, done)
    }
}

/// Events as the engine is told of them.
fn as_items(events: Vec<NormalizedStreamEvent>) -> (items: Vec<
    Result<NormalizedStreamEvent, ProviderError>,
>)
    ensures
        item_views(items@) == event_items(crate::normalized::event_views(events@)),
{
    let ghost all = events@;
    let mut items: Vec<Result<NormalizedStreamEvent, ProviderError>> = Vec::new();
    for event in iter: events
        invariant
            iter.seq() == all,
            items@.len() == iter.index(),
            forall|i: int|
                0 <= i < items@.len() ==> #[trigger] items@[i] == Ok::<
                    NormalizedStreamEvent,
                    ProviderError,
                >(all[i]),
    {
        items.push(Ok(event));
    }
    assert(item_views(items@) =~= event_items(crate::normalized::event_views(events@)));
    items
}

} // verus!
