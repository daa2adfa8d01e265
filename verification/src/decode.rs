//! From the answer of a Messages API call to the engine's response.

use vstd::prelude::*;
use vstd::string::*;

use crate::encode::RESPOND_TOOL_NAME;
use crate::error::{ErrorKind, ErrorView, ProviderError};
use crate::json::{Json, JsonView};
use crate::normalized::{
    ChatResponseView, FinishReason, NormalizedChatResponse, TokenUsage, ToolCall, ToolCallView,
};
use crate::stream::{count_bits, text_or_default};
use crate::text::{text_concat, text_eq, text_join};

verus! {

broadcast use vstd::string::group_string_axioms;

/// What the content blocks of an answer add up to.
#[verifier::ext_equal]
pub struct GatheredView {
    /// The texts, in order.
    pub texts: Seq<Seq<char>>,
    /// The tool calls, in order, but for the synthetic one that carries structured output.
    pub tool_calls: Seq<ToolCallView>,
    /// The input of the last call of the synthetic tool.
    pub respond_input: Option<JsonView>,
}

/// The kind of a content block.
pub open spec fn block_kind(block: JsonView) -> Seq<char> {
    crate::stream::text_or_empty(block.text_field("type"@))
}

/// The tool call of a content block.
pub open spec fn block_call(block: JsonView) -> ToolCallView {
    ToolCallView {
        id: crate::stream::text_or_empty(block.text_field("id"@)),
        name: crate::stream::text_or_empty(block.text_field("name"@)),
        arguments: match block.field("input"@) {
            Some(input) => input,
            None => JsonView::Null,
        },
    }
}

/// A block that carries structured output.
pub open spec fn is_respond_block(block: JsonView, expects_respond: bool) -> bool {
    &&& expects_respond
    &&& block_kind(block) == "tool_use"@
    &&& block_call(block).name == RESPOND_TOOL_NAME@
}

/// One more content block. Blocks of other kinds are passed over.
pub open spec fn with_block(
    gathered: GatheredView,
    block: JsonView,
    expects_respond: bool,
) -> GatheredView {
    if block_kind(block) == "text"@ {
        match block.text_field("text"@) {
            Some(text) => GatheredView { texts: gathered.texts.push(text), ..gathered },
            None => gathered,
        }
    } else if block_kind(block) == "tool_use"@ {
        if is_respond_block(block, expects_respond) {
            GatheredView { respond_input: Some(block_call(block).arguments), ..gathered }
        } else {
            GatheredView { tool_calls: gathered.tool_calls.push(block_call(block)), ..gathered }
        }
    } else {
        gathered
    }
}

/// All content blocks.
pub open spec fn gathered(blocks: Seq<JsonView>, expects_respond: bool) -> GatheredView
    decreases blocks.len(),
{
    if blocks.len() == 0 {
        GatheredView { texts: Seq::empty(), tool_calls: Seq::empty(), respond_input: None }
    } else {
        with_block(gathered(blocks.drop_last(), expects_respond), blocks.last(), expects_respond)
    }
}

/// Why the model stopped. Structured output ends the turn, whatever the provider calls it; and a
/// turn that is said to stop for tools without calling any has no reason that the engine knows.
pub open spec fn finish_of(stop: Option<Seq<char>>, responded: bool, called: bool) -> FinishReason {
    if responded {
        FinishReason::Stop
    } else if stop == Some("tool_use"@) && called {
        FinishReason::ToolCalls
    } else if stop == Some("max_tokens"@) {
        FinishReason::Length
    } else if stop == Some("end_turn"@) || stop == Some("stop_sequence"@) {
        FinishReason::Stop
    } else {
        FinishReason::Other
    }
}

/// The tokens that an answer says it took: the low 32 bits of each count, or zero.
pub open spec fn usage_of(usage: Option<JsonView>) -> TokenUsage {
    match usage {
        Some(usage) => TokenUsage {
            input_tokens: crate::stream::count_or_zero(usage.unsigned_field("input_tokens"@)),
            output_tokens: crate::stream::count_or_zero(usage.unsigned_field("output_tokens"@)),
            cached_input_tokens: crate::stream::count_or_zero(
                usage.unsigned_field("cache_read_input_tokens"@),
            ),
        },
        None => TokenUsage { input_tokens: 0, output_tokens: 0, cached_input_tokens: 0 },
    }
}

/// The content of the response, given what writing out the structured output gave, if there is
/// any: that text, or else all texts put together.
pub open spec fn content_of(
    texts: Seq<Seq<char>>,
    printed: Option<Result<Seq<char>, Seq<char>>>,
) -> Result<Seq<char>, ErrorView> {
    match printed {
        Some(Ok(text)) => Ok(text),
        Some(Err(reason)) => Err(
            ErrorView {
                kind: ErrorKind::Malformed,
                message: "serialize respond.input: "@ + reason,
            },
        ),
        None => Ok(crate::text::joined(texts, Seq::empty())),
    }
}

/// The content blocks of an answer.
pub open spec fn content_blocks(value: JsonView) -> Option<Seq<JsonView>> {
    match value.field("content"@) {
        Some(content) => content.items(),
        None => None,
    }
}

/// The response, given what writing out the structured output gave, if there is any.
pub open spec fn response_with(
    value: JsonView,
    blocks: Seq<JsonView>,
    expects_respond: bool,
    printed: Option<Result<Seq<char>, Seq<char>>>,
) -> Result<ChatResponseView, ErrorView> {
    let parts = gathered(blocks, expects_respond);
    match content_of(parts.texts, printed) {
        Ok(content) => Ok(
            ChatResponseView {
                content,
                tool_calls: parts.tool_calls,
                finish_reason: finish_of(
                    value.text_field("stop_reason"@),
                    parts.respond_input is Some,
                    parts.tool_calls.len() > 0,
                ),
                usage: usage_of(value.field("usage"@)),
            },
        ),
        Err(error) => Err(error),
    }
}

/// The response that an answer stands for.
pub open spec fn decoded(value: JsonView, expects_respond: bool) -> Result<
    ChatResponseView,
    ErrorView,
> {
    match content_blocks(value) {
        None => Err(
            ErrorView {
                kind: ErrorKind::Malformed,
                message: "response has no `content` array"@,
            },
        ),
        Some(blocks) => response_with(
            value,
            blocks,
            expects_respond,
            match gathered(blocks, expects_respond).respond_input {
                Some(input) => Some(crate::value::json_text(input)),
                None => None,
            },
        ),
    }
}

/// Where the answer carries structured output that survives being written out and read, that can be
/// read from the content again.
pub open spec fn content_reads_back(
    value: JsonView,
    expects_respond: bool,
    content: Seq<char>,
) -> bool {
    content_blocks(value) matches Some(blocks) ==> gathered(
        blocks,
        expects_respond,
    ).respond_input matches Some(input) ==> crate::value::reads_back(
        input,
        crate::value::READ_DEPTH as nat,
    ) ==> crate::value::text_json(content) == Some(input)
}

/// The model of a result whose error is a [`ProviderError`].
pub open spec fn response_result(result: Result<NormalizedChatResponse, ProviderError>) -> Result<
    ChatResponseView,
    ErrorView,
> {
    match result {
        Ok(response) => Ok(response@),
        Err(error) => Err(error@),
    }
}

/// The model of what writing a value out gave.
pub open spec fn printed_view(printed: Result<String, String>) -> Result<Seq<char>, Seq<char>> {
    match printed {
        Ok(text) => Ok(text@),
        Err(reason) => Err(reason@),
    }
}

/// What the content blocks of an answer add up to.
pub struct Gathered {
    pub texts: Vec<String>,
    pub tool_calls: Vec<ToolCall>,
    pub respond_input: Option<Json>,
}

impl View for Gathered {
    type V = GatheredView;

    open spec fn view(&self) -> GatheredView {
        GatheredView {
            texts: crate::text::views(self.texts@),
            tool_calls: crate::normalized::tool_call_views(self.tool_calls@),
            respond_input: match self.respond_input {
                Some(input) => Some(input@),
                None => None,
            },
        }
    }
}

impl Gathered {
    /// Takes in one more content block.
    fn add_block(&mut self, block: &Json, expects_respond: bool)
        ensures
            final(self)@ == with_block(old(self)@, block@, expects_respond),
    {
        let kind: String = text_or_default(block.get_str("type"));
        proof {
            reveal_strlit("text");
            reveal_strlit("tool_use");
            assert("text"@.len() != "tool_use"@.len());
        }
        if text_eq(kind.as_str(), "text") {
            if let Some(text) = block.get_str("text") {
                let owned: String = text.to_owned();
                self.texts.push(owned);
                assert(self@.texts =~= old(self)@.texts.push(owned@));
            }
        } else if text_eq(kind.as_str(), "tool_use") {
            let id: String = text_or_default(block.get_str("id"));
            let name: String = text_or_default(block.get_str("name"));
            let input: Json = match block.get("input") {
                Some(input) => input.clone(),
                None => Json::Null,
            };
            if expects_respond && text_eq(name.as_str(), RESPOND_TOOL_NAME) {
                self.respond_input = Some(input);
            } else {
                let call = ToolCall { id, name, arguments: input };
                assert(call@ == block_call(block@));
                self.tool_calls.push(call);
                assert(self@.tool_calls =~= old(self)@.tool_calls.push(call@));
            }
        }
    }
}

/// Goes through the content blocks of an answer.
pub fn gather_blocks(blocks: &Vec<Json>, expects_respond: bool) -> (parts: Gathered)
    ensures
        parts@ == gathered(crate::json::items_model(blocks@), expects_respond),
{
    let mut parts = Gathered {
        texts: Vec::new(),
        tool_calls: Vec::new(),
        respond_input: None,
    };
    let ghost all = crate::json::items_model(blocks@);
    proof {
        crate::json::lemma_items_model(blocks@);
        assert(parts@.texts =~= Seq::empty());
        assert(parts@.tool_calls =~= Seq::empty());
    }
    let mut i: usize = 0;
    while i < blocks.len()
        invariant
            i <= blocks@.len(),
            all == crate::json::items_model(blocks@),
            all.len() == blocks@.len(),
            forall|j: int| 0 <= j < blocks@.len() ==> #[trigger] all[j] == blocks@[j]@,
            parts@ == gathered(all.take(i as int), expects_respond),
        decreases blocks@.len() - i,
    {
        assert(all.take(i + 1).drop_last() =~= all.take(i as int));
        assert(all.take(i + 1).last() == blocks@[i as int]@);
        parts.add_block(&blocks[i], expects_respond);
        i += 1;
    }
    assert(all.take(all.len() as int) =~= all);
    parts
}

/// Why the model stopped.
pub fn finish_reason(stop: Option<&str>, responded: bool, called: bool) -> (reason: FinishReason)
    ensures
        reason == finish_of(
            match stop {
                Some(stop) => Some(stop@),
                None => None,
            },
            responded,
            called,
        ),
{
    if responded {
        return FinishReason::Stop;
    }
    match stop {
        Some(stop) => if text_eq(stop, "tool_use") && called {
            FinishReason::ToolCalls
        } else if text_eq(stop, "max_tokens") {
            FinishReason::Length
        } else if text_eq(stop, "end_turn") || text_eq(stop, "stop_sequence") {
            FinishReason::Stop
        } else {
            FinishReason::Other
        },
        None => FinishReason::Other,
    }
}

/// The tokens that an answer says it took.
pub fn decode_usage(usage: Option<&Json>) -> (tokens: TokenUsage)
    ensures
        tokens == usage_of(
            match usage {
                Some(usage) => Some(usage@),
                None => None,
            },
        ),
{
    match usage {
        Some(usage) => TokenUsage {
            input_tokens: count_bits(usage.get_u64("input_tokens")),
            output_tokens: count_bits(usage.get_u64("output_tokens")),
            cached_input_tokens: count_bits(usage.get_u64("cache_read_input_tokens")),
        },
        None => TokenUsage::default(),
    }
}

/// The content of the response, given what writing out the structured output gave, if there is
/// any.
pub fn response_content(
    texts: &Vec<String>,
    printed: Option<Result<String, String>>,
) -> (content: Result<String, ProviderError>)
    ensures
        content_of(
            crate::text::views(texts@),
            match printed {
                Some(printed) => Some(printed_view(printed)),
                None => None,
            },
        ) == (match content {
            Ok(content) => Ok(content@),
            Err(error) => Err(error@),
        }),
{
    match printed {
        Some(Ok(text)) => Ok(text),
        Some(Err(reason)) => Err(
            ProviderError::Malformed {
                message: text_concat("serialize respond.input: ", reason.as_str()),
            },
        ),
        None => {
            proof {
                reveal_strlit("");
                assert(""@ =~= Seq::<char>::empty());
            }
            Ok(text_join(texts, ""))
        },
    }
}

/// Reads an answer. With `expects_structured_via_respond` a call of the synthetic tool is
/// structured output: its input becomes the content, as JSON text.
pub fn decode_response(value: &Json, expects_structured_via_respond: bool) -> (result: Result<
    NormalizedChatResponse,
    ProviderError,
>)
    ensures
        response_result(result) == decoded(value@, expects_structured_via_respond),
        result is Ok <==> content_blocks(value@) is Some,
        result matches Ok(response) ==> content_reads_back(
            value@,
            expects_structured_via_respond,
            response@.content,
        ),
{
    let content: Option<&Vec<Json>> = match value.get("content") {
        Some(content) => content.as_array(),
        None => None,
    };
    let blocks: &Vec<Json> = match content {
        Some(blocks) => blocks,
        None => {
            return Err(
                ProviderError::Malformed { message: "response has no `content` array".to_owned() },
            );
        },
    };
    let parts: Gathered = gather_blocks(blocks, expects_structured_via_respond);
    let reason: FinishReason = finish_reason(
        value.get_str("stop_reason"),
        parts.respond_input.is_some(),
        parts.tool_calls.len() > 0,
    );
    let printed: Option<Result<String, String>> = match &parts.respond_input {
        Some(input) => Some(input.to_json_text()),
        None => None,
    };
    let content: String = match response_content(&parts.texts, printed) {
        Ok(content) => content,
        Err(error) => {
            return Err(error);
        },
    };
    Ok(
        NormalizedChatResponse {
            content,
            tool_calls: parts.tool_calls,
            finish_reason: reason,
            usage: decode_usage(value.get("usage")),
        },
    )
}

} // verus!
