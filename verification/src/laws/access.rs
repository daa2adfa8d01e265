//! How values are looked into, and how the library's values are modelled.

use vstd::prelude::*;

use crate::adapter::PreparedCall;
use crate::decode::Gathered;
use crate::error::{ErrorKind, ErrorView, ProviderError};
use crate::json::{Json, JsonView, NumberView};
use crate::normalized::{
    MessageContent, NormalizedChatResponse, NormalizedStreamEvent, StreamEventView, ToolCall,
};
use crate::stream::{Arrival, ArrivalView, BlockState, StreamDecoder};

verus! {

/// A field is found by its name in an object that has it, and nowhere else.
pub proof fn law_fields(fields: Map<Seq<char>, JsonView>, value: JsonView, name: Seq<char>)
    ensures
        fields.contains_key(name) ==> JsonView::Object(fields).field(name) == Some(fields[name]),
        !fields.contains_key(name) ==> JsonView::Object(fields).field(name) is None,
        !(value is Object) ==> value.field(name) is None,
{
}

/// Texts, lists and unsigned integers are what they are, and nothing else is one.
pub proof fn law_kinds_of_values(
    value: JsonView,
    text: Seq<char>,
    items: Seq<JsonView>,
    number: u64,
)
    ensures
        value.text() == Some(text) <==> value == JsonView::Str(text),
        value.items() == Some(items) <==> value == JsonView::Array(items),
        value.unsigned() == Some(number) <==> value == JsonView::Number(
            NumberView::Unsigned(number),
        ),
{
}

/// A field is a text, or an unsigned integer, exactly when there is such a field and it is one.
pub proof fn law_kinds_of_fields(value: JsonView, name: Seq<char>, text: Seq<char>, number: u64)
    ensures
        value.text_field(name) == Some(text) <==> value.field(name) == Some(JsonView::Str(text)),
        value.unsigned_field(name) == Some(number) <==> value.field(name) == Some(
            JsonView::Number(NumberView::Unsigned(number)),
        ),
{
}

/// A value is modelled by what it holds. In an object the last entry of a name counts, and a name
/// without an entry is no field.
pub proof fn law_models_of_values(value: Json, at: int, name: Seq<char>)
    ensures
        value is Null ==> value@ is Null,
        value matches Json::Bool(truth) ==> value@ == JsonView::Bool(truth),
        value matches Json::Number(number) ==> value@ == JsonView::Number(
            crate::json::number_of(number),
        ),
        value matches Json::Str(text) ==> value@ == JsonView::Str(text@),
        value matches Json::Array(items) ==> (value@ matches JsonView::Array(views) && views.len()
            == items@.len() && (0 <= at < items@.len() ==> views[at] == items@[at]@)),
        value matches Json::Object(entries) ==> {
            &&& value@ is Object
            &&& (0 <= at < entries@.len() && forall|j: int|
                at < j < entries@.len() ==> (#[trigger] entries@[j]).0@ != entries@[at].0@)
                ==> value@.field(entries@[at].0@) == Some(entries@[at].1@)
            &&& (forall|j: int| 0 <= j < entries@.len() ==> (#[trigger] entries@[j]).0@ != name)
                ==> value@.field(name) is None
        },
{
    match value {
        Json::Array(items) => {
            crate::json::lemma_items_model(items@);
        },
        Json::Object(entries) => {
            if 0 <= at < entries@.len() && forall|j: int|
                at < j < entries@.len() ==> (#[trigger] entries@[j]).0@ != entries@[at].0@ {
                crate::json::lemma_fields_model_last(entries@, entries@[at].0@, at);
            }
            if forall|j: int| 0 <= j < entries@.len() ==> (#[trigger] entries@[j]).0@ != name {
                crate::json::lemma_fields_model_absent(entries@, name);
            }
        },
        _ => {},
    }
}

/// An error is modelled by its case and its message.
pub proof fn law_models_of_errors(error: ProviderError)
    ensures
        error matches ProviderError::Network { message } ==> error@.kind is Network && error@.message
            == message@,
        error matches ProviderError::BadRequest { message } ==> error@.kind is BadRequest && error@.message
            == message@,
        error matches ProviderError::Malformed { message } ==> error@.kind is Malformed && error@.message
            == message@,
        error matches ProviderError::RateLimited { message } ==> error@.kind is RateLimited && error@.message
            == message@,
        error matches ProviderError::AuthFailed { message } ==> error@.kind is AuthFailed && error@.message
            == message@,
        error matches ProviderError::ContextLimit { message } ==> error@.kind is ContextLimit && error@.message
            == message@,
        error matches ProviderError::Server { message } ==> error@.kind is Server && error@.message
            == message@,
{
}

/// A rate limit, a failure of the provider and a failure on the way are worth another try; nothing
/// else is.
pub proof fn law_what_is_worth_another_try(kind: ErrorKind)
    ensures
        crate::error::retryable(kind) <==> (match kind {
            ErrorKind::RateLimited => true,
            ErrorKind::Server => true,
            ErrorKind::Network => true,
            ErrorKind::BadRequest => false,
            ErrorKind::Malformed => false,
            ErrorKind::AuthFailed => false,
            ErrorKind::ContextLimit => false,
        }),
{
}

/// A tool call is modelled by its id, its name and its arguments.
pub proof fn law_models_of_calls(call: ToolCall, calls: Seq<ToolCall>)
    ensures
        call@.id == call.id@,
        call@.name == call.name@,
        call@.arguments == call.arguments@,
        crate::normalized::tool_call_views(calls).len() == calls.len(),
        forall|i: int|
            0 <= i < calls.len() ==> #[trigger] crate::normalized::tool_call_views(calls)[i]
                == calls[i]@,
{
}

/// A response is modelled by what it holds.
pub proof fn law_models_of_responses(
    response: NormalizedChatResponse,
    error: ProviderError,
)
    ensures
        response@.content == response.content@,
        response@.tool_calls == crate::normalized::tool_call_views(response.tool_calls@),
        response@.finish_reason == response.finish_reason,
        response@.usage == response.usage,
        crate::decode::response_result(Ok(response)) == Ok::<_, ErrorView>(response@),
        crate::decode::response_result(Err(error)) == Err::<
            crate::normalized::ChatResponseView,
            ErrorView,
        >(error@),
{
}

/// A body, or the error in its place, is modelled by itself.
pub proof fn law_models_of_bodies(value: Json, error: ProviderError)
    ensures
        crate::encode::json_result(Ok(value)) == Ok::<JsonView, ErrorView>(value@),
        crate::encode::json_result(Err(error)) == Err::<JsonView, ErrorView>(error@),
        crate::encode::opt_json(Some(value)) == Some(value@),
        crate::encode::opt_json(None) is None,
{
}

/// An event is modelled by what it holds, and a list of events event by event.
pub proof fn law_models_of_events(event: NormalizedStreamEvent, events: Seq<NormalizedStreamEvent>)
    ensures
        event matches NormalizedStreamEvent::TextDelta(text) ==> event@
            == StreamEventView::TextDelta(text@),
        event matches NormalizedStreamEvent::ToolCallReady(call) ==> event@
            == StreamEventView::ToolCallReady(call@),
        event matches NormalizedStreamEvent::Finish { reason, usage } ==> event@ == (
        StreamEventView::Finish { reason, usage }),
        crate::normalized::event_views(events).len() == events.len(),
        forall|i: int|
            0 <= i < events.len() ==> #[trigger] crate::normalized::event_views(events)[i]
                == events[i]@,
{
}

/// What the engine is told is modelled item by item, and events are told as they are.
pub proof fn law_models_of_items(
    items: Seq<Result<NormalizedStreamEvent, ProviderError>>,
    events: Seq<StreamEventView>,
)
    ensures
        crate::stream::item_views(items).len() == items.len(),
        forall|i: int|
            0 <= i < items.len() ==> #[trigger] crate::stream::item_views(items)[i] == (
            match items[i] {
                Ok(event) => Ok::<StreamEventView, ErrorView>(event@),
                Err(error) => Err(error@),
            }),
        crate::stream::event_items(events).len() == events.len(),
        forall|i: int|
            0 <= i < events.len() ==> #[trigger] crate::stream::event_items(events)[i] == Ok::<
                StreamEventView,
                ErrorView,
            >(events[i]),
{
}

/// A block, an arrival and a decoder are modelled by what they hold.
pub proof fn law_models_of_streams(
    block: BlockState,
    arrival: Arrival,
    decoder: StreamDecoder,
    index: u64,
)
    ensures
        block@.kind == (match block.kind {
            Some(text) => Some(text@),
            None => None,
        }),
        block@.tool_id == (match block.tool_id {
            Some(text) => Some(text@),
            None => None,
        }),
        block@.tool_name == (match block.tool_name {
            Some(text) => Some(text@),
            None => None,
        }),
        block@.json_buffer == block.json_buffer@,
        arrival matches Arrival::Bytes(chunk) ==> arrival@ == ArrivalView::Bytes(chunk@),
        arrival matches Arrival::Failed(reason) ==> arrival@ == ArrivalView::Failed(reason@),
        arrival is Ended ==> arrival@ is Ended,
        decoder@.expects_respond == decoder.expects_respond,
        decoder@.buffer == decoder.buffer@,
        decoder@.blocks.contains_key(index) == decoder.blocks@.contains_key(index),
        decoder.blocks@.contains_key(index) ==> decoder@.blocks[index] == decoder.blocks@[index]@,
        decoder@.final_finish == decoder.final_finish,
        decoder@.input_tokens == decoder.input_tokens,
        decoder@.output_tokens == decoder.output_tokens,
        decoder@.respond_text_emitted == decoder.respond_text_emitted,
        decoder@.stopped == decoder.stopped,
{
}

/// A call that is ready, and what the blocks of an answer add up to, are modelled by what they hold.
pub proof fn law_models_of_calls_and_parts(call: PreparedCall, parts: Gathered)
    ensures
        call@.url == call.url@,
        call@.headers == crate::headers::header_entries(call.headers),
        call@.body == call.body@,
        parts@.texts == crate::text::views(parts.texts@),
        parts@.tool_calls == crate::normalized::tool_call_views(parts.tool_calls@),
        parts@.respond_input == (match parts.respond_input {
            Some(input) => Some(input@),
            None => None,
        }),
{
}

/// A message says its text, or the text that its pieces were flattened to.
pub proof fn law_texts_of_messages(content: MessageContent)
    ensures
        content matches MessageContent::Text(text) ==> content.text() == text@,
        content matches MessageContent::Parts { parts, text } ==> content.text() == text@,
{
}

} // verus!
