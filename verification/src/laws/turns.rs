//! What is sent of every message and every tool, field by field.

use vstd::prelude::*;

use crate::encode::{DEFAULT_MAX_TOKENS, RESPOND_TOOL_NAME};
use crate::error::ErrorKind;
use crate::json::{Json, JsonView};
use crate::normalized::{
    ContentPart, FileContent, FileSource, ImageContent, ImageSource, Message, MessageContent,
    NormalizedChatRequest, Role, ToolCall, ToolChoiceWire, ToolDef,
};

verus! {

/// The value is an object with no field but these.
pub open spec fn no_field_but(value: JsonView, a: Seq<char>, b: Seq<char>, c: Seq<char>) -> bool {
    value is Object && forall|name: Seq<char>| #[trigger]
        value.field(name) is Some ==> name == a || name == b || name == c
}

/// The value is a block of the given text.
pub open spec fn is_text(value: JsonView, text: Seq<char>) -> bool {
    &&& value.text_field("type"@) == Some("text"@)
    &&& value.text_field("text"@) == Some(text)
    &&& no_field_but(value, "type"@, "text"@, "text"@)
}

/// The value is a source that the provider fetches from the given address.
pub open spec fn is_url_source(value: JsonView, url: Seq<char>) -> bool {
    &&& value.text_field("type"@) == Some("url"@)
    &&& value.text_field("url"@) == Some(url)
    &&& no_field_but(value, "type"@, "url"@, "url"@)
}

/// The value is a source with the given data of the given type.
pub open spec fn is_base64_source(
    value: JsonView,
    media_type: Seq<char>,
    data: Seq<char>,
) -> bool {
    &&& value.text_field("type"@) == Some("base64"@)
    &&& value.text_field("media_type"@) == Some(media_type)
    &&& value.text_field("data"@) == Some(data)
    &&& no_field_but(value, "type"@, "media_type"@, "data"@)
}

/// The value is the block of the given tool call.
pub open spec fn is_tool_use(value: JsonView, call: ToolCall) -> bool {
    &&& value.text_field("type"@) == Some("tool_use"@)
    &&& value.text_field("id"@) == Some(call.id@)
    &&& value.text_field("name"@) == Some(call.name@)
    &&& value.field("input"@) == Some(call.arguments@)
    &&& value is Object && forall|name: Seq<char>| #[trigger]
        value.field(name) is Some ==> name == "type"@ || name == "id"@ || name == "name"@ || name
            == "input"@
}

/// The value offers the given tool.
pub open spec fn offers(
    value: JsonView,
    name: Seq<char>,
    description: Seq<char>,
    schema: JsonView,
) -> bool {
    &&& value.text_field("name"@) == Some(name)
    &&& value.text_field("description"@) == Some(description)
    &&& value.field("input_schema"@) == Some(schema)
    &&& no_field_but(value, "name"@, "description"@, "input_schema"@)
}

/// The names of the fields of blocks and turns are different ones where they stand together.
proof fn lemma_field_names_differ()
    ensures
        "type"@ != "text"@,
        "type"@ != "url"@,
        "type"@ != "media_type"@,
        "type"@ != "data"@,
        "media_type"@ != "data"@,
        "type"@ != "source"@,
        "type"@ != "title"@,
        "source"@ != "title"@,
        "type"@ != "id"@,
        "type"@ != "name"@,
        "type"@ != "input"@,
        "id"@ != "name"@,
        "id"@ != "input"@,
        "name"@ != "input"@,
        "type"@ != "tool_use_id"@,
        "type"@ != "content"@,
        "tool_use_id"@ != "content"@,
        "role"@ != "content"@,
        "name"@ != "description"@,
        "name"@ != "input_schema"@,
        "description"@ != "input_schema"@,
{
    reveal_strlit("type");
    reveal_strlit("text");
    reveal_strlit("url");
    reveal_strlit("media_type");
    reveal_strlit("data");
    reveal_strlit("source");
    reveal_strlit("title");
    reveal_strlit("id");
    reveal_strlit("name");
    reveal_strlit("input");
    reveal_strlit("tool_use_id");
    reveal_strlit("content");
    reveal_strlit("role");
    reveal_strlit("description");
    reveal_strlit("input_schema");
    assert("type"@[1] != "text"@[1]);
    assert("type"@[0] != "data"@[0]);
    assert("type"@[0] != "name"@[0]);
    assert("type"@.len() == 4 && "url"@.len() == 3 && "media_type"@.len() == 10 && "source"@.len()
        == 6 && "title"@.len() == 5 && "id"@.len() == 2 && "input"@.len() == 5);
    assert("tool_use_id"@.len() == 11 && "content"@.len() == 7 && "role"@.len() == 4);
    assert("name"@.len() == 4 && "description"@.len() == 11 && "input_schema"@.len() == 12);
}

/// A piece of text is sent as that text.
pub proof fn law_text_pieces(text: String)
    ensures
        is_text(crate::encode::part_block(ContentPart::Text(text)), text@),
{
    lemma_field_names_differ();
}

/// A piece of audio is replaced by a text that says so.
pub proof fn law_audio_pieces()
    ensures
        is_text(
            crate::encode::part_block(ContentPart::Audio),
            "[audio input not supported by anthropic.chat]"@,
        ),
{
    lemma_field_names_differ();
}

/// An image is sent as an image block, from its address or with its data and type; one that nobody
/// has fetched is replaced by a text that names it.
pub proof fn law_image_pieces(image: ImageContent)
    ensures
        ({
            let block = crate::encode::part_block(ContentPart::Image(image));
            match image.source {
                ImageSource::Url(url) => {
                    &&& block.text_field("type"@) == Some("image"@)
                    &&& block.field("source"@) matches Some(source) && is_url_source(source, url@)
                    &&& no_field_but(block, "type"@, "source"@, "source"@)
                },
                ImageSource::Base64 { mime_type, data } => {
                    &&& block.text_field("type"@) == Some("image"@)
                    &&& block.field("source"@) matches Some(source) && is_base64_source(
                        source,
                        mime_type@,
                        data@,
                    )
                    &&& no_field_but(block, "type"@, "source"@, "source"@)
                },
                ImageSource::McpResource(uri) => is_text(
                    block,
                    "[unresolved image resource: "@ + uri@ + "]"@,
                ),
            }
        }),
{
    lemma_field_names_differ();
}

/// A file is sent as a document block, from its address or with its data and type, under its name
/// where it has one; one that nobody has fetched is replaced by a text that names it.
pub proof fn law_file_pieces(file: FileContent)
    ensures
        ({
            let block = crate::encode::part_block(ContentPart::File(file));
            let title = match file.filename {
                Some(name) => Some(name@),
                None => None,
            };
            match file.source {
                FileSource::Url(url) => {
                    &&& block.text_field("type"@) == Some("document"@)
                    &&& block.field("source"@) matches Some(source) && is_url_source(source, url@)
                    &&& block.text_field("title"@) == title
                    &&& file.filename is None ==> block.field("title"@) is None
                    &&& no_field_but(block, "type"@, "source"@, "title"@)
                },
                FileSource::Base64 { data } => {
                    &&& block.text_field("type"@) == Some("document"@)
                    &&& block.field("source"@) matches Some(source) && is_base64_source(
                        source,
                        file.mime_type@,
                        data@,
                    )
                    &&& block.text_field("title"@) == title
                    &&& file.filename is None ==> block.field("title"@) is None
                    &&& no_field_but(block, "type"@, "source"@, "title"@)
                },
                FileSource::McpResource(uri) => is_text(
                    block,
                    "[unresolved file resource: "@ + uri@ + "]"@,
                ),
            }
        }),
{
    lemma_field_names_differ();
}

/// Every piece of a user turn is sent, in order, as one block.
pub proof fn law_pieces_one_by_one(parts: Seq<ContentPart>)
    ensures
        crate::encode::part_blocks(parts).len() == parts.len(),
        forall|i: int|
            0 <= i < parts.len() ==> #[trigger] crate::encode::part_blocks(parts)[i]
                == crate::encode::part_block(parts[i]),
{
}

/// A user turn holds the text of the message, or its pieces.
pub proof fn law_user_turns(message: Message)
    requires
        message.role == Role::User,
    ensures
        ({
            let turn = crate::encode::message_turn(message);
            &&& turn.text_field("role"@) == Some("user"@)
            &&& no_field_but(turn, "role"@, "content"@, "content"@)
            &&& match message.content {
                MessageContent::Text(text) => turn.text_field("content"@) == Some(text@),
                MessageContent::Parts { parts, text } => {
                    &&& turn.field("content"@) matches Some(content)
                    &&& content.items() matches Some(blocks)
                    &&& blocks.len() == parts@.len()
                    &&& forall|i: int|
                        0 <= i < parts@.len() ==> #[trigger] blocks[i]
                            == crate::encode::part_block(parts@[i])
                },
            }
        }),
{
    lemma_field_names_differ();
}

/// The answer of a tool is sent in a user turn, as one block that names the call it answers.
pub proof fn law_tool_turns(message: Message)
    requires
        message.role == Role::Tool,
    ensures
        ({
            let turn = crate::encode::message_turn(message);
            &&& turn.text_field("role"@) == Some("user"@)
            &&& no_field_but(turn, "role"@, "content"@, "content"@)
            &&& turn.field("content"@) matches Some(content)
            &&& content.items() matches Some(blocks)
            &&& blocks.len() == 1
            &&& blocks[0].text_field("type"@) == Some("tool_result"@)
            &&& blocks[0].text_field("tool_use_id"@) == Some(
                match message.tool_call_id {
                    Some(id) => id@,
                    None => Seq::empty(),
                },
            )
            &&& blocks[0].text_field("content"@) == Some(message.content.text())
            &&& no_field_but(blocks[0], "type"@, "tool_use_id"@, "content"@)
        }),
{
    lemma_field_names_differ();
}

/// An assistant turn holds its text, exactly where that is not empty, and behind it one block for
/// every tool call, in order. Where it has neither, it holds the empty text.
pub proof fn law_assistant_turns(message: Message)
    requires
        message.role == Role::Assistant,
    ensures
        ({
            let turn = crate::encode::message_turn(message);
            let text = message.content.text();
            let calls = message.tool_calls@;
            let before: int = if text.len() > 0 {
                1
            } else {
                0
            };
            &&& turn.text_field("role"@) == Some("assistant"@)
            &&& no_field_but(turn, "role"@, "content"@, "content"@)
            &&& turn.field("content"@) matches Some(content)
            &&& content.items() matches Some(blocks)
            &&& text.len() > 0 ==> blocks.len() > 0 && is_text(blocks[0], text)
            &&& text.len() > 0 || calls.len() > 0 ==> blocks.len() == before + calls.len()
            &&& text.len() == 0 && calls.len() == 0 ==> blocks.len() == 1 && is_text(
                blocks[0],
                Seq::empty(),
            )
            &&& forall|i: int|
                0 <= i < calls.len() ==> is_tool_use(#[trigger] blocks[before + i], calls[i])
        }),
{
    lemma_field_names_differ();
    let text = message.content.text();
    let calls = message.tool_calls@;
    let blocks = crate::encode::assistant_blocks(text, calls);
    let before: int = if text.len() > 0 {
        1
    } else {
        0
    };
    let turn = crate::encode::message_turn(message);
    assert(turn.field("content"@) == Some(JsonView::Array(blocks)));
    assert forall|i: int| 0 <= i < calls.len() implies is_tool_use(
        #[trigger] blocks[before + i],
        calls[i],
    ) by {
        assert(blocks[before + i] == crate::encode::tool_use_block(calls[i]));
    }
}

/// The tool calls that are read from an assistant turn are those of the message.
pub proof fn law_assistant_calls_go_both_ways(text: Seq<char>, calls: Seq<ToolCall>)
    ensures
        crate::decode::gathered(crate::encode::assistant_blocks(text, calls), false).tool_calls
            == crate::normalized::tool_call_views(calls),
{
    lemma_field_names_differ();
    reveal_strlit("tool_use");
    assert("tool_use"@.len() == 8);
    let blocks = crate::encode::assistant_blocks(text, calls);
    if text.len() == 0 && calls.len() == 0 {
        assert(blocks.drop_last() =~= Seq::empty());
        assert(crate::decode::gathered(blocks.drop_last(), false).tool_calls =~= Seq::empty());
        assert(crate::normalized::tool_call_views(calls) =~= Seq::empty());
    } else {
        lemma_said_then_called(text, calls);
    }
}

/// The blocks of the text and of the calls, without the filler for a turn that has neither.
spec fn said_and_called(text: Seq<char>, calls: Seq<ToolCall>) -> Seq<JsonView> {
    (if text.len() > 0 {
        seq![crate::encode::text_block(text)]
    } else {
        Seq::empty()
    }) + calls.map_values(|call: ToolCall| crate::encode::tool_use_block(call))
}

proof fn lemma_said_then_called(text: Seq<char>, calls: Seq<ToolCall>)
    ensures
        crate::decode::gathered(said_and_called(text, calls), false).tool_calls
            == crate::normalized::tool_call_views(calls),
    decreases calls.len(),
{
    lemma_field_names_differ();
    reveal_strlit("text");
    reveal_strlit("tool_use");
    assert("tool_use"@.len() == 8 && "text"@.len() == 4);
    let blocks = said_and_called(text, calls);
    if calls.len() == 0 {
        assert(crate::normalized::tool_call_views(calls) =~= Seq::empty());
        if text.len() > 0 {
            assert(blocks =~= seq![crate::encode::text_block(text)]);
            assert(blocks.drop_last() =~= Seq::empty());
            assert(crate::decode::gathered(blocks.drop_last(), false).tool_calls =~= Seq::empty());
        } else {
            assert(blocks =~= Seq::empty());
        }
    } else {
        let head = calls.drop_last();
        lemma_said_then_called(text, head);
        assert(blocks.drop_last() =~= said_and_called(text, head));
        assert(blocks.last() == crate::encode::tool_use_block(calls.last()));
        crate::laws::request::law_tool_calls_go_both_ways(calls.last());
        assert(crate::normalized::tool_call_views(calls) =~= crate::normalized::tool_call_views(
            head,
        ).push(calls.last()@));
    }
}

/// Every message that is no system message becomes a turn, in order; the texts of the system
/// messages, in order and with a blank line between them, become the system prompt.
pub proof fn law_messages_in_order(messages: Seq<Message>)
    ensures
        ({
            let spoken = messages.filter(|message: Message| message.role != Role::System);
            let texts = messages.filter(
                |message: Message| message.role == Role::System,
            ).map_values(|message: Message| message.content.text());
            &&& crate::encode::turns(messages).len() == spoken.len()
            &&& forall|i: int|
                0 <= i < spoken.len() ==> #[trigger] crate::encode::turns(messages)[i]
                    == crate::encode::message_turn(spoken[i])
            &&& crate::encode::system_prompt(messages) == (if texts.len() == 0 {
                None
            } else {
                Some(crate::text::joined(texts, "\n\n"@))
            })
        }),
{
    lemma_turns_are_mapped(messages);
    lemma_system_texts_are_mapped(messages);
}

proof fn lemma_turns_are_mapped(messages: Seq<Message>)
    ensures
        ({
            let spoken = messages.filter(|message: Message| message.role != Role::System);
            &&& crate::encode::turns(messages).len() == spoken.len()
            &&& forall|i: int|
                0 <= i < spoken.len() ==> #[trigger] crate::encode::turns(messages)[i]
                    == crate::encode::message_turn(spoken[i])
        }),
    decreases messages.len(),
{
    reveal(Seq::filter);
    if messages.len() > 0 {
        lemma_turns_are_mapped(messages.drop_last());
    }
}

proof fn lemma_system_texts_are_mapped(messages: Seq<Message>)
    ensures
        crate::encode::system_texts(messages) == messages.filter(
            |message: Message| message.role == Role::System,
        ).map_values(|message: Message| message.content.text()),
    decreases messages.len(),
{
    let is_system = |message: Message| message.role == Role::System;
    let text = |message: Message| message.content.text();
    reveal(Seq::filter);
    if messages.len() > 0 {
        let head = messages.drop_last();
        lemma_system_texts_are_mapped(head);
        if is_system(messages.last()) {
            assert(head.filter(is_system).push(messages.last()).map_values(text) =~= head.filter(
                is_system,
            ).map_values(text).push(text(messages.last())));
        }
    } else {
        assert(messages.filter(is_system).map_values(text) =~= Seq::empty());
    }
}

/// The operator's tools are offered, every one and in order, each under its own name, with its own
/// description and schema. Behind them stands the synthetic tool exactly where there is an output
/// schema, which is then its schema.
pub proof fn law_tools_are_offered(tools: Seq<ToolDef>, schema: Option<Json>)
    ensures
        ({
            let entries = crate::encode::tool_entries(tools, schema);
            &&& forall|i: int|
                0 <= i < tools.len() ==> offers(
                    #[trigger] entries[i],
                    tools[i].name@,
                    tools[i].description@,
                    tools[i].parameters@,
                )
            &&& match schema {
                None => entries.len() == tools.len(),
                Some(schema) => entries.len() == tools.len() + 1 && offers(
                    entries.last(),
                    "respond"@,
                    "Return your final structured response. Call this tool exactly once when you have the answer."@,
                    schema@,
                ),
            }
        }),
{
    lemma_field_names_differ();
    let entries = crate::encode::tool_entries(tools, schema);
    assert forall|i: int| 0 <= i < tools.len() implies offers(
        #[trigger] entries[i],
        tools[i].name@,
        tools[i].description@,
        tools[i].parameters@,
    ) by {
        assert(entries[i] == crate::encode::tool_def_entry(tools[i]));
    }
}

/// The definition of one tool.
pub proof fn law_one_tool(tool: ToolDef)
    ensures
        offers(
            crate::encode::tool_def_entry(tool),
            tool.name@,
            tool.description@,
            tool.parameters@,
        ),
        crate::encode::is_shadowed(tool) <==> tool.name@ == "respond"@,
{
    lemma_field_names_differ();
}

/// The choice of tools that is sent: the synthetic tool where it is the only one; the model's own
/// choice where it is one among others; else the engine's choice, in the provider's words; and
/// nothing where there is no tool.
pub proof fn law_choices_of_tools(has_schema: bool, has_tools: bool, choice: ToolChoiceWire)
    ensures
        ({
            let sent = crate::encode::choice_of(has_schema, has_tools, choice);
            let kind = if has_schema && !has_tools {
                "tool"@
            } else if has_schema {
                "auto"@
            } else {
                match choice {
                    ToolChoiceWire::Auto => "auto"@,
                    ToolChoiceWire::Required => "any"@,
                    ToolChoiceWire::NoTool => "none"@,
                }
            };
            &&& sent is None <==> !has_schema && !has_tools
            &&& sent matches Some(sent) ==> {
                &&& sent.text_field("type"@) == Some(kind)
                &&& no_field_but(sent, "type"@, "name"@, "name"@)
                &&& sent.text_field("name"@) == (if has_schema && !has_tools {
                    Some("respond"@)
                } else {
                    None
                })
                &&& !(has_schema && !has_tools) ==> sent.field("name"@) is None
            }
        }),
{
    lemma_field_names_differ();
}

/// The limit on tokens is the operator's, or else 4096.
pub proof fn law_limits_on_tokens(limit: Option<u32>)
    ensures
        crate::encode::token_limit(limit).unsigned() matches Some(sent) && sent == (match limit {
            Some(limit) => limit as int,
            None => 4096,
        }),
        DEFAULT_MAX_TOKENS == 4096,
        RESPOND_TOOL_NAME@ == "respond"@,
{
}

/// A request is refused exactly where an operator's tool is called `respond`, and is sent otherwise,
/// whole or to be streamed.
pub proof fn law_which_requests_are_refused(request: NormalizedChatRequest)
    ensures
        ({
            let clashes = exists|i: int|
                0 <= i < request.tools@.len() && (#[trigger] request.tools@[i]).name@
                    == "respond"@;
            &&& crate::encode::encoded(request) is Err <==> clashes
            &&& crate::encode::encoded_stream(request) is Err <==> clashes
            &&& crate::encode::encoded(request) matches Err(error) ==> error.kind
                is BadRequest && error.message
                == "operator tool named 'respond' conflicts with the Anthropic structured-output synthetic"@
            &&& crate::encode::encoded_stream(request) matches Err(error) ==> error.kind
                is BadRequest && error.message
                == "operator tool named 'respond' conflicts with the Anthropic structured-output synthetic"@
            &&& crate::encode::shadow_error().kind == ErrorKind::BadRequest
        }),
{
    let tools = request.tools@;
    if exists|i: int| 0 <= i < tools.len() && (#[trigger] tools[i]).name@ == "respond"@ {
        let i = choose|i: int| 0 <= i < tools.len() && (#[trigger] tools[i]).name@ == "respond"@;
        assert(crate::encode::is_shadowed(tools[i]));
        assert(crate::encode::some_shadowed(tools));
    }
}

/// A request that is not refused is sent with its model, its limit, its turns, its prompt, its tools,
/// its choice of tools and its sampling, each under the provider's name for it, and nothing more; to
/// be streamed, it also says so.
pub proof fn law_what_a_request_sends(request: NormalizedChatRequest, streaming: bool)
    ensures
        ({
            let sent = if streaming {
                crate::encode::encoded_stream(request)
            } else {
                crate::encode::encoded(request)
            };
            sent matches Ok(body) ==> {
                &&& body is Object
                &&& body.text_field("model"@) == Some(request.model@)
                &&& body.unsigned_field("max_tokens"@) matches Some(limit) && limit == (
                match request.max_completion_tokens {
                    Some(limit) => limit as int,
                    None => 4096,
                })
                &&& body.field("messages"@) matches Some(turns) && turns.items() == Some(
                    crate::encode::turns(request.messages@),
                )
                &&& body.text_field("system"@) == crate::encode::system_prompt(request.messages@)
                &&& body.field("tools"@) is Some <==> request.tools@.len() > 0
                    || request.response_schema is Some
                &&& body.field("tools"@) matches Some(tools) ==> tools.items() == Some(
                    crate::encode::tool_entries(request.tools@, request.response_schema),
                )
                &&& body.field("tool_choice"@) == crate::encode::choice_of(
                    request.response_schema is Some,
                    request.tools@.len() > 0,
                    request.tool_choice,
                )
                &&& body.field("temperature"@) == (match request.temperature {
                    Some(value) => Some(value@),
                    None => None,
                })
                &&& body.field("top_p"@) == (match request.top_p {
                    Some(value) => Some(value@),
                    None => None,
                })
                &&& body.field("stream"@) == (if streaming {
                    Some(JsonView::Bool(true))
                } else {
                    None
                })
                &&& forall|name: Seq<char>| #[trigger]
                    body.field(name) is Some ==> name == "model"@ || name == "max_tokens"@ || name
                        == "messages"@ || name == "system"@ || name == "tools"@ || name
                        == "tool_choice"@ || name == "temperature"@ || name == "top_p"@ || name
                        == "stream"@
            }
        }),
{
    crate::laws::request::law_fields_of_a_body(request);
    reveal_strlit("stream");
    reveal_strlit("system");
    reveal_strlit("model");
    reveal_strlit("max_tokens");
    reveal_strlit("messages");
    reveal_strlit("tools");
    reveal_strlit("tool_choice");
    reveal_strlit("temperature");
    reveal_strlit("top_p");
    assert("stream"@.len() == 6 && "system"@.len() == 6);
    assert("stream"@[1] != "system"@[1]);
    assert("model"@.len() == 5 && "tools"@.len() == 5 && "top_p"@.len() == 5);
    assert("messages"@.len() == 8 && "max_tokens"@.len() == 10);
    assert("tool_choice"@.len() == 11 && "temperature"@.len() == 11);
    let plain = JsonView::Object(crate::encode::body_fields(request));
    let streamed = JsonView::Object(
        crate::encode::body_fields(request).insert("stream"@, JsonView::Bool(true)),
    );
    assert forall|name: Seq<char>| name != "stream"@ implies #[trigger] streamed.field(name)
        == plain.field(name) by {}
    assert(plain.field("stream"@) is None);
}

} // verus!
