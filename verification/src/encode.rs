//! From the engine's request to the body of a Messages API call.

use vstd::prelude::*;
use vstd::string::*;

use crate::error::{ErrorKind, ErrorView, ProviderError};
use crate::json::{put, Json, JsonView, NumberView};
use crate::normalized::{
    ContentPart, FileContent, FileSource, ImageSource, Message, MessageContent,
    NormalizedChatRequest, Role, ToolCall, ToolChoiceWire, ToolDef,
};
use crate::text::{text_concat, text_eq, text_join};

verus! {

broadcast use vstd::string::group_string_axioms;

/// The synthetic tool that carries structured output. An operator's tool may not have this name.
pub const RESPOND_TOOL_NAME: &'static str = "respond";

/// The Messages API wants a limit on every call; this one is sent where the operator set none.
pub const DEFAULT_MAX_TOKENS: u32 = 4096;

/// A string value.
pub open spec fn text_value(text: Seq<char>) -> JsonView {
    JsonView::Str(text)
}

/// A block of plain text.
pub open spec fn text_block(text: Seq<char>) -> JsonView {
    JsonView::Object(map!["type"@ => text_value("text"@), "text"@ => text_value(text)])
}

/// A source that the provider fetches itself.
pub open spec fn url_source(url: Seq<char>) -> JsonView {
    JsonView::Object(map!["type"@ => text_value("url"@), "url"@ => text_value(url)])
}

/// A source that is sent along.
pub open spec fn base64_source(media_type: Seq<char>, data: Seq<char>) -> JsonView {
    JsonView::Object(
        map![
            "type"@ => text_value("base64"@),
            "media_type"@ => text_value(media_type),
            "data"@ => text_value(data),
        ],
    )
}

/// A block for an image.
pub open spec fn image_block(source: ImageSource) -> JsonView {
    match source {
        ImageSource::Url(url) => JsonView::Object(
            map!["type"@ => text_value("image"@), "source"@ => url_source(url@)],
        ),
        ImageSource::Base64 { mime_type, data } => JsonView::Object(
            map!["type"@ => text_value("image"@), "source"@ => base64_source(mime_type@, data@)],
        ),
        ImageSource::McpResource(uri) => text_block(
            "[unresolved image resource: "@ + uri@ + "]"@,
        ),
    }
}

/// A block for a document, with its title where it has one.
pub open spec fn document_block(source: JsonView, filename: Option<String>) -> JsonView {
    let fields = map!["type"@ => text_value("document"@), "source"@ => source];
    match filename {
        Some(name) => JsonView::Object(fields.insert("title"@, text_value(name@))),
        None => JsonView::Object(fields),
    }
}

/// A block for a file.
pub open spec fn file_block(file: FileContent) -> JsonView {
    match file.source {
        FileSource::Url(url) => document_block(url_source(url@), file.filename),
        FileSource::Base64 { data } => document_block(
            base64_source(file.mime_type@, data@),
            file.filename,
        ),
        FileSource::McpResource(uri) => text_block("[unresolved file resource: "@ + uri@ + "]"@),
    }
}

/// A block for a piece of a user turn. What the provider cannot take becomes a text that says so.
pub open spec fn part_block(part: ContentPart) -> JsonView {
    match part {
        ContentPart::Text(text) => text_block(text@),
        ContentPart::Image(image) => image_block(image.source),
        ContentPart::Audio => text_block("[audio input not supported by anthropic.chat]"@),
        ContentPart::File(file) => file_block(file),
    }
}

/// The blocks of a user turn, piece by piece.
pub open spec fn part_blocks(parts: Seq<ContentPart>) -> Seq<JsonView> {
    parts.map_values(|part: ContentPart| part_block(part))
}

/// A block for a tool call.
pub open spec fn tool_use_block(call: ToolCall) -> JsonView {
    JsonView::Object(
        map![
            "type"@ => text_value("tool_use"@),
            "id"@ => text_value(call.id@),
            "name"@ => text_value(call.name@),
            "input"@ => call.arguments@,
        ],
    )
}

/// The blocks of an assistant turn: its text, if it says something, and its tool calls. A turn
/// without either is one empty text, since the provider takes no turn without a block.
pub open spec fn assistant_blocks(text: Seq<char>, calls: Seq<ToolCall>) -> Seq<JsonView> {
    let said = if text.len() > 0 {
        seq![text_block(text)]
    } else {
        Seq::empty()
    };
    let blocks = said + calls.map_values(|call: ToolCall| tool_use_block(call));
    if blocks.len() == 0 {
        seq![text_block(Seq::empty())]
    } else {
        blocks
    }
}

/// A block for the answer of a tool.
pub open spec fn tool_result_block(id: Seq<char>, text: Seq<char>) -> JsonView {
    JsonView::Object(
        map![
            "type"@ => text_value("tool_result"@),
            "tool_use_id"@ => text_value(id),
            "content"@ => text_value(text),
        ],
    )
}

/// A turn of the given speaker.
pub open spec fn turn(role: Seq<char>, content: JsonView) -> JsonView {
    JsonView::Object(map!["role"@ => text_value(role), "content"@ => content])
}

/// The turn of a message. The answer of a tool rides on a user turn.
pub open spec fn message_turn(message: Message) -> JsonView
    recommends
        message.role != Role::System,
{
    match message.role {
        Role::User => match message.content {
            MessageContent::Text(text) => turn("user"@, text_value(text@)),
            MessageContent::Parts { parts, .. } => turn(
                "user"@,
                JsonView::Array(part_blocks(parts@)),
            ),
        },
        Role::Tool => turn(
            "user"@,
            JsonView::Array(
                seq![
                    tool_result_block(
                        crate::stream::text_or_empty(crate::stream::opt_view(message.tool_call_id)),
                        message.content.text(),
                    ),
                ],
            ),
        ),
        _ => turn(
            "assistant"@,
            JsonView::Array(assistant_blocks(message.content.text(), message.tool_calls@)),
        ),
    }
}

/// The turns of a conversation: every message but the system ones, in order.
pub open spec fn turns(messages: Seq<Message>) -> Seq<JsonView>
    decreases messages.len(),
{
    if messages.len() == 0 {
        Seq::empty()
    } else if messages.last().role == Role::System {
        turns(messages.drop_last())
    } else {
        turns(messages.drop_last()).push(message_turn(messages.last()))
    }
}

/// The texts of the system messages, in order.
pub open spec fn system_texts(messages: Seq<Message>) -> Seq<Seq<char>>
    decreases messages.len(),
{
    if messages.len() == 0 {
        Seq::empty()
    } else if messages.last().role == Role::System {
        system_texts(messages.drop_last()).push(messages.last().content.text())
    } else {
        system_texts(messages.drop_last())
    }
}

/// The system prompt: the texts of the system messages with a blank line between every two.
pub open spec fn system_prompt(messages: Seq<Message>) -> Option<Seq<char>> {
    let texts = system_texts(messages);
    if texts.len() == 0 {
        None
    } else {
        Some(crate::text::joined(texts, "\n\n"@))
    }
}

/// The definition of a tool.
pub open spec fn tool_entry(
    name: Seq<char>,
    description: Seq<char>,
    schema: JsonView,
) -> JsonView {
    JsonView::Object(
        map![
            "name"@ => text_value(name),
            "description"@ => text_value(description),
            "input_schema"@ => schema,
        ],
    )
}

/// The definition of an operator's tool.
pub open spec fn tool_def_entry(tool: ToolDef) -> JsonView {
    tool_entry(tool.name@, tool.description@, tool.parameters@)
}

/// An operator's tool has the name of the synthetic one.
pub open spec fn is_shadowed(tool: ToolDef) -> bool {
    tool.name@ == RESPOND_TOOL_NAME@
}

/// Some operator's tool has the name of the synthetic one.
pub open spec fn some_shadowed(tools: Seq<ToolDef>) -> bool {
    exists|i: int| 0 <= i < tools.len() && is_shadowed(#[trigger] tools[i])
}

/// Why a request with such a tool is refused.
pub open spec fn shadow_error() -> ErrorView {
    ErrorView {
        kind: ErrorKind::BadRequest,
        message:
            "operator tool named 'respond' conflicts with the Anthropic structured-output synthetic"@,
    }
}

/// The definition of the synthetic tool: its input is what the operator's schema describes.
pub open spec fn respond_entry(schema: JsonView) -> JsonView {
    tool_entry(
        RESPOND_TOOL_NAME@,
        "Return your final structured response. Call this tool exactly once when you have the answer."@,
        schema,
    )
}

/// The tools of a request: the operator's, and the synthetic one where there is a schema.
pub open spec fn tool_entries(tools: Seq<ToolDef>, schema: Option<Json>) -> Seq<JsonView> {
    let own = tools.map_values(|tool: ToolDef| tool_def_entry(tool));
    match schema {
        Some(schema) => own.push(respond_entry(schema@)),
        None => own,
    }
}

/// A choice of tools that is only a type.
pub open spec fn choice_type(kind: Seq<char>) -> JsonView {
    JsonView::Object(map!["type"@ => text_value(kind)])
}

/// How free the model is to call tools. With a schema and no other tool the synthetic tool is
/// forced; with other tools it is not, so that the model can go on calling them. Without a schema
/// the engine's choice is sent, where there is a tool to choose.
pub open spec fn choice_of(
    has_schema: bool,
    has_tools: bool,
    choice: ToolChoiceWire,
) -> Option<JsonView> {
    if has_schema {
        if has_tools {
            Some(choice_type("auto"@))
        } else {
            Some(
                JsonView::Object(
                    map![
                        "type"@ => text_value("tool"@),
                        "name"@ => text_value(RESPOND_TOOL_NAME@),
                    ],
                ),
            )
        }
    } else if has_tools {
        match choice {
            ToolChoiceWire::Auto => Some(choice_type("auto"@)),
            ToolChoiceWire::Required => Some(choice_type("any"@)),
            ToolChoiceWire::NoTool => Some(choice_type("none"@)),
        }
    } else {
        None
    }
}

/// The fields with one more, where it has a value.
pub open spec fn with_field(
    fields: Map<Seq<char>, JsonView>,
    name: Seq<char>,
    value: Option<JsonView>,
) -> Map<Seq<char>, JsonView> {
    match value {
        Some(value) => fields.insert(name, value),
        None => fields,
    }
}

/// The model of a value that may be missing.
pub open spec fn opt_json(value: Option<Json>) -> Option<JsonView> {
    match value {
        Some(value) => Some(value@),
        None => None,
    }
}

/// The limit on the tokens of the answer.
pub open spec fn token_limit(limit: Option<u32>) -> JsonView {
    JsonView::Number(
        NumberView::Unsigned(
            match limit {
                Some(limit) => limit as u64,
                None => DEFAULT_MAX_TOKENS as u64,
            },
        ),
    )
}

/// The fields of the body that are always there, and the system prompt.
pub open spec fn prompt_fields(request: NormalizedChatRequest) -> Map<Seq<char>, JsonView> {
    with_field(
        map![
            "model"@ => text_value(request.model@),
            "max_tokens"@ => token_limit(request.max_completion_tokens),
        ],
        "system"@,
        match system_prompt(request.messages@) {
            Some(prompt) => Some(text_value(prompt)),
            None => None,
        },
    ).insert("messages"@, JsonView::Array(turns(request.messages@)))
}

/// The fields of the body up to those on tools.
pub open spec fn tool_fields(request: NormalizedChatRequest) -> Map<Seq<char>, JsonView> {
    let entries = tool_entries(request.tools@, request.response_schema);
    with_field(
        with_field(
            prompt_fields(request),
            "tools"@,
            if entries.len() > 0 {
                Some(JsonView::Array(entries))
            } else {
                None
            },
        ),
        "tool_choice"@,
        choice_of(request.response_schema is Some, request.tools@.len() > 0, request.tool_choice),
    )
}

/// All fields of the body.
pub open spec fn body_fields(request: NormalizedChatRequest) -> Map<Seq<char>, JsonView> {
    with_field(
        with_field(tool_fields(request), "temperature"@, opt_json(request.temperature)),
        "top_p"@,
        opt_json(request.top_p),
    )
}

/// The body of the call, or why there is none.
pub open spec fn encoded(request: NormalizedChatRequest) -> Result<JsonView, ErrorView> {
    if some_shadowed(request.tools@) {
        Err(shadow_error())
    } else {
        Ok(JsonView::Object(body_fields(request)))
    }
}

/// The body of a call whose answer is to arrive in pieces, or why there is none.
pub open spec fn encoded_stream(request: NormalizedChatRequest) -> Result<JsonView, ErrorView> {
    if some_shadowed(request.tools@) {
        Err(shadow_error())
    } else {
        Ok(JsonView::Object(body_fields(request).insert("stream"@, JsonView::Bool(true))))
    }
}

/// The model of a result whose error is a [`ProviderError`].
pub open spec fn json_result(result: Result<Json, ProviderError>) -> Result<JsonView, ErrorView> {
    match result {
        Ok(value) => Ok(value@),
        Err(error) => Err(error@),
    }
}

/// An object with a type.
fn typed(kind: &str) -> (entries: Vec<(String, Json)>)
    ensures
        crate::json::fields_model(entries@) == map!["type"@ => text_value(kind@)],
{
    let mut entries: Vec<(String, Json)> = Vec::new();
    put(&mut entries, "type", Json::from_text(kind));
    entries
}

/// Sets a field to a string.
fn put_text(entries: &mut Vec<(String, Json)>, name: &str, text: &str)
    ensures
        crate::json::fields_model(final(entries)@) == crate::json::fields_model(
            old(entries)@,
        ).insert(name@, text_value(text@)),
{
    put(entries, name, Json::from_text(text));
}

/// Sets a field where it has a value.
fn put_opt(entries: &mut Vec<(String, Json)>, name: &str, value: Option<Json>)
    ensures
        crate::json::fields_model(final(entries)@) == with_field(
            crate::json::fields_model(old(entries)@),
            name@,
            opt_json(value),
        ),
{
    if let Some(value) = value {
        put(entries, name, value);
    }
}

/// A copy of a value that may be missing.
fn copy_opt(value: &Option<Json>) -> (copy: Option<Json>)
    ensures
        opt_json(copy) == opt_json(*value),
{
    match value {
        Some(value) => Some(value.clone()),
        None => None,
    }
}

/// A block of plain text.
fn make_text_block(text: &str) -> (block: Json)
    ensures
        block@ == text_block(text@),
{
    let mut entries: Vec<(String, Json)> = typed("text");
    put_text(&mut entries, "text", text);
    Json::Object(entries)
}

/// A source that the provider fetches itself.
fn make_url_source(url: &str) -> (source: Json)
    ensures
        source@ == url_source(url@),
{
    let mut entries: Vec<(String, Json)> = typed("url");
    put_text(&mut entries, "url", url);
    Json::Object(entries)
}

/// A source that is sent along.
fn make_base64_source(media_type: &str, data: &str) -> (source: Json)
    ensures
        source@ == base64_source(media_type@, data@),
{
    let mut entries: Vec<(String, Json)> = typed("base64");
    put_text(&mut entries, "media_type", media_type);
    put_text(&mut entries, "data", data);
    Json::Object(entries)
}

/// A text that names a resource nobody has fetched.
fn make_notice(before: &str, uri: &str) -> (block: Json)
    ensures
        block@ == text_block(before@ + uri@ + "]"@),
{
    let mut notice: String = text_concat(before, uri);
    notice.append("]");
    make_text_block(notice.as_str())
}

/// A block for an image.
fn make_image_block(source: &ImageSource) -> (block: Json)
    ensures
        block@ == image_block(*source),
{
    match source {
        ImageSource::Url(url) => {
            let mut entries: Vec<(String, Json)> = typed("image");
            put(&mut entries, "source", make_url_source(url.as_str()));
            Json::Object(entries)
        },
        ImageSource::Base64 { mime_type, data } => {
            let mut entries: Vec<(String, Json)> = typed("image");
            put(&mut entries, "source", make_base64_source(mime_type.as_str(), data.as_str()));
            Json::Object(entries)
        },
        ImageSource::McpResource(uri) => make_notice("[unresolved image resource: ", uri.as_str()),
    }
}

/// A block for a document.
fn make_document_block(source: Json, filename: &Option<String>) -> (block: Json)
    ensures
        block@ == document_block(source@, *filename),
{
    let mut entries: Vec<(String, Json)> = typed("document");
    put(&mut entries, "source", source);
    if let Some(name) = filename {
        put_text(&mut entries, "title", name.as_str());
    }
    Json::Object(entries)
}

/// A block for a file.
fn make_file_block(file: &FileContent) -> (block: Json)
    ensures
        block@ == file_block(*file),
{
    match &file.source {
        FileSource::Url(url) => make_document_block(make_url_source(url.as_str()), &file.filename),
        FileSource::Base64 { data } => make_document_block(
            make_base64_source(file.mime_type.as_str(), data.as_str()),
            &file.filename,
        ),
        FileSource::McpResource(uri) => make_notice("[unresolved file resource: ", uri.as_str()),
    }
}

/// The blocks of a user turn, one for each piece.
pub fn encode_user_parts(parts: &Vec<ContentPart>) -> (blocks: Json)
    ensures
        blocks@ == JsonView::Array(part_blocks(parts@)),
{
    let mut blocks: Vec<Json> = Vec::new();
    let mut i: usize = 0;
    while i < parts.len()
        invariant
            i <= parts@.len(),
            crate::json::items_model(blocks@) == part_blocks(parts@.take(i as int)),
        decreases parts@.len() - i,
    {
        let block: Json = match &parts[i] {
            ContentPart::Text(text) => make_text_block(text.as_str()),
            ContentPart::Image(image) => make_image_block(&image.source),
            ContentPart::Audio => make_text_block("[audio input not supported by anthropic.chat]"),
            ContentPart::File(file) => make_file_block(file),
        };
        proof {
            crate::json::lemma_items_model_push(blocks@, block);
            assert(part_blocks(parts@.take(i + 1)) =~= part_blocks(parts@.take(i as int)).push(
                part_block(parts@[i as int]),
            ));
        }
        blocks.push(block);
        i += 1;
    }
    assert(parts@.take(parts@.len() as int) =~= parts@);
    Json::Array(blocks)
}

/// A block for a tool call.
fn make_tool_use_block(call: &ToolCall) -> (block: Json)
    ensures
        block@ == tool_use_block(*call),
{
    let mut entries: Vec<(String, Json)> = typed("tool_use");
    put_text(&mut entries, "id", call.id.as_str());
    put_text(&mut entries, "name", call.name.as_str());
    put(&mut entries, "input", call.arguments.clone());
    Json::Object(entries)
}

/// The blocks of an assistant turn.
fn encode_assistant(text: &str, calls: &Vec<ToolCall>) -> (blocks: Vec<Json>)
    ensures
        crate::json::items_model(blocks@) == assistant_blocks(text@, calls@),
{
    let mut blocks: Vec<Json> = Vec::new();
    let ghost said = if text@.len() > 0 {
        seq![text_block(text@)]
    } else {
        Seq::empty()
    };
    if !text.is_empty() {
        let block: Json = make_text_block(text);
        proof {
            crate::json::lemma_items_model_push(blocks@, block);
        }
        blocks.push(block);
    }
    let ghost entry = |call: ToolCall| tool_use_block(call);
    assert(crate::json::items_model(blocks@) =~= said + calls@.take(0).map_values(entry));
    let mut i: usize = 0;
    while i < calls.len()
        invariant
            i <= calls@.len(),
            entry == (|call: ToolCall| tool_use_block(call)),
            crate::json::items_model(blocks@) == said + calls@.take(i as int).map_values(entry),
        decreases calls@.len() - i,
    {
        let block: Json = make_tool_use_block(&calls[i]);
        proof {
            crate::json::lemma_items_model_push(blocks@, block);
            assert(said + calls@.take(i + 1).map_values(entry) =~= (said + calls@.take(
                i as int,
            ).map_values(entry)).push(tool_use_block(calls@[i as int])));
        }
        blocks.push(block);
        i += 1;
    }
    assert(calls@.take(calls@.len() as int) =~= calls@);
    proof {
        crate::json::lemma_items_model(blocks@);
    }
    if blocks.len() == 0 {
        let block: Json = make_text_block("");
        proof {
            reveal_strlit("");
            assert(""@ =~= Seq::<char>::empty());
            crate::json::lemma_items_model_push(blocks@, block);
            assert(crate::json::items_model(blocks@.push(block)) =~= seq![
                text_block(Seq::empty()),
            ]);
        }
        blocks.push(block);
    }
    blocks
}

/// A turn of the given speaker.
fn make_turn(role: &str, content: Json) -> (message: Json)
    ensures
        message@ == turn(role@, content@),
{
    let mut entries: Vec<(String, Json)> = Vec::new();
    put_text(&mut entries, "role", role);
    put(&mut entries, "content", content);
    Json::Object(entries)
}

/// The turn of a message that is no system message.
fn encode_turn(message: &Message) -> (encoded: Json)
    requires
        message.role != Role::System,
    ensures
        encoded@ == message_turn(*message),
{
    match message.role {
        Role::User => match &message.content {
            MessageContent::Text(text) => make_turn("user", Json::from_text(text.as_str())),
            MessageContent::Parts { parts, .. } => make_turn("user", encode_user_parts(parts)),
        },
        Role::Tool => {
            let id: &str = match &message.tool_call_id {
                Some(id) => id.as_str(),
                None => "",
            };
            proof {
                reveal_strlit("");
                assert(""@ =~= Seq::<char>::empty());
            }
            let mut entries: Vec<(String, Json)> = typed("tool_result");
            put_text(&mut entries, "tool_use_id", id);
            put_text(&mut entries, "content", message.content.as_text());
            let block = Json::Object(entries);
            let mut blocks: Vec<Json> = Vec::new();
            proof {
                crate::json::lemma_items_model_push(blocks@, block);
                assert(crate::json::items_model(blocks@.push(block)) =~= seq![block@]);
            }
            blocks.push(block);
            make_turn("user", Json::Array(blocks))
        },
        _ => make_turn(
            "assistant",
            Json::Array(encode_assistant(message.content.as_text(), &message.tool_calls)),
        ),
    }
}

/// The system prompt and the turns of a conversation. It never fails.
pub fn encode_messages(messages: &Vec<Message>) -> (result: Result<
    (Option<String>, Vec<Json>),
    ProviderError,
>)
    ensures
        result matches Ok((system, encoded)) && crate::stream::opt_view(system) == system_prompt(
            messages@,
        ) && crate::json::items_model(encoded@) == turns(messages@),
{
    let mut texts: Vec<String> = Vec::new();
    let mut encoded: Vec<Json> = Vec::new();
    assert(crate::text::views(texts@) =~= Seq::empty());
    let mut i: usize = 0;
    while i < messages.len()
        invariant
            i <= messages@.len(),
            crate::text::views(texts@) == system_texts(messages@.take(i as int)),
            crate::json::items_model(encoded@) == turns(messages@.take(i as int)),
        decreases messages@.len() - i,
    {
        assert(messages@.take(i + 1).drop_last() =~= messages@.take(i as int));
        assert(messages@.take(i + 1).last() == messages@[i as int]);
        if messages[i].role == Role::System {
            let text: String = messages[i].content.as_text().to_owned();
            assert(crate::text::views(texts@.push(text)) =~= crate::text::views(texts@).push(text@));
            texts.push(text);
        } else {
            let message: Json = encode_turn(&messages[i]);
            proof {
                crate::json::lemma_items_model_push(encoded@, message);
            }
            encoded.push(message);
        }
        i += 1;
    }
    assert(messages@.take(messages@.len() as int) =~= messages@);
    let system: Option<String> = if texts.len() == 0 {
        None
    } else {
        Some(text_join(&texts, "\n\n"))
    };
    Ok((system, encoded))
}

/// The definition of a tool.
fn make_tool_entry(name: &str, description: &str, schema: Json) -> (entry: Json)
    ensures
        entry@ == tool_entry(name@, description@, schema@),
{
    let mut entries: Vec<(String, Json)> = Vec::new();
    put_text(&mut entries, "name", name);
    put_text(&mut entries, "description", description);
    put(&mut entries, "input_schema", schema);
    Json::Object(entries)
}

/// The definition of an operator's tool. One with the name of the synthetic tool is refused.
pub fn encode_tool_def(tool: &ToolDef) -> (result: Result<Json, ProviderError>)
    ensures
        json_result(result) == (if is_shadowed(*tool) {
            Err(shadow_error())
        } else {
            Ok(tool_def_entry(*tool))
        }),
{
    if text_eq(tool.name.as_str(), RESPOND_TOOL_NAME) {
        return Err(
            ProviderError::BadRequest {
                message:
                    "operator tool named 'respond' conflicts with the Anthropic structured-output synthetic".to_owned(),
            },
        );
    }
    Ok(
        make_tool_entry(
            tool.name.as_str(),
            tool.description.as_str(),
            tool.parameters.clone(),
        ),
    )
}

/// The tools of a request.
fn encode_tools(tools: &Vec<ToolDef>, schema: &Option<Json>) -> (result: Result<
    Vec<Json>,
    ProviderError,
>)
    ensures
        match result {
            Ok(entries) => !some_shadowed(tools@) && crate::json::items_model(entries@)
                == tool_entries(tools@, *schema),
            Err(error) => some_shadowed(tools@) && error@ == shadow_error(),
        },
{
    let mut entries: Vec<Json> = Vec::new();
    let ghost entry = |tool: ToolDef| tool_def_entry(tool);
    assert(tools@.take(0).map_values(entry) =~= Seq::empty());
    let mut i: usize = 0;
    while i < tools.len()
        invariant
            i <= tools@.len(),
            entry == (|tool: ToolDef| tool_def_entry(tool)),
            forall|j: int| 0 <= j < i ==> !is_shadowed(#[trigger] tools@[j]),
            crate::json::items_model(entries@) == tools@.take(i as int).map_values(entry),
        decreases tools@.len() - i,
    {
        match encode_tool_def(&tools[i]) {
            Ok(encoded) => {
                proof {
                    crate::json::lemma_items_model_push(entries@, encoded);
                    assert(tools@.take(i + 1).map_values(entry) =~= tools@.take(
                        i as int,
                    ).map_values(entry).push(tool_def_entry(tools@[i as int])));
                }
                entries.push(encoded);
            },
            Err(error) => {
                assert(is_shadowed(tools@[i as int]));
                return Err(error);
            },
        }
        i += 1;
    }
    assert(tools@.take(tools@.len() as int) =~= tools@);
    if let Some(schema) = schema {
        let respond: Json = make_tool_entry(
            RESPOND_TOOL_NAME,
            "Return your final structured response. Call this tool exactly once when you have the answer.",
            schema.clone(),
        );
        proof {
            crate::json::lemma_items_model_push(entries@, respond);
        }
        entries.push(respond);
    }
    Ok(entries)
}

/// How free the model is to call tools.
fn encode_tool_choice(has_schema: bool, has_tools: bool, choice: ToolChoiceWire) -> (encoded: Option<
    Json,
>)
    ensures
        opt_json(encoded) == choice_of(has_schema, has_tools, choice),
{
    if has_schema {
        if has_tools {
            return Some(Json::Object(typed("auto")));
        }
        let mut entries: Vec<(String, Json)> = typed("tool");
        put_text(&mut entries, "name", RESPOND_TOOL_NAME);
        return Some(Json::Object(entries));
    }
    if !has_tools {
        return None;
    }
    match choice {
        ToolChoiceWire::Auto => Some(Json::Object(typed("auto"))),
        ToolChoiceWire::Required => Some(Json::Object(typed("any"))),
        ToolChoiceWire::NoTool => Some(Json::Object(typed("none"))),
    }
}

/// The fields of the body.
fn encode_fields(request: &NormalizedChatRequest) -> (result: Result<
    Vec<(String, Json)>,
    ProviderError,
>)
    ensures
        match result {
            Ok(body) => !some_shadowed(request.tools@) && crate::json::fields_model(body@)
                == body_fields(*request),
            Err(error) => some_shadowed(request.tools@) && error@ == shadow_error(),
        },
{
    let (system, messages) = match encode_messages(&request.messages) {
        Ok(encoded) => encoded,
        Err(error) => {
            return Err(error);
        },
    };
    let mut body: Vec<(String, Json)> = Vec::new();
    put_text(&mut body, "model", request.model.as_str());
    let limit: u32 = match request.max_completion_tokens {
        Some(limit) => limit,
        None => DEFAULT_MAX_TOKENS,
    };
    put(&mut body, "max_tokens", Json::from_u64(limit as u64));
    if let Some(system) = system {
        put_text(&mut body, "system", system.as_str());
    }
    put(&mut body, "messages", Json::Array(messages));
    assert(crate::json::fields_model(body@) == prompt_fields(*request));
    let tools: Vec<Json> = match encode_tools(&request.tools, &request.response_schema) {
        Ok(tools) => tools,
        Err(error) => {
            return Err(error);
        },
    };
    proof {
        crate::json::lemma_items_model(tools@);
    }
    if tools.len() > 0 {
        put(&mut body, "tools", Json::Array(tools));
    }
    put_opt(
        &mut body,
        "tool_choice",
        encode_tool_choice(
            request.response_schema.is_some(),
            request.tools.len() > 0,
            request.tool_choice,
        ),
    );
    put_opt(&mut body, "temperature", copy_opt(&request.temperature));
    put_opt(&mut body, "top_p", copy_opt(&request.top_p));
    Ok(body)
}

/// The body of a Messages API call.
pub fn encode_request(request: &NormalizedChatRequest) -> (result: Result<Json, ProviderError>)
    ensures
        json_result(result) == encoded(*request),
{
    match encode_fields(request) {
        Ok(body) => Ok(Json::Object(body)),
        Err(error) => Err(error),
    }
}

/// The body of a Messages API call whose answer is to arrive in pieces.
pub fn encode_stream_request(request: &NormalizedChatRequest) -> (result: Result<
    Json,
    ProviderError,
>)
    ensures
        json_result(result) == encoded_stream(*request),
{
    match encode_fields(request) {
        Ok(mut body) => {
            put(&mut body, "stream", Json::Bool(true));
            Ok(Json::Object(body))
        },
        Err(error) => Err(error),
    }
}

} // verus!
