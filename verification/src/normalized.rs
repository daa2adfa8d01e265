//! The conversation as the chat engine holds it, independent of the provider.

use vstd::prelude::*;

use crate::json::{Json, JsonView};

verus! {

/// Who speaks in a message.
#[derive(Clone, Copy, Debug, PartialEq, Eq, Structural)]
pub enum Role {
    System,
    User,
    Assistant,
    Tool,
}

/// Where an image comes from.
pub enum ImageSource {
    Url(String),
    Base64 { mime_type: String, data: String },
    /// A resource of the gateway that nobody has fetched yet.
    McpResource(String),
}

/// An image in a user turn.
pub struct ImageContent {
    pub source: ImageSource,
    /// A hint on the resolution, which the Messages API has no place for.
    pub detail: Option<String>,
}

/// Where a file comes from.
pub enum FileSource {
    Url(String),
    Base64 { data: String },
    /// A resource of the gateway that nobody has fetched yet.
    McpResource(String),
}

/// A document in a user turn.
pub struct FileContent {
    pub source: FileSource,
    pub mime_type: String,
    pub filename: Option<String>,
}

/// One piece of a user turn.
pub enum ContentPart {
    Text(String),
    Image(ImageContent),
    /// A piece of audio. The Messages API takes none, so nothing of it is kept.
    Audio,
    File(FileContent),
}

/// What a message says.
pub enum MessageContent {
    Text(String),
    /// Several pieces, and the text that the engine flattens them to where only text can go.
    Parts { parts: Vec<ContentPart>, text: String },
}

impl MessageContent {
    /// The characters of [`MessageContent::as_text`].
    pub open spec fn text(self) -> Seq<char> {
        match self {
            MessageContent::Text(text) => text@,
            MessageContent::Parts { text, .. } => text@,
        }
    }

    /// The content as plain text.
    pub fn as_text(&self) -> (text: &str)
        ensures
            text@ == self.text(),
    {
        match self {
            MessageContent::Text(text) => text.as_str(),
            MessageContent::Parts { text, .. } => text.as_str(),
        }
    }
}

/// A call of a tool that the model asks for.
#[derive(Debug)]
pub struct ToolCall {
    pub id: String,
    pub name: String,
    pub arguments: Json,
}

/// The model of a [`ToolCall`].
#[verifier::ext_equal]
pub struct ToolCallView {
    pub id: Seq<char>,
    pub name: Seq<char>,
    pub arguments: JsonView,
}

impl View for ToolCall {
    type V = ToolCallView;

    open spec fn view(&self) -> ToolCallView {
        ToolCallView { id: self.id@, name: self.name@, arguments: self.arguments@ }
    }
}

/// The models of a list of tool calls.
pub open spec fn tool_call_views(calls: Seq<ToolCall>) -> Seq<ToolCallView> {
    calls.map_values(|call: ToolCall| call@)
}

/// One message of a conversation.
pub struct Message {
    pub role: Role,
    pub content: MessageContent,
    /// The tool calls of an assistant turn.
    pub tool_calls: Vec<ToolCall>,
    /// The call that a tool turn answers.
    pub tool_call_id: Option<String>,
}

impl Message {
    /// An instruction to the model.
    pub fn system(text: &str) -> (message: Message)
        ensures
            message.role == Role::System,
            message.content is Text,
            message.content.text() == text@,
            message.tool_calls@.len() == 0,
            message.tool_call_id is None,
    {
        Message {
            role: Role::System,
            content: MessageContent::Text(text.to_owned()),
            tool_calls: Vec::new(),
            tool_call_id: None,
        }
    }

    /// A user turn of plain text.
    pub fn user(text: &str) -> (message: Message)
        ensures
            message.role == Role::User,
            message.content is Text,
            message.content.text() == text@,
            message.tool_calls@.len() == 0,
            message.tool_call_id is None,
    {
        Message {
            role: Role::User,
            content: MessageContent::Text(text.to_owned()),
            tool_calls: Vec::new(),
            tool_call_id: None,
        }
    }

    /// A user turn of several pieces. It is sent piece by piece, so it is flattened to no text.
    pub fn user_parts(parts: Vec<ContentPart>) -> (message: Message)
        ensures
            message.role == Role::User,
            message.content matches MessageContent::Parts { parts: kept, text } && kept == parts
                && text@.len() == 0,
            message.tool_calls@.len() == 0,
            message.tool_call_id is None,
    {
        Message {
            role: Role::User,
            content: MessageContent::Parts { parts, text: String::new() },
            tool_calls: Vec::new(),
            tool_call_id: None,
        }
    }

    /// An assistant turn that calls tools and says nothing.
    pub fn assistant_tool_calls(tool_calls: Vec<ToolCall>) -> (message: Message)
        ensures
            message.role == Role::Assistant,
            message.content is Text,
            message.content.text().len() == 0,
            message.tool_calls == tool_calls,
            message.tool_call_id is None,
    {
        Message {
            role: Role::Assistant,
            content: MessageContent::Text(String::new()),
            tool_calls,
            tool_call_id: None,
        }
    }

    /// The answer of a tool to the call with the given id.
    pub fn tool_result(tool_call_id: &str, text: &str) -> (message: Message)
        ensures
            message.role == Role::Tool,
            message.content is Text,
            message.content.text() == text@,
            message.tool_calls@.len() == 0,
            message.tool_call_id matches Some(id) && id@ == tool_call_id@,
    {
        Message {
            role: Role::Tool,
            content: MessageContent::Text(text.to_owned()),
            tool_calls: Vec::new(),
            tool_call_id: Some(tool_call_id.to_owned()),
        }
    }
}

/// A tool that the model may call.
pub struct ToolDef {
    pub name: String,
    pub description: String,
    /// The JSON Schema of the arguments.
    pub parameters: Json,
}

/// How free the model is to call tools.
#[derive(Clone, Copy, Debug, PartialEq, Eq, Structural)]
pub enum ToolChoiceWire {
    /// The model decides.
    Auto,
    /// The model must call some tool.
    Required,
    /// The model must call none.
    NoTool,
}

/// A request for one model turn.
pub struct NormalizedChatRequest {
    pub model: String,
    pub messages: Vec<Message>,
    /// The JSON Schema that the reply must satisfy, where it must satisfy one.
    pub response_schema: Option<Json>,
    pub strict_response: bool,
    pub tools: Vec<ToolDef>,
    pub tool_choice: ToolChoiceWire,
    /// The temperature, as the JSON value that it is sent as.
    pub temperature: Option<Json>,
    /// The nucleus, as the JSON value that it is sent as.
    pub top_p: Option<Json>,
    pub max_completion_tokens: Option<u32>,
    pub seed: Option<u64>,
}

/// Why the model stopped.
#[derive(Clone, Copy, Debug, PartialEq, Eq, Structural)]
pub enum FinishReason {
    Stop,
    ToolCalls,
    Length,
    Other,
}

/// The tokens that a turn took.
#[derive(Clone, Copy, Debug, PartialEq, Eq, Structural)]
pub struct TokenUsage {
    pub input_tokens: u32,
    pub output_tokens: u32,
    pub cached_input_tokens: u32,
}

impl Default for TokenUsage {
    fn default() -> (usage: TokenUsage)
        ensures
            usage == (TokenUsage { input_tokens: 0, output_tokens: 0, cached_input_tokens: 0 }),
    {
        TokenUsage { input_tokens: 0, output_tokens: 0, cached_input_tokens: 0 }
    }
}

/// One model turn.
#[derive(Debug)]
pub struct NormalizedChatResponse {
    pub content: String,
    pub tool_calls: Vec<ToolCall>,
    pub finish_reason: FinishReason,
    pub usage: TokenUsage,
}

/// The model of a [`NormalizedChatResponse`].
#[verifier::ext_equal]
pub struct ChatResponseView {
    pub content: Seq<char>,
    pub tool_calls: Seq<ToolCallView>,
    pub finish_reason: FinishReason,
    pub usage: TokenUsage,
}

impl View for NormalizedChatResponse {
    type V = ChatResponseView;

    open spec fn view(&self) -> ChatResponseView {
        ChatResponseView {
            content: self.content@,
            tool_calls: tool_call_views(self.tool_calls@),
            finish_reason: self.finish_reason,
            usage: self.usage,
        }
    }
}

/// One event of a model turn that arrives in pieces.
#[derive(Debug)]
pub enum NormalizedStreamEvent {
    /// More text.
    TextDelta(String),
    /// A tool call whose arguments are complete.
    ToolCallReady(ToolCall),
    /// The end of the turn.
    Finish { reason: FinishReason, usage: TokenUsage },
}

/// The model of a [`NormalizedStreamEvent`].
#[verifier::ext_equal]
pub enum StreamEventView {
    TextDelta(Seq<char>),
    ToolCallReady(ToolCallView),
    Finish { reason: FinishReason, usage: TokenUsage },
}

impl View for NormalizedStreamEvent {
    type V = StreamEventView;

    open spec fn view(&self) -> StreamEventView {
        match self {
            NormalizedStreamEvent::TextDelta(text) => StreamEventView::TextDelta(text@),
            NormalizedStreamEvent::ToolCallReady(call) => StreamEventView::ToolCallReady(call@),
            NormalizedStreamEvent::Finish { reason, usage } => StreamEventView::Finish {
                reason: *reason,
                usage: *usage,
            },
        }
    }
}

/// The models of a list of events.
pub open spec fn event_views(events: Seq<NormalizedStreamEvent>) -> Seq<StreamEventView> {
    events.map_values(|event: NormalizedStreamEvent| event@)
}

} // verus!
