use backend_llm_anthropic::encode::{
    encode_messages, encode_request, encode_stream_request, encode_tool_def, encode_user_parts,
    DEFAULT_MAX_TOKENS, RESPOND_TOOL_NAME,
};
use backend_llm_anthropic::error::ProviderError;
use backend_llm_anthropic::json::Json;
use backend_llm_anthropic::normalized::{
    ContentPart, FileContent, FileSource, ImageContent, ImageSource, Message, MessageContent,
    NormalizedChatRequest, Role, ToolCall, ToolChoiceWire, ToolDef,
};
use serde_json::Value;

fn value(text: &str) -> Value {
    serde_json::from_str(text).unwrap()
}

fn json(text: &str) -> Json {
    Json::from_json_text(text).unwrap()
}

fn text(text: &str) -> Value {
    Value::String(text.to_owned())
}

fn user_only(content: &str) -> Vec<Message> {
    vec![Message::user(content)]
}

fn sys_user(sys: &str, user: &str) -> Vec<Message> {
    vec![Message::system(sys), Message::user(user)]
}

fn baseline_request(messages: Vec<Message>) -> NormalizedChatRequest {
    NormalizedChatRequest {
        model: "sonnet-3-5".into(),
        messages,
        response_schema: None,
        strict_response: false,
        tools: vec![],
        tool_choice: ToolChoiceWire::Auto,
        temperature: None,
        top_p: None,
        max_completion_tokens: None,
        seed: None,
    }
}

fn tool(name: &str) -> ToolDef {
    ToolDef {
        name: name.into(),
        description: "x".into(),
        parameters: json("{\"type\": \"object\"}"),
    }
}

fn body_of(request: &NormalizedChatRequest) -> Value {
    encode_request(request).unwrap().to_value()
}

#[test]
fn encode_pulls_system_prompt_to_top_level() {
    let r = baseline_request(sys_user("you are helpful", "hi"));
    let body = body_of(&r);
    assert_eq!(body["system"], text("you are helpful"));
    assert_eq!(body["messages"][0]["role"], text("user"));
    assert_eq!(body["messages"][0]["content"], text("hi"));
    assert!(body.get("tools").is_none());
    assert!(body.get("tool_choice").is_none());
}

#[test]
fn encode_concatenates_multiple_system_messages() {
    let mut msgs = sys_user("first", "hi");
    msgs.insert(1, Message::system("second"));
    let r = baseline_request(msgs);
    let body = body_of(&r);
    assert_eq!(body["system"], text("first\n\nsecond"));
}

#[test]
fn encode_emits_default_max_tokens_when_unset() {
    let r = baseline_request(user_only("hi"));
    let body = body_of(&r);
    assert_eq!(body["max_tokens"], value("4096"));
    assert_eq!(DEFAULT_MAX_TOKENS, 4096);
}

#[test]
fn encode_with_response_schema_no_tools_forces_respond() {
    let mut r = baseline_request(user_only("hi"));
    r.response_schema = Some(json("{\"type\": \"object\"}"));
    let body = body_of(&r);
    let tools = body["tools"].as_array().unwrap();
    assert_eq!(tools.len(), 1);
    assert_eq!(tools[0]["name"], text(RESPOND_TOOL_NAME));
    assert_eq!(body["tool_choice"]["type"], text("tool"));
    assert_eq!(body["tool_choice"]["name"], text(RESPOND_TOOL_NAME));
}

#[test]
fn encode_with_response_schema_and_tools_uses_auto() {
    let mut r = baseline_request(user_only("hi"));
    r.response_schema = Some(json("{\"type\": \"object\"}"));
    r.tools = vec![tool("child")];
    let body = body_of(&r);
    let tools = body["tools"].as_array().unwrap();
    assert_eq!(tools.len(), 2, "operator tool + synthetic respond");
    assert_eq!(body["tool_choice"]["type"], text("auto"));
}

#[test]
fn encode_required_choice_maps_to_any() {
    let mut r = baseline_request(user_only("hi"));
    r.tools = vec![tool("x")];
    r.tool_choice = ToolChoiceWire::Required;
    let body = body_of(&r);
    assert_eq!(body["tool_choice"]["type"], text("any"));
}

#[test]
fn encode_rejects_operator_tool_named_respond() {
    let mut r = baseline_request(user_only("hi"));
    r.response_schema = Some(json("{\"type\": \"object\"}"));
    r.tools = vec![tool(RESPOND_TOOL_NAME)];
    let err = encode_request(&r).unwrap_err();
    assert!(matches!(err, ProviderError::BadRequest { .. }));
}

#[test]
fn encode_assistant_with_tool_calls_emits_content_blocks() {
    let mut msgs = sys_user("sys", "user");
    msgs.push(Message::assistant_tool_calls(vec![ToolCall {
        id: "t_1".into(),
        name: "fetch".into(),
        arguments: json("{\"q\": \"x\"}"),
    }]));
    msgs.push(Message::tool_result("t_1", "{\"data\":42}"));
    let r = baseline_request(msgs);
    let body = body_of(&r);
    let messages = body["messages"].as_array().unwrap();
    // [user, assistant_with_tool_use, user_with_tool_result]
    assert_eq!(messages.len(), 3);
    assert_eq!(messages[1]["role"], text("assistant"));
    assert_eq!(messages[1]["content"][0]["type"], text("tool_use"));
    assert_eq!(messages[2]["role"], text("user"));
    assert_eq!(messages[2]["content"][0]["type"], text("tool_result"));
    assert_eq!(messages[2]["content"][0]["tool_use_id"], text("t_1"));
}

#[test]
fn encode_drops_seed() {
    let mut r = baseline_request(user_only("hi"));
    r.seed = Some(42);
    let body = body_of(&r);
    assert!(body.get("seed").is_none(), "Anthropic does not support seed");
}

#[test]
fn encode_passes_through_temperature_and_top_p() {
    let mut r = baseline_request(user_only("hi"));
    r.temperature = Some(Json::from_value(Value::from(0.5)));
    r.top_p = Some(Json::from_value(Value::from(0.5)));
    let body = body_of(&r);
    assert_eq!(body["temperature"].as_f64().unwrap(), 0.5);
    assert_eq!(body["top_p"].as_f64().unwrap(), 0.5);
}

#[test]
fn encode_user_image_base64_emits_anthropic_image_block() {
    let parts = vec![
        ContentPart::Text("what's here".into()),
        ContentPart::Image(ImageContent {
            source: ImageSource::Base64 {
                mime_type: "image/png".into(),
                data: "aGVsbG8=".into(),
            },
            detail: None,
        }),
    ];
    let (system, msgs) = encode_messages(&vec![Message::user_parts(parts)]).unwrap();
    assert!(system.is_none());
    let turn = msgs[0].to_value();
    let arr = turn["content"].as_array().unwrap();
    assert_eq!(arr[0]["type"], "text");
    assert_eq!(arr[1]["type"], "image");
    assert_eq!(arr[1]["source"]["type"], "base64");
    assert_eq!(arr[1]["source"]["media_type"], "image/png");
    assert_eq!(arr[1]["source"]["data"], "aGVsbG8=");
}

#[test]
fn encode_user_image_url_emits_url_source() {
    let parts = vec![ContentPart::Image(ImageContent {
        source: ImageSource::Url("https://ex.com/a.png".into()),
        detail: None,
    })];
    let (_, msgs) = encode_messages(&vec![Message::user_parts(parts)]).unwrap();
    let turn = msgs[0].to_value();
    assert_eq!(turn["content"][0]["source"]["type"], "url");
    assert_eq!(turn["content"][0]["source"]["url"], "https://ex.com/a.png");
}

#[test]
fn encode_user_pdf_emits_document_block() {
    let parts = vec![ContentPart::File(FileContent {
        source: FileSource::Base64 {
            data: "JVBERi0=".into(),
        },
        mime_type: "application/pdf".into(),
        filename: Some("report.pdf".into()),
    })];
    let (_, msgs) = encode_messages(&vec![Message::user_parts(parts)]).unwrap();
    let turn = msgs[0].to_value();
    let block = &turn["content"][0];
    assert_eq!(block["type"], "document");
    assert_eq!(block["source"]["type"], "base64");
    assert_eq!(block["source"]["media_type"], "application/pdf");
    assert_eq!(block["title"], "report.pdf");
}

#[test]
fn whole_body_of_a_plain_request() {
    let mut r = baseline_request(sys_user("be brief", "hi"));
    r.max_completion_tokens = Some(7);
    assert_eq!(
        body_of(&r),
        value(
            "{\"model\": \"sonnet-3-5\", \"max_tokens\": 7, \"system\": \"be brief\",
              \"messages\": [{\"role\": \"user\", \"content\": \"hi\"}]}",
        ),
    );
}

#[test]
fn whole_body_with_schema_and_tools() {
    let mut r = baseline_request(user_only("hi"));
    r.response_schema = Some(json("{\"type\": \"object\", \"required\": [\"a\"]}"));
    r.strict_response = true;
    r.tools = vec![tool("child")];
    r.tool_choice = ToolChoiceWire::Required;
    assert_eq!(
        body_of(&r),
        value(
            "{\"model\": \"sonnet-3-5\", \"max_tokens\": 4096,
              \"messages\": [{\"role\": \"user\", \"content\": \"hi\"}],
              \"tools\": [
                {\"name\": \"child\", \"description\": \"x\", \"input_schema\": {\"type\": \"object\"}},
                {\"name\": \"respond\",
                 \"description\": \"Return your final structured response. Call this tool exactly once when you have the answer.\",
                 \"input_schema\": {\"type\": \"object\", \"required\": [\"a\"]}}],
              \"tool_choice\": {\"type\": \"auto\"}}",
        ),
    );
}

#[test]
fn streaming_adds_one_field() {
    let r = baseline_request(user_only("hi"));
    let plain = body_of(&r);
    let mut streamed = encode_stream_request(&r).unwrap().to_value();
    assert_eq!(streamed["stream"], Value::Bool(true));
    streamed.as_object_mut().unwrap().remove("stream");
    assert_eq!(streamed, plain);
}

#[test]
fn seed_and_strictness_make_no_difference() {
    let plain = body_of(&baseline_request(user_only("hi")));
    let mut r = baseline_request(user_only("hi"));
    r.seed = Some(u64::MAX);
    r.strict_response = true;
    assert_eq!(body_of(&r), plain);
}

#[test]
fn other_tool_choices() {
    let mut r = baseline_request(user_only("hi"));
    r.tools = vec![tool("x")];
    assert_eq!(body_of(&r)["tool_choice"], value("{\"type\": \"auto\"}"));
    r.tool_choice = ToolChoiceWire::NoTool;
    assert_eq!(body_of(&r)["tool_choice"], value("{\"type\": \"none\"}"));
}

#[test]
fn a_tool_named_respond_is_refused_without_a_schema_too() {
    let mut r = baseline_request(user_only("hi"));
    r.tools = vec![tool("a"), tool("respond")];
    let message = "operator tool named 'respond' conflicts with the Anthropic structured-output synthetic";
    match encode_request(&r) {
        Err(ProviderError::BadRequest { message: said }) => assert_eq!(said, message),
        other => panic!("{:?}", other),
    }
    match encode_stream_request(&r) {
        Err(ProviderError::BadRequest { message: said }) => assert_eq!(said, message),
        other => panic!("{:?}", other),
    }
    assert!(encode_tool_def(&tool("respond")).is_err());
    assert_eq!(
        encode_tool_def(&tool("a")).unwrap().to_value(),
        value("{\"name\": \"a\", \"description\": \"x\", \"input_schema\": {\"type\": \"object\"}}"),
    );
}

#[test]
fn assistant_turns_are_never_empty() {
    let (_, turns) = encode_messages(&vec![Message::assistant_tool_calls(vec![])]).unwrap();
    assert_eq!(
        turns[0].to_value(),
        value("{\"role\": \"assistant\", \"content\": [{\"type\": \"text\", \"text\": \"\"}]}"),
    );
}

#[test]
fn assistant_text_comes_before_its_tool_calls() {
    let message = Message {
        role: Role::Assistant,
        content: MessageContent::Text("let me see".into()),
        tool_calls: vec![ToolCall {
            id: "t".into(),
            name: "fetch".into(),
            arguments: json("[1]"),
        }],
        tool_call_id: None,
    };
    let (_, turns) = encode_messages(&vec![message]).unwrap();
    assert_eq!(
        turns[0].to_value(),
        value(
            "{\"role\": \"assistant\", \"content\": [
               {\"type\": \"text\", \"text\": \"let me see\"},
               {\"type\": \"tool_use\", \"id\": \"t\", \"name\": \"fetch\", \"input\": [1]}]}",
        ),
    );
}

#[test]
fn system_messages_are_no_turns() {
    let messages = vec![
        Message::user("a"),
        Message::system("s"),
        Message::tool_result("id", "b"),
    ];
    let (system, turns) = encode_messages(&messages).unwrap();
    assert_eq!(system.unwrap(), "s");
    assert_eq!(turns.len(), 2);
    assert_eq!(
        turns[1].to_value(),
        value(
            "{\"role\": \"user\", \"content\":
               [{\"type\": \"tool_result\", \"tool_use_id\": \"id\", \"content\": \"b\"}]}",
        ),
    );
}

#[test]
fn tool_turn_without_an_id() {
    let message = Message {
        role: Role::Tool,
        content: MessageContent::Parts {
            parts: vec![],
            text: "flat".into(),
        },
        tool_calls: vec![],
        tool_call_id: None,
    };
    let (system, turns) = encode_messages(&vec![message]).unwrap();
    assert!(system.is_none());
    let turn = turns[0].to_value();
    assert_eq!(turn["content"][0]["tool_use_id"], "");
    assert_eq!(turn["content"][0]["content"], "flat");
}

#[test]
fn what_the_provider_cannot_take_becomes_a_text() {
    let parts = vec![
        ContentPart::Audio,
        ContentPart::Image(ImageContent {
            source: ImageSource::McpResource("mcpg-resource://a".into()),
            detail: Some("high".into()),
        }),
        ContentPart::File(FileContent {
            source: FileSource::McpResource("mcpg-resource://b".into()),
            mime_type: "application/pdf".into(),
            filename: None,
        }),
        ContentPart::File(FileContent {
            source: FileSource::Url("https://ex.com/b.pdf".into()),
            mime_type: "application/pdf".into(),
            filename: None,
        }),
    ];
    assert_eq!(
        encode_user_parts(&parts).to_value(),
        value(
            "[{\"type\": \"text\", \"text\": \"[audio input not supported by anthropic.chat]\"},
              {\"type\": \"text\", \"text\": \"[unresolved image resource: mcpg-resource://a]\"},
              {\"type\": \"text\", \"text\": \"[unresolved file resource: mcpg-resource://b]\"},
              {\"type\": \"document\", \"source\": {\"type\": \"url\", \"url\": \"https://ex.com/b.pdf\"}}]",
        ),
    );
}
