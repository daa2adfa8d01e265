use backend_llm_anthropic::decode::{
    decode_response, decode_usage, finish_reason, gather_blocks, response_content,
};
use backend_llm_anthropic::encode::{encode_messages, RESPOND_TOOL_NAME};
use backend_llm_anthropic::error::ProviderError;
use backend_llm_anthropic::json::Json;
use backend_llm_anthropic::normalized::{FinishReason, Message, ToolCall};
use serde_json::Value;

fn value(text: &str) -> Value {
    serde_json::from_str(text).unwrap()
}

fn json(text: &str) -> Json {
    Json::from_json_text(text).unwrap()
}

#[test]
fn decode_text_only() {
    let raw = json(
        "{\"content\": [{\"type\": \"text\", \"text\": \"hello\"}],
          \"stop_reason\": \"end_turn\",
          \"usage\": {\"input_tokens\": 5, \"output_tokens\": 1}}",
    );
    let r = decode_response(&raw, false).unwrap();
    assert_eq!(r.content, "hello");
    assert!(r.tool_calls.is_empty());
    assert_eq!(r.finish_reason, FinishReason::Stop);
    assert_eq!(r.usage.input_tokens, 5);
    assert_eq!(r.usage.output_tokens, 1);
}

#[test]
fn decode_tool_use_only() {
    let raw = json(
        "{\"content\": [{\"type\": \"tool_use\", \"id\": \"toolu_1\", \"name\": \"fetch\",
                         \"input\": {\"q\": \"hello\"}}],
          \"stop_reason\": \"tool_use\",
          \"usage\": {\"input_tokens\": 10, \"output_tokens\": 5}}",
    );
    let r = decode_response(&raw, false).unwrap();
    assert!(r.content.is_empty());
    assert_eq!(r.tool_calls.len(), 1);
    assert_eq!(r.tool_calls[0].id, "toolu_1");
    assert_eq!(r.tool_calls[0].name, "fetch");
    assert_eq!(r.tool_calls[0].arguments.to_value(), value("{\"q\": \"hello\"}"));
    assert_eq!(r.finish_reason, FinishReason::ToolCalls);
}

#[test]
fn decode_forced_respond_extracts_input_as_json_string() {
    let raw = json(
        "{\"content\": [{\"type\": \"tool_use\", \"id\": \"toolu_r\", \"name\": \"respond\",
                         \"input\": {\"answer\": \"ok\", \"score\": 0.9}}],
          \"stop_reason\": \"tool_use\"}",
    );
    assert_eq!(RESPOND_TOOL_NAME, "respond");
    let r = decode_response(&raw, true).unwrap();
    assert_eq!(r.finish_reason, FinishReason::Stop, "respond is terminal");
    assert!(r.tool_calls.is_empty(), "respond is not exposed as a tool_call");
    let parsed: Value = serde_json::from_str(&r.content).unwrap();
    assert_eq!(parsed, value("{\"answer\": \"ok\", \"score\": 0.9}"));
}

#[test]
fn decode_respond_with_other_tool_use_blocks_extracts_only_respond() {
    let raw = json(
        "{\"content\": [
            {\"type\": \"tool_use\", \"id\": \"tu1\", \"name\": \"fetch\", \"input\": {}},
            {\"type\": \"tool_use\", \"id\": \"tu2\", \"name\": \"respond\", \"input\": {\"a\": 1}}],
          \"stop_reason\": \"tool_use\"}",
    );
    let r = decode_response(&raw, true).unwrap();
    assert_eq!(r.finish_reason, FinishReason::Stop);
    assert_eq!(r.tool_calls.len(), 1, "non-respond tool_use survives");
    assert_eq!(r.tool_calls[0].name, "fetch");
    let parsed: Value = serde_json::from_str(&r.content).unwrap();
    assert_eq!(parsed, value("{\"a\": 1}"));
}

#[test]
fn decode_max_tokens_stop_reason_maps_to_length() {
    let raw = json(
        "{\"content\": [{\"type\": \"text\", \"text\": \"partial\"}],
          \"stop_reason\": \"max_tokens\"}",
    );
    let r = decode_response(&raw, false).unwrap();
    assert_eq!(r.finish_reason, FinishReason::Length);
}

#[test]
fn decode_rejects_response_without_content_array() {
    let raw = json("{\"stop_reason\": \"end_turn\"}");
    let err = decode_response(&raw, false).unwrap_err();
    assert!(matches!(err, ProviderError::Malformed { .. }));
}

#[test]
fn decode_unknown_block_types_are_skipped() {
    let raw = json(
        "{\"content\": [{\"type\": \"text\", \"text\": \"hi\"},
                        {\"type\": \"redacted_thinking\", \"data\": \"...\"}],
          \"stop_reason\": \"end_turn\"}",
    );
    let r = decode_response(&raw, false).unwrap();
    assert_eq!(r.content, "hi");
}

#[test]
fn what_is_no_content_array_is_named() {
    for raw in ["null", "[]", "{\"content\": {}}", "{\"content\": \"x\"}"] {
        match decode_response(&json(raw), true) {
            Err(ProviderError::Malformed { message }) => {
                assert_eq!(message, "response has no `content` array");
            }
            other => panic!("{:?}", other),
        }
    }
}

#[test]
fn texts_are_put_together_and_oddities_passed_over() {
    let raw = json(
        "{\"content\": [{\"type\": \"text\", \"text\": \"a\"}, 7, {\"type\": \"text\"},
                        {\"type\": \"text\", \"text\": \"b\"}, {\"text\": \"c\"}]}",
    );
    let r = decode_response(&raw, true).unwrap();
    assert_eq!(r.content, "ab");
    assert_eq!(r.finish_reason, FinishReason::Other);
    assert_eq!(r.usage.input_tokens, 0);
    assert_eq!(r.usage.output_tokens, 0);
    assert_eq!(r.usage.cached_input_tokens, 0);
}

#[test]
fn respond_is_an_ordinary_tool_without_a_schema() {
    let raw = json(
        "{\"content\": [{\"type\": \"tool_use\", \"id\": \"i\", \"name\": \"respond\"}],
          \"stop_reason\": \"tool_use\"}",
    );
    let r = decode_response(&raw, false).unwrap();
    assert_eq!(r.tool_calls.len(), 1);
    assert_eq!(r.tool_calls[0].name, "respond");
    assert_eq!(r.tool_calls[0].arguments.to_value(), Value::Null);
    assert_eq!(r.finish_reason, FinishReason::ToolCalls);
    let r = decode_response(&raw, true).unwrap();
    assert_eq!(r.tool_calls.len(), 0);
    assert_eq!(r.content, "null");
    assert_eq!(r.finish_reason, FinishReason::Stop);
}

#[test]
fn the_last_structured_output_counts_and_hides_text() {
    let raw = json(
        "{\"content\": [{\"type\": \"text\", \"text\": \"thinking\"},
                        {\"type\": \"tool_use\", \"name\": \"respond\", \"input\": {\"b\": 2, \"a\": [1]}},
                        {\"type\": \"tool_use\", \"name\": \"respond\", \"input\": {\"d\": -4, \"c\": \"x\"}}],
          \"stop_reason\": \"max_tokens\"}",
    );
    let r = decode_response(&raw, true).unwrap();
    assert_eq!(r.content, "{\"c\":\"x\",\"d\":-4}");
    assert_eq!(r.finish_reason, FinishReason::Stop);
}

#[test]
fn reasons_to_stop() {
    assert_eq!(finish_reason(Some("tool_use"), false, true), FinishReason::ToolCalls);
    assert_eq!(finish_reason(Some("tool_use"), false, false), FinishReason::Other);
    assert_eq!(finish_reason(Some("stop_sequence"), false, true), FinishReason::Stop);
    assert_eq!(finish_reason(Some("end_turn"), false, true), FinishReason::Stop);
    assert_eq!(finish_reason(Some("max_tokens"), false, true), FinishReason::Length);
    assert_eq!(finish_reason(Some("refusal"), false, true), FinishReason::Other);
    assert_eq!(finish_reason(None, false, true), FinishReason::Other);
    assert_eq!(finish_reason(None, true, true), FinishReason::Stop);
}

#[test]
fn counts_are_read_in_32_bits() {
    let usage = json(
        "{\"input_tokens\": 4294967303, \"output_tokens\": -1, \"cache_read_input_tokens\": 3}",
    );
    let tokens = decode_usage(Some(&usage));
    assert_eq!(tokens.input_tokens, 7);
    assert_eq!(tokens.output_tokens, 0);
    assert_eq!(tokens.cached_input_tokens, 3);
    let tokens = decode_usage(Some(&json("{\"input_tokens\": 2.0, \"output_tokens\": \"9\"}")));
    assert_eq!(tokens.input_tokens, 0);
    assert_eq!(tokens.output_tokens, 0);
}

#[test]
fn a_failure_to_write_structured_output_is_named() {
    match response_content(&vec!["x".to_owned()], Some(Err("why".to_owned()))) {
        Err(ProviderError::Malformed { message }) => {
            assert_eq!(message, "serialize respond.input: why");
        }
        other => panic!("{:?}", other),
    }
    assert_eq!(response_content(&vec!["x".to_owned()], Some(Ok("y".to_owned()))).unwrap(), "y");
    assert_eq!(
        response_content(&vec!["x".to_owned(), "z".to_owned()], None).unwrap(),
        "xz",
    );
}

#[test]
fn a_call_that_is_sent_back_reads_the_same() {
    let call = ToolCall {
        id: "i".to_owned(),
        name: "fetch".to_owned(),
        arguments: json("{\"q\": [null, true]}"),
    };
    let (_, turns) = encode_messages(&vec![Message::assistant_tool_calls(vec![call])]).unwrap();
    let blocks = turns[0].get("content").unwrap().as_array().unwrap();
    let parts = gather_blocks(blocks, true);
    assert_eq!(parts.tool_calls.len(), 1);
    assert_eq!(parts.tool_calls[0].id, "i");
    assert_eq!(parts.tool_calls[0].name, "fetch");
    assert_eq!(parts.tool_calls[0].arguments.to_value(), value("{\"q\": [null, true]}"));
    assert!(parts.respond_input.is_none());
}
