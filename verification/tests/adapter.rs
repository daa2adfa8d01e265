use backend_llm_anthropic::adapter::{is_success_status, read_answer, read_parsed, USER_AGENT};
use backend_llm_anthropic::error::ProviderError;
use backend_llm_anthropic::json::Json;
use backend_llm_anthropic::normalized::{
    Message, NormalizedChatRequest, ToolChoiceWire, ToolDef,
};
use backend_llm_anthropic::AnthropicAdapter;

fn adapter(base_url: &str, api_key: &str) -> AnthropicAdapter {
    AnthropicAdapter::new(base_url.to_owned(), api_key.to_owned()).unwrap()
}

fn request() -> NormalizedChatRequest {
    NormalizedChatRequest {
        model: "m".into(),
        messages: vec![Message::user("hi")],
        response_schema: None,
        strict_response: false,
        tools: vec![],
        tool_choice: ToolChoiceWire::Auto,
        temperature: None,
        top_p: None,
        max_completion_tokens: None,
        seed: None,
    }
}

#[test]
fn addresses() {
    assert_eq!(
        adapter("https://api.anthropic.com/v1", "k").endpoint_url(),
        "https://api.anthropic.com/v1/messages",
    );
    assert_eq!(adapter("http://h/v1///", "k").endpoint_url(), "http://h/v1/messages");
    assert_eq!(adapter("///", "k").endpoint_url(), "/messages");
    assert_eq!(adapter("http://h", "k").label(), "anthropic");
    assert_eq!(USER_AGENT, "mcpg-plugin-backend-llm-anthropic/1.0");
    match AnthropicAdapter::new(String::new(), "k".to_owned()) {
        Err(ProviderError::BadRequest { message }) => {
            assert_eq!(message, "anthropic base_url is empty");
        }
        _ => panic!("an empty address was taken"),
    }
}

#[test]
fn headers() {
    let headers = adapter("http://h", "key\t\u{e8}").build_headers().unwrap();
    assert_eq!(headers.len(), 3);
    assert_eq!(headers.get("content-type").unwrap().as_bytes(), b"application/json");
    assert_eq!(headers.get("anthropic-version").unwrap().as_bytes(), b"2023-06-01");
    assert_eq!(headers.get("x-api-key").unwrap().as_bytes(), "key\t\u{e8}".as_bytes());
    let headers = adapter("http://h", "").build_headers().unwrap();
    assert_eq!(headers.get("x-api-key").unwrap().as_bytes(), b"");
    for key in ["a\nb", "a\rb", "\u{0}", "a\u{7f}", "\u{1f}"] {
        match adapter("http://h", key).build_headers() {
            Err(ProviderError::BadRequest { message }) => assert_eq!(
                message,
                "api_key contains characters not allowed in HTTP headers",
            ),
            other => panic!("{:?}", other),
        }
    }
}

#[test]
fn calls_are_prepared() {
    let call = adapter("http://h/", "k").prepare(&request(), false).ok().unwrap();
    assert_eq!(call.url, "http://h/messages");
    assert_eq!(call.headers.len(), 3);
    assert_eq!(
        call.body.to_json_text().unwrap(),
        "{\"max_tokens\":4096,\"messages\":[{\"content\":\"hi\",\"role\":\"user\"}],\"model\":\"m\"}",
    );
    let call = adapter("http://h/", "k").prepare(&request(), true).ok().unwrap();
    assert_eq!(
        call.body.to_json_text().unwrap(),
        "{\"max_tokens\":4096,\"messages\":[{\"content\":\"hi\",\"role\":\"user\"}],\"model\":\"m\",\"stream\":true}",
    );
}

#[test]
fn the_request_is_judged_before_the_key() {
    let mut bad = request();
    bad.tools = vec![ToolDef {
        name: "respond".into(),
        description: String::new(),
        parameters: Json::Null,
    }];
    for streaming in [false, true] {
        match adapter("http://h", "\n").prepare(&bad, streaming) {
            Err(ProviderError::BadRequest { message }) => {
                assert!(message.starts_with("operator tool named 'respond'"));
            }
            _ => panic!("a bad request was taken"),
        }
        match adapter("http://h", "\n").prepare(&request(), streaming) {
            Err(ProviderError::BadRequest { message }) => {
                assert!(message.starts_with("api_key"));
            }
            _ => panic!("a bad key was taken"),
        }
    }
}

#[test]
fn answers() {
    let body = b"{\"content\":[{\"type\":\"text\",\"text\":\"ok\"}],\"stop_reason\":\"end_turn\"}";
    let response = read_answer(200, Ok(body.to_vec()), false).unwrap().unwrap();
    assert_eq!(response.content, "ok");
    match read_answer(200, Ok(b"<html>".to_vec()), false).unwrap() {
        Err(ProviderError::Malformed { message }) => {
            assert_eq!(message, "response is not JSON: expected value at line 1 column 1");
        }
        other => panic!("{:?}", other),
    }
    match read_answer(503, Ok(body.to_vec()), false).unwrap() {
        Err(ProviderError::Server { message }) => assert_eq!(message.as_bytes(), body),
        other => panic!("{:?}", other),
    }
    match read_answer(503, Err("reset".to_owned()), false).unwrap() {
        Err(ProviderError::Network { message }) => {
            assert_eq!(message, "read response body: reset");
        }
        other => panic!("{:?}", other),
    }
    let wide = format!("a{}", "\u{e8}".repeat(300));
    assert!(read_answer(500, Ok(wide.into_bytes()), false).is_none());
}

#[test]
fn parsed_answers() {
    match read_parsed(Err("why".to_owned()), true) {
        Err(ProviderError::Malformed { message }) => {
            assert_eq!(message, "response is not JSON: why");
        }
        other => panic!("{:?}", other),
    }
    let parsed = Json::from_json_text("{\"content\":[]}").unwrap();
    assert_eq!(read_parsed(Ok(parsed), true).unwrap().content, "");
}

#[test]
fn successes() {
    assert!(!is_success_status(199));
    assert!(is_success_status(200));
    assert!(is_success_status(299));
    assert!(!is_success_status(300));
}
