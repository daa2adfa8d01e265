use backend_llm_anthropic::config::{
    ApiKeyRef, BudgetSpec, CacheSpec, ChatExecutionSpec, ConfigError, GuardrailsSpec, OnMismatch,
    PromptSpec, ResponseFormatSpec, ResponseMode, RetryClass, RetrySpec, SamplingSpec, ToolsSpec,
};
use backend_llm_anthropic::AnthropicChatSpec;

fn minimal() -> ChatExecutionSpec {
    ChatExecutionSpec {
        model: "sonnet-3-5".into(),
        timeout_ms: 30_000,
        connect_timeout_ms: 5_000,
        prompt: PromptSpec {
            system: "you are helpful".into(),
            user: "{{ input.text }}".into(),
            image_inputs: vec![],
            file_inputs: vec![],
        },
        sampling: SamplingSpec::default(),
        response_format: ResponseFormatSpec::default(),
        tools: ToolsSpec::default(),
        retry: RetrySpec::default(),
        guardrails: GuardrailsSpec::default(),
        cache: CacheSpec::default(),
        budget: BudgetSpec::default(),
    }
}

#[test]
fn default_base_url() {
    let s = AnthropicChatSpec {
        base_url: None,
        api_key: ApiKeyRef::new("k"),
        chat: minimal(),
    };
    assert_eq!(s.resolved_base_url(), "https://api.anthropic.com/v1");
    s.validate().unwrap();
}

#[test]
fn json_round_trip() {
    let mut chat = minimal();
    chat.timeout_ms = 60_000;
    chat.prompt.system = "x".into();
    chat.prompt.user = "y".into();
    let s = AnthropicChatSpec {
        base_url: None,
        api_key: ApiKeyRef::new("k"),
        chat,
    };
    assert!(s.base_url.is_none());
    s.validate().unwrap();
}

#[test]
fn own_base_url() {
    let s = AnthropicChatSpec {
        base_url: Some("http://localhost:1/v1".into()),
        api_key: ApiKeyRef::new("k"),
        chat: minimal(),
    };
    assert_eq!(s.resolved_base_url(), "http://localhost:1/v1");
}

#[test]
fn blank_prompts_are_refused() {
    let mut chat = minimal();
    chat.prompt.user = "\u{a0}\t".into();
    assert_eq!(chat.validate(), Err(ConfigError::EmptyUserPrompt));
    chat.prompt.system = " \r\n\u{b}\u{c}\u{3000}".into();
    assert_eq!(chat.validate(), Err(ConfigError::EmptySystemPrompt));
    chat.prompt.system = "".into();
    assert_eq!(chat.validate(), Err(ConfigError::EmptySystemPrompt));
    chat.prompt.system = " x ".into();
    chat.prompt.user = "\u{200b}".into();
    assert_eq!(chat.validate(), Ok(()));
    assert_eq!(chat.validate_with(true, false), Err(ConfigError::EmptySystemPrompt));
    assert_eq!(chat.validate_with(false, true), Err(ConfigError::EmptyUserPrompt));
}

#[test]
fn raw_replies_need_text_mode() {
    let mut chat = minimal();
    chat.response_format.on_mismatch = OnMismatch::ReturnRaw;
    assert_eq!(chat.validate(), Err(ConfigError::RawReplyNeedsTextMode));
    chat.response_format.mode = ResponseMode::Text;
    assert_eq!(chat.validate(), Ok(()));
}

#[test]
fn iterations_are_bounded() {
    let mut chat = minimal();
    chat.tools.max_iterations = Some(50);
    assert_eq!(chat.validate(), Ok(()));
    chat.tools.max_iterations = Some(51);
    assert_eq!(chat.validate(), Err(ConfigError::TooManyIterations));
}

#[test]
fn backoff_is_in_order() {
    let mut chat = minimal();
    chat.retry.initial_backoff_ms = 8000;
    assert_eq!(chat.validate(), Ok(()));
    chat.retry.initial_backoff_ms = 8001;
    assert_eq!(chat.validate(), Err(ConfigError::BackoffOutOfOrder));
}

#[test]
fn no_cache_with_tools() {
    let mut chat = minimal();
    chat.cache.enabled = true;
    assert_eq!(chat.validate(), Ok(()));
    chat.tools.allowed = vec!["orders.get".into()];
    assert_eq!(chat.validate(), Err(ConfigError::CacheWithTools));
    chat.cache.enabled = false;
    assert_eq!(chat.validate(), Ok(()));
}

#[test]
fn keys_are_not_shown() {
    let key = ApiKeyRef::new("k-123");
    assert_eq!(key.redacted(), "***");
    assert_eq!(key.resolve(), Ok("k-123"));
    assert_eq!(ApiKeyRef::new("").resolve(), Err(ConfigError::EmptyApiKey));
}

#[test]
fn defaults() {
    let chat = minimal();
    assert_eq!(chat.retry.max_attempts, 3);
    assert_eq!(chat.retry.initial_backoff_ms, 500);
    assert_eq!(chat.retry.max_backoff_ms, 8000);
    assert_eq!(
        chat.retry.retry_on,
        vec![RetryClass::RateLimited, RetryClass::Server, RetryClass::Network],
    );
    assert_eq!(chat.tools.tool_result_max_bytes, 16384);
    assert_eq!(chat.cache.ttl_seconds, 3600000);
    assert!(chat.response_format.strict);
    assert!(chat.sampling.temperature.is_none());
    assert!(chat.guardrails.max_output_tokens_per_iteration.is_none());
    assert_eq!(chat.budget.tokens_per_call_cap, 0);
}
