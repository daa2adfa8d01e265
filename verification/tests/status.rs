use backend_llm_anthropic::error::ProviderError;
use backend_llm_anthropic::status::{
    body_excerpt, error_for_status, excerpt, map_reqwest_error, map_status_error,
    refused_stream, try_map_status_error, TransportFailure,
};

fn message_of(error: ProviderError) -> String {
    match error {
        ProviderError::Network { message }
        | ProviderError::BadRequest { message }
        | ProviderError::Malformed { message }
        | ProviderError::RateLimited { message }
        | ProviderError::AuthFailed { message }
        | ProviderError::ContextLimit { message }
        | ProviderError::Server { message } => message,
    }
}

#[test]
fn map_status_overloaded_529_is_server() {
    let e = map_status_error(reqwest::StatusCode::from_u16(529).unwrap().as_u16(), b"overloaded");
    assert!(matches!(e, ProviderError::Server { .. }));
    assert!(e.is_retryable());
}

#[test]
fn map_status_400_with_prompt_too_long_is_context_limit() {
    let e = map_status_error(
        reqwest::StatusCode::from_u16(400).unwrap().as_u16(),
        b"{\"error\":{\"type\":\"invalid_request_error\",\"code\":\"prompt_too_long\"}}",
    );
    assert!(matches!(e, ProviderError::ContextLimit { .. }));
}

#[test]
fn statuses() {
    let of = |code: u16, text: &str| error_for_status(code, text.to_owned());
    assert!(matches!(of(429, "x"), ProviderError::RateLimited { .. }));
    assert!(matches!(of(401, "x"), ProviderError::AuthFailed { .. }));
    assert!(matches!(of(403, "x"), ProviderError::AuthFailed { .. }));
    assert!(matches!(of(413, "x"), ProviderError::ContextLimit { .. }));
    assert!(matches!(of(400, "x"), ProviderError::BadRequest { .. }));
    assert!(matches!(of(400, "too many max_tokens"), ProviderError::ContextLimit { .. }));
    assert!(matches!(of(400, "the context is"), ProviderError::ContextLimit { .. }));
    assert!(matches!(of(500, "x"), ProviderError::Server { .. }));
    assert!(matches!(of(404, "x"), ProviderError::Server { .. }));
    assert!(matches!(of(302, "x"), ProviderError::Server { .. }));
    assert_eq!(message_of(of(500, "why")), "why");
}

#[test]
fn statuses_worth_another_try() {
    for code in [300u16, 404, 418, 429, 500, 503, 529, 599] {
        assert!(error_for_status(code, "context".to_owned()).is_retryable());
    }
    for code in [400u16, 401, 403, 413] {
        assert!(!error_for_status(code, "context".to_owned()).is_retryable());
        assert!(!error_for_status(code, String::new()).is_retryable());
    }
    let malformed = ProviderError::Malformed { message: String::new() };
    assert!(!malformed.is_retryable());
}

#[test]
fn short_bodies_are_quoted_in_full() {
    assert_eq!(body_excerpt(b""), "");
    assert_eq!(body_excerpt("tr\u{e8}s bien".as_bytes()), "tr\u{e8}s bien");
    let full = "a".repeat(512);
    assert_eq!(body_excerpt(full.as_bytes()), full);
}

#[test]
fn long_bodies_are_cut() {
    let long = "a".repeat(513);
    let quoted = format!("{}\u{2026}[truncated]", "a".repeat(512));
    assert_eq!(body_excerpt(long.as_bytes()), quoted);
    assert_eq!(excerpt(long), quoted);
    let wide = "\u{e8}".repeat(300);
    assert_eq!(
        body_excerpt(wide.as_bytes()),
        format!("{}\u{2026}[truncated]", "\u{e8}".repeat(256)),
    );
}

#[test]
fn bytes_that_are_no_text_are_replaced() {
    assert_eq!(body_excerpt(b"a\xffb"), "a\u{fffd}b");
    assert_eq!(message_of(map_status_error(500, b"\xc3")), "\u{fffd}");
}

#[test]
fn a_cut_through_a_character_is_refused() {
    let body = format!("a{}", "\u{e8}".repeat(300));
    assert!(try_map_status_error(500, body.as_bytes()).is_none());
    let body = "\u{e8}".repeat(300);
    assert!(matches!(
        try_map_status_error(500, body.as_bytes()),
        Some(ProviderError::Server { .. })
    ));
    assert!(matches!(
        try_map_status_error(429, b"slow down"),
        Some(ProviderError::RateLimited { .. })
    ));
}

#[test]
fn what_is_cut_off_does_not_count() {
    let body = format!("{}prompt_too_long", "a".repeat(512));
    assert!(matches!(
        map_status_error(400, body.as_bytes()),
        ProviderError::BadRequest { .. }
    ));
}

#[test]
fn transport_failures() {
    let failure = |is_timeout: bool, is_connect: bool, is_request: bool, is_body: bool, is_decode: bool| {
        let error = map_reqwest_error(TransportFailure {
            is_timeout,
            is_connect,
            is_request,
            is_body,
            is_decode,
            text: "why".to_owned(),
        });
        assert!(error.is_retryable());
        assert!(matches!(error, ProviderError::Network { .. }));
        message_of(error)
    };
    assert_eq!(failure(true, true, true, true, true), "timeout: why");
    assert_eq!(failure(false, true, true, false, false), "connect failed: why");
    assert_eq!(failure(false, false, true, false, false), "transport: why");
    assert_eq!(failure(false, false, false, true, false), "transport: why");
    assert_eq!(failure(false, false, false, false, true), "transport: why");
    assert_eq!(failure(false, false, false, false, false), "why");
}

#[test]
fn refused_streams() {
    match refused_stream(429, Ok(b"slow down".to_vec())) {
        Some(ProviderError::RateLimited { message }) => assert_eq!(message, "slow down"),
        other => panic!("{:?}", other),
    }
    match refused_stream(500, Err("reset".to_owned())) {
        Some(ProviderError::Server { message }) => assert_eq!(message, ""),
        other => panic!("{:?}", other),
    }
    assert!(matches!(
        refused_stream(400, Err("context".to_owned())),
        Some(ProviderError::BadRequest { .. })
    ));
    let body = format!("a{}", "\u{e8}".repeat(300));
    assert!(refused_stream(500, Ok(body.into_bytes())).is_none());
}
