//! What an operator writes down for a chat binding, and the rules that it must keep.

use vstd::prelude::*;
use vstd::utf8::*;

use crate::json::Json;

verus! {

broadcast use vstd::string::group_string_axioms;

/// The key that requests are sent with. It is not shown by anything but [`ApiKeyRef::resolve`].
pub struct ApiKeyRef {
    secret: String,
}

/// The prompt templates, and the arguments that carry images and documents.
pub struct PromptSpec {
    pub system: String,
    pub user: String,
    pub image_inputs: Vec<String>,
    pub file_inputs: Vec<String>,
}

/// How the model picks its words. What is unset is left to the provider.
pub struct SamplingSpec {
    /// The temperature, as the JSON value that it is sent as.
    pub temperature: Option<Json>,
    /// The nucleus, as the JSON value that it is sent as.
    pub top_p: Option<Json>,
    pub max_completion_tokens: Option<u32>,
    pub seed: Option<u64>,
}

/// What a reply is.
#[derive(Clone, Copy, Debug, PartialEq, Eq, Structural)]
pub enum ResponseMode {
    /// JSON that satisfies the output schema.
    JsonSchema,
    /// Any text.
    Text,
}

/// What is done with a reply that does not satisfy the output schema.
#[derive(Clone, Copy, Debug, PartialEq, Eq, Structural)]
pub enum OnMismatch {
    Error,
    RetryOnce,
    ReturnRaw,
}

/// What is asked of a reply.
pub struct ResponseFormatSpec {
    pub mode: ResponseMode,
    pub strict: bool,
    pub on_mismatch: OnMismatch,
}

/// How free the model is to call tools.
#[derive(Clone, Copy, Debug, PartialEq, Eq, Structural)]
pub enum ToolChoice {
    Auto,
    Required,
    NoTool,
}

/// What is done when the model runs out of round trips.
#[derive(Clone, Copy, Debug, PartialEq, Eq, Structural)]
pub enum OnIterationExhausted {
    Error,
    ReturnPartial,
}

/// The tools that the model may call, and how often.
pub struct ToolsSpec {
    pub allowed: Vec<String>,
    pub max_iterations: Option<u32>,
    pub tool_choice: ToolChoice,
    pub tool_result_max_bytes: u64,
    pub on_iteration_exhausted: OnIterationExhausted,
}

/// A failure that may be worth another try.
#[derive(Clone, Copy, Debug, PartialEq, Eq, Structural)]
pub enum RetryClass {
    RateLimited,
    Server,
    Network,
}

/// How calls that fail are tried again.
pub struct RetrySpec {
    pub max_attempts: u32,
    pub initial_backoff_ms: u64,
    pub max_backoff_ms: u64,
    pub retry_on: Vec<RetryClass>,
}

/// Limits that no other setting can lift.
pub struct GuardrailsSpec {
    pub max_output_tokens_per_iteration: Option<u32>,
}

/// Whether and for how long replies are kept.
pub struct CacheSpec {
    pub enabled: bool,
    pub ttl_seconds: u64,
}

/// What a binding may spend. Nothing is capped where nothing is set.
pub struct BudgetSpec {
    pub tokens_per_call_cap: u64,
    /// The cap in US dollars, as the JSON value that the operator wrote.
    pub usd_daily_cap: Option<Json>,
}

/// The part of a binding that is the same for every provider.
pub struct ChatExecutionSpec {
    pub model: String,
    pub timeout_ms: u64,
    pub connect_timeout_ms: u64,
    pub prompt: PromptSpec,
    pub sampling: SamplingSpec,
    pub response_format: ResponseFormatSpec,
    pub tools: ToolsSpec,
    pub retry: RetrySpec,
    pub guardrails: GuardrailsSpec,
    pub cache: CacheSpec,
    pub budget: BudgetSpec,
}

/// A chat binding of this provider.
pub struct AnthropicChatSpec {
    /// The address of the API, where it is not the usual one.
    pub base_url: Option<String>,
    pub api_key: ApiKeyRef,
    pub chat: ChatExecutionSpec,
}

/// Why a binding is refused.
#[derive(Clone, Copy, Debug, PartialEq, Eq, Structural)]
pub enum ConfigError {
    EmptySystemPrompt,
    EmptyUserPrompt,
    /// Raw replies only make sense where any text is a reply.
    RawReplyNeedsTextMode,
    TooManyIterations,
    BackoffOutOfOrder,
    /// A reply that depends on tools must not be kept.
    CacheWithTools,
    EmptyApiKey,
}

/// The most round trips that a binding may ask for.
pub const MAX_ITERATIONS: u32 = 50;

/// What `char::is_whitespace` says of a character.
pub uninterp spec fn is_white_space(c: char) -> bool;

/// Calls `char::is_whitespace`, which goes by the Unicode property White_Space. Of the characters
/// of ASCII these are the space and the controls from the tab to the carriage return; which others
/// there are is left unsaid.
#[verifier::external_body]
fn char_is_whitespace(c: char) -> (white: bool)
    ensures
        white == is_white_space(c),
        c <= '\u{7f}' ==> white == (c == ' ' || '\t' <= c <= '\r'),
{
    c.is_whitespace()
}

/// A text of which nothing is left after trimming.
pub open spec fn is_blank(text: Seq<char>) -> bool {
    forall|i: int| 0 <= i < text.len() ==> is_white_space(#[trigger] text[i])
}

/// A text of the characters of ASCII that are white space.
pub open spec fn is_ascii_blank(text: Seq<char>) -> bool {
    forall|i: int|
        0 <= i < text.len() ==> (#[trigger] text[i] == ' ' || '\t' <= text[i] <= '\r')
}

/// The first rule that a binding breaks, if it breaks one, given which of its prompts are blank.
pub open spec fn fault_with(
    spec: ChatExecutionSpec,
    system_blank: bool,
    user_blank: bool,
) -> Option<ConfigError> {
    if system_blank {
        Some(ConfigError::EmptySystemPrompt)
    } else if user_blank {
        Some(ConfigError::EmptyUserPrompt)
    } else if spec.response_format.on_mismatch == OnMismatch::ReturnRaw
        && spec.response_format.mode != ResponseMode::Text {
        Some(ConfigError::RawReplyNeedsTextMode)
    } else if spec.tools.max_iterations matches Some(n) && n > MAX_ITERATIONS {
        Some(ConfigError::TooManyIterations)
    } else if spec.retry.initial_backoff_ms > spec.retry.max_backoff_ms {
        Some(ConfigError::BackoffOutOfOrder)
    } else if spec.cache.enabled && spec.tools.allowed@.len() > 0 {
        Some(ConfigError::CacheWithTools)
    } else {
        None
    }
}

/// The first rule that a binding breaks, if it breaks one.
pub open spec fn config_fault(spec: ChatExecutionSpec) -> Option<ConfigError> {
    fault_with(spec, is_blank(spec.prompt.system@), is_blank(spec.prompt.user@))
}

/// Whether nothing is left of a text after trimming.
fn text_is_blank(text: &str) -> (blank: bool)
    ensures
        blank == is_blank(text@),
        is_ascii_chars(text@) ==> is_blank(text@) == is_ascii_blank(text@),
{
    let chars: Vec<char> = crate::text::chars_of(text);
    let mut i: usize = 0;
    while i < chars.len()
        invariant
            chars@ == text@,
            i <= chars@.len(),
            forall|j: int| 0 <= j < i ==> is_white_space(#[trigger] text@[j]),
            is_ascii_chars(text@) ==> forall|j: int|
                0 <= j < i ==> (#[trigger] text@[j] == ' ' || '\t' <= text@[j] <= '\r'),
        decreases chars@.len() - i,
    {
        if !char_is_whitespace(chars[i]) {
            assert(!is_white_space(text@[i as int]));
            return false;
        }
        i += 1;
    }
    true
}

impl ApiKeyRef {
    /// The characters of the key.
    pub closed spec fn text(self) -> Seq<char> {
        self.secret@
    }

    /// A key.
    pub fn new(secret: &str) -> (key: ApiKeyRef)
        ensures
            key.text() == secret@,
    {
        ApiKeyRef { secret: secret.to_owned() }
    }

    /// The key, unless it is empty: without one no call would be let in.
    pub fn resolve(&self) -> (key: Result<&str, ConfigError>)
        ensures
            match key {
                Ok(key) => self.text().len() > 0 && key@ == self.text(),
                Err(error) => self.text().len() == 0 && error == ConfigError::EmptyApiKey,
            },
    {
        if self.secret.as_str().is_empty() {
            Err(ConfigError::EmptyApiKey)
        } else {
            Ok(self.secret.as_str())
        }
    }

    /// What may be shown of the key: nothing, not even its length.
    pub fn redacted(&self) -> (shown: &'static str)
        ensures
            shown@ == "***"@,
    {
        "***"
    }
}

impl ChatExecutionSpec {
    /// Holds the binding to the rules.
    pub fn validate(&self) -> (result: Result<(), ConfigError>)
        ensures
            config_fault(*self) == (match result {
                Ok(()) => None,
                Err(error) => Some(error),
            }),
            is_ascii_chars(self.prompt.system@) ==> is_blank(self.prompt.system@) == is_ascii_blank(
                self.prompt.system@,
            ),
            is_ascii_chars(self.prompt.user@) ==> is_blank(self.prompt.user@) == is_ascii_blank(
                self.prompt.user@,
            ),
    {
        self.validate_with(
            text_is_blank(self.prompt.system.as_str()),
            text_is_blank(self.prompt.user.as_str()),
        )
    }

    /// Holds the binding to the rules, given which of its prompts are blank.
    pub fn validate_with(&self, system_blank: bool, user_blank: bool) -> (result: Result<
        (),
        ConfigError,
    >)
        ensures
            fault_with(*self, system_blank, user_blank) == (match result {
                Ok(()) => None,
                Err(error) => Some(error),
            }),
    {
        if system_blank {
            return Err(ConfigError::EmptySystemPrompt);
        }
        if user_blank {
            return Err(ConfigError::EmptyUserPrompt);
        }
        if self.response_format.on_mismatch == OnMismatch::ReturnRaw && self.response_format.mode
            != ResponseMode::Text {
            return Err(ConfigError::RawReplyNeedsTextMode);
        }
        if let Some(n) = self.tools.max_iterations {
            if n > MAX_ITERATIONS {
                return Err(ConfigError::TooManyIterations);
            }
        }
        if self.retry.initial_backoff_ms > self.retry.max_backoff_ms {
            return Err(ConfigError::BackoffOutOfOrder);
        }
        if self.cache.enabled && self.tools.allowed.len() > 0 {
            return Err(ConfigError::CacheWithTools);
        }
        Ok(())
    }
}

impl AnthropicChatSpec {
    /// The usual address of the API.
    pub const DEFAULT_BASE_URL: &'static str = "https://api.anthropic.com/v1";

    /// Holds the binding to the rules. This provider adds none of its own.
    pub fn validate(&self) -> (result: Result<(), ConfigError>)
        ensures
            config_fault(self.chat) == (match result {
                Ok(()) => None,
                Err(error) => Some(error),
            }),
            is_ascii_chars(self.chat.prompt.system@) ==> is_blank(self.chat.prompt.system@) == is_ascii_blank(
                self.chat.prompt.system@,
            ),
            is_ascii_chars(self.chat.prompt.user@) ==> is_blank(self.chat.prompt.user@) == is_ascii_blank(
                self.chat.prompt.user@,
            ),
    {
        self.chat.validate()
    }

    /// The address of the API: the operator's, or else the usual one.
    pub fn resolved_base_url(&self) -> (url: &str)
        ensures
            url@ == (match self.base_url {
                Some(url) => url@,
                None => Self::DEFAULT_BASE_URL@,
            }),
    {
        match &self.base_url {
            Some(url) => url.as_str(),
            None => Self::DEFAULT_BASE_URL,
        }
    }
}

impl Default for SamplingSpec {
    fn default() -> (spec: SamplingSpec)
        ensures
            spec.temperature is None,
            spec.top_p is None,
            spec.max_completion_tokens is None,
            spec.seed is None,
    {
        SamplingSpec { temperature: None, top_p: None, max_completion_tokens: None, seed: None }
    }
}

impl Default for ResponseFormatSpec {
    fn default() -> (spec: ResponseFormatSpec)
        ensures
            spec.mode == ResponseMode::JsonSchema,
            spec.strict,
            spec.on_mismatch == OnMismatch::Error,
    {
        ResponseFormatSpec {
            mode: ResponseMode::JsonSchema,
            strict: true,
            on_mismatch: OnMismatch::Error,
        }
    }
}

impl Default for ToolsSpec {
    fn default() -> (spec: ToolsSpec)
        ensures
            spec.allowed@.len() == 0,
            spec.max_iterations is None,
            spec.tool_choice == ToolChoice::Auto,
            spec.tool_result_max_bytes == 16384,
            spec.on_iteration_exhausted == OnIterationExhausted::Error,
    {
        ToolsSpec {
            allowed: Vec::new(),
            max_iterations: None,
            tool_choice: ToolChoice::Auto,
            tool_result_max_bytes: 16384,
            on_iteration_exhausted: OnIterationExhausted::Error,
        }
    }
}

impl Default for RetrySpec {
    fn default() -> (spec: RetrySpec)
        ensures
            spec.max_attempts == 3,
            spec.initial_backoff_ms == 500,
            spec.max_backoff_ms == 8000,
            spec.retry_on@ == seq![
                RetryClass::RateLimited,
                RetryClass::Server,
                RetryClass::Network,
            ],
    {
        RetrySpec {
            max_attempts: 3,
            initial_backoff_ms: 500,
            max_backoff_ms: 8000,
            retry_on: vec![RetryClass::RateLimited, RetryClass::Server, RetryClass::Network],
        }
    }
}

impl Default for GuardrailsSpec {
    fn default() -> (spec: GuardrailsSpec)
        ensures
            spec.max_output_tokens_per_iteration is None,
    {
        GuardrailsSpec { max_output_tokens_per_iteration: None }
    }
}

impl Default for CacheSpec {
    fn default() -> (spec: CacheSpec)
        ensures
            !spec.enabled,
            spec.ttl_seconds == 3600000,
    {
        CacheSpec { enabled: false, ttl_seconds: 3600000 }
    }
}

impl Default for BudgetSpec {
    fn default() -> (spec: BudgetSpec)
        ensures
            spec.tokens_per_call_cap == 0,
            spec.usd_daily_cap is None,
    {
        BudgetSpec { tokens_per_call_cap: 0, usd_daily_cap: None }
    }
}

} // verus!
