//! Which bindings are taken.

use vstd::prelude::*;

use crate::config::{
    AnthropicChatSpec, ChatExecutionSpec, ConfigError, OnMismatch, ResponseMode, MAX_ITERATIONS,
};

verus! {

/// Something is left of the text after trimming.
pub open spec fn has_content(text: Seq<char>) -> bool {
    exists|i: int| 0 <= i < text.len() && !crate::config::is_white_space(#[trigger] text[i])
}

/// A binding is taken exactly where both prompts have content, raw replies come with text mode, at
/// most fifty round trips are asked for, the first backoff is not above the last, and nothing is kept
/// of replies that depend on tools. One that is not taken is refused for a rule that it breaks, and
/// for the first of them in this order.
pub proof fn law_which_bindings_are_taken(spec: ChatExecutionSpec)
    ensures
        ({
            let fault = crate::config::config_fault(spec);
            let system = has_content(spec.prompt.system@);
            let user = has_content(spec.prompt.user@);
            let reply = spec.response_format.on_mismatch == OnMismatch::ReturnRaw
                ==> spec.response_format.mode == ResponseMode::Text;
            let trips = spec.tools.max_iterations matches Some(n) ==> n <= 50;
            let backoff = spec.retry.initial_backoff_ms <= spec.retry.max_backoff_ms;
            let cache = spec.cache.enabled ==> spec.tools.allowed@.len() == 0;
            &&& fault is None <==> system && user && reply && trips && backoff && cache
            &&& fault == Some(ConfigError::EmptySystemPrompt) <==> !system
            &&& fault == Some(ConfigError::EmptyUserPrompt) <==> system && !user
            &&& fault == Some(ConfigError::RawReplyNeedsTextMode) <==> system && user && !reply
            &&& fault == Some(ConfigError::TooManyIterations) <==> system && user && reply && !trips
            &&& fault == Some(ConfigError::BackoffOutOfOrder) <==> system && user && reply && trips
                && !backoff
            &&& fault == Some(ConfigError::CacheWithTools) <==> system && user && reply && trips
                && backoff && !cache
        }),
{
    let system = spec.prompt.system@;
    let user = spec.prompt.user@;
    lemma_blank_is_without_content(system);
    lemma_blank_is_without_content(user);
}

proof fn lemma_blank_is_without_content(text: Seq<char>)
    ensures
        crate::config::is_blank(text) <==> !has_content(text),
{
    if crate::config::is_blank(text) && has_content(text) {
        let i = choose|i: int|
            0 <= i < text.len() && !crate::config::is_white_space(#[trigger] text[i]);
        assert(crate::config::is_white_space(text[i]));
    }
}

/// What is blank among texts of ASCII: spaces, and controls from the tab to the carriage return.
pub proof fn law_blank_ascii(text: Seq<char>)
    ensures
        crate::config::is_ascii_blank(text) <==> forall|i: int|
            0 <= i < text.len() ==> ((#[trigger] text[i]) as int == 32 || 9 <= text[i] as int
                <= 13),
        MAX_ITERATIONS == 50,
        AnthropicChatSpec::DEFAULT_BASE_URL@ == "https://api.anthropic.com/v1"@,
{
}

/// The rules that do not look at the prompts are the same whatever is known of those.
pub proof fn law_rules_given_the_prompts(spec: ChatExecutionSpec)
    ensures
        crate::config::fault_with(spec, true, false) == Some(ConfigError::EmptySystemPrompt),
        crate::config::fault_with(spec, true, true) == Some(ConfigError::EmptySystemPrompt),
        crate::config::fault_with(spec, false, true) == Some(ConfigError::EmptyUserPrompt),
        crate::config::fault_with(spec, false, false) is None <==> {
            &&& spec.response_format.on_mismatch == OnMismatch::ReturnRaw
                ==> spec.response_format.mode == ResponseMode::Text
            &&& spec.tools.max_iterations matches Some(n) ==> n <= 50
            &&& spec.retry.initial_backoff_ms <= spec.retry.max_backoff_ms
            &&& spec.cache.enabled ==> spec.tools.allowed@.len() == 0
        },
{
}

} // verus!
