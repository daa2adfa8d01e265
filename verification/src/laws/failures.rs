//! What failed calls, and answers as they arrive, come to.

use vstd::prelude::*;
use vstd::utf8::*;

use crate::adapter::{AnthropicAdapter, ANTHROPIC_VERSION, USER_AGENT};
use crate::json::JsonView;
use crate::normalized::NormalizedChatRequest;
use crate::status::{TransportFailure, EXCERPT_BYTES};

verus! {

/// The text stands somewhere in the message.
pub open spec fn mentions(message: Seq<char>, text: Seq<char>) -> bool {
    exists|before: Seq<char>, behind: Seq<char>| message == #[trigger] (before + text + behind)
}

proof fn lemma_mentions(message: Seq<char>, text: Seq<char>)
    ensures
        mentions(message, text) <==> crate::text::occurs_in(text, message),
{
    crate::laws::texts::law_occurring_is_standing_between(
        text,
        message,
        Seq::empty(),
        Seq::empty(),
    );
    if mentions(message, text) {
        let (before, behind) = choose|before: Seq<char>, behind: Seq<char>|
            message == #[trigger] (before + text + behind);
        crate::laws::texts::law_occurring_is_standing_between(text, message, before, behind);
    }
}

/// What each status means. The error says the message as it was given.
pub proof fn law_statuses(code: u16, message: Seq<char>)
    ensures
        ({
            let error = crate::status::status_error(code, message);
            &&& error.message == message
            &&& error.kind is RateLimited <==> code == 429
            &&& error.kind is AuthFailed <==> code == 401 || code == 403
            &&& error.kind is ContextLimit <==> code == 413 || (code == 400 && (mentions(
                message,
                "prompt_too_long"@,
            ) || mentions(message, "max_tokens"@) || mentions(message, "context"@)))
            &&& error.kind is BadRequest <==> code == 400 && !mentions(message, "prompt_too_long"@)
                && !mentions(message, "max_tokens"@) && !mentions(message, "context"@)
            &&& error.kind is Server <==> code != 400 && code != 401 && code != 403 && code != 413
                && code != 429
        }),
{
    lemma_mentions(message, "prompt_too_long"@);
    lemma_mentions(message, "max_tokens"@);
    lemma_mentions(message, "context"@);
}

/// A text of up to 512 bytes is quoted as it is; of a longer one, exactly the first 512 bytes are,
/// with a mark behind them. A text can be quoted where that cuts no character in two.
pub proof fn law_quotations(text: Seq<char>)
    ensures
        EXCERPT_BYTES == 512,
        crate::status::cuts_cleanly(text) <==> encode_utf8(text).len() <= 512 || is_char_boundary(
            encode_utf8(text),
            512,
        ),
        encode_utf8(text).len() <= 512 ==> crate::status::excerpt_of(text) == text,
        encode_utf8(text).len() > 512 && is_char_boundary(encode_utf8(text), 512) ==> exists|
            head: Seq<char>,
        |
            crate::status::excerpt_of(text) == head + "…[truncated]"@ && #[trigger] encode_utf8(head)
                == encode_utf8(text).take(512),
{
    let bytes = encode_utf8(text);
    if bytes.len() > 512 && is_char_boundary(bytes, 512) {
        encode_utf8_valid_utf8(text);
        valid_utf8_split(bytes, 512);
        let cut = bytes.take(512);
        assert(cut =~= bytes.subrange(0, 512));
        decode_utf8_encode_utf8(cut);
        let head = decode_utf8(cut);
        assert(encode_utf8(head) == cut);
        assert(crate::status::excerpt_of(text) == head + "…[truncated]"@);
    }
}

/// A call that got no answer is a network error, which says how it failed and then the client's own
/// words.
pub proof fn law_transport_failures(failure: TransportFailure)
    ensures
        failure.is_timeout ==> crate::status::transport_prefix(failure) == "timeout: "@,
        !failure.is_timeout && failure.is_connect ==> crate::status::transport_prefix(failure)
            == "connect failed: "@,
        !failure.is_timeout && !failure.is_connect && (failure.is_request || failure.is_body
            || failure.is_decode) ==> crate::status::transport_prefix(failure) == "transport: "@,
        !failure.is_timeout && !failure.is_connect && !failure.is_request && !failure.is_body
            && !failure.is_decode ==> crate::status::transport_prefix(failure).len() == 0,
{
}

/// The body of a refusal is the one that was read, or empty.
pub proof fn law_bodies_of_refusals(body: Result<Vec<u8>, String>)
    ensures
        body matches Ok(bytes) ==> crate::status::refusal_body(body) == bytes@,
        body is Err ==> crate::status::refusal_body(body).len() == 0,
{
}

/// What an answer stands for: what its body reads as, with a status from 200 to 299; else the error
/// of the status, which quotes the body. A body that could not be read to its end, or that is not
/// JSON, is an error that says why.
pub proof fn law_answers(
    code: u16,
    body: Seq<u8>,
    reason: Seq<char>,
    value: JsonView,
    expects_respond: bool,
)
    ensures
        crate::adapter::is_success(code) <==> 200 <= code <= 299,
        crate::adapter::answer_of(code, Err(reason), expects_respond) matches Err(error)
            && error.kind is Network && error.message == "read response body: "@ + reason,
        !(200 <= code <= 299) ==> (crate::adapter::answer_of(code, Ok(body), expects_respond)
            matches Err(error) && error == crate::status::status_error(
            code,
            crate::status::excerpt_of(crate::status::lossy_text(body)),
        )),
        200 <= code <= 299 && crate::value::bytes_json(body) == Ok::<JsonView, Seq<char>>(value)
            ==> crate::adapter::answer_of(code, Ok(body), expects_respond)
            == crate::decode::decoded(value, expects_respond),
        200 <= code <= 299 && crate::value::bytes_json(body) == Err::<JsonView, Seq<char>>(reason)
            ==> (crate::adapter::answer_of(code, Ok(body), expects_respond) matches Err(error)
            && error.kind is Malformed && error.message == "response is not JSON: "@ + reason),
        crate::adapter::response_of(Ok(value), expects_respond) == crate::decode::decoded(
            value,
            expects_respond,
        ),
        crate::adapter::response_of(Err(reason), expects_respond) matches Err(error) && error.kind
            is Malformed && error.message == "response is not JSON: "@ + reason,
{
}

/// The key can be sent.
pub open spec fn can_be_sent(key: Seq<char>) -> bool {
    forall|i: int|
        0 <= i < key.len() ==> ((#[trigger] key[i]) as int == 9 || (key[i] as int >= 32
            && key[i] as int != 127))
}

/// A request has three headers, each with one value: the type of its body, the version of the API,
/// and the key as it was given. A key with control characters is refused.
pub proof fn law_headers(key: Seq<char>)
    ensures
        crate::adapter::headers_of(key) is Ok <==> can_be_sent(key),
        crate::adapter::headers_of(key) matches Ok(headers) ==> {
            &&& headers.contains_key("content-type"@) && headers["content-type"@] == seq![
                encode_utf8("application/json"@),
            ]
            &&& headers.contains_key("anthropic-version"@) && headers["anthropic-version"@] == seq![
                encode_utf8("2023-06-01"@),
            ]
            &&& headers.contains_key("x-api-key"@) && headers["x-api-key"@] == seq![
                encode_utf8(key),
            ]
            &&& forall|name: Seq<char>| #[trigger]
                headers.contains_key(name) ==> name == "content-type"@ || name
                    == "anthropic-version"@ || name == "x-api-key"@
        },
        crate::adapter::headers_of(key) matches Err(error) ==> error.kind is BadRequest
            && error.message == "api_key contains characters not allowed in HTTP headers"@,
        ANTHROPIC_VERSION@ == "2023-06-01"@,
        USER_AGENT@ == "mcpg-plugin-backend-llm-anthropic/1.0"@,
{
    reveal_strlit("content-type");
    reveal_strlit("anthropic-version");
    reveal_strlit("x-api-key");
    assert("content-type"@.len() == 12 && "anthropic-version"@.len() == 17 && "x-api-key"@.len()
        == 9);
    assert(can_be_sent(key) ==> crate::headers::header_safe(key));
    assert(crate::headers::header_safe(key) ==> can_be_sent(key));
}

/// A call goes to the endpoint of the adapter's address, with the headers for its key and the body
/// for the request. Where there is no body for the request the call fails with that error, and else,
/// where there are no headers, with that one.
pub proof fn law_calls(adapter: AnthropicAdapter, request: NormalizedChatRequest, streaming: bool)
    ensures
        ({
            let sent = if streaming {
                crate::encode::encoded_stream(request)
            } else {
                crate::encode::encoded(request)
            };
            let headers = crate::adapter::headers_of(adapter.key());
            let call = crate::adapter::prepared(adapter, request, streaming);
            &&& sent matches Err(error) ==> (call matches Err(given) && given == error)
            &&& sent is Ok ==> (headers matches Err(error) ==> (call matches Err(given) && given
                == error))
            &&& sent matches Ok(body) ==> (headers matches Ok(headers) ==> (call matches Ok(call)
                && call.body == body && call.headers == headers && call.url == adapter.address()
                + "/messages"@))
        }),
{
}

/// A message speaks of too long a conversation exactly where one of three words stands in it.
pub proof fn law_what_speaks_of_length(message: Seq<char>)
    ensures
        crate::status::speaks_of_length(message) <==> mentions(message, "prompt_too_long"@)
            || mentions(message, "max_tokens"@) || mentions(message, "context"@),
{
    lemma_mentions(message, "prompt_too_long"@);
    lemma_mentions(message, "max_tokens"@);
    lemma_mentions(message, "context"@);
}

} // verus!
