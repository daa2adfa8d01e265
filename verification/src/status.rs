//! What a failed call means.

use vstd::prelude::*;
use vstd::string::*;
use vstd::utf8::*;

use crate::error::{ErrorKind, ErrorView, ProviderError};
use crate::text::{text_concat, text_contains};

verus! {

broadcast use vstd::string::group_string_axioms;

/// The bytes of an answer that are quoted in an error.
pub const EXCERPT_BYTES: usize = 512;

/// What `String::from_utf8_lossy` makes of a byte string.
pub uninterp spec fn lossy_text(bytes: Seq<u8>) -> Seq<char>;

/// Calls `String::from_utf8_lossy`, whose result depends on the bytes alone. Bytes that are UTF-8
/// are the text that they encode; where they are not, what stands for them is left unsaid.
#[verifier::external_body]
fn text_from_lossy_utf8(bytes: &[u8]) -> (text: String)
    ensures
        text@ == lossy_text(bytes@),
        valid_utf8(bytes@) ==> text@ == decode_utf8(bytes@),
{
    String::from_utf8_lossy(bytes).into_owned()
}

/// The text is short enough to be quoted in full.
pub open spec fn fits(text: Seq<char>) -> bool {
    encode_utf8(text).len() <= EXCERPT_BYTES
}

/// The text is quoted in full, or can be cut without cutting a character in two.
pub open spec fn cuts_cleanly(text: Seq<char>) -> bool {
    fits(text) || is_char_boundary(encode_utf8(text), EXCERPT_BYTES as int)
}

/// What is quoted of a text: all of it, or what its first bytes encode and a mark that says so.
pub open spec fn excerpt_of(text: Seq<char>) -> Seq<char> {
    if fits(text) {
        text
    } else {
        decode_utf8(encode_utf8(text).take(EXCERPT_BYTES as int)) + "…[truncated]"@
    }
}

/// What a text says that speaks of too long a conversation.
pub open spec fn speaks_of_length(message: Seq<char>) -> bool {
    ||| crate::text::occurs_in("prompt_too_long"@, message)
    ||| crate::text::occurs_in("max_tokens"@, message)
    ||| crate::text::occurs_in("context"@, message)
}

/// What an HTTP status that is no success means.
pub open spec fn status_kind(code: u16, message: Seq<char>) -> ErrorKind {
    if code == 429 {
        ErrorKind::RateLimited
    } else if code == 401 || code == 403 {
        ErrorKind::AuthFailed
    } else if code == 413 || (code == 400 && speaks_of_length(message)) {
        ErrorKind::ContextLimit
    } else if code == 400 {
        ErrorKind::BadRequest
    } else {
        ErrorKind::Server
    }
}

/// The error for an HTTP status that is no success, with what the provider said.
pub open spec fn status_error(code: u16, message: Seq<char>) -> ErrorView {
    ErrorView { kind: status_kind(code, message), message }
}

/// Whether a text can be cut where an excerpt ends.
fn is_clean_cut(text: &str) -> (clean: bool)
    ensures
        clean == cuts_cleanly(text@),
{
    text.as_bytes().len() <= EXCERPT_BYTES || text.is_char_boundary(EXCERPT_BYTES)
}

/// What is quoted of a text.
pub fn excerpt(text: String) -> (quoted: String)
    requires
        cuts_cleanly(text@),
    ensures
        quoted@ == excerpt_of(text@),
{
    if text.as_str().as_bytes().len() <= EXCERPT_BYTES {
        return text;
    }
    let (head, _tail) = text.as_str().split_at(EXCERPT_BYTES);
    proof {
        encode_utf8_decode_utf8(head@);
        assert(encode_utf8(text@).take(EXCERPT_BYTES as int) =~= encode_utf8(text@).subrange(
            0,
            EXCERPT_BYTES as int,
        ));
    }
    text_concat(head, "…[truncated]")
}

/// What is quoted of an answer.
pub fn body_excerpt(body: &[u8]) -> (quoted: String)
    requires
        cuts_cleanly(lossy_text(body@)),
    ensures
        quoted@ == excerpt_of(lossy_text(body@)),
        valid_utf8(body@) ==> lossy_text(body@) == decode_utf8(body@),
        valid_utf8(body@) && body@.len() <= EXCERPT_BYTES ==> quoted@ == decode_utf8(body@),
{
    let text: String = text_from_lossy_utf8(body);
    proof {
        if valid_utf8(body@) {
            decode_utf8_encode_utf8(body@);
        }
    }
    excerpt(text)
}

/// The error for an HTTP status that is no success, with the given message.
pub fn error_for_status(code: u16, message: String) -> (error: ProviderError)
    ensures
        error@ == status_error(code, message@),
{
    if code == 429 {
        return ProviderError::RateLimited { message };
    }
    if code == 401 || code == 403 {
        return ProviderError::AuthFailed { message };
    }
    if code == 400 {
        if text_contains(message.as_str(), "prompt_too_long") || text_contains(
            message.as_str(),
            "max_tokens",
        ) || text_contains(message.as_str(), "context") {
            return ProviderError::ContextLimit { message };
        }
        return ProviderError::BadRequest { message };
    }
    if code == 413 {
        return ProviderError::ContextLimit { message };
    }
    ProviderError::Server { message }
}

/// The error for an HTTP status that is no success, which quotes the answer.
pub fn map_status_error(code: u16, body: &[u8]) -> (error: ProviderError)
    requires
        cuts_cleanly(lossy_text(body@)),
    ensures
        error@ == status_error(code, excerpt_of(lossy_text(body@))),
        valid_utf8(body@) ==> lossy_text(body@) == decode_utf8(body@),
{
    error_for_status(code, body_excerpt(body))
}

/// The error for an HTTP status that is no success, unless quoting the answer would cut a
/// character in two. An answer of UTF-8 that is short, or has a character boundary at the cut,
/// can be quoted.
pub fn try_map_status_error(code: u16, body: &[u8]) -> (error: Option<ProviderError>)
    ensures
        match error {
            Some(error) => cuts_cleanly(lossy_text(body@)) && error@ == status_error(
                code,
                excerpt_of(lossy_text(body@)),
            ),
            None => !cuts_cleanly(lossy_text(body@)),
        },
        valid_utf8(body@) ==> lossy_text(body@) == decode_utf8(body@),
        valid_utf8(body@) && (body@.len() <= EXCERPT_BYTES || is_char_boundary(
            body@,
            EXCERPT_BYTES as int,
        )) ==> error is Some,
{
    let text: String = text_from_lossy_utf8(body);
    proof {
        if valid_utf8(body@) {
            decode_utf8_encode_utf8(body@);
        }
    }
    if is_clean_cut(text.as_str()) {
        Some(map_status_error(code, body))
    } else {
        None
    }
}

/// What is known of the body of a refusal: nothing, where it could not be read.
pub open spec fn refusal_body(body: Result<Vec<u8>, String>) -> Seq<u8> {
    match body {
        Ok(body) => body@,
        Err(_) => Seq::empty(),
    }
}

/// The error for a stream that the provider refused to open, unless quoting its answer would cut a
/// character in two. Of an answer that could not be read nothing is quoted.
pub fn refused_stream(code: u16, body: Result<Vec<u8>, String>) -> (error: Option<ProviderError>)
    ensures
        match error {
            Some(error) => cuts_cleanly(lossy_text(refusal_body(body))) && error@ == status_error(
                code,
                excerpt_of(lossy_text(refusal_body(body))),
            ),
            None => !cuts_cleanly(lossy_text(refusal_body(body))),
        },
        valid_utf8(refusal_body(body)) ==> lossy_text(refusal_body(body)) == decode_utf8(
            refusal_body(body),
        ),
        valid_utf8(refusal_body(body)) && (refusal_body(body).len() <= EXCERPT_BYTES
            || is_char_boundary(refusal_body(body), EXCERPT_BYTES as int)) ==> error is Some,
        body is Err ==> (error matches Some(error) && error@ == status_error(code, Seq::empty())),
{
    let bytes: Vec<u8> = match body {
        Ok(bytes) => bytes,
        Err(_) => Vec::new(),
    };
    proof {
        if body is Err {
            assert(bytes@ =~= Seq::<u8>::empty());
            assert(valid_utf8(bytes@));
            assert(decode_utf8(bytes@) =~= Seq::<char>::empty());
            decode_utf8_encode_utf8(bytes@);
        }
    }
    try_map_status_error(code, bytes.as_slice())
}

/// What the HTTP client says of a call that got no answer.
pub struct TransportFailure {
    pub is_timeout: bool,
    pub is_connect: bool,
    pub is_request: bool,
    pub is_body: bool,
    pub is_decode: bool,
    /// The client's own words.
    pub text: String,
}

/// What is put before the client's own words.
pub open spec fn transport_prefix(failure: TransportFailure) -> Seq<char> {
    if failure.is_timeout {
        "timeout: "@
    } else if failure.is_connect {
        "connect failed: "@
    } else if failure.is_request || failure.is_body || failure.is_decode {
        "transport: "@
    } else {
        Seq::empty()
    }
}

/// The error for a call that got no answer.
pub fn map_reqwest_error(failure: TransportFailure) -> (error: ProviderError)
    ensures
        error@ == (ErrorView {
            kind: ErrorKind::Network,
            message: transport_prefix(failure) + failure.text@,
        }),
{
    let message: String = if failure.is_timeout {
        text_concat("timeout: ", failure.text.as_str())
    } else if failure.is_connect {
        text_concat("connect failed: ", failure.text.as_str())
    } else if failure.is_request || failure.is_body || failure.is_decode {
        text_concat("transport: ", failure.text.as_str())
    } else {
        assert(Seq::<char>::empty() + failure.text@ =~= failure.text@);
        failure.text
    };
    ProviderError::Network { message }
}

} // verus!
