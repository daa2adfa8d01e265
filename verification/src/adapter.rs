//! The endpoint of the Messages API, and what its answers stand for.

use reqwest::header::{HeaderMap, HeaderValue};
use vstd::prelude::*;
use vstd::string::*;
use vstd::utf8::*;

use crate::decode::decode_response;
use crate::encode::{encode_request, encode_stream_request};
use crate::error::{ErrorKind, ErrorView, ProviderError};
use crate::headers::{insert_header, no_headers};
use crate::json::{Json, JsonView};
use crate::normalized::{ChatResponseView, NormalizedChatRequest, NormalizedChatResponse};
use crate::status::{try_map_status_error, EXCERPT_BYTES};
use crate::text::{text_concat, text_trim_end};

verus! {

broadcast use vstd::string::group_string_axioms;

/// The version of the API that every request asks for.
pub const ANTHROPIC_VERSION: &'static str = "2023-06-01";

/// How the adapter names itself to the provider.
pub const USER_AGENT: &'static str = "mcpg-plugin-backend-llm-anthropic/1.0";

/// The endpoint and the key that a binding calls it with.
pub struct AnthropicAdapter {
    /// The address of the API with its version, without a slash at the end.
    base_url: String,
    api_key: String,
}

/// A call that is ready to be sent.
pub struct PreparedCall {
    pub url: String,
    pub headers: HeaderMap<HeaderValue>,
    pub body: Json,
}

/// The model of a [`PreparedCall`].
#[verifier::ext_equal]
pub struct PreparedView {
    pub url: Seq<char>,
    /// The values of every header, by its name.
    pub headers: Map<Seq<char>, Seq<Seq<u8>>>,
    pub body: JsonView,
}

impl View for PreparedCall {
    type V = PreparedView;

    open spec fn view(&self) -> PreparedView {
        PreparedView {
            url: self.url@,
            headers: crate::headers::header_entries(self.headers),
            body: self.body@,
        }
    }
}

/// The headers of a request with the given key, by name, or why there are none.
pub open spec fn headers_of(api_key: Seq<char>) -> Result<Map<Seq<char>, Seq<Seq<u8>>>, ErrorView> {
    if crate::headers::header_safe(api_key) {
        Ok(
            map![
                "content-type"@ => seq![encode_utf8("application/json"@)],
                "anthropic-version"@ => seq![encode_utf8(ANTHROPIC_VERSION@)],
                "x-api-key"@ => seq![encode_utf8(api_key)],
            ],
        )
    } else {
        Err(
            ErrorView {
                kind: ErrorKind::BadRequest,
                message: "api_key contains characters not allowed in HTTP headers"@,
            },
        )
    }
}

/// The names and the fixed values of the headers are ones that can be sent.
proof fn lemma_headers_can_be_sent()
    ensures
        crate::headers::is_header_name("content-type"@),
        crate::headers::is_header_name("anthropic-version"@),
        crate::headers::is_header_name("x-api-key"@),
        crate::headers::is_printable("application/json"@),
        crate::headers::is_printable(ANTHROPIC_VERSION@),
{
    reveal_strlit("content-type");
    reveal_strlit("anthropic-version");
    reveal_strlit("x-api-key");
    reveal_strlit("application/json");
    reveal_strlit("2023-06-01");
}

/// A status that is a success.
pub open spec fn is_success(code: u16) -> bool {
    200 <= code < 300
}

/// The response, given what the answer reads as.
pub open spec fn response_of(
    parsed: Result<JsonView, Seq<char>>,
    expects_respond: bool,
) -> Result<ChatResponseView, ErrorView> {
    match parsed {
        Ok(value) => crate::decode::decoded(value, expects_respond),
        Err(reason) => Err(
            ErrorView {
                kind: ErrorKind::Malformed,
                message: "response is not JSON: "@ + reason,
            },
        ),
    }
}

/// What an answer stands for: the response, or the error that the status means. Where the answer
/// could not be read to its end, the status does not matter.
pub open spec fn answer_of(
    code: u16,
    body: Result<Seq<u8>, Seq<char>>,
    expects_respond: bool,
) -> Result<ChatResponseView, ErrorView> {
    match body {
        Err(reason) => Err(
            ErrorView { kind: ErrorKind::Network, message: "read response body: "@ + reason },
        ),
        Ok(body) => if is_success(code) {
            response_of(crate::value::bytes_json(body), expects_respond)
        } else {
            Err(
                crate::status::status_error(
                    code,
                    crate::status::excerpt_of(crate::status::lossy_text(body)),
                ),
            )
        },
    }
}

/// The call for a request, or why there is none. What is wrong with the request comes before what
/// is wrong with the key.
pub open spec fn prepared(
    adapter: AnthropicAdapter,
    request: NormalizedChatRequest,
    streaming: bool,
) -> Result<PreparedView, ErrorView> {
    let body = if streaming {
        crate::encode::encoded_stream(request)
    } else {
        crate::encode::encoded(request)
    };
    match (body, headers_of(adapter.key())) {
        (Err(error), _) => Err(error),
        (_, Err(error)) => Err(error),
        (Ok(body), Ok(headers)) => Ok(
            PreparedView { url: adapter.address() + "/messages"@, headers, body },
        ),
    }
}

impl AnthropicAdapter {
    /// The address of the API.
    pub closed spec fn address(self) -> Seq<char> {
        self.base_url@
    }

    /// The characters of the key.
    pub closed spec fn key(self) -> Seq<char> {
        self.api_key@
    }

    /// The address does not end in a slash.
    #[verifier::type_invariant]
    spec fn has_no_slash(self) -> bool {
        self.base_url@.len() > 0 ==> self.base_url@.last() != '/'
    }

    /// An adapter for the given address and key. An empty address is refused; slashes at the end
    /// of the address are dropped.
    pub fn new(base_url: String, api_key: String) -> (result: Result<
        AnthropicAdapter,
        ProviderError,
    >)
        ensures
            match result {
                Ok(adapter) => base_url@.len() > 0 && adapter.address()
                    == crate::text::trimmed_end(base_url@, '/') && adapter.key() == api_key@,
                Err(error) => base_url@.len() == 0 && error@ == (ErrorView {
                    kind: ErrorKind::BadRequest,
                    message: "anthropic base_url is empty"@,
                }),
            },
    {
        if base_url.as_str().is_empty() {
            return Err(
                ProviderError::BadRequest { message: "anthropic base_url is empty".to_owned() },
            );
        }
        proof {
            crate::laws::request::law_slashes_are_dropped(base_url@);
        }
        Ok(AnthropicAdapter { base_url: text_trim_end(base_url.as_str(), '/'), api_key })
    }

    /// The provider's name.
    pub fn label(&self) -> (name: &'static str)
        ensures
            name@ == "anthropic"@,
    {
        "anthropic"
    }

    /// Where requests go.
    pub fn endpoint_url(&self) -> (url: String)
        ensures
            url@ == self.address() + "/messages"@,
            self.address().len() > 0 ==> self.address().last() != '/',
    {
        proof {
            use_type_invariant(self);
        }
        text_concat(self.base_url.as_str(), "/messages")
    }

    /// The headers of a request. A key that cannot be a header is refused.
    pub fn build_headers(&self) -> (result: Result<HeaderMap<HeaderValue>, ProviderError>)
        ensures
            headers_of(self.key()) == (match result {
                Ok(headers) => Ok(crate::headers::header_entries(headers)),
                Err(error) => Err(error@),
            }),
    {
        proof {
            lemma_headers_can_be_sent();
        }
        let mut headers: HeaderMap<HeaderValue> = no_headers();
        insert_header(&mut headers, "content-type", HeaderValue::from_static("application/json"));
        insert_header(
            &mut headers,
            "anthropic-version",
            HeaderValue::from_static(ANTHROPIC_VERSION),
        );
        match HeaderValue::from_str(self.api_key.as_str()) {
            Ok(key) => {
                insert_header(&mut headers, "x-api-key", key);
                assert(crate::headers::header_entries(headers) =~= headers_of(self.api_key@)->Ok_0);
                Ok(headers)
            },
            Err(_) => Err(
                ProviderError::BadRequest {
                    message: "api_key contains characters not allowed in HTTP headers".to_owned(),
                },
            ),
        }
    }

    /// The call for a request, whose answer is to arrive whole or in pieces.
    pub fn prepare(&self, request: &NormalizedChatRequest, streaming: bool) -> (result: Result<
        PreparedCall,
        ProviderError,
    >)
        ensures
            prepared(*self, *request, streaming) == (match result {
                Ok(call) => Ok(call@),
                Err(error) => Err(error@),
            }),
    {
        let encoded: Result<Json, ProviderError> = if streaming {
            encode_stream_request(request)
        } else {
            encode_request(request)
        };
        match (encoded, self.build_headers()) {
            (Err(error), _) => Err(error),
            (_, Err(error)) => Err(error),
            (Ok(body), Ok(headers)) => Ok(
                PreparedCall { url: self.endpoint_url(), headers, body },
            ),
        }
    }
}

/// The response, given what the answer reads as.
pub fn read_parsed(parsed: Result<Json, String>, expects_respond: bool) -> (result: Result<
    NormalizedChatResponse,
    ProviderError,
>)
    ensures
        crate::decode::response_result(result) == response_of(
            match parsed {
                Ok(value) => Ok(value@),
                Err(reason) => Err(reason@),
            },
            expects_respond,
        ),
        parsed matches Ok(value) ==> (result matches Ok(response) ==> crate::decode::content_reads_back(
            value@,
            expects_respond,
            response@.content,
        )),
{
    match parsed {
        Ok(value) => decode_response(&value, expects_respond),
        Err(reason) => Err(
            ProviderError::Malformed {
                message: text_concat("response is not JSON: ", reason.as_str()),
            },
        ),
    }
}

/// Whether a status is a success.
pub fn is_success_status(code: u16) -> (success: bool)
    ensures
        success == is_success(code),
{
    200 <= code && code < 300
}

/// Reads the answer to a request, or why it could not be read to its end. There is no reading of a
/// failure whose quotation would cut a character in two.
pub fn read_answer(
    code: u16,
    body: Result<Vec<u8>, String>,
    expects_respond: bool,
) -> (result: Option<Result<NormalizedChatResponse, ProviderError>>)
    ensures
        result matches Some(result) ==> crate::decode::response_result(result) == answer_of(
            code,
            match body {
                Ok(body) => Ok(body@),
                Err(reason) => Err(reason@),
            },
            expects_respond,
        ),
        result is None <==> !is_success(code) && (body matches Ok(body)
            && !crate::status::cuts_cleanly(crate::status::lossy_text(body@))),
        body matches Ok(body) && valid_utf8(body@) && (body@.len() <= EXCERPT_BYTES
            || is_char_boundary(body@, EXCERPT_BYTES as int)) ==> result is Some,
        body matches Ok(body) ==> (!is_success(code) && valid_utf8(body@)
            ==> crate::status::lossy_text(body@) == decode_utf8(body@)),
        body matches Ok(body) ==> crate::value::bytes_json(body@) matches Ok(value) ==> result
            matches Some(Ok(response)) ==> crate::decode::content_reads_back(
            value,
            expects_respond,
            response@.content,
        ),
{
    let bytes: Vec<u8> = match body {
        Ok(bytes) => bytes,
        Err(reason) => {
            let message: String = text_concat("read response body: ", reason.as_str());
            return Some(Err(ProviderError::Network { message }));
        },
    };
    if !is_success_status(code) {
        return match try_map_status_error(code, bytes.as_slice()) {
            Some(error) => Some(Err(error)),
            None => None,
        };
    }
    Some(read_parsed(Json::from_json_bytes(bytes.as_slice()), expects_respond))
}

} // verus!
