//! HTTP headers, which are kept in the HTTP client's own map.

use reqwest::header::{HeaderMap, HeaderValue, InvalidHeaderValue};
use vstd::prelude::*;
use vstd::string::*;
use vstd::utf8::*;

verus! {

broadcast use vstd::string::group_string_axioms;

/// `reqwest::header::HeaderMap`, known by what [`header_entries`] says of it.
#[verifier::external_type_specification]
#[verifier::external_body]
#[verifier::reject_recursive_types(T)]
pub struct ExHeaderMap<T>(reqwest::header::HeaderMap<T>);

/// `reqwest::header::HeaderValue`, known by what [`value_bytes`] says of it.
#[verifier::external_type_specification]
#[verifier::external_body]
pub struct ExHeaderValue(reqwest::header::HeaderValue);

/// `reqwest::header::InvalidHeaderValue`, which says nothing but that there is no value.
#[verifier::external_type_specification]
#[verifier::external_body]
pub struct ExInvalidHeaderValue(reqwest::header::InvalidHeaderValue);

/// The bytes of a header value.
pub uninterp spec fn value_bytes(value: HeaderValue) -> Seq<u8>;

/// The values of every header in a map, by the name of the header.
pub uninterp spec fn header_entries(headers: HeaderMap<HeaderValue>) -> Map<
    Seq<char>,
    Seq<Seq<u8>>,
>;

/// No headers.
pub open spec fn no_entries() -> Map<Seq<char>, Seq<Seq<u8>>> {
    Map::empty()
}

/// A text that can be the value of a header: it holds no control character but the tab.
pub open spec fn header_safe(text: Seq<char>) -> bool {
    forall|i: int|
        0 <= i < text.len() ==> (#[trigger] text[i] == '\t' || (text[i] >= ' ' && text[i]
            != '\u{7f}'))
}

/// A character of a header name, in lower case.
pub open spec fn is_name_char(c: char) -> bool {
    'a' <= c <= 'z' || '0' <= c <= '9' || c == '-'
}

/// A text that can be the name of a header and is written as names are kept.
pub open spec fn is_header_name(text: Seq<char>) -> bool {
    0 < text.len() <= 64 && forall|i: int| 0 <= i < text.len() ==> is_name_char(#[trigger] text[i])
}

/// A text of printable ASCII.
pub open spec fn is_printable(text: Seq<char>) -> bool {
    forall|i: int| 0 <= i < text.len() ==> ' ' <= #[trigger] text[i] <= '~'
}

/// [`reqwest::header::HeaderValue::from_static`]: the value with the given text, which must hold
/// printable characters or the call panics.
pub assume_specification[ reqwest::header::HeaderValue::from_static ](src: &'static str) -> (value:
    HeaderValue)
    requires
        is_printable(src@),
    ensures
        value_bytes(value) == encode_utf8(src@),
;

/// [`reqwest::header::HeaderValue::from_str`] goes through the UTF-8 bytes of a text. It takes those
/// from 32 up but for 127, and the tab; with any other byte there is no value.
pub assume_specification[ reqwest::header::HeaderValue::from_str ](src: &str) -> (result: Result<
    HeaderValue,
    InvalidHeaderValue,
>)
    ensures
        match result {
            Ok(value) => header_safe(src@) && value_bytes(value) == encode_utf8(src@),
            Err(_) => !header_safe(src@),
        },
;

/// Calls [`reqwest::header::HeaderMap::new`]: a map without headers.
#[verifier::external_body]
pub(crate) fn no_headers() -> (headers: HeaderMap<HeaderValue>)
    ensures
        header_entries(headers) == no_entries(),
{
    HeaderMap::new()
}

/// Calls [`reqwest::header::HeaderMap::insert`], after which the value is the only one of that
/// name. The map is small, so that it does not reach the size at which the call panics; and the
/// name is one in lower case, so that the call neither changes nor refuses it.
#[verifier::external_body]
pub(crate) fn insert_header(
    headers: &mut HeaderMap<HeaderValue>,
    name: &'static str,
    value: HeaderValue,
)
    requires
        is_header_name(name@),
        header_entries(*old(headers)).dom().finite(),
        header_entries(*old(headers)).dom().len() < 64,
    ensures
        header_entries(*final(headers)) == header_entries(*old(headers)).insert(
            name@,
            seq![value_bytes(value)],
        ),
{
    headers.insert(name, value);
}

} // verus!
