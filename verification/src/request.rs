//! HTTP requests as the AWS SDK hands them to an interceptor.
//!
//! The SDK's request is opaque to the verifier; [`request_parts`] gives what it holds. The
//! contracts in this file are taken from the source of `aws-smithy-runtime-api`,
//! `aws-smithy-types` and `http` and are not proved.

use aws_smithy_runtime_api::http::Request;
use aws_smithy_types::body::SdkBody;
use vstd::prelude::*;
use vstd::utf8::encode_utf8;
use vstd::utf8::valid_utf8;

verus! {

/// The number of header values up to which a header map is sure to take one more name. (A map
/// whose hash table has grown to its largest size and shows long probe sequences refuses a new
/// name once a fifth of the table is in use.)
pub const MAX_HEADERS: usize = 6553;

/// The name of the header that tells the length of the body.
pub open spec fn content_length() -> Seq<char> {
    "content-length"@
}

/// The parts of an HTTP request.
#[verifier::ext_equal]
pub struct RequestParts {
    pub method: Seq<char>,
    pub uri: Seq<char>,
    /// The values of each name, in their order. The names are in lower case, and each has a
    /// value.
    pub headers: Map<Seq<char>, Seq<Seq<u8>>>,
    /// The body, or `None` where it is not in memory.
    pub body: Option<Seq<u8>>,
}

/// The number of values in `headers`.
pub open spec fn value_count(headers: Map<Seq<char>, Seq<Seq<u8>>>) -> nat {
    headers.dom().fold(0, |count: nat, name: Seq<char>| count + headers[name].len())
}

/// Whether a header value may hold `c`.
pub open spec fn is_header_char(c: char) -> bool {
    c == '\t' || (c >= ' ' && c != '\x7f')
}

/// An HTTP request of the SDK.
#[verifier::external_type_specification]
#[verifier::external_body]
#[verifier::reject_recursive_types(B)]
pub struct ExRequest<B>(aws_smithy_runtime_api::http::Request<B>);

/// The body of an HTTP request of the SDK.
#[verifier::external_type_specification]
#[verifier::external_body]
pub struct ExSdkBody(aws_smithy_types::body::SdkBody);

/// The value of an HTTP header.
#[verifier::external_type_specification]
#[verifier::external_body]
pub struct ExHeaderValue(http::HeaderValue);

/// The error for a text that is no header value.
#[verifier::external_type_specification]
#[verifier::external_body]
pub struct ExInvalidHeaderValue(http::header::InvalidHeaderValue);

/// What a request holds.
pub uninterp spec fn request_parts(request: aws_smithy_runtime_api::http::Request<aws_smithy_types::body::SdkBody>) -> RequestParts;

/// The bytes that a header value holds.
pub uninterp spec fn header_bytes(value: http::HeaderValue) -> Seq<u8>;

/// `http::HeaderValue::from_str` takes a text without control characters, except tabs, and
/// refuses every other text. The value holds the text in UTF-8.
pub assume_specification[ http::HeaderValue::from_str ](src: &str) -> (value: Result<
    http::HeaderValue,
    http::header::InvalidHeaderValue,
>)
    ensures
        value is Ok <==> (forall|i: int| 0 <= i < src@.len() ==> is_header_char(#[trigger] src@[i])),
        value matches Ok(v) ==> header_bytes(v) == encode_utf8(src@),
;

/// `SdkBody::bytes` gives the bytes of a body that is in memory, and nothing for a body that
/// is streamed. They are copied.
#[verifier::external_body]
pub(crate) fn body_bytes(request: &Request<SdkBody>) -> (bytes: Option<Vec<u8>>)
    ensures
        match bytes {
            Some(b) => request_parts(*request).body == Some(b@),
            None => request_parts(*request).body is None,
        },
{
    request.body().bytes().map(|bytes| bytes.to_vec())
}

/// `SdkBody::from` makes a body in memory of the given bytes; `Request::body_mut` lets it
/// replace the body of the request, whose other parts stay as they are.
#[verifier::external_body]
pub(crate) fn replace_body(request: &mut Request<SdkBody>, bytes: Vec<u8>)
    ensures
        request_parts(*final(request)) == (RequestParts {
            body: Some(bytes@),
            ..request_parts(*old(request))
        }),
{
    *request.body_mut() = SdkBody::from(bytes);
}

/// `Headers::len` is the number of header values.
#[verifier::external_body]
pub(crate) fn header_count(request: &Request<SdkBody>) -> (count: usize)
    ensures
        count == value_count(request_parts(*request).headers),
{
    request.headers().len()
}

/// `Headers::insert` makes the given value the only one of its name, here of `Content-Length`,
/// and leaves the other parts of the request as they are. It panics on a value that is not
/// UTF-8, and where the header map can take no further name.
#[verifier::external_body]
pub(crate) fn insert_content_length(request: &mut Request<SdkBody>, value: http::HeaderValue)
    requires
        valid_utf8(header_bytes(value)),
        value_count(request_parts(*old(request)).headers) <= MAX_HEADERS,
    ensures
        request_parts(*final(request)) == (RequestParts {
            headers: request_parts(*old(request)).headers.insert(
                content_length(),
                seq![header_bytes(value)],
            ),
            ..request_parts(*old(request))
        }),
{
    request.headers_mut().insert(http::header::CONTENT_LENGTH, value);
}

} // verus!
