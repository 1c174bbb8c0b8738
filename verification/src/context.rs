//! The request context: what a report says about the request that failed.
//!
//! A request arrives as [`RequestParts`], the request metadata in plain values.
//! [`to_rollbar_request`] turns the parts into the [`RequestContext`] that is
//! attached to a report. Header values arrive as raw bytes; a value that is not
//! text becomes the empty string, so that one bad header never costs the report.

use actix_web::http::header::HeaderValue;
use vstd::prelude::*;
use vstd::string::*;

verus! {

/// A request as received: the pieces of metadata that the context is derived from.
#[derive(Debug, Clone, PartialEq, Eq)]
pub struct RequestParts {
    /// The scheme the client used, such as `http`.
    pub scheme: String,
    /// The host the request was addressed to, with its port if it gave one.
    pub host: String,
    /// Path and query of the request.
    pub uri: String,
    /// The HTTP method.
    pub method: String,
    /// The headers in the order received, each a name and the raw bytes of its value.
    pub headers: Vec<(String, Vec<u8>)>,
}

/// The mathematical model of [`RequestParts`].
pub struct PartsModel {
    pub scheme: Seq<char>,
    pub host: Seq<char>,
    pub uri: Seq<char>,
    pub method: Seq<char>,
    pub headers: Seq<(Seq<char>, Seq<u8>)>,
}

impl View for RequestParts {
    type V = PartsModel;

    open spec fn view(&self) -> PartsModel {
        PartsModel {
            scheme: self.scheme@,
            host: self.host@,
            uri: self.uri@,
            method: self.method@,
            headers: self.headers.deep_view(),
        }
    }
}

impl DeepView for RequestParts {
    type V = PartsModel;

    open spec fn deep_view(&self) -> PartsModel {
        self@
    }
}

/// The request as a report describes it.
#[derive(Debug, Clone, PartialEq, Eq)]
pub struct RequestContext {
    /// Scheme, host and path of the request in one string.
    pub url: String,
    /// The HTTP method.
    pub method: String,
    /// The headers as text, in the order received, duplicates included.
    pub headers: Vec<(String, String)>,
}

/// The mathematical model of [`RequestContext`].
pub struct ContextModel {
    pub url: Seq<char>,
    pub method: Seq<char>,
    pub headers: Seq<(Seq<char>, Seq<char>)>,
}

impl View for RequestContext {
    type V = ContextModel;

    open spec fn view(&self) -> ContextModel {
        ContextModel { url: self.url@, method: self.method@, headers: self.headers.deep_view() }
    }
}

impl DeepView for RequestContext {
    type V = ContextModel;

    open spec fn deep_view(&self) -> ContextModel {
        self@
    }
}

/// A byte that may stand in a header value that reads as text: a horizontal
/// tab or a visible ASCII character, the space included.
pub open spec fn is_text_byte(b: u8) -> bool {
    b == 9 || (32 <= b && b < 127)
}

/// A header value reads as text when every byte of it is a text byte.
pub open spec fn is_text(bytes: Seq<u8>) -> bool {
    forall|i: int| 0 <= i < bytes.len() ==> is_text_byte(#[trigger] bytes[i])
}

/// The characters that text bytes stand for, one for each byte.
pub open spec fn text_chars(bytes: Seq<u8>) -> Seq<char> {
    Seq::new(bytes.len(), |i: int| bytes[i] as char)
}

/// A header value as the context shows it: its text, or nothing where it is not text.
pub open spec fn header_text(bytes: Seq<u8>) -> Seq<char> {
    if is_text(bytes) {
        text_chars(bytes)
    } else {
        Seq::empty()
    }
}

/// The headers of the context: every header of the request, in place, its value as text.
pub open spec fn context_headers(headers: Seq<(Seq<char>, Seq<u8>)>) -> Seq<(Seq<char>, Seq<char>)> {
    Seq::new(headers.len(), |i: int| (headers[i].0, header_text(headers[i].1)))
}

/// The URL of the context: the scheme, `://`, the host and the path.
pub open spec fn context_url(scheme: Seq<char>, host: Seq<char>, uri: Seq<char>) -> Seq<char> {
    scheme + seq![':', '/', '/'] + host + uri
}

/// The context that belongs to a request.
pub open spec fn context_of(parts: PartsModel) -> ContextModel {
    ContextModel {
        url: context_url(parts.scheme, parts.host, parts.uri),
        method: parts.method,
        headers: context_headers(parts.headers),
    }
}

/// Reads the bytes of a header value as text.
///
/// Trusted: the body hands the bytes to `HeaderValue::from_bytes` and asks the
/// value for `HeaderValue::to_str` (crate `http`, as `actix_web::http` exports
/// it). `from_bytes` takes a tab and every byte from 32 on but 127; `to_str`
/// then answers only where every byte is a tab or lies in 32..127, and the
/// string it gives holds those bytes as ASCII characters.
#[verifier::external_body]
fn decode_header_value(bytes: &Vec<u8>) -> (text: Option<String>)
    ensures
        text is Some <==> is_text(bytes@),
        text matches Some(s) ==> s@ == text_chars(bytes@),
{
    match HeaderValue::from_bytes(bytes.as_slice()) {
        Ok(value) => match value.to_str() {
            Ok(text) => Some(text.to_owned()),
            Err(_) => None,
        },
        Err(_) => None,
    }
}

/// The text of one header value; empty where the bytes are not text.
pub fn header_value_text(bytes: &Vec<u8>) -> (text: String)
    ensures
        text@ == header_text(bytes@),
{
    match decode_header_value(bytes) {
        Some(text) => text,
        None => String::new(),
    }
}

/// Builds the context of a request from its parts.
///
/// The method and the header names are copied as they are, and the URL is put
/// together from scheme, host and path. No input makes this fail: a header
/// value that is not text is kept, with an empty value.
pub fn to_rollbar_request(request: &RequestParts) -> (context: RequestContext)
    ensures
        context@ == context_of(request@),
{
    let mut url = request.scheme.clone();
    url.append("://");
    url.append(request.host.as_str());
    url.append(request.uri.as_str());
    proof {
        reveal_strlit("://");
        assert("://"@ =~= seq![':', '/', '/']);
    }
    let mut headers: Vec<(String, String)> = Vec::new();
    let mut i: usize = 0;
    while i < request.headers.len()
        invariant
            i <= request.headers.len(),
            headers.len() == i,
            forall|j: int|
                0 <= j < i ==> (#[trigger] headers[j]).deep_view() == (
                    request@.headers[j].0,
                    header_text(request@.headers[j].1),
                ),
        decreases request.headers.len() - i,
    {
        let name = request.headers[i].0.clone();
        let value = header_value_text(&request.headers[i].1);
        proof {
            assert(request.headers[i as int].1.deep_view() =~= request.headers[i as int].1@);
        }
        headers.push((name, value));
        i += 1;
    }
    let context = RequestContext { url, method: request.method.clone(), headers };
    proof {
        assert(context@.headers =~= context_headers(request@.headers));
    }
    context
}

/// Building a context is repeatable: two contexts built from the same request
/// are the same context.
pub proof fn context_is_repeatable(request: PartsModel, first: ContextModel, second: ContextModel)
    requires
        first == context_of(request),
        second == context_of(request),
    ensures
        first == second,
{
}

/// Every header of the request has its place in the context, under its own
/// name and in the order received, whatever its value holds.
pub proof fn headers_keep_their_places(request: PartsModel, i: int)
    requires
        0 <= i < request.headers.len(),
    ensures
        context_of(request).headers.len() == request.headers.len(),
        context_of(request).headers[i].0 == request.headers[i].0,
{
}

/// A header value that is text is shown character for character.
pub proof fn text_header_is_kept(request: PartsModel, i: int)
    requires
        0 <= i < request.headers.len(),
        is_text(request.headers[i].1),
    ensures
        context_of(request).headers[i].1.len() == request.headers[i].1.len(),
        forall|k: int|
            0 <= k < request.headers[i].1.len() ==> #[trigger] context_of(request).headers[i].1[k]
                == request.headers[i].1[k] as char,
{
}

/// A header value that is not text is shown as the empty string, and the rest
/// of the context is built all the same.
pub proof fn undecodable_header_is_empty(request: PartsModel, i: int)
    requires
        0 <= i < request.headers.len(),
        !is_text(request.headers[i].1),
    ensures
        context_of(request).headers[i] == (request.headers[i].0, Seq::<char>::empty()),
        context_of(request).url == context_url(request.scheme, request.host, request.uri),
        context_of(request).method == request.method,
        context_of(request).headers.len() == request.headers.len(),
{
}

} // verus!
