//! The trusted boundary around the HTTP transport's request type.
//!
//! A `ureq::Request` stores a method, a list of raw header lines, and its
//! target as a URL string. Adding a query parameter parses that string,
//! appends the encoded pair, and stores the re-serialized URL, touching only
//! the URL's query component; when the string is not accepted as a request
//! URL, adding a parameter leaves the request unchanged. The spec functions
//! below model the facts of a request that this library's contracts need:
//! its method, its header lines, whether its URL is accepted, the URL apart
//! from its query, and the decoded query pairs it carries.

use vstd::prelude::*;

verus! {

#[verifier::external_type_specification]
#[verifier::external_body]
pub struct ExRequest(ureq::Request);

/// Whether ureq accepts `s` as a request URL: `url::Url::parse` succeeds and
/// the parsed URL has a host. A request whose stored URL fails this test
/// cannot take query parameters and fails once dispatched.
pub uninterp spec fn url_ok(s: Seq<char>) -> bool;

/// The serialization of the URL `s` with its query and fragment removed
/// (scheme, host, port and path); meaningful only when `url_ok(s)` holds.
pub uninterp spec fn url_base(s: Seq<char>) -> Seq<char>;

/// The query pairs of the URL `s`, decoded, in order, as `url::Url::query_pairs`
/// yields them; meaningful only when `url_ok(s)` holds.
pub uninterp spec fn url_query_pairs(s: Seq<char>) -> Seq<(Seq<char>, Seq<char>)>;

/// The request's HTTP method, as the string ureq stores.
pub uninterp spec fn request_method(r: ureq::Request) -> Seq<char>;

/// The request's raw header lines, in order.
pub uninterp spec fn request_headers(r: ureq::Request) -> Seq<Seq<u8>>;

/// Whether the request's stored URL passes ureq's own test: it parses as a
/// URL and has a host.
pub uninterp spec fn request_ok(r: ureq::Request) -> bool;

/// The request's stored URL apart from its query and fragment; meaningful
/// only when `request_ok(r)` holds.
pub uninterp spec fn request_base(r: ureq::Request) -> Seq<char>;

/// The decoded query pairs the request carries, in the order they will be
/// sent; meaningful only when `request_ok(r)` holds.
pub uninterp spec fn request_queries(r: ureq::Request) -> Seq<(Seq<char>, Seq<char>)>;

/// Relies on `ureq::get`: it builds a request with method `"GET"`, no header
/// lines, and `url` stored verbatim; the URL is parsed only when a query
/// parameter is added or the request is dispatched.
#[verifier::external_body]
pub(crate) fn get_request(url: &str) -> (r: ureq::Request)
    ensures
        request_method(r) == "GET"@,
        request_headers(r) == Seq::<Seq<u8>>::empty(),
        request_ok(r) == url_ok(url@),
        request_ok(r) ==> request_base(r) == url_base(url@),
        request_ok(r) ==> request_queries(r) == url_query_pairs(url@),
{
    ureq::get(url)
}

/// Relies on `ureq::Request::query`: when the stored URL is accepted, it
/// appends the pair (percent-encoded, so decoding gives the pair back
/// exactly) after the URL's existing query pairs and re-serializes, touching
/// neither the method, the headers, nor the URL apart from its query;
/// otherwise it returns the request unchanged.
#[verifier::external_body]
pub(crate) fn with_query(req: ureq::Request, param: &str, value: &str) -> (r: ureq::Request)
    ensures
        request_method(r) == request_method(req),
        request_headers(r) == request_headers(req),
        request_ok(r) == request_ok(req),
        request_base(r) == request_base(req),
        request_ok(req) ==> request_queries(r) == request_queries(req).push((param@, value@)),
        !request_ok(req) ==> request_queries(r) == request_queries(req),
{
    req.query(param, value)
}

} // verus!
