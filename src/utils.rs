//! Turning an endpoint into a request, and a raw response into an envelope.
use vstd::prelude::*;
use crate::client::{is_success, status_is_success, Request, Response, RestClient};
use crate::endpoint::{Endpoint, Pageable};
use crate::error::{ApiError, ResponseError};
use crate::json::{json_of, json_valid, parse_json};
use crate::page::InnerState;
use crate::query_params::{encode_pairs, with_query, QueryParams};
use crate::types::Root;

verus! {

/// Whether `req` is the request for endpoint `e` at the absolute URL `url`:
/// the endpoint's verb, and its body with its MIME type as content type, or
/// an empty body and no content type.
pub open spec fn request_for<E: Endpoint>(e: &E, url: Seq<char>, req: Request) -> bool {
    &&& req.method == e.spec_method()
    &&& req.url@ == url
    &&& match e.spec_body() {
        Some(Some((mime, bytes))) => req.content_type is Some && req.content_type->0@ == mime
            && req.body@ == bytes,
        Some(None) => req.content_type is None && req.body@ == Seq::<u8>::empty(),
        None => false,
    }
}

/// Whether `r` is what building the request for `e` at `url`, with
/// `params` as its query string, gives: a parse error where the query cannot
/// be set on the URL; else the body-encoding error where the body cannot be
/// encoded; else the request.
pub open spec fn built_at<E: Endpoint, X>(
    e: &E,
    url: Seq<char>,
    params: Seq<(Seq<char>, Seq<char>)>,
    r: Result<Request, ApiError<X>>,
) -> bool {
    match with_query(url, encode_pairs(params)) {
        None => r matches Err(ApiError::Parse(_)),
        Some(u) => match e.spec_body() {
            None => r matches Err(ApiError::Body(_)),
            Some(_) => r matches Ok(req) && request_for(e, u, req),
        },
    }
}

/// Whether `r` is what building the request for `e` gives when the
/// transport resolved its path to `resolved`, with `extra` after the
/// endpoint's own query parameters: the transport's error as it is; else the
/// body-encoding error where the parameters cannot be encoded; else as
/// `built_at` says.
pub open spec fn built_from<E: Endpoint, X>(
    e: &E,
    extra: Seq<(Seq<char>, Seq<char>)>,
    resolved: Result<String, ApiError<X>>,
    r: Result<Request, ApiError<X>>,
) -> bool {
    match resolved {
        Err(err) => r == Err::<Request, ApiError<X>>(err),
        Ok(base) => match e.spec_params() {
            None => r matches Err(ApiError::Body(_)),
            Some(ps) => built_at(e, base@, ps + extra, r),
        },
    }
}

/// The request for `endpoint` at `url`, with `params` as its query string.
pub fn build_request_internal<E: Endpoint, X>(url: String, endpoint: &E, params: QueryParams) -> (r:
    Result<Request, ApiError<X>>)
    ensures
        built_at(endpoint, url@, params@, r),
{
    let mut url = url;
    match params.apply_to(&mut url) {
        Ok(()) => {},
        Err(e) => return Err(ApiError::Parse(e)),
    }
    let method = endpoint.method();
    match endpoint.body() {
        Ok(Some((mime, data))) => Ok(Request { method, url, content_type: Some(mime), body: data }),
        Ok(None) => {
            let r = Request { method, url, content_type: None, body: Vec::new() };
            assert(r.body@ =~= Seq::<u8>::empty());
            Ok(r)
        },
        Err(e) => Err(ApiError::Body(e)),
    }
}

/// The request for `endpoint`: its path resolved by the transport, its own
/// query parameters set as the query.
pub fn build_request<E: Endpoint, C: RestClient>(endpoint: &E, client: &C) -> (r: Result<
    Request,
    ApiError<C::Error>,
>)
    ensures
        exists|resolved: Result<String, ApiError<C::Error>>|
            built_from(endpoint, Seq::empty(), resolved, r),
{
    let path = endpoint.endpoint();
    let resolved = client.rest_endpoint(path.as_str());
    let ghost g = resolved;
    let r = match resolved {
        Err(e) => Err(e),
        Ok(url) => match endpoint.query_params() {
            Err(e) => Err(ApiError::Body(e)),
            Ok(params) => {
                assert(params@ + Seq::<(Seq<char>, Seq<char>)>::empty() =~= params@);
                build_request_internal(url, endpoint, params)
            },
        },
    };
    assert(built_from(endpoint, Seq::empty(), g, r));
    r
}

/// The request for one page of a pageable endpoint: its own query
/// parameters followed by `page=<n>`.
pub fn build_paged_request<E: Endpoint + Pageable, C: RestClient>(
    state: &InnerState<'_, E>,
    client: &C,
) -> (r: Result<Request, ApiError<C::Error>>)
    ensures
        exists|resolved: Result<String, ApiError<C::Error>>|
            built_from(state.endpoint, state.params(), resolved, r),
{
    let path = state.endpoint.endpoint();
    let resolved = client.rest_endpoint(path.as_str());
    let ghost g = resolved;
    let r = match resolved {
        Err(e) => Err(e),
        Ok(url) => match state.endpoint.query_params() {
            Err(e) => Err(ApiError::Body(e)),
            Ok(params) => {
                let mut params = params;
                let page = state.query_params();
                params.extend_from(&page);
                build_request_internal(url, state.endpoint, params)
            },
        },
    };
    assert(built_from(state.endpoint, state.params(), g, r));
    r
}

/// The envelope, or the data-type error, once the payload decoder has run
/// on a parsed body.
pub fn finish_decode<T>(
    value: serde_json::Value,
    decoded: Result<Root<T>, serde_json::Error>,
    expected_type: &'static str,
) -> (r: Result<Root<T>, ResponseError>)
    ensures
        match decoded {
            Ok(root) => r == Ok::<Root<T>, ResponseError>(root),
            Err(source) => r == Err::<Root<T>, ResponseError>(
                ResponseError::DataType { source, value, expected_type },
            ),
        },
{
    match decoded {
        Ok(root) => Ok(root),
        Err(source) => Err(ResponseError::DataType { source, value, expected_type }),
    }
}

/// Whether `r` is what decoding `rsp` gives: a parse error where the body is
/// not JSON; else, where the status is not a success, a status error with
/// the parsed body and the status; else what `decode` gives on the parsed
/// body: its envelope, or a data-type error holding decode's own error, the
/// parsed body and `expected_type`.
pub open spec fn decoded_from<T, F: Fn(&serde_json::Value) -> Result<Root<T>, serde_json::Error>>(
    rsp: Response,
    decode: F,
    expected_type: &'static str,
    r: Result<Root<T>, ResponseError>,
) -> bool {
    match json_of(rsp.body@) {
        None => r matches Err(ResponseError::Parse(_)),
        Some(v) => if !is_success(rsp.status) {
            r == Err::<Root<T>, ResponseError>(ResponseError::HttpStatus { value: v, status: rsp.status })
        } else {
            match r {
                Ok(root) => decode.ensures((&v,), Ok::<Root<T>, serde_json::Error>(root)),
                Err(ResponseError::DataType { source, value, expected_type: t }) => value == v && t
                    == expected_type && decode.ensures((&v,), Err::<Root<T>, serde_json::Error>(source)),
                Err(_) => false,
            }
        },
    }
}

/// Decodes a raw response. The body is parsed as JSON first, so that a
/// failure status keeps its body; a status outside 2xx is an error whatever
/// the body holds; only then does `decode` read the envelope.
pub fn deserialize_response<T, F: Fn(&serde_json::Value) -> Result<Root<T>, serde_json::Error>>(
    rsp: Response,
    decode: F,
    expected_type: &'static str,
) -> (r: Result<Root<T>, ResponseError>)
    requires
        forall|v: &serde_json::Value| decode.requires((v,)),
    ensures
        decoded_from(rsp, decode, expected_type, r),
        json_valid(rsp.body@) && !is_success(rsp.status) ==> (r matches Err(
            ResponseError::HttpStatus { .. },
        )),
{
    let value = match parse_json(rsp.body.as_slice()) {
        Ok(v) => v,
        Err(e) => return Err(ResponseError::Parse(e)),
    };
    if !status_is_success(rsp.status) {
        return Err(ResponseError::HttpStatus { value, status: rsp.status });
    }
    let decoded = decode(&value);
    finish_decode(value, decoded, expected_type)
}

} // verus!
