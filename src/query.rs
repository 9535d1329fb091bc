//! Dispatch: build the request, send it, decode the response.
use vstd::prelude::*;
use crate::client::{Client, Request, Response};
use crate::endpoint::Endpoint;
use crate::error::{ApiError, ResponseError};
use crate::types::Root;
use crate::utils::{build_request, built_from, decoded_from, deserialize_response};

verus! {

/// Whether `r` is what the transport's outcome `rsp` for a request to `url`
/// gives: a transport error as it is; a response decoded, where any decoding
/// error carries `url`.
pub open spec fn finished_from<T, X, F: Fn(&serde_json::Value) -> Result<Root<T>, serde_json::Error>>(
    url: Seq<char>,
    rsp: Result<Response, ApiError<X>>,
    decode: F,
    expected_type: &'static str,
    r: Result<Root<T>, ApiError<X>>,
) -> bool {
    match rsp {
        Err(e) => r == Err::<Root<T>, ApiError<X>>(e),
        Ok(resp) => match r {
            Ok(root) => decoded_from(resp, decode, expected_type, Ok::<Root<T>, ResponseError>(root)),
            Err(ApiError::Response { source, url: u }) => u@ == url && decoded_from(
                resp,
                decode,
                expected_type,
                Err::<Root<T>, ResponseError>(source),
            ),
            Err(_) => false,
        },
    }
}

/// Decodes what the transport returned for a request to `url`: a transport
/// error as it is, a response into its envelope, and a decoding error
/// together with `url`.
pub fn finish_query<T, X, F: Fn(&serde_json::Value) -> Result<Root<T>, serde_json::Error>>(
    url: String,
    rsp: Result<Response, ApiError<X>>,
    decode: F,
    expected_type: &'static str,
) -> (r: Result<Root<T>, ApiError<X>>)
    requires
        forall|v: &serde_json::Value| decode.requires((v,)),
    ensures
        finished_from(url@, rsp, decode, expected_type, r),
        match r {
            Err(ApiError::Response { url: u, .. }) => rsp is Ok ==> u@ == url@,
            _ => true,
        },
{
    let rsp = rsp?;
    match deserialize_response(rsp, decode, expected_type) {
        Ok(root) => Ok(root),
        Err(e) => Err(ApiError::from_http_response(e, url)),
    }
}

/// Whether `out` is what a call of `e` gives, with `extra` after the
/// endpoint's own query parameters, for some outcome of resolving its path
/// and of sending the request: an error while building the request as it
/// is, the request is never sent then; otherwise what the transport's
/// outcome for the built request decodes to.
pub open spec fn queried<E: Endpoint, T, X, F: Fn(&serde_json::Value) -> Result<
    Root<T>,
    serde_json::Error,
>>(
    e: &E,
    extra: Seq<(Seq<char>, Seq<char>)>,
    decode: F,
    expected_type: &'static str,
    out: Result<Root<T>, ApiError<X>>,
) -> bool {
    exists|resolved: Result<String, ApiError<X>>, built: Result<Request, ApiError<X>>|
        {
            &&& #[trigger] built_from(e, extra, resolved, built)
            &&& match built {
                Err(err) => out == Err::<Root<T>, ApiError<X>>(err),
                Ok(req) => exists|rsp: Result<Response, ApiError<X>>|
                    #[trigger] finished_from(req.url@, rsp, decode, expected_type, out),
            }
        }
}

/// The payload of a decoded envelope, or the error as it is.
pub open spec fn data_of<T, X>(out: Result<Root<T>, ApiError<X>>) -> Result<T, ApiError<X>> {
    match out {
        Ok(root) => Ok(root.data),
        Err(e) => Err(e),
    }
}

/// Builds the request for `endpoint`, with `extra` after its own query
/// parameters, sends it and decodes the response.
pub(crate) fn call_endpoint<E: Endpoint, C: Client, T, F: Fn(&serde_json::Value) -> Result<Root<T>, serde_json::Error>>(
    endpoint: &E,
    client: &C,
    request: Result<Request, ApiError<C::Error>>,
    extra: Ghost<Seq<(Seq<char>, Seq<char>)>>,
    decode: F,
    expected_type: &'static str,
) -> (r: Result<Root<T>, ApiError<C::Error>>)
    requires
        forall|v: &serde_json::Value| decode.requires((v,)),
        exists|resolved: Result<String, ApiError<C::Error>>|
            built_from(endpoint, extra@, resolved, request),
    ensures
        queried(endpoint, extra@, decode, expected_type, r),
{
    let ghost built = request;
    let ghost resolved = choose|resolved: Result<String, ApiError<C::Error>>|
        built_from(endpoint, extra@, resolved, request);
    match request {
        Err(e) => {
            let r = Err(e);
            assert(built_from(endpoint, extra@, resolved, built));
            assert(queried(endpoint, extra@, decode, expected_type, r));
            r
        },
        Ok(req) => {
            let url = req.url.clone();
            let rsp = client.rest(req);
            let r = finish_query(url, rsp, decode, expected_type);
            assert(finished_from(built->Ok_0.url@, rsp, decode, expected_type, r));
            assert(built_from(endpoint, extra@, resolved, built));
            r
        },
    }
}

/// Calls an endpoint and returns the payload of its response: an error
/// while building the request is handed on as it is, and what the transport
/// returned is decoded as `finish_query` says.
pub fn query<E: Endpoint, C: Client, T, F: Fn(&serde_json::Value) -> Result<Root<T>, serde_json::Error>>(
    endpoint: &E,
    client: &C,
    decode: F,
    expected_type: &'static str,
) -> (r: Result<T, ApiError<C::Error>>)
    requires
        forall|v: &serde_json::Value| decode.requires((v,)),
    ensures
        exists|out: Result<Root<T>, ApiError<C::Error>>|
            #[trigger] queried(endpoint, Seq::empty(), decode, expected_type, out) && r == data_of(out),
{
    let request = build_request(endpoint, client);
    let out = call_endpoint(endpoint, client, request, Ghost(Seq::empty()), decode, expected_type);
    match out {
        Ok(root) => Ok(root.data),
        Err(x) => Err(x),
    }
}

} // verus!
