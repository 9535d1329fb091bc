//! The errors of the library: encoding a request, the transport, and the
//! response.
use vstd::prelude::*;

verus! {

/// serde_urlencoded's serialization error, carried through unread.
#[verifier::external_type_specification]
#[verifier::external_body]
pub struct ExUrlEncodeError(serde_urlencoded::ser::Error);

/// The url crate's parse error, carried through unread.
#[verifier::external_type_specification]
#[verifier::external_body]
pub struct ExUrlParseError(url::ParseError);

/// What went wrong with a response.
#[derive(Debug)]
pub enum ResponseError {
    /// The body is not JSON.
    Parse(serde_json::Error),
    /// The body is JSON but not of the expected shape.
    DataType {
        /// Why the shape did not match.
        source: serde_json::Error,
        /// The body as parsed.
        value: serde_json::Value,
        /// The payload type that was expected.
        expected_type: &'static str,
    },
    /// The status is not a success; the body is kept.
    HttpStatus {
        /// The body as parsed.
        value: serde_json::Value,
        /// The HTTP status code.
        status: u16,
    },
}

/// Errors that occur when query parameters or a body are encoded.
#[derive(Debug)]
#[non_exhaustive]
pub enum BodyError {
    /// Query parameters could not be URL-encoded.
    UrlEncoded(serde_urlencoded::ser::Error),
    /// A body could not be JSON-encoded.
    Json(serde_json::Error),
}

/// Errors of a call to an endpoint, over the transport's own error type.
#[derive(Debug)]
#[non_exhaustive]
pub enum ApiError<E> {
    /// Query parameters or a body could not be encoded.
    Body(BodyError),
    /// The transport failed.
    Client(E),
    /// A URL could not be parsed.
    Parse(url::ParseError),
    /// The response could not be turned into a payload.
    Response {
        /// What went wrong.
        source: ResponseError,
        /// The URL that was requested.
        url: String,
    },
}

impl<E> ApiError<E> {
    /// An error of the transport.
    pub fn client(source: E) -> (r: Self)
        ensures
            r == ApiError::<E>::Client(source),
    {
        ApiError::Client(source)
    }

    /// An error of the response at `url`.
    pub fn from_http_response(source: ResponseError, url: String) -> (r: Self)
        ensures
            r == (ApiError::<E>::Response { source, url }),
    {
        ApiError::Response { source, url }
    }
}

} // verus!
