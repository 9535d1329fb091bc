//! What a transport must provide, and the requests and responses it carries.
use vstd::prelude::*;
use crate::error::ApiError;

verus! {

/// An HTTP verb.
#[derive(Debug, Clone, Copy, PartialEq, Eq, Structural)]
pub enum Method {
    Get,
    Post,
    Put,
    Patch,
    Delete,
    Head,
    Options,
}

impl Method {
    /// The verb as it stands on the request line.
    pub fn as_str(&self) -> (r: &'static str)
        ensures
            r@ == match *self {
                Method::Get => "GET"@,
                Method::Post => "POST"@,
                Method::Put => "PUT"@,
                Method::Patch => "PATCH"@,
                Method::Delete => "DELETE"@,
                Method::Head => "HEAD"@,
                Method::Options => "OPTIONS"@,
            },
    {
        match self {
            Method::Get => "GET",
            Method::Post => "POST",
            Method::Put => "PUT",
            Method::Patch => "PATCH",
            Method::Delete => "DELETE",
            Method::Head => "HEAD",
            Method::Options => "OPTIONS",
        }
    }
}

/// A request ready to be sent: verb, absolute URL, content type and body.
#[derive(Debug, Clone)]
pub struct Request {
    /// The verb.
    pub method: Method,
    /// The absolute URL, query string included.
    pub url: String,
    /// The value of the content-type header, when a body is declared.
    pub content_type: Option<&'static str>,
    /// The body; empty when none is declared.
    pub body: Vec<u8>,
}

/// A raw response: status code and body bytes.
#[derive(Debug, Clone)]
pub struct Response {
    /// The HTTP status code.
    pub status: u16,
    /// The body.
    pub body: Vec<u8>,
}

/// Whether an HTTP status code reports success (the 2xx range).
pub open spec fn is_success(status: u16) -> bool {
    200 <= status && status <= 299
}

/// Whether an HTTP status code reports success (the 2xx range).
pub fn status_is_success(status: u16) -> (r: bool)
    ensures
        r == is_success(status),
{
    200 <= status && status <= 299
}

/// The absolute URL that `relative` names against the base URL `base`, as
/// the url crate parses and joins them; `None` where that fails.
pub uninterp spec fn url_joined(base: Seq<char>, relative: Seq<char>) -> Option<Seq<char>>;

/// Relies on url::Url::join, after url::Url::parse of the base: the outcome
/// depends on the two texts alone.
#[verifier::external_body]
fn join_url(base: &str, relative: &str) -> (r: Result<String, url::ParseError>)
    ensures
        match r {
            Ok(u) => url_joined(base@, relative@) == Some(u@),
            Err(_) => url_joined(base@, relative@) is None,
        },
{
    url::Url::parse(base).and_then(|b| b.join(relative)).map(String::from)
}

/// A path without its leading slashes.
pub open spec fn trim_leading_slashes(s: Seq<char>) -> Seq<char>
    decreases s.len(),
{
    if s.len() > 0 && s[0] == '/' {
        trim_leading_slashes(s.drop_first())
    } else {
        s
    }
}

/// An endpoint path resolved against a base URL: the path loses its leading
/// slashes, so that it extends the base's own path, and is then joined to
/// the base.
pub fn resolve_endpoint<X>(base: &str, endpoint: &str) -> (r: Result<String, ApiError<X>>)
    ensures
        match r {
            Ok(u) => url_joined(base@, trim_leading_slashes(endpoint@)) == Some(u@),
            Err(e) => url_joined(base@, trim_leading_slashes(endpoint@)) is None && e is Parse,
        },
{
    let len = endpoint.unicode_len();
    let mut i: usize = 0;
    assert(endpoint@.subrange(0, len as int) =~= endpoint@);
    while i < len && endpoint.get_char(i) == '/'
        invariant
            0 <= i <= len,
            len == endpoint@.len(),
            trim_leading_slashes(endpoint@) == trim_leading_slashes(endpoint@.subrange(i as int, len as int)),
        decreases len - i,
    {
        assert(endpoint@.subrange(i as int, len as int).drop_first() =~= endpoint@.subrange(i + 1, len as int));
        i += 1;
    }
    let rest = endpoint.substring_char(i, len);
    proof {
        if i < len {
            assert(endpoint@.subrange(i as int, len as int)[0] == endpoint@[i as int]);
        }
    }
    match join_url(base, rest) {
        Ok(u) => Ok(u),
        Err(e) => Err(ApiError::Parse(e)),
    }
}

/// A transport that knows where the API lives.
pub trait RestClient {
    /// The transport's own error.
    type Error;

    /// The absolute URL of an endpoint path, resolved against the
    /// transport's base URL.
    fn rest_endpoint(&self, endpoint: &str) -> Result<String, ApiError<Self::Error>>;
}

/// A transport that sends a request and blocks until the response is there.
pub trait Client: RestClient {
    /// Sends a request.
    fn rest(&self, request: Request) -> Result<Response, ApiError<Self::Error>>;
}

} // verus!
