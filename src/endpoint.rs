//! What every request descriptor provides, and the decimal text of
//! identifiers in paths.
use vstd::prelude::*;
use crate::client::Method;
use crate::error::BodyError;
use crate::query_params::QueryParams;

verus! {

/// A description of one API call: verb, path, query parameters and body.
pub trait Endpoint {
    /// The verb of the call.
    spec fn spec_method(&self) -> Method;

    /// The path of the call, relative to the API's base URL.
    spec fn spec_path(&self) -> Seq<char>;

    /// The query parameters, or `None` where they cannot be encoded.
    spec fn spec_params(&self) -> Option<Seq<(Seq<char>, Seq<char>)>>;

    /// The body as MIME type and bytes, if any, or `None` where it cannot
    /// be encoded.
    spec fn spec_body(&self) -> Option<Option<(Seq<char>, Seq<u8>)>>;

    /// The verb of the call.
    fn method(&self) -> (r: Method)
        ensures
            r == self.spec_method(),
    ;

    /// The path of the call, relative to the API's base URL.
    fn endpoint(&self) -> (r: String)
        ensures
            r@ == self.spec_path(),
    ;

    /// The query parameters of the call.
    fn query_params(&self) -> (r: Result<QueryParams, BodyError>)
        ensures
            match r {
                Ok(q) => self.spec_params() == Some(q@),
                Err(_) => self.spec_params() is None,
            },
    ;

    /// The body of the call, as MIME type and bytes, if any.
    fn body(&self) -> (r: Result<Option<(&'static str, Vec<u8>)>, BodyError>)
        ensures
            match r {
                Ok(Some(b)) => self.spec_body() == Some(Some((b.0@, b.1@))),
                Ok(None) => self.spec_body() == Some(None::<(Seq<char>, Seq<u8>)>),
                Err(_) => self.spec_body() is None,
            },
    ;
}

/// Marks an endpoint whose results come in pages.
pub trait Pageable {}

/// An endpoint given by its parts: for calls that no descriptor type of the
/// library covers.
#[derive(Debug, Clone)]
pub struct RawEndpoint {
    /// The verb.
    pub method: Method,
    /// The path, relative to the API's base URL.
    pub path: String,
    /// The query parameters.
    pub params: QueryParams,
    /// The body as MIME type and bytes, if any.
    pub body: Option<(&'static str, Vec<u8>)>,
}

fn copy_bytes(bytes: &Vec<u8>) -> (r: Vec<u8>)
    ensures
        r@ == bytes@,
{
    let mut out: Vec<u8> = Vec::new();
    let mut i: usize = 0;
    while i < bytes.len()
        invariant
            0 <= i <= bytes.len(),
            out@ == bytes@.subrange(0, i as int),
        decreases bytes.len() - i,
    {
        out.push(bytes[i]);
        assert(out@ =~= bytes@.subrange(0, i + 1));
        i += 1;
    }
    assert(bytes@.subrange(0, i as int) =~= bytes@);
    out
}

impl Endpoint for RawEndpoint {
    open spec fn spec_method(&self) -> Method {
        self.method
    }

    open spec fn spec_path(&self) -> Seq<char> {
        self.path@
    }

    open spec fn spec_params(&self) -> Option<Seq<(Seq<char>, Seq<char>)>> {
        Some(self.params@)
    }

    open spec fn spec_body(&self) -> Option<Option<(Seq<char>, Seq<u8>)>> {
        match self.body {
            Some(b) => Some(Some((b.0@, b.1@))),
            None => Some(None),
        }
    }

    fn method(&self) -> (r: Method) {
        self.method
    }

    fn endpoint(&self) -> (r: String) {
        self.path.clone()
    }

    fn query_params(&self) -> (r: Result<QueryParams, BodyError>) {
        let mut q = QueryParams::new();
        q.extend_from(&self.params);
        assert(q@ =~= self.params@);
        Ok(q)
    }

    fn body(&self) -> (r: Result<Option<(&'static str, Vec<u8>)>, BodyError>) {
        match &self.body {
            Some(b) => Ok(Some((b.0, copy_bytes(&b.1)))),
            None => Ok(None),
        }
    }
}

impl Pageable for RawEndpoint {}

/// The character of a decimal digit.
pub open spec fn digit_char(d: nat) -> char {
    if d == 0 {
        '0'
    } else if d == 1 {
        '1'
    } else if d == 2 {
        '2'
    } else if d == 3 {
        '3'
    } else if d == 4 {
        '4'
    } else if d == 5 {
        '5'
    } else if d == 6 {
        '6'
    } else if d == 7 {
        '7'
    } else if d == 8 {
        '8'
    } else {
        '9'
    }
}

/// The decimal text of a number, without leading zeros.
pub open spec fn decimal(n: nat) -> Seq<char>
    decreases n,
{
    if n < 10 {
        seq![digit_char(n)]
    } else {
        decimal(n / 10).push(digit_char(n % 10))
    }
}

fn digit_str(d: u32) -> (r: &'static str)
    requires
        d < 10,
    ensures
        r@ == seq![digit_char(d as nat)],
{
    proof {
        reveal_strlit("0");
        reveal_strlit("1");
        reveal_strlit("2");
        reveal_strlit("3");
        reveal_strlit("4");
        reveal_strlit("5");
        reveal_strlit("6");
        reveal_strlit("7");
        reveal_strlit("8");
        reveal_strlit("9");
    }
    let r = if d == 0 {
        "0"
    } else if d == 1 {
        "1"
    } else if d == 2 {
        "2"
    } else if d == 3 {
        "3"
    } else if d == 4 {
        "4"
    } else if d == 5 {
        "5"
    } else if d == 6 {
        "6"
    } else if d == 7 {
        "7"
    } else if d == 8 {
        "8"
    } else {
        "9"
    };
    assert(r@ =~= seq![digit_char(d as nat)]);
    r
}

/// Appends the decimal text of `n` to `out`.
pub fn push_decimal(out: &mut String, n: u32)
    ensures
        final(out)@ == old(out)@ + decimal(n as nat),
    decreases n,
{
    if n >= 10 {
        push_decimal(out, n / 10);
    }
    out.append(digit_str(n % 10));
    assert(final(out)@ =~= old(out)@ + decimal(n as nat));
}

/// The path `/anime/<id><rest>`.
pub fn anime_path(id: u32, rest: &str) -> (r: String)
    ensures
        r@ == "/anime/"@ + decimal(id as nat) + rest@,
{
    let mut out = String::from_str("/anime/");
    push_decimal(&mut out, id);
    out.append(rest);
    out
}

} // verus!
