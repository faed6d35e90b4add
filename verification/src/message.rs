//! The parts of HTTP messages that redirection reads and writes.

use http::header::{HeaderMap, HeaderValue, LOCATION};
use http::Version;
use vstd::prelude::*;

verus! {

/// `http::HeaderMap`, the header collection of requests and responses. Verus sees
/// nothing inside a value of it; [`header_values`] names what it holds.
#[verifier::external_type_specification]
#[verifier::external_body]
#[verifier::reject_recursive_types(T)]
pub struct ExHeaderMap<T>(HeaderMap<T>);

/// `http::HeaderValue`, the value of one header field, carried inside a header map.
#[verifier::external_type_specification]
#[verifier::external_body]
pub struct ExHeaderValue(HeaderValue);

/// `http::Version`, the protocol version of a request, carried through unread.
#[verifier::external_type_specification]
#[verifier::external_body]
pub struct ExVersion(Version);

/// What a header map holds: for each header name that occurs in it, in lower case, the
/// bytes of its values in the order in which `HeaderMap::get_all` yields them.
pub uninterp spec fn header_values(headers: HeaderMap<HeaderValue>) -> Map<Seq<char>, Seq<Seq<u8>>>;

/// The name of the header that carries the target of a redirection.
pub open spec fn location_name() -> Seq<char> {
    "location"@
}

/// The bytes of the `Location` header of `headers`, if it has one.
pub open spec fn location_of(headers: HeaderMap<HeaderValue>) -> Option<Seq<u8>> {
    if header_values(headers).contains_key(location_name()) {
        Some(header_values(headers)[location_name()].first())
    } else {
        None
    }
}

/// Calls `HeaderMap::get` with `http::header::LOCATION`, whose name is `location`.
/// Claimed of it: it returns the first value that the map holds under that name, and
/// nothing where the map holds none.
#[verifier::external_body]
pub(crate) fn location_value(headers: &HeaderMap<HeaderValue>) -> (value: Option<&[u8]>)
    ensures
        value.is_some() == location_of(*headers).is_some(),
        value matches Some(bytes) ==> bytes@ == location_of(*headers).unwrap(),
{
    headers.get(LOCATION).map(|value| value.as_bytes())
}

/// Calls `HeaderMap::clone`. Claimed of it: the copy holds the same values under the
/// same names, in the same order.
#[verifier::external_body]
pub(crate) fn clone_headers(headers: &HeaderMap<HeaderValue>) -> (copy: HeaderMap<HeaderValue>)
    ensures
        header_values(copy) == header_values(*headers),
{
    headers.clone()
}

/// A request method.
#[derive(Debug)]
pub enum Method {
    Options,
    Get,
    Post,
    Put,
    Delete,
    Head,
    Trace,
    Connect,
    Patch,
    /// Any other method, by its name.
    Extension(String),
}

impl Clone for Method {
    fn clone(&self) -> (copy: Self)
        ensures
            copy == *self,
    {
        match self {
            Method::Options => Method::Options,
            Method::Get => Method::Get,
            Method::Post => Method::Post,
            Method::Put => Method::Put,
            Method::Delete => Method::Delete,
            Method::Head => Method::Head,
            Method::Trace => Method::Trace,
            Method::Connect => Method::Connect,
            Method::Patch => Method::Patch,
            Method::Extension(name) => Method::Extension(name.clone()),
        }
    }
}

/// The status code of a response: a number from 100 to 999.
#[derive(Clone, Copy, Debug, PartialEq, Eq, Structural)]
pub struct StatusCode {
    code: u16,
}

impl StatusCode {
    /// The number of this status code.
    pub closed spec fn code(self) -> int {
        self.code as int
    }

    /// The status code with the number `code`, where there is one.
    pub fn from_u16(code: u16) -> (status: Option<StatusCode>)
        ensures
            status.is_some() == (100 <= code < 1000),
            status matches Some(s) ==> s.code() == code,
    {
        if 100 <= code && code < 1000 {
            Some(StatusCode { code })
        } else {
            None
        }
    }

    pub fn as_u16(&self) -> (code: u16)
        ensures
            code == self.code(),
    {
        self.code
    }

    /// Whether this is one of the five status codes that ask for a redirection.
    pub open spec fn is_redirect(self) -> bool {
        self.code() == 301 || self.code() == 302 || self.code() == 303 || self.code() == 307
            || self.code() == 308
    }
}

impl Default for StatusCode {
    /// `200 OK`.
    fn default() -> (status: StatusCode)
        ensures
            status.code() == 200,
    {
        StatusCode { code: 200 }
    }
}

/// A request as the engine hands it out and as a policy may alter it.
#[derive(Debug)]
pub struct Request<B> {
    pub method: Method,
    /// The target, as text.
    pub uri: String,
    pub version: Version,
    pub headers: HeaderMap<HeaderValue>,
    pub body: B,
}

} // verus!
