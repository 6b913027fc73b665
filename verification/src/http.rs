//! Requests that the library asks its caller to send, and what came back.

use vstd::prelude::*;
use vstd::string::*;

verus! {

/// The request methods that the library tells apart.
#[derive(Clone, Copy, Debug, PartialEq, Eq, Structural)]
pub enum Method {
    Get,
    Post,
    Put,
    /// Any other method.
    Other,
}

/// One header of a request.
pub struct Header {
    pub name: String,
    pub value: String,
}

impl Header {
    /// A header with the given name and value.
    pub fn new(name: &str, value: String) -> (h: Header)
        ensures
            h.name@ == name@,
            h.value == value,
    {
        Header { name: String::from_str(name), value }
    }
}

/// A request for the caller to send.
pub struct HttpRequest {
    pub method: Method,
    pub url: String,
    pub headers: Vec<Header>,
    pub body: Option<String>,
}

/// What sending a request led to.
pub enum Fetched {
    /// No response arrived: the connection failed or timed out.
    Failed,
    /// A response arrived.
    Response { status: u16, body: String },
}

/// Whether a status code is in the 2xx range.
pub open spec fn is_success(status: u16) -> bool {
    200 <= status < 300
}

/// A header as a pair of character sequences.
pub open spec fn header_pair(h: Header) -> (Seq<char>, Seq<char>) {
    (h.name@, h.value@)
}

/// The headers of a request as pairs of character sequences.
pub open spec fn header_pairs(headers: Seq<Header>) -> Seq<(Seq<char>, Seq<char>)> {
    headers.map_values(|h: Header| header_pair(h))
}

/// A request as character sequences.
pub struct RequestText {
    pub method: Method,
    pub url: Seq<char>,
    pub headers: Seq<(Seq<char>, Seq<char>)>,
    pub body: Option<Seq<char>>,
}

impl View for HttpRequest {
    type V = RequestText;

    open spec fn view(&self) -> RequestText {
        RequestText {
            method: self.method,
            url: self.url@,
            headers: header_pairs(self.headers@),
            body: match self.body {
                Some(b) => Some(b@),
                None => None,
            },
        }
    }
}

/// Whether a status code is in the 2xx range.
pub fn status_is_success(status: u16) -> (r: bool)
    ensures
        r == is_success(status),
{
    200 <= status && status < 300
}

impl Fetched {
    /// Whether a response arrived and its status is in the 2xx range.
    pub open spec fn succeeded(&self) -> bool {
        match self {
            Fetched::Response { status, .. } => is_success(*status),
            Fetched::Failed => false,
        }
    }

    /// Whether a response arrived and its status is in the 2xx range.
    pub fn is_ok(&self) -> (r: bool)
        ensures
            r == self.succeeded(),
    {
        match self {
            Fetched::Response { status, .. } => status_is_success(*status),
            Fetched::Failed => false,
        }
    }
}

} // verus!
