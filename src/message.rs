use vstd::prelude::*;
use vstd::string::*;

verus! {

/// The request methods the dispatcher tells apart.
#[derive(Clone, Debug)]
pub enum Method {
    Get,
    Head,
    Options,
    Trace,
    Post,
    Put,
    Delete,
    Patch,
    Connect,
    /// Any other method, by its name.
    Other(String),
}

/// An inbound request, as far as the server reads it.
#[derive(Clone, Debug)]
pub struct Request {
    pub method: Method,
    /// The full request target, as echoed by TRACE.
    pub uri: String,
    /// The path part of the target; starts with `/`.
    pub path: String,
    /// The protocol version as text, such as `HTTP/1.1`.
    pub version: String,
    /// Header names and values in arrival order; `None` for a value that is
    /// not text.
    pub headers: Vec<(String, Option<String>)>,
}

/// A response under construction: status, the headers this server sets, body.
#[derive(Clone, Debug)]
pub struct Response {
    pub status: u16,
    pub server: Option<String>,
    pub allow_origin: Option<String>,
    pub cache_control: Option<String>,
    pub content_type: Option<String>,
    pub allow: Option<String>,
    pub body: Vec<u8>,
}

/// What a response holds, as mathematical values.
pub struct ResponseView {
    pub status: u16,
    pub server: Option<Seq<char>>,
    pub allow_origin: Option<Seq<char>>,
    pub cache_control: Option<Seq<char>>,
    pub content_type: Option<Seq<char>>,
    pub allow: Option<Seq<char>>,
    pub body: Seq<u8>,
}

pub open spec fn text_of(o: Option<String>) -> Option<Seq<char>> {
    match o {
        Some(s) => Some(s@),
        None => None,
    }
}

impl View for Response {
    type V = ResponseView;

    open spec fn view(&self) -> ResponseView {
        ResponseView {
            status: self.status,
            server: text_of(self.server),
            allow_origin: text_of(self.allow_origin),
            cache_control: text_of(self.cache_control),
            content_type: text_of(self.content_type),
            allow: text_of(self.allow),
            body: self.body@,
        }
    }
}

impl Response {
    /// An empty `200` response with no headers.
    pub fn new() -> (r: Response)
        ensures
            r@ == (ResponseView {
                status: 200,
                server: None,
                allow_origin: None,
                cache_control: None,
                content_type: None,
                allow: None,
                body: Seq::empty(),
            }),
    {
        Response {
            status: 200,
            server: None,
            allow_origin: None,
            cache_control: None,
            content_type: None,
            allow: None,
            body: Vec::new(),
        }
    }
}

/// Whether a status lies in the success range.
pub open spec fn is_success(status: u16) -> bool {
    200 <= status < 300
}

/// A method's name as it appears on the request line.
pub open spec fn method_text(m: Method) -> Seq<char> {
    match m {
        Method::Get => "GET"@,
        Method::Head => "HEAD"@,
        Method::Options => "OPTIONS"@,
        Method::Trace => "TRACE"@,
        Method::Post => "POST"@,
        Method::Put => "PUT"@,
        Method::Delete => "DELETE"@,
        Method::Patch => "PATCH"@,
        Method::Connect => "CONNECT"@,
        Method::Other(s) => s@,
    }
}

/// The name of a method.
pub fn method_name(m: &Method) -> (r: String)
    ensures
        r@ == method_text(*m),
{
    match m {
        Method::Get => String::from_str("GET"),
        Method::Head => String::from_str("HEAD"),
        Method::Options => String::from_str("OPTIONS"),
        Method::Trace => String::from_str("TRACE"),
        Method::Post => String::from_str("POST"),
        Method::Put => String::from_str("PUT"),
        Method::Delete => String::from_str("DELETE"),
        Method::Patch => String::from_str("PATCH"),
        Method::Connect => String::from_str("CONNECT"),
        Method::Other(s) => s.clone(),
    }
}

} // verus!

