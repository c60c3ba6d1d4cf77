use vstd::prelude::*;

verus! {

/// What a request carries: its method, path, `Accept` and `Content-Type`
/// headers, and body.
pub struct RequestView {
    pub method: Seq<char>,
    pub path: Seq<char>,
    pub accepts: Seq<char>,
    pub content_type: Seq<char>,
    pub body: Seq<u8>,
}

/// What a response carries: its `Content-Type` header and body.
pub struct ResponseView {
    pub content_type: Seq<char>,
    pub body: Seq<u8>,
}

/// A request with its whole body in memory; consumed once, by draining its body.
#[derive(Debug)]
pub struct Request {
    method: String,
    path: String,
    accepts: String,
    content_type: String,
    body: Vec<u8>,
}

/// A response with its whole body in memory; consumed once, by draining its body.
#[derive(Debug)]
pub struct Response {
    content_type: String,
    body: Vec<u8>,
}

impl View for Request {
    type V = RequestView;

    closed spec fn view(&self) -> RequestView {
        RequestView {
            method: self.method@,
            path: self.path@,
            accepts: self.accepts@,
            content_type: self.content_type@,
            body: self.body@,
        }
    }
}

impl View for Response {
    type V = ResponseView;

    closed spec fn view(&self) -> ResponseView {
        ResponseView { content_type: self.content_type@, body: self.body@ }
    }
}

impl Request {
    /// Builds a request with a body.
    pub fn new_bytes(
        method: &str,
        path: &str,
        accepts: &str,
        content_type: &str,
        body: Vec<u8>,
    ) -> (r: Request)
        ensures
            r@ == (RequestView {
                method: method@,
                path: path@,
                accepts: accepts@,
                content_type: content_type@,
                body: body@,
            }),
    {
        Request {
            method: method.to_owned(),
            path: path.to_owned(),
            accepts: accepts.to_owned(),
            content_type: content_type.to_owned(),
            body,
        }
    }

    pub fn method(&self) -> (r: &str)
        ensures
            r@ == self@.method,
    {
        self.method.as_str()
    }

    pub fn path(&self) -> (r: &str)
        ensures
            r@ == self@.path,
    {
        self.path.as_str()
    }

    pub fn accepts(&self) -> (r: &str)
        ensures
            r@ == self@.accepts,
    {
        self.accepts.as_str()
    }

    pub fn content_type(&self) -> (r: &str)
        ensures
            r@ == self@.content_type,
    {
        self.content_type.as_str()
    }

    pub fn body(&self) -> (r: &Vec<u8>)
        ensures
            r@ == self@.body,
    {
        &self.body
    }

    /// Drains the request, handing out its whole body.
    pub fn into_bytes(self) -> (r: Vec<u8>)
        ensures
            r@ == self@.body,
    {
        self.body
    }
}

impl Response {
    /// Builds a response with a body.
    pub fn from_bytes(content_type: &str, body: Vec<u8>) -> (r: Response)
        ensures
            r@ == (ResponseView { content_type: content_type@, body: body@ }),
    {
        Response { content_type: content_type.to_owned(), body }
    }

    pub fn content_type(&self) -> (r: &str)
        ensures
            r@ == self@.content_type,
    {
        self.content_type.as_str()
    }

    pub fn body(&self) -> (r: &Vec<u8>)
        ensures
            r@ == self@.body,
    {
        &self.body
    }

    /// Drains the response, handing out its whole body.
    pub fn into_bytes(self) -> (r: Vec<u8>)
        ensures
            r@ == self@.body,
    {
        self.body
    }
}

} // verus!
