//! Placeholder request/response representations.
//!
//! The concrete shapes of a real request and response (headers, streaming
//! bodies) belong to the transport layer and are out of scope; the pipeline
//! only needs values it can transform and observe. A request carries a
//! method, a path and a body; a response carries a body.

use vstd::prelude::*;

verus! {

/// The view of a request: its method, path and body.
pub ghost struct HttpRequestView {
    pub method: Seq<char>,
    pub path: Seq<char>,
    pub body: Seq<u8>,
}

pub struct HttpRequest {
    pub method: &'static str,
    pub path: String,
    pub body: Vec<u8>,
}

impl View for HttpRequest {
    type V = HttpRequestView;

    open spec fn view(&self) -> HttpRequestView {
        HttpRequestView { method: self.method@, path: self.path@, body: self.body@ }
    }
}

impl HttpRequest {
    pub fn new(method: &'static str, path: String, body: Vec<u8>) -> (r: Self)
        ensures
            r@ == (HttpRequestView { method: method@, path: path@, body: body@ }),
    {
        HttpRequest { method, path, body }
    }

    pub fn method(&self) -> (r: &'static str)
        ensures
            r@ == self@.method,
    {
        self.method
    }

    pub fn path(&self) -> (r: &str)
        ensures
            r@ == self@.path,
    {
        self.path.as_str()
    }
}

/// A response is modelled by its body alone.
pub struct HttpResponse {
    pub body: Vec<u8>,
}

impl View for HttpResponse {
    type V = Seq<u8>;

    open spec fn view(&self) -> Seq<u8> {
        self.body@
    }
}

} // verus!
