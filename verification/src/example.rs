//! Example stages: a stand-in application, a configurable stub stage, a
//! response-transforming middleware, a tagging middleware, and the server
//! placeholder that owns the outermost stack.

use vstd::prelude::*;

use crate::asynch::{Async, Delayed, Finished};
use crate::builder::{AppendMiddleware, PrependMiddleware};
use crate::http::{HttpRequest, HttpRequestView, HttpResponse};
use crate::middleware::Middleware;
use crate::service::Service;

verus! {

/// A stand-in for the user's application, the terminal stage of every
/// stack: it answers every request at once by echoing the request body.
pub struct MyApp;

impl MyApp {
    pub fn new() -> (r: Self) {
        MyApp
    }
}

impl Service for MyApp {
    type Request = HttpRequest;

    type Response = HttpResponse;

    type Error = ();

    type Future = Finished<HttpResponse, ()>;

    open spec fn response_to(&self, req: HttpRequestView) -> Result<Seq<u8>, ()> {
        Ok(req.body)
    }

    open spec fn ready(&self) -> bool {
        true
    }

    open spec fn may_stall(&self) -> bool {
        false
    }

    fn call(&self, req: HttpRequest) -> (f: Finished<HttpResponse, ()>) {
        Finished::new(Ok(HttpResponse { body: req.body }))
    }

    fn poll_ready(&self) -> (r: Async<()>) {
        Async::Ready(())
    }
}

/// A bare application delegates appending to the middleware's own
/// `prepend_to`: the first-appended middleware wraps the application
/// directly and so sits innermost.
impl<T> AppendMiddleware<T> for MyApp where T: PrependMiddleware<MyApp> {
    type Middleware = T::Middleware;

    open spec fn appended(self, next: T, r: T::Middleware) -> bool {
        next.prepended(self, r)
    }

    fn use_middleware(self, next: T) -> (r: T::Middleware) {
        next.prepend_to(self)
    }
}

/// A configurable terminal stage for exercising the failure and
/// backpressure paths: it can report `NotReady`, delay its answer for a
/// number of scheduling steps, and fail with an error code instead of
/// producing its (empty-bodied) response.
pub struct StubApp {
    pub accepting: bool,
    pub delay: u64,
    pub failure: Option<u64>,
}

impl Service for StubApp {
    type Request = HttpRequest;

    type Response = HttpResponse;

    type Error = u64;

    type Future = Delayed<HttpResponse, u64>;

    open spec fn response_to(&self, req: HttpRequestView) -> Result<Seq<u8>, u64> {
        match self.failure {
            Some(code) => Err(code),
            None => Ok(Seq::empty()),
        }
    }

    open spec fn ready(&self) -> bool {
        self.accepting
    }

    open spec fn may_stall(&self) -> bool {
        self.delay > 0
    }

    fn call(&self, req: HttpRequest) -> (f: Delayed<HttpResponse, u64>) {
        let outcome: Result<HttpResponse, u64> = match self.failure {
            Some(code) => Err(code),
            None => Ok(HttpResponse { body: Vec::new() }),
        };
        Delayed::new(self.delay, outcome)
    }

    fn poll_ready(&self) -> (r: Async<()>) {
        if self.accepting {
            Async::Ready(())
        } else {
            Async::NotReady
        }
    }
}

impl<T> AppendMiddleware<T> for StubApp where T: PrependMiddleware<StubApp> {
    type Middleware = T::Middleware;

    open spec fn appended(self, next: T, r: T::Middleware) -> bool {
        next.prepended(self, r)
    }

    fn use_middleware(self, next: T) -> (r: T::Middleware) {
        next.prepend_to(self)
    }
}

/// An after-only middleware: it clears the response body, as an HTTP HEAD
/// handler would, and leaves requests untouched.
pub struct Head;

impl Middleware for Head {
    type Request = HttpRequest;

    type Response = HttpResponse;

    open spec fn spec_before(&self, req: HttpRequestView) -> HttpRequestView {
        req
    }

    open spec fn spec_after(&self, resp: Seq<u8>) -> Seq<u8> {
        Seq::empty()
    }

    fn before(&self, req: HttpRequest) -> (r: HttpRequest) {
        req
    }

    fn after(&self, resp: HttpResponse) -> (r: HttpResponse) {
        HttpResponse { body: Vec::new() }
    }
}

/// A middleware that overrides neither hook: both its transforms are the
/// identity, the default a before-only or after-only middleware would keep
/// for the hook it does not use.
pub struct PassThrough;

impl Middleware for PassThrough {
    type Request = HttpRequest;

    type Response = HttpResponse;

    open spec fn spec_before(&self, req: HttpRequestView) -> HttpRequestView {
        req
    }

    open spec fn spec_after(&self, resp: Seq<u8>) -> Seq<u8> {
        resp
    }

    fn before(&self, req: HttpRequest) -> (r: HttpRequest) {
        req
    }

    fn after(&self, resp: HttpResponse) -> (r: HttpResponse) {
        resp
    }
}

/// A middleware that appends its tag to the request body on the way in and
/// to the response body on the way out, making the wrap order of a stack
/// observable in the bytes themselves.
pub struct TagMiddleware {
    pub tag: u8,
}

impl Middleware for TagMiddleware {
    type Request = HttpRequest;

    type Response = HttpResponse;

    open spec fn spec_before(&self, req: HttpRequestView) -> HttpRequestView {
        HttpRequestView { method: req.method, path: req.path, body: req.body.push(self.tag) }
    }

    open spec fn spec_after(&self, resp: Seq<u8>) -> Seq<u8> {
        resp.push(self.tag)
    }

    fn before(&self, req: HttpRequest) -> (r: HttpRequest) {
        let mut out = req;
        out.body.push(self.tag);
        out
    }

    fn after(&self, resp: HttpResponse) -> (r: HttpResponse) {
        let mut out = resp;
        out.body.push(self.tag);
        out
    }
}

/// A placeholder for the transport that owns the outermost stack. Accepting
/// connections and driving computations to completion are out of scope; the
/// server only pins down what it expects of the stack it is handed.
pub struct Server;

impl Server {
    pub fn new() -> (r: Self) {
        Server
    }

    pub fn run<T: Service<Request = HttpRequest, Response = HttpResponse>>(self, _service: T) {
    }
}

} // verus!
