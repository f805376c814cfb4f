//! Simple "before"/"after" middleware, and the blanket adaptation that makes
//! every such middleware a full stack element.
//!
//! A middleware owns a request transform and a response transform, both
//! pure. Wrapping it around an inner service yields a `MiddlewareService`,
//! itself a `Service`: a call transforms the request with `before`, hands it
//! to the inner stage, and decorates the eventual response with `after`
//! through the `RunAfterMiddleware` continuation. Errors of the inner stage
//! bypass `after` and propagate unchanged.

use std::sync::Arc;

use vstd::prelude::*;

use crate::asynch::{Async, AsyncComputation, Poll};
use crate::builder::{AppendMiddleware, PrependMiddleware};
use crate::service::Service;

verus! {

/// A single pipeline stage that does not need full "around" control: an
/// optional request transform (`before`) and an optional response transform
/// (`after`), each of which is the identity when not needed.
///
/// Its request and response types must equal those of the stack it wraps;
/// a mismatched middleware fails to compose at construction time.
pub trait Middleware: Sized {
    type Request: View;

    type Response: View;

    /// Model of the request transform.
    spec fn spec_before(&self, req: <Self::Request as View>::V) -> <Self::Request as View>::V;

    /// Model of the response transform.
    spec fn spec_after(&self, resp: <Self::Response as View>::V) -> <Self::Response as View>::V;

    /// Pure request transform, run before the inner stage is invoked.
    fn before(&self, req: Self::Request) -> (r: Self::Request)
        ensures
            r@ == self.spec_before(req@),
    ;

    /// Pure response transform, run once the inner computation resolves
    /// successfully; never run when it fails.
    fn after(&self, resp: Self::Response) -> (r: Self::Response)
        ensures
            r@ == self.spec_after(resp@),
    ;
}

/// Relies on `std::sync::Arc::clone`: the returned handle shares the very
/// value the argument points at.
#[verifier::external_body]
pub(crate) fn clone_arc<T>(a: &Arc<T>) -> (r: Arc<T>)
    ensures
        r == *a,
{
    Arc::clone(a)
}

/// One "before"/"after" middleware together with the rest of the stack it
/// wraps. The middleware sits behind a reference-counted handle because the
/// deferred continuation that applies `after` outlives the synchronous
/// `call` invocation; the configuration it holds is never mutated once the
/// stack is built.
pub struct MiddlewareService<T, U> {
    pub middleware: Arc<T>,
    pub service: U,
}

impl<T, U> MiddlewareService<T, U> {
    pub fn new(middleware: T, service: U) -> (r: Self)
        ensures
            r.middleware == middleware,
            r.service == service,
    {
        MiddlewareService { middleware: Arc::new(middleware), service }
    }
}

/// The continuation that applies a middleware's `after` hook once the inner
/// computation resolves. It is itself an asynchronous computation, so
/// continuations nest without boxing: an N-deep stack yields an N-deep
/// statically-typed continuation.
pub struct RunAfterMiddleware<T, U> {
    pub middleware: Arc<T>,
    pub future_response: U,
}

impl<T, U> RunAfterMiddleware<T, U> {
    pub fn new(middleware: Arc<T>, future_response: U) -> (r: Self)
        ensures
            r.middleware == middleware,
            r.future_response == future_response,
    {
        RunAfterMiddleware { middleware, future_response }
    }
}

impl<T, U> AsyncComputation for RunAfterMiddleware<T, U> where
    T: Middleware,
    U: AsyncComputation<Item = T::Response>,
{
    type Item = T::Response;

    type Error = U::Error;

    /// The owed outcome: the inner outcome with `after` applied on success,
    /// the inner error unchanged on failure.
    open spec fn outcome(&self) -> Option<
        Result<<T::Response as View>::V, <U::Error as View>::V>,
    > {
        match self.future_response.outcome() {
            Some(Ok(resp)) => Some(Ok(self.middleware.spec_after(resp))),
            Some(Err(e)) => Some(Err(e)),
            None => None,
        }
    }

    open spec fn may_stall(&self) -> bool {
        self.future_response.may_stall()
    }

    fn poll(&mut self) -> (r: Poll<T::Response, U::Error>) {
        match self.future_response.poll() {
            Ok(Async::Ready(response)) => Ok(Async::Ready(self.middleware.after(response))),
            err_or_not_ready => err_or_not_ready,
        }
    }
}

impl<T, U> Service for MiddlewareService<T, U> where
    T: Middleware,
    U: Service<Request = T::Request, Response = T::Response>,
{
    type Request = U::Request;

    type Response = U::Response;

    type Error = U::Error;

    type Future = RunAfterMiddleware<T, U::Future>;

    /// The composed model: `before` on the way in, the inner stage's own
    /// outcome, `after` on the way out of the success path only.
    open spec fn response_to(&self, req: <U::Request as View>::V) -> Result<
        <U::Response as View>::V,
        <U::Error as View>::V,
    > {
        match self.service.response_to(self.middleware.spec_before(req)) {
            Ok(resp) => Ok(self.middleware.spec_after(resp)),
            Err(e) => Err(e),
        }
    }

    open spec fn ready(&self) -> bool {
        self.service.ready()
    }

    open spec fn may_stall(&self) -> bool {
        self.service.may_stall()
    }

    fn call(&self, req: U::Request) -> (f: Self::Future) {
        RunAfterMiddleware::new(
            clone_arc(&self.middleware),
            self.service.call(self.middleware.before(req)),
        )
    }

    /// A middleware never independently gates readiness beyond what its
    /// inner stage reports.
    fn poll_ready(&self) -> (r: Async<()>) {
        self.service.poll_ready()
    }
}

/// Any simple middleware can wrap a stack whose request and response types
/// match its own: the blanket rule that keeps middleware authors away from
/// the continuation machinery.
impl<T, U> PrependMiddleware<U> for T where
    T: Middleware,
    U: Service<Request = T::Request, Response = T::Response>,
{
    type Middleware = MiddlewareService<T, U>;

    open spec fn prepended(self, other: U, r: MiddlewareService<T, U>) -> bool {
        r.middleware == self && r.service == other
    }

    fn prepend_to(self, other: U) -> (r: MiddlewareService<T, U>) {
        MiddlewareService::new(self, other)
    }
}

/// Appending to a composed stack wraps the whole stack with the new
/// middleware: the stack built so far stays together, and the newcomer
/// becomes the outermost layer.
impl<T, U, V> AppendMiddleware<V> for MiddlewareService<T, U> where
    V: PrependMiddleware<MiddlewareService<T, U>>,
{
    type Middleware = V::Middleware;

    open spec fn appended(self, next: V, r: V::Middleware) -> bool {
        next.prepended(self, r)
    }

    fn use_middleware(self, next: V) -> (r: V::Middleware) {
        next.prepend_to(self)
    }
}

} // verus!
