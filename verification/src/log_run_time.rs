//! An example "around" middleware: it needs custom control over the
//! asynchronous computation, so it implements the `Service` contract
//! directly instead of relying on the before/after shortcut.
//!
//! `LogRunTime` measures how long a request takes to resolve. Time is
//! counted in scheduling steps of the computation, the only notion of
//! elapsed time this core has; a wall-clock source would belong to the
//! transport layer. The measurement stops only when the inner computation
//! resolves successfully — after every inner middleware's `after` hook has
//! already run — and becomes observable as a `LogRecord` on the future.

use std::sync::Arc;

use vstd::prelude::*;

use crate::asynch::{Async, AsyncComputation, Poll};
use crate::builder::{AppendMiddleware, PrependMiddleware};
use crate::http::HttpRequest;
use crate::middleware::clone_arc;
use crate::service::Service;

verus! {

/// A logger that discards everything; stands in for a real logging sink.
pub struct NullLogger;

/// The builder-facing wrapper: `use_middleware(LogRunTime(logger))` turns
/// the logger into a `LogRunTimeMiddleware` around the stack built so far.
pub struct LogRunTime<T>(pub T);

impl<T, U> PrependMiddleware<U> for LogRunTime<T> {
    type Middleware = LogRunTimeMiddleware<T, U>;

    open spec fn prepended(self, other: U, r: LogRunTimeMiddleware<T, U>) -> bool {
        r.logger == self.0 && r.wrapped_service == other
    }

    fn prepend_to(self, other: U) -> (r: LogRunTimeMiddleware<T, U>) {
        LogRunTimeMiddleware::new(Arc::new(self.0), other)
    }
}

/// The full "around" middleware: one logger handle and the rest of the
/// stack. The logger is shared with the in-flight futures the middleware
/// creates, so it sits behind a reference-counted handle.
pub struct LogRunTimeMiddleware<T, U> {
    pub logger: Arc<T>,
    pub wrapped_service: U,
}

impl<T, U> LogRunTimeMiddleware<T, U> {
    pub fn new(logger: Arc<T>, wrapped_service: U) -> (r: Self)
        ensures
            r.logger == logger,
            r.wrapped_service == wrapped_service,
    {
        LogRunTimeMiddleware { logger, wrapped_service }
    }
}

impl<T, U, V> AppendMiddleware<V> for LogRunTimeMiddleware<T, U> where
    V: PrependMiddleware<LogRunTimeMiddleware<T, U>>,
{
    type Middleware = V::Middleware;

    open spec fn appended(self, next: V, r: V::Middleware) -> bool {
        next.prepended(self, r)
    }

    fn use_middleware(self, next: V) -> (r: V::Middleware) {
        next.prepend_to(self)
    }
}

impl<T, U> Service for LogRunTimeMiddleware<T, U> where U: Service<Request = HttpRequest> {
    type Request = HttpRequest;

    type Response = U::Response;

    type Error = U::Error;

    type Future = LogRunTimeFuture<T, U::Future>;

    /// Logging decorates nothing: the response is the inner stage's own.
    open spec fn response_to(&self, req: <HttpRequest as View>::V) -> Result<
        <U::Response as View>::V,
        <U::Error as View>::V,
    > {
        self.wrapped_service.response_to(req)
    }

    open spec fn ready(&self) -> bool {
        self.wrapped_service.ready()
    }

    open spec fn may_stall(&self) -> bool {
        self.wrapped_service.may_stall()
    }

    fn call(&self, req: HttpRequest) -> (f: Self::Future)
        ensures
            f.steps == 0,
            f.record is None,
            f.method@ == req@.method,
            f.path@ == req@.path,
            f.logger == self.logger,
    {
        let method = req.method();
        let path = req.path().to_owned();
        let logger = clone_arc(&self.logger);
        let future_response = self.wrapped_service.call(req);
        LogRunTimeFuture {
            steps: 0,
            method,
            path,
            logger,
            future_response,
            record: None,
        }
    }

    fn poll_ready(&self) -> (r: Async<()>) {
        self.wrapped_service.poll_ready()
    }
}

/// What `LogRunTime` observed of one request: there is no way to pull
/// something off the request for use after the response is ready without
/// copying, so the method and path are copied out up front.
pub struct LogRecord {
    pub method: &'static str,
    pub path: String,
    pub elapsed_steps: u64,
}

/// The in-flight state of one logged request: the pending inner
/// computation, the copied request data, and the count of scheduling steps
/// spent so far. Once the inner computation resolves successfully the
/// record becomes available; a failed computation is never logged.
pub struct LogRunTimeFuture<T, U> {
    pub steps: u64,
    pub method: &'static str,
    pub path: String,
    pub logger: Arc<T>,
    pub future_response: U,
    pub record: Option<LogRecord>,
}

impl<T, U: AsyncComputation> AsyncComputation for LogRunTimeFuture<T, U> {
    type Item = U::Item;

    type Error = U::Error;

    open spec fn outcome(&self) -> Option<
        Result<<U::Item as View>::V, <U::Error as View>::V>,
    > {
        self.future_response.outcome()
    }

    open spec fn may_stall(&self) -> bool {
        self.future_response.may_stall()
    }

    fn poll(&mut self) -> (r: Poll<U::Item, U::Error>)
        ensures
            (r matches Ok(Async::Ready(_))) ==> (final(self).record matches Some(rec)
                && rec.method == old(self).method && rec.path@ == old(self).path@
                && rec.elapsed_steps == old(self).steps),
            !(r matches Ok(Async::Ready(_))) ==> final(self).record == old(self).record,
            (r matches Ok(Async::NotReady)) ==> final(self).steps == (if old(self).steps
                < u64::MAX {
                old(self).steps + 1
            } else {
                old(self).steps as int
            }),
    {
        match self.future_response.poll() {
            Ok(Async::Ready(response)) => {
                self.record = Some(
                    LogRecord {
                        method: self.method,
                        path: self.path.clone(),
                        elapsed_steps: self.steps,
                    },
                );
                Ok(Async::Ready(response))
            },
            Ok(Async::NotReady) => {
                if self.steps < u64::MAX {
                    self.steps = self.steps + 1;
                }
                Ok(Async::NotReady)
            },
            Err(e) => Err(e),
        }
    }
}

} // verus!
