//! The capability every stack element satisfies: the base application as
//! well as every composed middleware stack.

use vstd::prelude::*;

use crate::asynch::{Async, AsyncComputation};

verus! {

/// A request/response stage: accepts ownership of a request and produces an
/// asynchronous response, with a non-blocking readiness probe.
///
/// The model of a stage is `response_to`, the outcome the returned
/// computation owes for a given request view, together with `ready`, the
/// meaning of the readiness probe. `call` must not be invoked while the
/// stage reports `NotReady`; that protocol is a precondition for callers,
/// not a condition tested at run time.
pub trait Service: Sized {
    type Request: View;

    type Response: View;

    type Error: View;

    type Future: AsyncComputation<Item = Self::Response, Error = Self::Error>;

    /// The outcome owed for a request with the given view.
    spec fn response_to(&self, req: <Self::Request as View>::V) -> Result<
        <Self::Response as View>::V,
        <Self::Error as View>::V,
    >;

    /// Whether the stage is ready to accept a call.
    spec fn ready(&self) -> bool;

    /// Whether a computation this stage hands out may report pending: a
    /// middleware stack stalls exactly when its innermost stage does.
    spec fn may_stall(&self) -> bool;

    /// Accept a request and hand back the computation that will deliver the
    /// response. Never blocks: all work is deferred into the computation.
    fn call(&self, req: Self::Request) -> (f: Self::Future)
        requires
            self.ready(),
        ensures
            f.outcome() == Some(self.response_to(req@)),
            f.may_stall() == self.may_stall(),
    ;

    /// Non-blocking backpressure probe.
    fn poll_ready(&self) -> (r: Async<()>)
        ensures
            r is Ready <==> self.ready(),
    ;
}

} // verus!
