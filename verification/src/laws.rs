//! The ordering, identity, error-bypass and readiness guarantees of a
//! composed stack, stated and proved once and for all over the models of
//! the stages involved.
//!
//! A stack built as
//! `app.use_middleware(a).use_middleware(b).use_middleware(c)` satisfies,
//! step by step, `a.prepended(app, s1)`, `b.prepended(s1, s2)` and
//! `c.prepended(s2, stack)`: those are exactly the builder's
//! postconditions, so each law below takes them as its hypotheses and
//! speaks about the stages the user actually composed.

use vstd::prelude::*;

use crate::builder::PrependMiddleware;
use crate::middleware::{Middleware, MiddlewareService};
use crate::service::Service;

verus! {

/// Ordering law: for a stack built as
/// `app.use_middleware(a).use_middleware(b).use_middleware(c)`, the
/// `before` transforms apply in the order c, b, a — outermost first —
/// before the application's own outcome, and on success the `after`
/// transforms apply in the reverse order a, b, c; an application failure
/// passes through unchanged.
pub proof fn lemma_ordering_law<
    App: Service,
    A: Middleware<Request = App::Request, Response = App::Response>,
    B: Middleware<Request = App::Request, Response = App::Response>,
    C: Middleware<Request = App::Request, Response = App::Response>,
>(
    app: App,
    a: A,
    b: B,
    c: C,
    s1: MiddlewareService<A, App>,
    s2: MiddlewareService<B, MiddlewareService<A, App>>,
    stack: MiddlewareService<C, MiddlewareService<B, MiddlewareService<A, App>>>,
    req: <App::Request as View>::V,
)
    requires
        a.prepended(app, s1),
        b.prepended(s1, s2),
        c.prepended(s2, stack),
    ensures
        stack.response_to(req) == (match app.response_to(
            a.spec_before(b.spec_before(c.spec_before(req))),
        ) {
            Ok(resp) => Ok::<_, <App::Error as View>::V>(
                c.spec_after(b.spec_after(a.spec_after(resp))),
            ),
            Err(e) => Err(e),
        }),
{
}

/// Identity law: a middleware whose `before` and `after` are both the
/// identity leaves the wrapped stack's outcome and readiness unchanged for
/// every request.
pub proof fn lemma_identity_law<
    App: Service,
    M: Middleware<Request = App::Request, Response = App::Response>,
>(app: App, m: M, stack: MiddlewareService<M, App>, req: <App::Request as View>::V)
    requires
        m.prepended(app, stack),
        forall|r: <App::Request as View>::V| #[trigger] m.spec_before(r) == r,
        forall|r: <App::Response as View>::V| #[trigger] m.spec_after(r) == r,
    ensures
        stack.response_to(req) == app.response_to(req),
        stack.ready() == app.ready(),
{
}

/// Error bypass law: if the innermost stage fails, no enclosing
/// middleware's `after` transform takes part in the outcome; the original
/// error value is what the outermost caller observes.
pub proof fn lemma_error_bypass_law<
    App: Service,
    A: Middleware<Request = App::Request, Response = App::Response>,
    B: Middleware<Request = App::Request, Response = App::Response>,
    C: Middleware<Request = App::Request, Response = App::Response>,
>(
    app: App,
    a: A,
    b: B,
    c: C,
    s1: MiddlewareService<A, App>,
    s2: MiddlewareService<B, MiddlewareService<A, App>>,
    stack: MiddlewareService<C, MiddlewareService<B, MiddlewareService<A, App>>>,
    req: <App::Request as View>::V,
)
    requires
        a.prepended(app, s1),
        b.prepended(s1, s2),
        c.prepended(s2, stack),
    ensures
        (match app.response_to(a.spec_before(b.spec_before(c.spec_before(req)))) {
            Err(e) => stack.response_to(req) == Err::<<App::Response as View>::V, _>(e),
            Ok(_) => true,
        }),
{
}

/// Readiness forwarding: a middleware-wrapped stack reports exactly what
/// the innermost application reports, whatever the depth; shown here for
/// the three-deep stack, whose probe unfolds layer by layer to the
/// application's own.
pub proof fn lemma_readiness_forwarding<
    App: Service,
    A: Middleware<Request = App::Request, Response = App::Response>,
    B: Middleware<Request = App::Request, Response = App::Response>,
    C: Middleware<Request = App::Request, Response = App::Response>,
>(
    app: App,
    a: A,
    b: B,
    c: C,
    s1: MiddlewareService<A, App>,
    s2: MiddlewareService<B, MiddlewareService<A, App>>,
    stack: MiddlewareService<C, MiddlewareService<B, MiddlewareService<A, App>>>,
)
    requires
        a.prepended(app, s1),
        b.prepended(s1, s2),
        c.prepended(s2, stack),
    ensures
        stack.ready() == app.ready(),
{
}

} // verus!
